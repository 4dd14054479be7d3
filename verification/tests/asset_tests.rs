use frame_core::asset::{asset_kind, Asset, AssetKind, Bitmap, Content, Material, Model};

#[test]
fn bitmap_document_is_classified() {
    let doc = "[bitmap]\nsrc = \"sky.png\"\n";
    assert_eq!(asset_kind(doc), Some(AssetKind::Bitmap));
}

#[test]
fn material_document_is_classified() {
    let doc = "[material]\ncolor = \"c.png\"\nmetal_rough = \"m.png\"\nnormal = \"n.png\"\n";
    assert_eq!(asset_kind(doc), Some(AssetKind::Material));
}

#[test]
fn first_present_key_wins() {
    let doc = "[model]\nsrc = \"a.gltf\"\n\n[animation]\nsrc = \"a.anim\"\ntarget = \"b\"\n";
    // Animation stands before model in the fixed order, whatever the
    // document's own section order.
    assert_eq!(asset_kind(doc), Some(AssetKind::Animation));
}

#[test]
fn unknown_keys_classify_as_nothing() {
    assert_eq!(asset_kind("[window]\nwidth = 3\n"), None);
    assert_eq!(asset_kind(""), None);
}

#[test]
fn malformed_documents_classify_as_nothing() {
    assert_eq!(asset_kind("[bitmap\nsrc=\n"), None);
    assert_eq!(asset_kind("= = ="), None);
}

#[test]
fn into_bitmap_returns_payload_only_for_bitmaps() {
    let b = Bitmap { src: String::from("sky.png") };
    let asset = Asset::Bitmap(b.clone());
    assert_eq!(asset.into_bitmap(), Some(b));
    let other = Asset::Model(Model { src: String::from("a.gltf") });
    assert_eq!(other.into_bitmap(), None);
}

#[test]
fn into_content_returns_payload_only_for_content() {
    let c = Content { items: vec![String::from("a.toml")] };
    let asset = Asset::Content(c.clone());
    assert_eq!(asset.into_content(), Some(c));
    let other = Asset::Bitmap(Bitmap { src: String::from("x.png") });
    assert_eq!(other.into_content(), None);
}

#[test]
fn into_material_returns_payload_only_for_materials() {
    let m = Material {
        color: String::from("c.png"),
        metal_rough: String::from("m.png"),
        normal: String::from("n.png"),
    };
    let asset = Asset::Material(m.clone());
    assert_eq!(asset.into_material(), Some(m));
    let other = Asset::Bitmap(Bitmap { src: String::from("x.png") });
    assert_eq!(other.into_material(), None);
}

#[test]
fn into_model_returns_payload_only_for_models() {
    let m = Model { src: String::from("a.gltf") };
    let asset = Asset::Model(m.clone());
    assert_eq!(asset.into_model(), Some(m));
    let other = Asset::Bitmap(Bitmap { src: String::from("x.png") });
    assert_eq!(other.into_model(), None);
}
