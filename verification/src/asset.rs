//! Baked asset records and asset document classification.
//!
//! An asset file is a TOML document whose one top-level key names what the
//! document describes: an animation, a bitmap, a content bundle, a font
//! bitmap, a material, a model, or a scene.  The records here are the
//! in-memory forms the engine reads; parsing a document's payload is the
//! caller's concern, while classifying the document — which variant its
//! keys select, in the fixed first-present-wins order — is verified here,
//! on top of a thin trusted layer over the `toml` crate.

use vstd::prelude::*;

verus! {

/// A named animation to be applied to a model.
#[derive(Clone, Debug, PartialEq, Eq)]
pub struct Animation {
    /// Path of the animation source data.
    pub src: String,
    /// Name of the skeleton the animation drives.
    pub target: String,
}

/// A bitmap to be baked into a texture.
#[derive(Clone, Debug, PartialEq, Eq)]
pub struct Bitmap {
    /// Path of the image source data.
    pub src: String,
}

/// A content bundle: the asset files baked into one package.
#[derive(Clone, Debug, PartialEq, Eq)]
pub struct Content {
    /// Paths of the assets the bundle holds.
    pub items: Vec<String>,
}

/// A bitmapped font to be baked.
#[derive(Clone, Debug, PartialEq, Eq)]
pub struct FontBitmap {
    /// Path of the font source data.
    pub src: String,
}

/// A material: the three texture sources of physically-based shading.
#[derive(Clone, Debug, PartialEq, Eq)]
pub struct Material {
    /// Path of the albedo texture source.
    pub color: String,
    /// Path of the metalness/roughness texture source.
    pub metal_rough: String,
    /// Path of the normal map source.
    pub normal: String,
}

/// A model: mesh geometry to be baked.
#[derive(Clone, Debug, PartialEq, Eq)]
pub struct Model {
    /// Path of the mesh source data.
    pub src: String,
}

/// A scene: named references placed in a world.
#[derive(Clone, Debug, PartialEq, Eq)]
pub struct Scene {
    /// Paths of the assets the scene places.
    pub refs: Vec<String>,
}

/// One parsed asset document.
#[derive(Clone, Debug, PartialEq, Eq)]
pub enum Asset {
    /// An animation document.
    Animation(Animation),
    /// A bitmap document.
    Bitmap(Bitmap),
    /// A content bundle document.
    Content(Content),
    /// A font bitmap document.
    FontBitmap(FontBitmap),
    /// A material document.
    Material(Material),
    /// A model document.
    Model(Model),
    /// A scene document.
    Scene(Scene),
}

/// Which variant an asset document describes.
#[derive(Clone, Copy, Debug, PartialEq, Eq, Structural)]
pub enum AssetKind {
    /// An animation document.
    Animation,
    /// A bitmap document.
    Bitmap,
    /// A content bundle document.
    Content,
    /// A font bitmap document.
    FontBitmap,
    /// A material document.
    Material,
    /// A model document.
    Model,
    /// A scene document.
    Scene,
}

impl Asset {
    /// The bitmap payload, when this is a bitmap document.
    pub fn into_bitmap(self) -> (r: Option<Bitmap>)
        ensures
            r == (match self {
                Asset::Bitmap(bitmap) => Some(bitmap),
                _ => None::<Bitmap>,
            }),
    {
        match self {
            Self::Bitmap(bitmap) => Some(bitmap),
            _ => None,
        }
    }

    /// The content payload, when this is a content bundle document.
    pub fn into_content(self) -> (r: Option<Content>)
        ensures
            r == (match self {
                Asset::Content(content) => Some(content),
                _ => None::<Content>,
            }),
    {
        match self {
            Self::Content(content) => Some(content),
            _ => None,
        }
    }

    /// The material payload, when this is a material document.
    pub fn into_material(self) -> (r: Option<Material>)
        ensures
            r == (match self {
                Asset::Material(material) => Some(material),
                _ => None::<Material>,
            }),
    {
        match self {
            Self::Material(material) => Some(material),
            _ => None,
        }
    }

    /// The model payload, when this is a model document.
    pub fn into_model(self) -> (r: Option<Model>)
        ensures
            r == (match self {
                Asset::Model(model) => Some(model),
                _ => None::<Model>,
            }),
    {
        match self {
            Self::Model(model) => Some(model),
            _ => None,
        }
    }
}

#[verifier::external_type_specification]
#[verifier::external_body]
/// The `toml` crate's dynamic value, opaque to the proofs here.
pub struct ExTomlValue(toml::Value);

#[verifier::external_type_specification]
#[verifier::external_body]
#[verifier::reject_recursive_types(K)]
#[verifier::reject_recursive_types(V)]
/// The `toml` crate's key/value table, opaque but for its key set.
pub struct ExTomlMap<K, V>(toml::map::Map<K, V>);

/// Whether a string is a well-formed TOML document (one that parses to a
/// table).  Parsing is a function of the text alone.
pub uninterp spec fn toml_parses(s: Seq<char>) -> bool;

/// The top-level keys of a well-formed TOML document, as a function of the
/// text alone.
pub uninterp spec fn toml_doc_keys(s: Seq<char>) -> Set<Seq<char>>;

/// The keys a parsed TOML table holds.
pub uninterp spec fn toml_table_keys(t: toml::map::Map<String, toml::Value>) -> Set<Seq<char>>;

/// Relies on `toml::from_str::<toml::Table>`: it returns `Ok` exactly when
/// the text is a well-formed TOML document, and the table it returns holds
/// the document's top-level keys.
#[verifier::external_body]
fn parse_table(s: &str) -> (r: Option<toml::map::Map<String, toml::Value>>)
    ensures
        r is Some <==> toml_parses(s@),
        r matches Some(t) ==> toml_table_keys(t) == toml_doc_keys(s@),
{
    toml::from_str::<toml::Table>(s).ok()
}

/// Relies on `toml::map::Map::contains_key`: it answers whether the table
/// holds the key.
#[verifier::external_body]
fn table_contains(t: &toml::map::Map<String, toml::Value>, key: &str) -> (r: bool)
    ensures
        r == toml_table_keys(*t).contains(key@),
{
    t.contains_key(key)
}

/// The variant an asset document's key set selects, first present wins, in
/// the fixed order: animation, bitmap, content, font-bitmap, material,
/// model, scene.
pub open spec fn kind_for_keys(keys: Set<Seq<char>>) -> Option<AssetKind> {
    if keys.contains("animation"@) {
        Some(AssetKind::Animation)
    } else if keys.contains("bitmap"@) {
        Some(AssetKind::Bitmap)
    } else if keys.contains("content"@) {
        Some(AssetKind::Content)
    } else if keys.contains("font-bitmap"@) {
        Some(AssetKind::FontBitmap)
    } else if keys.contains("material"@) {
        Some(AssetKind::Material)
    } else if keys.contains("model"@) {
        Some(AssetKind::Model)
    } else if keys.contains("scene"@) {
        Some(AssetKind::Scene)
    } else {
        None
    }
}

/// What classifying an asset document returns: nothing for text that is
/// not well-formed TOML, else the variant its top-level keys select.
pub open spec fn spec_asset_kind(s: Seq<char>) -> Option<AssetKind> {
    if toml_parses(s) {
        kind_for_keys(toml_doc_keys(s))
    } else {
        None
    }
}

/// Classifies an asset document: parses the text as TOML and selects the
/// variant by its top-level keys, first present wins.  Returns `None` for
/// text that is not well-formed TOML, and for a document that names no
/// known asset kind.
pub fn asset_kind(s: &str) -> (r: Option<AssetKind>)
    ensures
        r == spec_asset_kind(s@),
{
    match parse_table(s) {
        None => None,
        Some(t) => {
            if table_contains(&t, "animation") {
                Some(AssetKind::Animation)
            } else if table_contains(&t, "bitmap") {
                Some(AssetKind::Bitmap)
            } else if table_contains(&t, "content") {
                Some(AssetKind::Content)
            } else if table_contains(&t, "font-bitmap") {
                Some(AssetKind::FontBitmap)
            } else if table_contains(&t, "material") {
                Some(AssetKind::Material)
            } else if table_contains(&t, "model") {
                Some(AssetKind::Model)
            } else if table_contains(&t, "scene") {
                Some(AssetKind::Scene)
            } else {
                None
            }
        },
    }
}

} // verus!
