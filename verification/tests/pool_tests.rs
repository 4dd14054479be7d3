use frame_core::def::BufferClass;
use frame_core::pool::Pool;

#[test]
fn fresh_buffer_has_requested_capacity() {
    let mut pool = Pool::new();
    let (lease, fresh) = pool.data_buffer(BufferClass::Line, 100);
    assert!(fresh);
    assert_eq!(lease.item().capacity, 100);
    assert_eq!(lease.item().class, BufferClass::Line);
}

#[test]
fn round_trip_capacity_never_shrinks() {
    let mut pool = Pool::new();
    let (lease, _) = pool.data_buffer(BufferClass::Line, 100);
    let cap_before_release = lease.item().capacity;
    pool.release_data_buffer(lease);
    let (again, fresh) = pool.data_buffer(BufferClass::Line, 10);
    assert!(!fresh);
    assert!(again.item().capacity >= cap_before_release);
    assert_eq!(again.item().capacity, 100);
}

#[test]
fn growing_requests_replace_with_strictly_larger() {
    let mut pool = Pool::new();
    let (b1, fresh1) = pool.data_buffer(BufferClass::Skydome, 16);
    assert!(fresh1);
    assert_eq!(b1.item().capacity, 16);
    pool.release_data_buffer(b1);
    let (b2, fresh2) = pool.data_buffer(BufferClass::Skydome, 64);
    assert!(fresh2);
    assert_eq!(b2.item().capacity, 64);
    pool.release_data_buffer(b2);
    let (b3, fresh3) = pool.data_buffer(BufferClass::Skydome, 256);
    assert!(fresh3);
    assert_eq!(b3.item().capacity, 256);
    // Only the final allocation of the three reaches the largest size.
    assert!(16 < 256 && 64 < 256);
}

#[test]
fn classes_do_not_share_idle_buffers() {
    let mut pool = Pool::new();
    let (line, _) = pool.data_buffer(BufferClass::Line, 32);
    pool.release_data_buffer(line);
    let (mask, fresh) = pool.data_buffer(BufferClass::WriteMask, 8);
    assert!(fresh);
    assert_eq!(mask.item().class, BufferClass::WriteMask);
    assert_eq!(pool.idle_buffer_count(), 1);
}

#[test]
fn fences_and_cmd_pools_are_reused() {
    let mut pool = Pool::new();
    let fence = pool.fence();
    let id = fence.item().id;
    pool.release_fence(fence);
    assert_eq!(pool.idle_fence_count(), 1);
    let fence_again = pool.fence();
    assert_eq!(fence_again.item().id, id);
    assert_eq!(pool.idle_fence_count(), 0);

    let cp = pool.cmd_pool(0);
    assert_eq!(cp.item().family, 0);
    pool.release_cmd_pool(cp);
    assert_eq!(pool.idle_cmd_pool_count(), 1);
}
