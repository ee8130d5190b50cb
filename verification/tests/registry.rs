//! The resource registry: first-write-wins deduplication and bulk
//! teardown.

use deferred_renderer::allocator::Allocator;
use deferred_renderer::buffer_manager::BufferManager;
use deferred_renderer::byte_encoding::bytes_of_u32s;
use deferred_renderer::gpu_types::BUFFER_USAGE_INDEX_BUFFER;
use deferred_renderer::gpu_types::BUFFER_USAGE_VERTEX_BUFFER;

#[test]
fn add_named_buffer_is_idempotent() {
    let mut a = Allocator::new();
    let mut m = BufferManager::new();
    let first = bytes_of_u32s(&[1, 2, 3]);
    let second = bytes_of_u32s(&[9]);
    m.add_buffer("x", &mut a, &first, BUFFER_USAGE_VERTEX_BUFFER);
    let count_after_first = a.allocation_count();
    m.add_buffer("x", &mut a, &second, BUFFER_USAGE_VERTEX_BUFFER);
    assert_eq!(m.buffer_count(), 1);
    assert_eq!(a.allocation_count(), count_after_first);
    assert_eq!(m.get_buffer("x").contents, first);
}

#[test]
fn first_write_wins_on_sphere_indices() {
    let mut a = Allocator::new();
    let mut m = BufferManager::new();
    let first = bytes_of_u32s(&[0, 1, 2, 2, 1, 3]);
    m.add_buffer("sphereIndices", &mut a, &first, BUFFER_USAGE_INDEX_BUFFER);
    let later = bytes_of_u32s(&[9, 9]);
    m.add_buffer("sphereIndices", &mut a, &later, BUFFER_USAGE_INDEX_BUFFER);
    assert_eq!(m.buffer_count(), 1);
    let buf = m.get_buffer("sphereIndices");
    // Still the first write's six 32-bit words.
    assert_eq!(buf.contents.len(), 24);
    assert_eq!(buf.contents, first);
}

#[test]
fn distinct_names_are_distinct_buffers() {
    let mut a = Allocator::new();
    let mut m = BufferManager::new();
    m.add_buffer("positions", &mut a, &[1, 2], BUFFER_USAGE_VERTEX_BUFFER);
    m.add_buffer("normals", &mut a, &[3, 4], BUFFER_USAGE_VERTEX_BUFFER);
    assert_eq!(m.buffer_count(), 2);
    assert!(m.contains_buffer("positions"));
    assert!(m.contains_buffer("normals"));
    assert!(!m.contains_buffer("tangents"));
    assert_eq!(m.get_buffer("positions").contents, vec![1, 2]);
    assert_eq!(m.get_buffer("normals").contents, vec![3, 4]);
}

#[test]
fn destroy_releases_every_buffer() {
    let mut a = Allocator::new();
    let baseline = a.allocation_count();
    let mut m = BufferManager::new();
    m.add_buffer("one", &mut a, &[1], BUFFER_USAGE_VERTEX_BUFFER);
    m.add_buffer("two", &mut a, &[2], BUFFER_USAGE_VERTEX_BUFFER);
    m.add_buffer("three", &mut a, &[3], BUFFER_USAGE_INDEX_BUFFER);
    assert_eq!(a.allocation_count(), baseline + 3);
    m.destroy(&mut a);
    assert_eq!(m.buffer_count(), 0);
    assert_eq!(a.allocation_count(), baseline);
}
