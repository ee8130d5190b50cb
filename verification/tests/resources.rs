//! Resource lifetime: staged uploads, balanced allocator books, and
//! double-free flagging.

use deferred_renderer::allocator::Allocator;
use deferred_renderer::allocator::UsageViolation;
use deferred_renderer::buffer::Buffer;
use deferred_renderer::buffer::VulkanResource;
use deferred_renderer::gpu_types::ASPECT_COLOR;
use deferred_renderer::gpu_types::BUFFER_USAGE_VERTEX_BUFFER;
use deferred_renderer::gpu_types::Extent3D;
use deferred_renderer::gpu_types::FORMAT_R8G8B8A8_UNORM;
use deferred_renderer::gpu_types::IMAGE_USAGE_COLOR_ATTACHMENT;
use deferred_renderer::gpu_types::ImageLayout;
use deferred_renderer::image::Image;
use deferred_renderer::image::ImageCreateInfo;
use deferred_renderer::mesh::Mesh;
use deferred_renderer::vertex::Vertex;

#[test]
fn staged_upload_round_trip() {
    let mut a = Allocator::new();
    let data: Vec<u8> = (0..=255u8).chain(0..=255u8).collect();
    let buf = Buffer::new(&mut a, &data, BUFFER_USAGE_VERTEX_BUFFER);
    assert_eq!(buf.contents, data);
    assert_eq!(buf.buffer_size, data.len() as u64);
    assert!(buf.alive);
}

#[test]
fn staged_upload_empty_data() {
    let mut a = Allocator::new();
    let buf = Buffer::new(&mut a, &[], BUFFER_USAGE_VERTEX_BUFFER);
    assert_eq!(buf.contents.len(), 0);
    assert_eq!(buf.buffer_size, 0);
}

#[test]
fn staged_upload_frees_staging() {
    let mut a = Allocator::new();
    let baseline = a.allocation_count();
    let _buf = Buffer::new(&mut a, &[1, 2, 3], BUFFER_USAGE_VERTEX_BUFFER);
    // The staging allocation is gone: exactly one allocation remains.
    assert_eq!(a.allocation_count(), baseline + 1);
}

#[test]
fn release_balances_books() {
    let mut a = Allocator::new();
    let baseline = a.allocation_count();
    let mut buf = Buffer::new(&mut a, &[7; 64], BUFFER_USAGE_VERTEX_BUFFER);
    assert_eq!(a.allocation_count(), baseline + 1);
    assert_eq!(buf.release(&mut a), Ok(()));
    assert_eq!(a.allocation_count(), baseline);
    assert!(!buf.alive);
}

#[test]
fn double_release_is_flagged() {
    let mut a = Allocator::new();
    let mut buf = Buffer::new(&mut a, &[7; 8], BUFFER_USAGE_VERTEX_BUFFER);
    assert_eq!(buf.release(&mut a), Ok(()));
    let baseline = a.allocation_count();
    assert_eq!(buf.release(&mut a), Err(UsageViolation::DoubleFree));
    assert_eq!(a.allocation_count(), baseline);
}

#[test]
fn allocator_free_unknown_handle_is_flagged() {
    let mut a = Allocator::new();
    let id = a.allocate();
    assert!(a.contains(id));
    assert_eq!(a.free(id), Ok(()));
    assert!(!a.contains(id));
    assert_eq!(a.free(id), Err(UsageViolation::DoubleFree));
    assert_eq!(a.free(12345), Err(UsageViolation::DoubleFree));
}

#[test]
fn image_starts_undefined_and_destroys_once() {
    let mut a = Allocator::new();
    let baseline = a.allocation_count();
    let info = ImageCreateInfo {
        extent: Extent3D { width: 16, height: 16, depth: 1 },
        format: FORMAT_R8G8B8A8_UNORM,
        usage: IMAGE_USAGE_COLOR_ATTACHMENT,
        aspect_mask: ASPECT_COLOR,
    };
    let mut img = Image::new(&mut a, &info);
    assert_eq!(img.layout, ImageLayout::Undefined);
    assert!(img.alive);
    assert_eq!(a.allocation_count(), baseline + 1);
    assert_eq!(img.destroy(&mut a), Ok(()));
    assert_eq!(a.allocation_count(), baseline);
    assert_eq!(img.destroy(&mut a), Err(UsageViolation::DoubleFree));
    assert_eq!(a.allocation_count(), baseline);
}

#[test]
fn mesh_serializes_and_releases_both_buffers() {
    let mut a = Allocator::new();
    let baseline = a.allocation_count();
    let vertices = vec![Vertex::new(0x3F800000, 0, 0x40000000)];
    let indices: Vec<u16> = vec![0x0102, 0x0304];
    let mut mesh = Mesh::new(&mut a, vertices, indices);
    assert_eq!(mesh.index_buffer.contents, vec![0x02, 0x01, 0x04, 0x03]);
    assert_eq!(
        mesh.vertex_buffer.contents,
        vec![0x00, 0x00, 0x80, 0x3F, 0x00, 0x00, 0x00, 0x00, 0x00, 0x00, 0x00, 0x40]
    );
    assert_eq!(a.allocation_count(), baseline + 2);
    assert_eq!(mesh.release(&mut a), Ok(()));
    assert_eq!(a.allocation_count(), baseline);
    assert_eq!(mesh.release(&mut a), Err(UsageViolation::DoubleFree));
}
