//! The bit-exact wire forms: little-endian serialization and the two
//! push-constant layouts.

use deferred_renderer::byte_encoding::bytes_of_mat4;
use deferred_renderer::byte_encoding::bytes_of_u16s;
use deferred_renderer::byte_encoding::bytes_of_u32s;
use deferred_renderer::byte_encoding::bytes_of_vertices;
use deferred_renderer::matrix_bits::Mat4Bits;
use deferred_renderer::matrix_bits::Vec3Bits;
use deferred_renderer::push_constants_data::LightningPushConstantsData;
use deferred_renderer::push_constants_data::PushConstantsData;
use deferred_renderer::vertex::Vertex;

#[test]
fn u32_serialization_is_little_endian() {
    assert_eq!(bytes_of_u32s(&[0x01020304]), vec![0x04, 0x03, 0x02, 0x01]);
    assert_eq!(bytes_of_u32s(&[]), Vec::<u8>::new());
    assert_eq!(
        bytes_of_u32s(&[1, 0x80000000]),
        vec![1, 0, 0, 0, 0, 0, 0, 0x80]
    );
}

#[test]
fn u16_serialization_is_little_endian() {
    assert_eq!(bytes_of_u16s(&[0xBEEF, 1]), vec![0xEF, 0xBE, 1, 0]);
}

#[test]
fn vertex_serialization_packs_three_words() {
    let v = Vertex::new(1.0f32.to_bits(), 0, 2.5f32.to_bits());
    let bytes = bytes_of_vertices(&[v]);
    assert_eq!(bytes.len(), 12);
    assert_eq!(&bytes[0..4], &1.0f32.to_le_bytes());
    assert_eq!(&bytes[4..8], &[0, 0, 0, 0]);
    assert_eq!(&bytes[8..12], &2.5f32.to_le_bytes());
}

#[test]
fn matrix_serialization_is_column_major_words() {
    let mut words = [0u32; 16];
    for (i, w) in words.iter_mut().enumerate() {
        *w = i as u32;
    }
    let m = Mat4Bits::new(words);
    let bytes = bytes_of_mat4(&m);
    assert_eq!(bytes.len(), 64);
    for i in 0..16 {
        assert_eq!(&bytes[4 * i..4 * i + 4], &(i as u32).to_le_bytes());
    }
}

#[test]
fn geometry_push_constants_are_192_bytes() {
    let model = Mat4Bits::identity();
    let view = Mat4Bits::new([7; 16]);
    let projection = Mat4Bits::new([9; 16]);
    let pc = PushConstantsData::new(&model, &view, &projection);
    let bytes = pc.get();
    assert_eq!(bytes.len(), 192);
    // Model first: identity's first column starts with one.
    assert_eq!(&bytes[0..4], &1.0f32.to_bits().to_le_bytes());
    assert_eq!(&bytes[4..8], &[0, 0, 0, 0]);
    // View occupies the middle 64 bytes.
    assert_eq!(&bytes[64..68], &7u32.to_le_bytes());
    // Projection occupies the last 64 bytes.
    assert_eq!(&bytes[128..132], &9u32.to_le_bytes());
    assert_eq!(&bytes[188..192], &9u32.to_le_bytes());
}

#[test]
fn lighting_push_constants_are_76_bytes_no_padding() {
    let light_space = Mat4Bits::new([3; 16]);
    let view_direction = Vec3Bits::new(
        0.5f32.to_bits(),
        1.0f32.to_bits(),
        2.0f32.to_bits(),
    );
    let pc = LightningPushConstantsData::new(&light_space, &view_direction);
    let bytes = pc.get();
    assert_eq!(bytes.len(), 76);
    assert_eq!(&bytes[60..64], &3u32.to_le_bytes());
    // The view direction follows the matrix immediately.
    assert_eq!(&bytes[64..68], &0.5f32.to_le_bytes());
    assert_eq!(&bytes[68..72], &1.0f32.to_le_bytes());
    assert_eq!(&bytes[72..76], &2.0f32.to_le_bytes());
}

#[test]
fn identity_matrix_bits() {
    let m = Mat4Bits::identity();
    for c in 0..4 {
        for r in 0..4 {
            let expected = if c == r { 1.0f32.to_bits() } else { 0 };
            assert_eq!(m.words[c * 4 + r], expected);
        }
    }
}
