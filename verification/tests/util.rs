//! Tests of the byte helpers, the status-code helper, the shader store and
//! the handle type.

use rendering_plugin::bytes::bytes_eq;
use rendering_plugin::bytes::encode_matrix;
use rendering_plugin::bytes::encode_words;
use rendering_plugin::bytes::zero_bytes;
use rendering_plugin::render_api::encode_mesh_vertex;
use rendering_plugin::render_api::Handle;
use rendering_plugin::render_api::MeshVertexRecord;
use rendering_plugin::shaders::shader_blob;
use rendering_plugin::shaders::ShaderRole;
use rendering_plugin::win_util::check_hr;

#[test]
fn check_hr_accepts_non_negative_codes() {
    assert_eq!(check_hr(0), Ok(()));
    assert_eq!(check_hr(1), Ok(()));
    assert_eq!(check_hr(0x7fff_ffff), Ok(()));
}

#[test]
fn check_hr_reports_negative_codes() {
    assert_eq!(check_hr(-1), Err(-1));
    assert_eq!(check_hr(i32::MIN), Err(i32::MIN));
    let e = -2005270523i32; // a device-removed style failure code
    assert_eq!(check_hr(e), Err(e));
}

#[test]
fn zero_bytes_is_zero_filled() {
    let v = zero_bytes(10);
    assert_eq!(v.len(), 10);
    assert!(v.iter().all(|b| *b == 0));
    assert_eq!(zero_bytes(0).len(), 0);
}

#[test]
fn words_encode_little_endian() {
    let v = encode_words(&vec![0x0403_0201u32, 0x0807_0605u32]);
    assert_eq!(v, vec![1u8, 2, 3, 4, 5, 6, 7, 8]);
}

#[test]
fn matrix_encodes_to_its_64_byte_image() {
    let mut m = [0u32; 16];
    m[0] = 0x3f80_0000; // the bit pattern of 1.0f32
    m[15] = 0x0102_0304;
    let v = encode_matrix(&m);
    assert_eq!(v.len(), 64);
    assert_eq!(&v[0..4], &[0x00, 0x00, 0x80, 0x3f]);
    assert_eq!(&v[4..8], &[0, 0, 0, 0]);
    assert_eq!(&v[60..64], &[0x04, 0x03, 0x02, 0x01]);
}

#[test]
fn mesh_vertex_encodes_all_twelve_words() {
    let r = MeshVertexRecord {
        pos: [1, 2, 3],
        normal: [4, 5, 6],
        color: [7, 8, 9, 10],
        uv: [11, 12],
    };
    let v = encode_mesh_vertex(&r);
    assert_eq!(v.len(), 48);
    for (i, w) in [1u32, 2, 3, 4, 5, 6, 7, 8, 9, 10, 11, 12].iter().enumerate() {
        assert_eq!(&v[4 * i..4 * i + 4], &w.to_le_bytes());
    }
}

#[test]
fn bytes_eq_compares_contents() {
    assert!(bytes_eq(&vec![1, 2, 3], &vec![1, 2, 3]));
    assert!(!bytes_eq(&vec![1, 2, 3], &vec![1, 2, 4]));
    assert!(!bytes_eq(&vec![1, 2, 3], &vec![1, 2]));
    assert!(bytes_eq(&vec![], &vec![]));
}

#[test]
fn shader_store_holds_the_signed_container_blobs() {
    let vs = shader_blob(ShaderRole::Vertex);
    let ps = shader_blob(ShaderRole::Pixel);
    assert_eq!(vs.len(), 680);
    assert_eq!(ps.len(), 288);
    // the container magic "DXBC"
    assert_eq!(&vs[0..4], &[68, 88, 66, 67]);
    assert_eq!(&ps[0..4], &[68, 88, 66, 67]);
}

#[test]
fn null_handle_refers_to_nothing() {
    let h = Handle::null();
    assert!(h.is_null());
    assert_eq!(h.id, 0);
    let h2 = Handle { id: 3 };
    assert!(!h2.is_null());
}
