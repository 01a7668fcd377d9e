//! Tests of the Render Backend: the lifecycle state machine, the resource
//! pool creation pass, the draw path, and the begin/end update protocols.

use rendering_plugin::device::DeviceModel;
use rendering_plugin::pool::create_input_layout;
use rendering_plugin::pool::create_resources;
use rendering_plugin::pool::create_shader_object;
use rendering_plugin::pool::DepthCompare;
use rendering_plugin::pool::PoolError;
use rendering_plugin::render_api::DeviceEvent;
use rendering_plugin::render_api::Handle;
use rendering_plugin::render_api::HostContext;
use rendering_plugin::render_api::MeshVertexRecord;
use rendering_plugin::render_api::MyVertex;
use rendering_plugin::render_api_d3d11::RenderAPID3D11;
use rendering_plugin::shaders::shader_blob;
use rendering_plugin::shaders::ShaderRole;

/// A device at feature level `fl` with one texture of `tex_bytes` zeroed
/// bytes and one mappable buffer of `buf_bytes` zeroed bytes.
fn device_with_resources(fl: u32, tex_bytes: usize, buf_bytes: usize) -> (DeviceModel, Handle, Handle) {
    let mut dev = DeviceModel::new(fl);
    let th = dev.register_texture(vec![0u8; tex_bytes]);
    let bh = dev.register_buffer(vec![0u8; buf_bytes]);
    (dev, th, bh)
}

fn initialized_backend(fl: u32, tex_bytes: usize, buf_bytes: usize) -> (RenderAPID3D11, Handle, Handle) {
    let (dev, th, bh) = device_with_resources(fl, tex_bytes, buf_bytes);
    let mut api = RenderAPID3D11::new();
    api.process_device_event(DeviceEvent::Initialize, HostContext { device: Some(dev) });
    (api, th, bh)
}

fn is_ready(api: &RenderAPID3D11) -> bool {
    api.device.is_some() && api.pool.is_some()
}

#[test]
fn initialize_makes_ready_and_shutdown_unbinds() {
    let mut api = RenderAPID3D11::new();
    assert!(!is_ready(&api));

    let (dev, _, _) = device_with_resources(0xa000, 16, 16);
    api.process_device_event(DeviceEvent::Initialize, HostContext { device: Some(dev) });
    assert!(is_ready(&api));

    api.process_device_event(DeviceEvent::BeforeReset, HostContext { device: None });
    assert!(is_ready(&api));
    api.process_device_event(DeviceEvent::AfterReset, HostContext { device: None });
    assert!(is_ready(&api));

    api.process_device_event(DeviceEvent::Shutdown, HostContext { device: None });
    assert!(!is_ready(&api));
    assert!(api.device.is_none());
    assert!(api.pool.is_none());
}

#[test]
fn initialize_without_a_device_stays_unbound() {
    let mut api = RenderAPID3D11::new();
    api.process_device_event(DeviceEvent::Initialize, HostContext { device: None });
    assert!(!is_ready(&api));

    // a device-less Initialize after a successful one also unbinds
    let (dev, _, _) = device_with_resources(0xa000, 16, 16);
    api.process_device_event(DeviceEvent::Initialize, HostContext { device: Some(dev) });
    assert!(is_ready(&api));
    api.process_device_event(DeviceEvent::Initialize, HostContext { device: None });
    assert!(!is_ready(&api));
}

#[test]
fn initialize_with_invalid_bytecode_stays_unbound() {
    let mut api = RenderAPID3D11::with_shaders(vec![0u8; 8], shader_blob(ShaderRole::Pixel));
    let (dev, _, _) = device_with_resources(0xa000, 16, 16);
    api.process_device_event(DeviceEvent::Initialize, HostContext { device: Some(dev) });
    assert!(!is_ready(&api));
    assert!(api.pool.is_none());
}

#[test]
fn creation_pass_builds_the_fixed_pool() {
    let vs = shader_blob(ShaderRole::Vertex);
    let ps = shader_blob(ShaderRole::Pixel);
    let pool = create_resources(&vs, &ps, true).unwrap();
    assert_eq!(pool.vertex_buffer.len(), 1024);
    assert!(pool.vertex_buffer.iter().all(|b| *b == 0));
    assert_eq!(pool.constant_buffer.len(), 64);
    assert_eq!(pool.vertex_shader.code, vs);
    assert_eq!(pool.pixel_shader.code, ps);
    assert_eq!(pool.input_layout.elements.len(), 2);
    assert_eq!(pool.input_layout.elements[0].byte_offset, 0);
    assert_eq!(pool.input_layout.elements[1].byte_offset, 12);
    assert!(pool.rasterizer_state.solid_fill);
    assert!(!pool.rasterizer_state.culling_enabled);
    assert!(!pool.blend_state.blend_enabled);
    assert_eq!(pool.blend_state.write_mask, 0xf);
    assert!(pool.depth_state.depth_enabled);
    assert!(!pool.depth_state.depth_write_enabled);
    assert_eq!(pool.depth_state.compare, DepthCompare::GreaterEqual);

    let standard = create_resources(&vs, &ps, false).unwrap();
    assert_eq!(standard.depth_state.compare, DepthCompare::LessEqual);
}

#[test]
fn creation_pass_fails_fast_on_bad_bytecode() {
    let vs = shader_blob(ShaderRole::Vertex);
    let bad = vec![1u8, 2, 3, 4, 5];
    assert!(matches!(create_resources(&bad, &vs, false), Err(PoolError::ShaderCreation)));
    assert!(matches!(create_resources(&vs, &bad, false), Err(PoolError::ShaderCreation)));
    assert!(matches!(create_shader_object(&bad), Err(PoolError::ShaderCreation)));
    assert!(matches!(create_input_layout(&bad), Err(PoolError::InputLayoutCreation)));
    assert!(matches!(create_shader_object(&vec![68u8, 88]), Err(PoolError::ShaderCreation)));
}

#[test]
fn reverse_z_follows_the_capability_level() {
    let mut api = RenderAPID3D11::new();
    assert!(!api.get_uses_reverse_z());

    let (dev, _, _) = device_with_resources(0x9300, 16, 16);
    api.process_device_event(DeviceEvent::Initialize, HostContext { device: Some(dev) });
    assert!(!api.get_uses_reverse_z());

    let (dev, _, _) = device_with_resources(0xa000, 16, 16);
    api.process_device_event(DeviceEvent::Initialize, HostContext { device: Some(dev) });
    assert!(api.get_uses_reverse_z());
    // deterministic between calls absent a re-initialization
    assert!(api.get_uses_reverse_z());
    assert!(api.get_uses_reverse_z());
}

#[test]
fn draw_uploads_matrix_and_vertices_and_binds_pinned_state() {
    let (mut api, _, _) = initialized_backend(0xa000, 16, 16);
    let mut m = [0u32; 16];
    m[0] = 0x3f80_0000;
    m[5] = 0x3f80_0000;
    let verts = vec![
        MyVertex { x_bits: 0xbf00_0000, y_bits: 0xbe80_0000, z_bits: 0, color: 0xFFff0000 },
        MyVertex { x_bits: 0x3f00_0000, y_bits: 0xbe80_0000, z_bits: 0, color: 0xFF00ff00 },
        MyVertex { x_bits: 0, y_bits: 0x3f00_0000, z_bits: 0, color: 0xFF0000ff },
    ];
    api.draw_simple_triangles(&m, 1, &verts);

    let pool = api.pool.as_ref().unwrap();
    let mut expected_cb = Vec::new();
    for w in m.iter() {
        expected_cb.extend_from_slice(&w.to_le_bytes());
    }
    assert_eq!(pool.constant_buffer, expected_cb);

    let mut expected_vb = Vec::new();
    for v in verts.iter() {
        expected_vb.extend_from_slice(&v.x_bits.to_le_bytes());
        expected_vb.extend_from_slice(&v.y_bits.to_le_bytes());
        expected_vb.extend_from_slice(&v.z_bits.to_le_bytes());
        expected_vb.extend_from_slice(&v.color.to_le_bytes());
    }
    assert_eq!(&pool.vertex_buffer[0..48], expected_vb.as_slice());
    assert!(pool.vertex_buffer[48..].iter().all(|b| *b == 0));

    let sub = api.last_draw.unwrap();
    assert_eq!(sub.triangle_count, 1);
    assert!(sub.fill_solid);
    assert!(!sub.culling_enabled);
    assert!(!sub.blend_enabled);
    assert_eq!(sub.write_mask, 0xf);
    assert_eq!(sub.depth_compare, DepthCompare::GreaterEqual);
}

#[test]
fn oversized_draw_batches_are_skipped() {
    let (mut api, _, _) = initialized_backend(0xa000, 16, 16);
    let verts = vec![MyVertex { x_bits: 1, y_bits: 2, z_bits: 3, color: 4 }; 66];
    api.draw_simple_triangles(&[5u32; 16], 22, &verts); // 22 * 48 bytes would overrun
    assert!(api.last_draw.is_none());
    assert!(api.pool.as_ref().unwrap().constant_buffer.iter().all(|b| *b == 0));
    api.draw_simple_triangles(&[5u32; 16], -1, &verts);
    assert!(api.last_draw.is_none());
    api.draw_simple_triangles(&[5u32; 16], 2, &vec![]); // too few vertices
    assert!(api.last_draw.is_none());
}

#[test]
fn operations_while_unbound_change_nothing() {
    let mut api = RenderAPID3D11::new();
    let h = Handle { id: 1 };

    api.draw_simple_triangles(&[0u32; 16], 1, &vec![
        MyVertex { x_bits: 0, y_bits: 0, z_bits: 0, color: 0 };
        3
    ]);
    assert!(api.last_draw.is_none());

    assert!(api.begin_modify_texture(h, 4, 4).is_none());
    assert!(api.begin_modify_vertex_buffer(h).is_none());

    api.update_texture(h, 4, 4, &vec![7u8; 64]);
    api.update_vertex_buffer(h, &vec![]);
    assert!(api.device.is_none());
    assert!(api.pool.is_none());
    assert!(api.last_draw.is_none());
    assert!(!api.get_uses_reverse_z());
}

#[test]
fn begin_modify_texture_sizes_the_staging_region() {
    let (api, th, _) = initialized_backend(0xa000, 64, 16);
    let buffer = api.begin_modify_texture(th, 4, 4).unwrap();
    assert_eq!(buffer.row_pitch(), 16);
    assert_eq!(buffer.data.len(), 64);
    assert!(buffer.data.iter().all(|b| *b == 0));

    assert!(api.begin_modify_texture(th, -1, 4).is_none());
    assert!(api.begin_modify_texture(th, 4, -1).is_none());
}

#[test]
fn texture_update_round_trips_the_staging_bytes() {
    let (mut api, th, _) = initialized_backend(0xa000, 64, 16);
    let mut buffer = api.begin_modify_texture(th, 4, 4).unwrap();
    for i in 0..64 {
        buffer.data[i] = (i as u8).wrapping_mul(3).wrapping_add(1);
    }
    let written = buffer.data.clone();
    api.end_modify_texture(th, 4, 4, buffer);

    let dev = api.device.as_ref().unwrap();
    let texels = dev.texture_contents(th).unwrap();
    assert_eq!(*texels, written);
}

#[test]
fn ending_a_texture_update_on_a_stale_handle_is_benign() {
    let (mut api, th, _) = initialized_backend(0xa000, 64, 16);
    let buffer = api.begin_modify_texture(th, 4, 4).unwrap();
    let stale = Handle { id: 99 };
    api.end_modify_texture(stale, 4, 4, buffer);
    let dev = api.device.as_ref().unwrap();
    assert!(dev.texture_contents(stale).is_none());
    assert!(dev.texture_contents(th).unwrap().iter().all(|b| *b == 0));
}

#[test]
fn vertex_buffer_update_preserves_a_written_pattern() {
    // a 4-vertex, 32-byte-stride buffer: 128 bytes in all
    let (mut api, _, bh) = initialized_backend(0xa000, 16, 128);
    let mut buffer = api.begin_modify_vertex_buffer(bh).unwrap();
    assert_eq!(buffer.size(), 128);
    assert!(buffer.data.iter().all(|b| *b == 0));
    for i in 0..128 {
        buffer.data[i] = (i as u8) ^ 0x5a;
    }
    let written = buffer.data.clone();
    api.end_modify_vertex_buffer(bh, buffer);

    let dev = api.device.as_ref().unwrap();
    assert_eq!(*dev.buffer_contents(bh).unwrap(), written);
}

#[test]
fn second_initialize_replaces_the_pool_outright() {
    let (mut api, _, _) = initialized_backend(0x9300, 16, 16);
    assert!(!api.get_uses_reverse_z());
    // leave a mark in the pool's buffers
    api.draw_simple_triangles(&[9u32; 16], 0, &vec![]);
    assert!(api.last_draw.is_some());
    assert_ne!(api.pool.as_ref().unwrap().constant_buffer[0], 0);

    let (dev2, _, _) = device_with_resources(0xa000, 16, 16);
    api.process_device_event(DeviceEvent::Initialize, HostContext { device: Some(dev2) });
    assert!(is_ready(&api));
    // one pool, freshly created: zeroed buffers, the new depth convention
    let pool = api.pool.as_ref().unwrap();
    assert!(pool.constant_buffer.iter().all(|b| *b == 0));
    assert!(pool.vertex_buffer.iter().all(|b| *b == 0));
    assert_eq!(pool.depth_state.compare, DepthCompare::GreaterEqual);
    assert!(api.get_uses_reverse_z());
}

#[test]
fn strided_vertex_update_writes_each_record_window() {
    // two 48-byte records in a 96-byte buffer: stride 48
    let (mut api, _, bh) = initialized_backend(0xa000, 16, 96);
    let records = vec![
        MeshVertexRecord { pos: [1, 2, 3], normal: [4, 5, 6], color: [0, 0, 0, 0], uv: [7, 8] },
        MeshVertexRecord { pos: [9, 10, 11], normal: [12, 13, 14], color: [0, 0, 0, 0], uv: [15, 16] },
    ];
    api.update_vertex_buffer(bh, &records);

    let dev = api.device.as_ref().unwrap();
    let bytes = dev.buffer_contents(bh).unwrap();
    let mut expected = Vec::new();
    for r in records.iter() {
        for w in r.pos.iter().chain(r.normal.iter()).chain(r.color.iter()).chain(r.uv.iter()) {
            expected.extend_from_slice(&w.to_le_bytes());
        }
    }
    assert_eq!(*bytes, expected);
}

#[test]
fn a_vertex_update_with_no_records_uploads_the_discarded_view() {
    let (mut api, _, bh) = initialized_backend(0xa000, 16, 64);
    // leave a mark first
    let mut buffer = api.begin_modify_vertex_buffer(bh).unwrap();
    for i in 0..64 {
        buffer.data[i] = 0xcc;
    }
    api.end_modify_vertex_buffer(bh, buffer);
    assert!(api.device.as_ref().unwrap().buffer_contents(bh).unwrap().iter().all(|b| *b == 0xcc));

    api.update_vertex_buffer(bh, &Vec::new());
    assert!(api.device.as_ref().unwrap().buffer_contents(bh).unwrap().iter().all(|b| *b == 0));
}

#[test]
fn a_texture_update_with_mismatched_pixels_uploads_zeros() {
    let (mut api, th, _) = initialized_backend(0xa000, 64, 16);
    // first land a non-zero image
    api.update_texture(th, 4, 4, &vec![9u8; 64]);
    assert!(api.device.as_ref().unwrap().texture_contents(th).unwrap().iter().all(|b| *b == 9));
    // then hand pixels that do not match the staging extent
    api.update_texture(th, 4, 4, &vec![7u8; 63]);
    assert!(api.device.as_ref().unwrap().texture_contents(th).unwrap().iter().all(|b| *b == 0));
}

#[test]
fn vertex_update_with_too_small_a_stride_uploads_the_discarded_view() {
    // four records would need 192 bytes; a 128-byte buffer implies stride 32
    let (mut api, _, bh) = initialized_backend(0xa000, 16, 128);
    let records = vec![
        MeshVertexRecord { pos: [1, 1, 1], normal: [1, 1, 1], color: [1, 1, 1, 1], uv: [1, 1] };
        4
    ];
    api.update_vertex_buffer(bh, &records);
    let dev = api.device.as_ref().unwrap();
    assert!(dev.buffer_contents(bh).unwrap().iter().all(|b| *b == 0));
}
