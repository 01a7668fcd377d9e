//! Tests of the dispatch shell: lifecycle routing, the per-frame call order,
//! and the mesh-source capture, including the hosting application's
//! per-frame texture pattern driven through the shell's texture path.

use rendering_plugin::device::DeviceModel;
use rendering_plugin::dispatch::capture_mesh_source;
use rendering_plugin::dispatch::Dispatcher;
use rendering_plugin::dispatch::FrameState;
use rendering_plugin::render_api::DeviceEvent;
use rendering_plugin::render_api::GfxApi;
use rendering_plugin::render_api::Handle;
use rendering_plugin::render_api::HostContext;
use rendering_plugin::render_api::MyVertex;
use rendering_plugin::render_api::RenderAPI;

fn ready_dispatcher(fl: u32, tex_bytes: usize, buf_bytes: usize) -> (Dispatcher, Handle, Handle) {
    let mut dev = DeviceModel::new(fl);
    let th = dev.register_texture(vec![0u8; tex_bytes]);
    let bh = dev.register_buffer(vec![0u8; buf_bytes]);
    let mut shell = Dispatcher::new();
    shell.on_graphics_device_event(
        DeviceEvent::Initialize,
        GfxApi::Direct3D11,
        HostContext { device: Some(dev) },
    );
    (shell, th, bh)
}

fn backend(shell: &Dispatcher) -> &rendering_plugin::render_api_d3d11::RenderAPID3D11 {
    match shell.api.as_ref().unwrap() {
        RenderAPI::Direct3D11(b) => b,
    }
}

/// The sine-wave texel pattern the hosting application computes per frame,
/// at time `t`, for a `w` by `h` four-channel texture.
fn sine_pattern(w: i32, h: i32, t: f32) -> Vec<u8> {
    let t = t * 4.0;
    let mut pixels = Vec::with_capacity((w * h * 4) as usize);
    for y in 0..h {
        for x in 0..w {
            let vv: i32 = ((127.0 + (127.0 * ((x as f32) / 7.0 + t).sin()))
                + (127.0 + (127.0 * ((y as f32) / 5.0 - t).sin()))
                + (127.0 + (127.0 * (((x + y) as f32) / 6.0 - t).sin()))
                + (127.0 + (127.0 * (((x * x + y * y) as f32).sqrt() / 4.0 - t).sin())))
                as i32
                / 4;
            for _ in 0..4 {
                pixels.push(vv as u8);
            }
        }
    }
    pixels
}

#[test]
fn lifecycle_routes_through_the_shell() {
    let (mut shell, _, _) = ready_dispatcher(0xa000, 16, 16);
    assert_eq!(shell.device_type, GfxApi::Direct3D11);
    let b = backend(&shell);
    assert!(b.device.is_some() && b.pool.is_some());

    shell.on_graphics_device_event(DeviceEvent::Shutdown, GfxApi::Direct3D11, HostContext {
        device: None,
    });
    assert!(shell.api.is_none());
    assert_eq!(shell.device_type, GfxApi::Null);
}

#[test]
fn unrealized_api_kinds_get_no_backend() {
    let mut shell = Dispatcher::new();
    shell.on_graphics_device_event(DeviceEvent::Initialize, GfxApi::Vulkan, HostContext {
        device: Some(DeviceModel::new(0)),
    });
    assert!(shell.api.is_none());
    assert_eq!(shell.device_type, GfxApi::Vulkan);

    shell.on_graphics_device_event(DeviceEvent::Initialize, GfxApi::Null, HostContext {
        device: None,
    });
    assert!(shell.api.is_none());
}

#[test]
fn test_modify_texture_pixels() {
    let (w, h) = (256i32, 256i32);
    let (mut shell, th, bh) = ready_dispatcher(0xa000, (w * h * 4) as usize, 128);
    let pixels = sine_pattern(w, h, 1.25);
    let frame = FrameState {
        world_matrix: [0u32; 16],
        triangle_count: 0,
        vertices: Vec::new(),
        texture: th,
        texture_width: w,
        texture_height: h,
        texture_pixels: pixels.clone(),
        vertex_buffer: bh,
        mesh_vertices: Vec::new(),
    };
    shell.render_frame(&frame);
    let b = backend(&shell);
    let texels = b.device.as_ref().unwrap().texture_contents(th).unwrap();
    assert_eq!(*texels, pixels);
}

#[test]
fn a_frame_runs_draw_then_texture_then_vertex_update() {
    let (mut shell, th, bh) = ready_dispatcher(0xa000, 64, 96);
    let records = capture_mesh_source(
        &vec![1, 2, 3, 9, 10, 11],
        &vec![4, 5, 6, 12, 13, 14],
        &vec![7, 8, 15, 16],
        2,
    )
    .unwrap();
    let frame = FrameState {
        world_matrix: [0x3f80_0000u32; 16],
        triangle_count: 1,
        vertices: vec![
            MyVertex { x_bits: 11, y_bits: 12, z_bits: 13, color: 14 },
            MyVertex { x_bits: 21, y_bits: 22, z_bits: 23, color: 24 },
            MyVertex { x_bits: 31, y_bits: 32, z_bits: 33, color: 34 },
        ],
        texture: th,
        texture_width: 4,
        texture_height: 4,
        texture_pixels: (0u8..64).collect(),
        vertex_buffer: bh,
        mesh_vertices: records,
    };
    shell.render_frame(&frame);

    let b = backend(&shell);
    // the draw uploaded the matrix and the batch
    let pool = b.pool.as_ref().unwrap();
    assert_eq!(&pool.constant_buffer[0..4], &[0x00, 0x00, 0x80, 0x3f]);
    assert_eq!(&pool.vertex_buffer[0..4], &11u32.to_le_bytes());
    assert_eq!(b.last_draw.unwrap().triangle_count, 1);
    // the texture update landed
    let dev = b.device.as_ref().unwrap();
    let texels = dev.texture_contents(th).unwrap();
    assert_eq!(*texels, (0u8..64).collect::<Vec<u8>>());
    // the vertex update wrote both records at stride 48
    let bytes = dev.buffer_contents(bh).unwrap();
    assert_eq!(&bytes[0..4], &1u32.to_le_bytes());
    assert_eq!(&bytes[48..52], &9u32.to_le_bytes());
}

#[test]
fn a_frame_without_a_backend_does_nothing() {
    let mut shell = Dispatcher::new();
    let frame = FrameState {
        world_matrix: [0u32; 16],
        triangle_count: 1,
        vertices: Vec::new(),
        texture: Handle { id: 1 },
        texture_width: 4,
        texture_height: 4,
        texture_pixels: vec![0u8; 64],
        vertex_buffer: Handle { id: 1 },
        mesh_vertices: Vec::new(),
    };
    shell.render_frame(&frame);
    assert!(shell.api.is_none());
    assert_eq!(shell.device_type, GfxApi::Null);
}

#[test]
fn a_null_texture_handle_skips_the_texture_update() {
    let (mut shell, th, bh) = ready_dispatcher(0xa000, 64, 16);
    let frame = FrameState {
        world_matrix: [0u32; 16],
        triangle_count: 0,
        vertices: Vec::new(),
        texture: Handle::null(),
        texture_width: 4,
        texture_height: 4,
        texture_pixels: vec![9u8; 64],
        vertex_buffer: bh,
        mesh_vertices: Vec::new(),
    };
    shell.render_frame(&frame);
    let b = backend(&shell);
    let dev = b.device.as_ref().unwrap();
    assert!(dev.texture_contents(th).unwrap().iter().all(|v| *v == 0));
}

#[test]
fn mesh_capture_interleaves_the_parallel_arrays() {
    let positions = vec![1u32, 2, 3, 10, 20, 30];
    let normals = vec![4u32, 5, 6, 40, 50, 60];
    let uvs = vec![7u32, 8, 70, 80];
    let records = capture_mesh_source(&positions, &normals, &uvs, 2).unwrap();
    assert_eq!(records.len(), 2);
    assert_eq!(records[0].pos, [1, 2, 3]);
    assert_eq!(records[0].normal, [4, 5, 6]);
    assert_eq!(records[0].color, [0, 0, 0, 0]);
    assert_eq!(records[0].uv, [7, 8]);
    assert_eq!(records[1].pos, [10, 20, 30]);
    assert_eq!(records[1].uv, [70, 80]);
}

#[test]
fn mesh_capture_rejects_short_arrays() {
    let positions = vec![1u32, 2, 3];
    let normals = vec![4u32, 5, 6];
    let uvs = vec![7u32, 8];
    assert!(capture_mesh_source(&positions, &normals, &uvs, 2).is_none());
    assert!(capture_mesh_source(&vec![], &vec![], &vec![], 0).is_some());
}
