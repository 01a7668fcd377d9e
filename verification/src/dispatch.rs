//! The dispatch shell: owns the single active Render Backend, keyed by the
//! host-reported API kind, routes device-lifecycle events to it, and runs
//! the per-frame calls in their fixed order — draw batch, then texture
//! update, then vertex-buffer update — over an explicit frame-state
//! snapshot handed in by value.

use vstd::prelude::*;

use crate::pool::is_fresh_pool;
use crate::render_api::create_render_api;
use crate::render_api::DeviceEvent;
use crate::render_api::GfxApi;
use crate::render_api::Handle;
use crate::render_api::HostContext;
use crate::render_api::MeshVertexRecord;
use crate::render_api::MyVertex;
use crate::render_api::RenderAPI;
use crate::render_api_d3d11::spec_device_reverse_z;
use crate::render_api_d3d11::spec_draw_step;
use crate::render_api_d3d11::spec_update_texture_step;
use crate::render_api_d3d11::spec_update_vertex_step;
use crate::render_api_d3d11::RenderAPID3D11;
use crate::shaders::spec_shader_blob;
use crate::shaders::ShaderRole;

verus! {

/// Everything one frame needs, captured by the main-context integration
/// layer and handed to the render context by value.
pub struct FrameState {
    /// The 4x4 world matrix for the draw batch, as raw 32-bit patterns.
    pub world_matrix: [u32; 16],
    /// How many triangles the draw batch holds.
    pub triangle_count: i32,
    /// The draw batch's vertices, three per triangle.
    pub vertices: Vec<MyVertex>,
    /// The texture update's target; the null handle skips the update.
    pub texture: Handle,
    pub texture_width: i32,
    pub texture_height: i32,
    /// The texel rows to upload, four bytes per texel.
    pub texture_pixels: Vec<u8>,
    /// The vertex-buffer update's target.
    pub vertex_buffer: Handle,
    /// The mesh records to write at the buffer's implied stride.
    pub mesh_vertices: Vec<MeshVertexRecord>,
}

/// The owner of the single active Render Backend.
pub struct Dispatcher {
    /// The API kind the host most recently initialized with.
    pub device_type: GfxApi,
    /// The active backend, if the kind has one.
    pub api: Option<RenderAPI>,
}

impl Dispatcher {
    pub open spec fn wf(self) -> bool {
        match self.api {
            Some(a) => a.wf(),
            None => true,
        }
    }

    /// Whether an active backend exists and is ready.
    pub open spec fn is_ready(self) -> bool {
        match self.api {
            Some(a) => a.is_ready(),
            None => false,
        }
    }

    /// A shell with no active backend.
    pub fn new() -> (d: Dispatcher)
        ensures
            d.device_type == GfxApi::Null,
            d.api is None,
            d.wf(),
    {
        Dispatcher { device_type: GfxApi::Null, api: None }
    }

    /// Routes one device-lifecycle event. An Initialize first replaces the
    /// active backend with a fresh one for the reported kind, then the event
    /// reaches the backend; a Shutdown reaches the backend and then clears
    /// it.
    pub fn on_graphics_device_event(
        &mut self,
        event: DeviceEvent,
        renderer: GfxApi,
        host: HostContext,
    )
        requires
            old(self).wf(),
            host.device matches Some(d) ==> d.wf(),
        ensures
            final(self).wf(),
            event is Initialize && renderer is Direct3D11 ==> {
                &&& final(self).device_type == GfxApi::Direct3D11
                &&& match final(self).api {
                    Some(a) => {
                        &&& a.backend().device == host.device
                        &&& a.backend().last_draw is None
                        &&& match host.device {
                            Some(d) => a.backend().pool matches Some(p) && is_fresh_pool(
                                p,
                                spec_shader_blob(ShaderRole::Vertex),
                                spec_shader_blob(ShaderRole::Pixel),
                                spec_device_reverse_z(d),
                            ),
                            None => a.backend().pool is None,
                        }
                    },
                    None => false,
                }
                &&& final(self).is_ready() <==> host.device is Some
            },
            event is Initialize && !(renderer is Direct3D11) ==> final(self).api is None
                && final(self).device_type == renderer && !final(self).is_ready(),
            event is Shutdown ==> final(self).api is None && final(self).device_type == GfxApi::Null
                && !final(self).is_ready(),
            event is BeforeReset || event is AfterReset ==> *final(self) == *old(self),
    {
        if event == DeviceEvent::Initialize {
            self.device_type = renderer;
            self.api = create_render_api(renderer);
        }
        let api_opt = self.api.take();
        match api_opt {
            Some(api) => {
                let RenderAPI::Direct3D11(mut b) = api;
                b.process_device_event(event, host);
                self.api = Some(RenderAPI::Direct3D11(b));
            },
            None => {},
        }
        if event == DeviceEvent::Shutdown {
            self.device_type = GfxApi::Null;
            self.api = None;
        }
    }

    /// Runs one frame in the fixed order: draw batch, then texture update,
    /// then vertex-buffer update. Without an active backend nothing happens;
    /// with one, the backend moves through exactly those three steps.
    pub fn render_frame(&mut self, frame: &FrameState)
        requires
            old(self).wf(),
        ensures
            final(self).wf(),
            final(self).device_type == old(self).device_type,
            old(self).api is None ==> *final(self) == *old(self),
            match (old(self).api, final(self).api) {
                (Some(a0), Some(a2)) => exists|b1: RenderAPID3D11, bm: RenderAPID3D11|
                    #![auto]
                    {
                        &&& spec_draw_step(
                            a0.backend(),
                            frame.world_matrix@,
                            frame.triangle_count,
                            frame.vertices@,
                            b1,
                        )
                        &&& spec_update_texture_step(
                            b1,
                            frame.texture,
                            frame.texture_width as int,
                            frame.texture_height as int,
                            frame.texture_pixels@,
                            bm,
                        )
                        &&& spec_update_vertex_step(
                            bm,
                            frame.vertex_buffer,
                            frame.mesh_vertices@,
                            a2.backend(),
                        )
                    },
                (None, None) => true,
                _ => false,
            },
    {
        let api_opt = self.api.take();
        match api_opt {
            Some(api) => {
                let RenderAPI::Direct3D11(mut b) = api;
                b.draw_simple_triangles(&frame.world_matrix, frame.triangle_count, &frame.vertices);
                let ghost b1 = b;
                b.update_texture(
                    frame.texture,
                    frame.texture_width,
                    frame.texture_height,
                    &frame.texture_pixels,
                );
                let ghost bm = b;
                b.update_vertex_buffer(frame.vertex_buffer, &frame.mesh_vertices);
                self.api = Some(RenderAPI::Direct3D11(b));
            },
            None => {},
        }
    }
}

/// Interleaves the host's parallel position, normal and texture-coordinate
/// arrays into mesh records with cleared color, the shape the per-frame
/// vertex update writes. None when the arrays cannot supply `vertex_count`
/// records.
#[verifier::rlimit(50)]
pub fn capture_mesh_source(
    positions: &Vec<u32>,
    normals: &Vec<u32>,
    uvs: &Vec<u32>,
    vertex_count: usize,
) -> (r: Option<Vec<MeshVertexRecord>>)
    ensures
        r is Some <==> (3 * vertex_count <= positions@.len() && 3 * vertex_count <= normals@.len()
            && 2 * vertex_count <= uvs@.len()),
        r matches Some(v) ==> {
            &&& v@.len() == vertex_count
            &&& forall|i: int|
                0 <= i < vertex_count ==> {
                    &&& (#[trigger] v@[i]).pos@ == seq![
                        positions@[3 * i],
                        positions@[3 * i + 1],
                        positions@[3 * i + 2],
                    ]
                    &&& v@[i].normal@ == seq![
                        normals@[3 * i],
                        normals@[3 * i + 1],
                        normals@[3 * i + 2],
                    ]
                    &&& v@[i].color@ == seq![0u32, 0u32, 0u32, 0u32]
                    &&& v@[i].uv@ == seq![uvs@[2 * i], uvs@[2 * i + 1]]
                }
        },
{
    let need3: u128 = 3u128 * (vertex_count as u128);
    let need2: u128 = 2u128 * (vertex_count as u128);
    if need3 > positions.len() as u128 || need3 > normals.len() as u128 || need2 > uvs.len()
        as u128 {
        return None;
    }
    proof {
        assert(3 * (vertex_count as int) <= usize::MAX as int);
    }
    let mut out: Vec<MeshVertexRecord> = Vec::new();
    let mut i: usize = 0;
    while i < vertex_count
        invariant
            i <= vertex_count,
            3 * (vertex_count as int) <= usize::MAX as int,
            3 * vertex_count <= positions@.len(),
            3 * vertex_count <= normals@.len(),
            2 * vertex_count <= uvs@.len(),
            out@.len() == i,
            forall|k: int|
                0 <= k < i ==> {
                    &&& (#[trigger] out@[k]).pos@ == seq![
                        positions@[3 * k],
                        positions@[3 * k + 1],
                        positions@[3 * k + 2],
                    ]
                    &&& out@[k].normal@ == seq![
                        normals@[3 * k],
                        normals@[3 * k + 1],
                        normals@[3 * k + 2],
                    ]
                    &&& out@[k].color@ == seq![0u32, 0u32, 0u32, 0u32]
                    &&& out@[k].uv@ == seq![uvs@[2 * k], uvs@[2 * k + 1]]
                },
        decreases vertex_count - i,
    {
        let record = MeshVertexRecord {
            pos: [positions[3 * i], positions[3 * i + 1], positions[3 * i + 2]],
            normal: [normals[3 * i], normals[3 * i + 1], normals[3 * i + 2]],
            color: [0u32, 0u32, 0u32, 0u32],
            uv: [uvs[2 * i], uvs[2 * i + 1]],
        };
        assert(record.pos@ =~= seq![
            positions@[3 * i as int],
            positions@[3 * i as int + 1],
            positions@[3 * i as int + 2],
        ]);
        assert(record.normal@ =~= seq![
            normals@[3 * i as int],
            normals@[3 * i as int + 1],
            normals@[3 * i as int + 2],
        ]);
        assert(record.color@ =~= seq![0u32, 0u32, 0u32, 0u32]);
        assert(record.uv@ =~= seq![uvs@[2 * i as int], uvs@[2 * i as int + 1]]);
        out.push(record);
        i = i + 1;
    }
    Some(out)
}

} // verus!
