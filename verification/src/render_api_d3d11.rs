//! The realized Render Backend: the device-lifecycle state machine, the
//! resource pool it owns, and the draw and begin/end update operations, all
//! stated against the plain-data device model with Direct3D11 conventions
//! (four bytes per texel row entry, the feature-level depth threshold, the
//! fixed buffer capacities). The layer that turns this state into native
//! calls lives outside the library.

use vstd::prelude::*;

use crate::device::DeviceModel;
use crate::device::REVERSE_Z_FEATURE_LEVEL;
use crate::pool::is_fresh_pool;
use crate::pool::DepthCompare;
use crate::pool::ResourcePool;
use crate::bytes::concat_u32_le;
use crate::bytes::write_at;
use crate::bytes::zero_seq;
use crate::render_api::spec_encode_vertices;
use crate::render_api::spec_write_records;
use crate::render_api::DeviceEvent;
use crate::render_api::MeshVertexRecord;
use crate::render_api::MyVertex;
use crate::render_api::Handle;
use crate::render_api::HostContext;
use crate::render_api::TextureBuffer;
use crate::render_api::VertexBuffer;
use crate::shaders::valid_shader_blob;
use crate::shaders::ShaderRole;

verus! {

/// A record of the most recent draw submission: the batch size and the
/// fixed-function state that was bound for it.
#[derive(Clone, Copy, PartialEq, Eq, Structural, Debug)]
pub struct DrawSubmission {
    pub triangle_count: i32,
    pub fill_solid: bool,
    pub culling_enabled: bool,
    pub blend_enabled: bool,
    pub write_mask: u8,
    pub depth_compare: DepthCompare,
}

/// A device at or above this capability level uses the reversed depth
/// convention (near mapped to depth 1).
pub open spec fn spec_device_reverse_z(d: DeviceModel) -> bool {
    d.feature_level >= REVERSE_Z_FEATURE_LEVEL
}

/// How readiness evolves under one lifecycle event: an Initialize leaves the
/// backend ready exactly when it succeeded, a Shutdown always leaves it
/// unbound, and reset-family events change nothing.
pub open spec fn step_ready(ready: bool, event: DeviceEvent, init_ok: bool) -> bool {
    match event {
        DeviceEvent::Initialize => init_ok,
        DeviceEvent::Shutdown => false,
        DeviceEvent::BeforeReset => ready,
        DeviceEvent::AfterReset => ready,
    }
}

/// The Render Backend bound (or not) to a native device. Constructed
/// unbound; an Initialize event binds a device and runs the resource-pool
/// creation pass; a Shutdown releases the pool and drops the device.
pub struct RenderAPID3D11 {
    /// The vertex-stage bytecode the creation pass uses.
    pub vertex_shader_blob: Vec<u8>,
    /// The pixel-stage bytecode the creation pass uses.
    pub pixel_shader_blob: Vec<u8>,
    /// The bound device, from Initialize to Shutdown.
    pub device: Option<DeviceModel>,
    /// The device-resident objects, present exactly while resourced.
    pub pool: Option<ResourcePool>,
    /// The most recent draw submission, if any.
    pub last_draw: Option<DrawSubmission>,
}

impl RenderAPID3D11 {
    /// Well-formedness: a bound device and a held pool keep their internal
    /// invariants.
    pub open spec fn wf(self) -> bool {
        &&& match self.device {
            Some(d) => d.wf(),
            None => true,
        }
        &&& match self.pool {
            Some(p) => p.wf(),
            None => true,
        }
    }

    /// Ready means a device is bound and the creation pass has succeeded;
    /// everything but lifecycle processing is a no-op otherwise.
    pub open spec fn is_ready(self) -> bool {
        self.device is Some && self.pool is Some
    }

    /// Both bundled blobs would be accepted by shader-object creation.
    pub open spec fn has_valid_shaders(self) -> bool {
        valid_shader_blob(self.vertex_shader_blob@) && valid_shader_blob(self.pixel_shader_blob@)
    }

    /// The depth convention of the bound device; conservatively standard
    /// when no device is bound.
    pub open spec fn spec_uses_reverse_z(self) -> bool {
        match self.device {
            Some(d) => spec_device_reverse_z(d),
            None => false,
        }
    }

    /// A backend bound to nothing, carrying the store's shader blobs.
    pub fn new() -> (api: RenderAPID3D11)
        ensures
            api.device is None,
            api.pool is None,
            api.last_draw is None,
            api.vertex_shader_blob@ == crate::shaders::spec_shader_blob(ShaderRole::Vertex),
            api.pixel_shader_blob@ == crate::shaders::spec_shader_blob(ShaderRole::Pixel),
            api.has_valid_shaders(),
            !api.is_ready(),
            api.wf(),
    {
        proof {
            crate::shaders::lemma_store_blobs_valid();
        }
        RenderAPID3D11 {
            vertex_shader_blob: crate::shaders::shader_blob(ShaderRole::Vertex),
            pixel_shader_blob: crate::shaders::shader_blob(ShaderRole::Pixel),
            device: None,
            pool: None,
            last_draw: None,
        }
    }

    /// A backend bound to nothing, carrying the given shader blobs. The
    /// creation pass will reject blobs that are not valid bytecode.
    pub fn with_shaders(vertex_shader_blob: Vec<u8>, pixel_shader_blob: Vec<u8>) -> (api:
        RenderAPID3D11)
        ensures
            api.device is None,
            api.pool is None,
            api.last_draw is None,
            api.vertex_shader_blob == vertex_shader_blob,
            api.pixel_shader_blob == pixel_shader_blob,
            !api.is_ready(),
            api.wf(),
    {
        RenderAPID3D11 {
            vertex_shader_blob,
            pixel_shader_blob,
            device: None,
            pool: None,
            last_draw: None,
        }
    }

    /// Whether the bound device's capability level selects the reversed
    /// depth convention; `false` while no device is bound.
    pub fn get_uses_reverse_z(&self) -> (r: bool)
        ensures
            r == self.spec_uses_reverse_z(),
    {
        match &self.device {
            Some(d) => d.feature_level >= REVERSE_Z_FEATURE_LEVEL,
            None => false,
        }
    }

    /// Releases every pool entry and drops the device reference, in one
    /// teardown.
    pub fn release_resources(&mut self)
        ensures
            final(self).device is None,
            final(self).pool is None,
            final(self).vertex_shader_blob == old(self).vertex_shader_blob,
            final(self).pixel_shader_blob == old(self).pixel_shader_blob,
            final(self).last_draw == old(self).last_draw,
            final(self).wf(),
    {
        self.pool = None;
        self.device = None;
    }

    /// Consumes one device-lifecycle event. Initialize binds the device the
    /// host offers (if any) and runs the creation pass, replacing whatever
    /// pool was held before; a creation failure leaves the backend not
    /// ready, with no error surfaced. Shutdown releases everything.
    /// Reset-family events are ignored: this device survives a reset.
    pub fn process_device_event(&mut self, event: DeviceEvent, host: HostContext)
        requires
            old(self).wf(),
            host.device matches Some(d) ==> d.wf(),
        ensures
            final(self).wf(),
            spec_event_step(*old(self), event, host.device, *final(self)),
            final(self).is_ready() == step_ready(
                old(self).is_ready(),
                event,
                host.device is Some && old(self).has_valid_shaders(),
            ),
    {
        match event {
            DeviceEvent::Initialize => {
                self.device = host.device;
                self.pool = None;
                if self.device.is_some() {
                    let rz = self.get_uses_reverse_z();
                    match crate::pool::create_resources(
                        &self.vertex_shader_blob,
                        &self.pixel_shader_blob,
                        rz,
                    ) {
                        Ok(p) => {
                            self.pool = Some(p);
                        },
                        Err(_) => {},
                    }
                }
            },
            DeviceEvent::Shutdown => {
                self.release_resources();
            },
            DeviceEvent::BeforeReset => {},
            DeviceEvent::AfterReset => {},
        }
    }
    /// Issues the fixed-pipeline draw: uploads the matrix into the constant
    /// buffer and the vertex payload into the pool's vertex buffer, binding
    /// the pool's pinned fixed-function state. A benign no-op while not
    /// ready or when the batch does not fit the pool's vertex buffer.
    pub fn draw_simple_triangles(
        &mut self,
        world_matrix: &[u32; 16],
        triangle_count: i32,
        vertices_float3_byte4: &Vec<MyVertex>,
    )
        requires
            old(self).wf(),
        ensures
            final(self).wf(),
            spec_draw_step(
                *old(self),
                world_matrix@,
                triangle_count,
                vertices_float3_byte4@,
                *final(self),
            ),
            final(self).is_ready() == old(self).is_ready(),
            final(self).spec_uses_reverse_z() == old(self).spec_uses_reverse_z(),
            !old(self).is_ready() ==> *final(self) == *old(self),
    {
        if self.device.is_none() || self.pool.is_none() {
            return;
        }
        if triangle_count < 0 || triangle_count > 21 {
            // 48 bytes per triangle; more than 21 triangles would overrun
            // the 1024-byte vertex buffer
            return;
        }
        let vcount = (triangle_count as usize) * 3;
        if vcount > vertices_float3_byte4.len() {
            return;
        }
        let mut pool = self.pool.take().unwrap();
        let enc_matrix = crate::bytes::encode_matrix(world_matrix);
        crate::bytes::overwrite_at(&mut pool.constant_buffer, 0, &enc_matrix);
        assert(pool.constant_buffer@ =~= concat_u32_le(world_matrix@));
        let payload = crate::render_api::encode_vertex_prefix(vertices_float3_byte4, vcount);
        crate::bytes::overwrite_at(&mut pool.vertex_buffer, 0, &payload);
        self.last_draw = Some(
            DrawSubmission {
                triangle_count,
                fill_solid: pool.rasterizer_state.solid_fill,
                culling_enabled: pool.rasterizer_state.culling_enabled,
                blend_enabled: pool.blend_state.blend_enabled,
                write_mask: pool.blend_state.write_mask,
                depth_compare: pool.depth_state.compare,
            },
        );
        self.pool = Some(pool);
    }

    /// Whether a staging region for a `width` by `height` texture update can
    /// be handed out: the backend must be ready and the region's row pitch
    /// and total size must be representable.
    pub open spec fn spec_can_begin_texture(self, width: int, height: int) -> bool {
        &&& self.is_ready()
        &&& 0 <= width
        &&& 0 <= height
        &&& 4 * width <= 0x7fff_ffff
        &&& 4 * width * height <= usize::MAX as int
    }

    /// Allocates a CPU-side staging region of `row_pitch(width) * height`
    /// bytes, with `row_pitch(width) == 4 * width`; none while not ready or
    /// when the region is unrepresentable.
    pub fn begin_modify_texture(
        &self,
        texture_handle: Handle,
        texture_width: i32,
        texture_height: i32,
    ) -> (r: Option<TextureBuffer>)
        ensures
            r is Some <==> self.spec_can_begin_texture(
                texture_width as int,
                texture_height as int,
            ),
            r matches Some(t) ==> {
                &&& t.pitch == 4 * texture_width
                &&& t.data@ == zero_seq((4 * texture_width * texture_height) as nat)
            },
    {
        if self.device.is_none() || self.pool.is_none() {
            return None;
        }
        if texture_width < 0 || texture_height < 0 {
            return None;
        }
        if texture_width > 0x1fff_ffff {
            // the row pitch would not fit its 32-bit report
            return None;
        }
        let row_pitch: i32 = texture_width * 4;
        let w4: u64 = (texture_width as u64) * 4;
        let th: u64 = texture_height as u64;
        assert(w4 * th <= 0x4000_0000_0000_0000u64) by (nonlinear_arith)
            requires
                w4 <= 0x8000_0000u64,
                th <= 0x8000_0000u64,
        ;
        let total: u64 = w4 * th;
        proof {
            assert(w4 * th == 4 * (texture_width as int) * (texture_height as int))
                by (nonlinear_arith)
                requires
                    w4 == 4 * (texture_width as int),
                    th == texture_height as int,
            ;
        }
        if total > usize::MAX as u64 {
            return None;
        }
        Some(TextureBuffer::new(total as usize, row_pitch))
    }

    /// Uploads the staging region into the targeted texture and invalidates
    /// the staging buffer. A benign no-op while not ready or when the handle
    /// refers to no texture.
    pub fn end_modify_texture(
        &mut self,
        texture_handle: Handle,
        _texture_width: i32,
        _texture_height: i32,
        buffer: TextureBuffer,
    )
        requires
            old(self).wf(),
        ensures
            final(self).wf(),
            spec_end_texture_step(*old(self), texture_handle, buffer.data@, *final(self)),
            final(self).is_ready() == old(self).is_ready(),
            final(self).spec_uses_reverse_z() == old(self).spec_uses_reverse_z(),
            !old(self).is_ready() ==> *final(self) == *old(self),
    {
        if self.pool.is_none() {
            return;
        }
        let dev_opt = self.device.take();
        match dev_opt {
            Some(mut d) => {
                let id = texture_handle.id;
                if 1 <= id && id <= d.textures.len() as u64 {
                    d.textures.set((id - 1) as usize, buffer.data);
                }
                self.device = Some(d);
            },
            None => {},
        }
    }

    /// Whether the device buffer behind `h` can be mapped for writing.
    pub open spec fn spec_can_begin_vertex(self, h: Handle) -> bool {
        &&& self.is_ready()
        &&& match self.device {
            Some(d) => d.spec_has_buffer(h),
            None => false,
        }
    }

    /// Maps the device vertex buffer behind the handle for writing,
    /// discard-style: the view starts zeroed and carries no prior contents.
    /// None while not ready or when the handle refers to no buffer.
    pub fn begin_modify_vertex_buffer(&self, buffer_handle: Handle) -> (r: Option<VertexBuffer>)
        requires
            self.wf(),
        ensures
            r is Some <==> self.spec_can_begin_vertex(buffer_handle),
            r matches Some(b) ==> b.data@ == zero_seq(
                self.device.unwrap().spec_buffer(buffer_handle).len(),
            ),
    {
        if self.pool.is_none() {
            return None;
        }
        match &self.device {
            Some(d) => {
                match d.buffer_contents(buffer_handle) {
                    Some(bytes) => {
                        let n = bytes.len();
                        Some(VertexBuffer::new(crate::bytes::zero_bytes(n)))
                    },
                    None => None,
                }
            },
            None => None,
        }
    }

    /// Unmaps the buffer, making the writes visible: the device buffer takes
    /// the mapped view's bytes. A benign no-op while not ready, when the
    /// handle refers to no buffer, or when the view does not match the
    /// buffer's capacity.
    pub fn end_modify_vertex_buffer(&mut self, buffer_handle: Handle, buffer: VertexBuffer)
        requires
            old(self).wf(),
        ensures
            final(self).wf(),
            spec_end_vertex_step(*old(self), buffer_handle, buffer.data@, *final(self)),
            final(self).is_ready() == old(self).is_ready(),
            final(self).spec_uses_reverse_z() == old(self).spec_uses_reverse_z(),
            !old(self).is_ready() ==> *final(self) == *old(self),
    {
        if self.pool.is_none() {
            return;
        }
        let dev_opt = self.device.take();
        match dev_opt {
            Some(mut d) => {
                let id = buffer_handle.id;
                if 1 <= id && id <= d.buffers.len() as u64 {
                    let idx = (id - 1) as usize;
                    if buffer.data.len() == d.buffers[idx].len() {
                        d.buffers.set(idx, buffer.data);
                    }
                }
                self.device = Some(d);
            },
            None => {},
        }
    }
    /// One whole texture update: begin, fill the staging region with the
    /// given texel rows, end. The staging region is uploaded even when the
    /// pixel data does not match its extent; the unfilled region uploads as
    /// zeros.
    pub fn update_texture(&mut self, handle: Handle, width: i32, height: i32, pixels: &Vec<u8>)
        requires
            old(self).wf(),
        ensures
            final(self).wf(),
            spec_update_texture_step(
                *old(self),
                handle,
                width as int,
                height as int,
                pixels@,
                *final(self),
            ),
            final(self).is_ready() == old(self).is_ready(),
            final(self).spec_uses_reverse_z() == old(self).spec_uses_reverse_z(),
            !old(self).is_ready() ==> *final(self) == *old(self),
    {
        if handle.is_null() {
            return;
        }
        let buffer_opt = self.begin_modify_texture(handle, width, height);
        let mut buffer = match buffer_opt {
            Some(b) => b,
            None => {
                return;
            },
        };
        if pixels.len() == buffer.data.len() {
            crate::bytes::overwrite_at(&mut buffer.data, 0, pixels);
            assert(buffer.data@ =~= pixels@);
        }
        self.end_modify_texture(handle, width, height, buffer);
    }

    /// One whole vertex-buffer update: begin, write the mesh records at the
    /// stride the buffer's capacity implies for their count, end. Records
    /// that would not fit their stride windows are not written; the
    /// discard-mapped view then uploads as zeros.
    pub fn update_vertex_buffer(&mut self, handle: Handle, vertices: &Vec<MeshVertexRecord>)
        requires
            old(self).wf(),
        ensures
            final(self).wf(),
            spec_update_vertex_step(*old(self), handle, vertices@, *final(self)),
            final(self).is_ready() == old(self).is_ready(),
            final(self).spec_uses_reverse_z() == old(self).spec_uses_reverse_z(),
            !old(self).is_ready() ==> *final(self) == *old(self),
    {
        let buffer_opt = self.begin_modify_vertex_buffer(handle);
        let mut buffer = match buffer_opt {
            Some(b) => b,
            None => {
                return;
            },
        };
        let n = vertices.len();
        if n >= 1 {
            let stride = buffer.data.len() / n;
            if stride >= 48 {
                proof {
                    let len = buffer.data@.len() as int;
                    let q = len / (n as int);
                    vstd::arithmetic::div_mod::lemma_fundamental_div_mod(len, n as int);
                    assert((n as int) * q == q * (n as int)) by (nonlinear_arith);
                }
                let ok = crate::render_api::write_vertices_strided(&mut buffer, vertices, stride);
                assert(ok);
                proof {
                    crate::render_api::lemma_write_records_len(
                        zero_seq(old(self).device.unwrap().spec_buffer(handle).len()),
                        vertices@,
                        stride as int,
                        n as int,
                    );
                }
            }
        }
        self.end_modify_vertex_buffer(handle, buffer);
    }
}

/// Whether a batch of `tc` triangles drawn from `n_vertices` supplied
/// vertices fits the fixed draw path: three 16-byte vertices per triangle,
/// within the pool's vertex-buffer capacity.
pub open spec fn draw_fits(tc: int, n_vertices: int) -> bool {
    &&& 0 <= tc
    &&& 3 * tc <= n_vertices
    &&& 48 * tc <= 1024
}

/// How a draw transforms the backend: while ready with a batch that fits,
/// the constant buffer takes the matrix image, the vertex buffer takes the
/// encoded payload in its prefix, the draw record snapshots the bound
/// fixed-function state, and nothing else changes; otherwise the whole
/// state is unchanged.
pub open spec fn spec_draw_step(
    pre: RenderAPID3D11,
    world: Seq<u32>,
    triangle_count: i32,
    vs: Seq<MyVertex>,
    post: RenderAPID3D11,
) -> bool {
    if pre.is_ready() && draw_fits(triangle_count as int, vs.len() as int) {
        &&& post.device == pre.device
        &&& post.vertex_shader_blob == pre.vertex_shader_blob
        &&& post.pixel_shader_blob == pre.pixel_shader_blob
        &&& match (pre.pool, post.pool) {
            (Some(q), Some(p)) => {
                &&& p.constant_buffer@ == concat_u32_le(world)
                &&& p.vertex_buffer@ == write_at(
                    q.vertex_buffer@,
                    0,
                    spec_encode_vertices(vs, 3 * triangle_count),
                )
                &&& p.vertex_shader == q.vertex_shader
                &&& p.pixel_shader == q.pixel_shader
                &&& p.input_layout == q.input_layout
                &&& p.rasterizer_state == q.rasterizer_state
                &&& p.blend_state == q.blend_state
                &&& p.depth_state == q.depth_state
            },
            _ => false,
        }
        &&& match pre.pool {
            Some(q) => post.last_draw == Some(
                DrawSubmission {
                    triangle_count,
                    fill_solid: q.rasterizer_state.solid_fill,
                    culling_enabled: q.rasterizer_state.culling_enabled,
                    blend_enabled: q.blend_state.blend_enabled,
                    write_mask: q.blend_state.write_mask,
                    depth_compare: q.depth_state.compare,
                },
            ),
            None => false,
        }
    } else {
        post == pre
    }
}

/// How ending a texture update transforms the backend: while ready and
/// targeting a registered texture, that texture takes the staging bytes and
/// nothing else changes; otherwise the whole state is unchanged.
pub open spec fn spec_end_texture_step(
    pre: RenderAPID3D11,
    h: Handle,
    data: Seq<u8>,
    post: RenderAPID3D11,
) -> bool {
    match pre.device {
        Some(d0) => {
            if pre.pool is Some && d0.spec_has_texture(h) {
                &&& post.pool == pre.pool
                &&& post.vertex_shader_blob == pre.vertex_shader_blob
                &&& post.pixel_shader_blob == pre.pixel_shader_blob
                &&& post.last_draw == pre.last_draw
                &&& match post.device {
                    Some(d1) => {
                        &&& d1.feature_level == d0.feature_level
                        &&& d1.buffers == d0.buffers
                        &&& d1.textures@.len() == d0.textures@.len()
                        &&& forall|j: int|
                            0 <= j < d0.textures@.len() && j != h.id - 1
                                ==> d1.textures@[j] == d0.textures@[j]
                        &&& d1.textures@[h.id - 1]@ == data
                    },
                    None => false,
                }
            } else {
                post == pre
            }
        },
        None => post == pre,
    }
}

/// How ending a vertex-buffer update transforms the backend: while ready and
/// targeting a registered buffer with a matching view, that buffer takes the
/// view's bytes and nothing else changes; otherwise the whole state is
/// unchanged.
pub open spec fn spec_end_vertex_step(
    pre: RenderAPID3D11,
    h: Handle,
    data: Seq<u8>,
    post: RenderAPID3D11,
) -> bool {
    match pre.device {
        Some(d0) => {
            if pre.pool is Some && d0.spec_has_buffer(h) && data.len() == d0.spec_buffer(h).len() {
                &&& post.pool == pre.pool
                &&& post.vertex_shader_blob == pre.vertex_shader_blob
                &&& post.pixel_shader_blob == pre.pixel_shader_blob
                &&& post.last_draw == pre.last_draw
                &&& match post.device {
                    Some(d1) => {
                        &&& d1.feature_level == d0.feature_level
                        &&& d1.textures == d0.textures
                        &&& d1.buffers@.len() == d0.buffers@.len()
                        &&& forall|j: int|
                            0 <= j < d0.buffers@.len() && j != h.id - 1 ==> d1.buffers@[j]
                                == d0.buffers@[j]
                        &&& d1.buffers@[h.id - 1]@ == data
                    },
                    None => false,
                }
            } else {
                post == pre
            }
        },
        None => post == pre,
    }
}

/// How one whole texture update transforms the backend: with a non-null
/// handle and a representable staging region, it acts as ending a texture
/// update with the given pixels (or with zeros when the pixel data does not
/// match the staging extent); otherwise nothing changes.
pub open spec fn spec_update_texture_step(
    pre: RenderAPID3D11,
    h: Handle,
    width: int,
    height: int,
    pixels: Seq<u8>,
    post: RenderAPID3D11,
) -> bool {
    if h.id != 0 && pre.spec_can_begin_texture(width, height) {
        let size = 4 * width * height;
        let image = if pixels.len() == size {
            pixels
        } else {
            zero_seq(size as nat)
        };
        spec_end_texture_step(pre, h, image, post)
    } else {
        post == pre
    }
}

/// How one whole vertex-buffer update transforms the backend: with a
/// mappable buffer it acts as ending a vertex-buffer update with the
/// strided record image (the stride being the buffer's capacity divided by
/// the record count), or with zeros when the records would not fit their
/// stride windows; otherwise nothing changes.
pub open spec fn spec_update_vertex_step(
    pre: RenderAPID3D11,
    h: Handle,
    vs: Seq<MeshVertexRecord>,
    post: RenderAPID3D11,
) -> bool {
    if pre.spec_can_begin_vertex(h) {
        let len = pre.device.unwrap().spec_buffer(h).len() as int;
        let n = vs.len() as int;
        let stride = if n >= 1 {
            len / n
        } else {
            0
        };
        let image = if n >= 1 && stride >= 48 {
            spec_write_records(zero_seq(len as nat), vs, stride, n)
        } else {
            zero_seq(len as nat)
        };
        spec_end_vertex_step(pre, h, image, post)
    } else {
        post == pre
    }
}

/// How one lifecycle event transforms the backend: blobs and the draw
/// record never change; Initialize rebinds the device and replaces the pool
/// with a fresh one exactly when a device is offered and the blobs are
/// valid; Shutdown clears both; resets change nothing.
pub open spec fn spec_event_step(
    pre: RenderAPID3D11,
    event: DeviceEvent,
    ctx_device: Option<DeviceModel>,
    post: RenderAPID3D11,
) -> bool {
    &&& post.vertex_shader_blob == pre.vertex_shader_blob
    &&& post.pixel_shader_blob == pre.pixel_shader_blob
    &&& post.last_draw == pre.last_draw
    &&& match event {
        DeviceEvent::Initialize => {
            &&& post.device == ctx_device
            &&& match ctx_device {
                Some(d) => {
                    if pre.has_valid_shaders() {
                        post.pool matches Some(p) && is_fresh_pool(
                            p,
                            pre.vertex_shader_blob@,
                            pre.pixel_shader_blob@,
                            spec_device_reverse_z(d),
                        )
                    } else {
                        post.pool is None
                    }
                },
                None => post.pool is None,
            }
        },
        DeviceEvent::Shutdown => post.device is None && post.pool is None,
        DeviceEvent::BeforeReset => post.device == pre.device && post.pool == pre.pool,
        DeviceEvent::AfterReset => post.device == pre.device && post.pool == pre.pool,
    }
}

/// Position `i` of `oks` holds a successful Initialize that no later
/// Shutdown or failed Initialize has undone.
pub open spec fn successful_init_not_undone(oks: Seq<(DeviceEvent, bool)>, i: int) -> bool {
    &&& 0 <= i < oks.len()
    &&& oks[i].0 is Initialize
    &&& oks[i].1
    &&& forall|j: int|
        i < j < oks.len() ==> !((#[trigger] oks[j]).0 is Shutdown) && !(oks[j].0 is Initialize
            && !oks[j].1)
}

/// Readiness after a sequence of lifecycle events, each paired with whether
/// an Initialize at that point succeeds, starting from `init_ready`.
pub open spec fn ready_after(init_ready: bool, oks: Seq<(DeviceEvent, bool)>) -> bool
    decreases oks.len(),
{
    if oks.len() == 0 {
        init_ready
    } else {
        step_ready(ready_after(init_ready, oks.drop_last()), oks.last().0, oks.last().1)
    }
}

/// A backend that starts unbound is ready after a sequence of lifecycle
/// events exactly when some event of the sequence was a successful
/// Initialize and everything after it is neither a Shutdown nor a failed
/// Initialize — that is, the most recent decisive event was a successful
/// Initialize. `process_device_event` guarantees that each processed event
/// moves readiness by `step_ready`, so this characterizes the executable
/// backend as well.
pub proof fn lemma_ready_characterization(oks: Seq<(DeviceEvent, bool)>)
    ensures
        ready_after(false, oks) <==> exists|i: int| successful_init_not_undone(oks, i),
    decreases oks.len(),
{
    if oks.len() == 0 {
    } else {
        let n = oks.len() as int;
        let prefix = oks.drop_last();
        let last = oks.last();
        lemma_ready_characterization(prefix);
        assert(forall|j: int| 0 <= j < n - 1 ==> prefix[j] == #[trigger] oks[j]);
        match last.0 {
            DeviceEvent::Initialize => {
                if last.1 {
                    assert(successful_init_not_undone(oks, n - 1));
                } else {
                    assert forall|i: int| !successful_init_not_undone(oks, i) by {
                        if 0 <= i < n - 1 {
                            assert(oks[n - 1].0 is Initialize && !oks[n - 1].1);
                        }
                    }
                }
            },
            DeviceEvent::Shutdown => {
                assert forall|i: int| !successful_init_not_undone(oks, i) by {
                    if 0 <= i < n - 1 {
                        assert(oks[n - 1].0 is Shutdown);
                    }
                }
            },
            DeviceEvent::BeforeReset => {
                lemma_reset_preserves_characterization(oks);
            },
            DeviceEvent::AfterReset => {
                lemma_reset_preserves_characterization(oks);
            },
        }
    }
}

/// A trailing reset-family event neither creates nor destroys a decisive
/// successful Initialize.
proof fn lemma_reset_preserves_characterization(oks: Seq<(DeviceEvent, bool)>)
    requires
        oks.len() > 0,
        oks.last().0 is BeforeReset || oks.last().0 is AfterReset,
    ensures
        (exists|i: int| successful_init_not_undone(oks.drop_last(), i)) <==> (exists|i: int|
            successful_init_not_undone(oks, i)),
{
    let n = oks.len() as int;
    let prefix = oks.drop_last();
    assert(forall|j: int| 0 <= j < n - 1 ==> prefix[j] == #[trigger] oks[j]);
    if exists|i: int| successful_init_not_undone(prefix, i) {
        let i = choose|i: int| successful_init_not_undone(prefix, i);
        assert forall|j: int|
            i < j < n implies !((#[trigger] oks[j]).0 is Shutdown) && !(oks[j].0 is Initialize
            && !oks[j].1) by {
            if j < n - 1 {
                assert(prefix[j] == oks[j]);
                assert(!(prefix[j].0 is Shutdown) && !(prefix[j].0 is Initialize
                    && !prefix[j].1));
            }
        }
        assert(successful_init_not_undone(oks, i));
    }
    if exists|i: int| successful_init_not_undone(oks, i) {
        let i = choose|i: int| successful_init_not_undone(oks, i);
        assert(i != n - 1);
        assert forall|j: int|
            i < j < n - 1 implies !((#[trigger] prefix[j]).0 is Shutdown) && !(prefix[j].0
            is Initialize && !prefix[j].1) by {
            assert(prefix[j] == oks[j]);
            assert(!(oks[j].0 is Shutdown) && !(oks[j].0 is Initialize && !oks[j].1));
        }
        assert(successful_init_not_undone(prefix, i));
    }
}

/// Two consecutive Initialize events without an intervening Shutdown leave
/// exactly what a single Initialize with the second event's device leaves:
/// every pool entry is replaced, none accumulates.
pub proof fn lemma_double_initialize_replaces(
    b0: RenderAPID3D11,
    b1: RenderAPID3D11,
    b2: RenderAPID3D11,
    d1: Option<DeviceModel>,
    d2: Option<DeviceModel>,
)
    requires
        spec_event_step(b0, DeviceEvent::Initialize, d1, b1),
        spec_event_step(b1, DeviceEvent::Initialize, d2, b2),
    ensures
        spec_event_step(b0, DeviceEvent::Initialize, d2, b2),
{
}

/// Round trip: the staging bytes handed to `end_modify_texture` while ready
/// land byte-for-byte in the targeted texture.
pub proof fn lemma_texture_update_round_trip(
    pre: RenderAPID3D11,
    h: Handle,
    written: Seq<u8>,
    post: RenderAPID3D11,
)
    requires
        pre.is_ready(),
        match pre.device {
            Some(d) => d.spec_has_texture(h),
            None => false,
        },
        spec_end_texture_step(pre, h, written, post),
    ensures
        match post.device {
            Some(d) => d.spec_has_texture(h) && d.spec_texture(h) == written,
            None => false,
        },
{
}

/// The depth convention is a function of the bound device's capability
/// level alone: two backends whose devices report the same level agree.
pub proof fn lemma_reverse_z_deterministic(a: RenderAPID3D11, b: RenderAPID3D11)
    requires
        match (a.device, b.device) {
            (Some(da), Some(db)) => da.feature_level == db.feature_level,
            _ => false,
        },
    ensures
        a.spec_uses_reverse_z() == b.spec_uses_reverse_z(),
{
}

} // verus!
