//! Backend-agnostic types of the render interface: resource handles,
//! device-lifecycle events, vertex records, and the two update-buffer types
//! handed out by the begin/end protocols.

use vstd::prelude::*;

use crate::bytes::concat_u32_le;
use crate::bytes::write_at;
use crate::bytes::zero_bytes;
use crate::bytes::zero_seq;
use crate::device::DeviceModel;

verus! {

/// What the host hands along with a device-lifecycle event: access to the
/// native device of the currently active API, when one exists.
pub struct HostContext {
    pub device: Option<DeviceModel>,
}

/// An opaque reference to a host-owned device resource. The null handle
/// (id 0) refers to nothing; every registered resource gets a positive id.
#[derive(Clone, Copy, PartialEq, Eq, Structural, Debug)]
pub struct Handle {
    pub id: u64,
}

impl Handle {
    /// The handle that refers to nothing.
    pub fn null() -> (h: Handle)
        ensures
            h.id == 0,
    {
        Handle { id: 0 }
    }

    pub fn is_null(&self) -> (r: bool)
        ensures
            r <==> self.id == 0,
    {
        self.id == 0
    }
}

/// A device-lifecycle notification from the host.
#[derive(Clone, Copy, PartialEq, Eq, Structural, Debug)]
pub enum DeviceEvent {
    Initialize,
    Shutdown,
    BeforeReset,
    AfterReset,
}

/// The native graphics API the host reports as active.
#[derive(Clone, Copy, PartialEq, Eq, Structural, Debug)]
pub enum GfxApi {
    Direct3D11,
    Vulkan,
    Null,
}

/// One vertex of the fixed draw path: a three-component position and a
/// packed four-channel color. Position components are carried as the raw
/// 32-bit patterns of the host's floating-point values; the draw path only
/// moves them.
#[derive(Clone, Copy, PartialEq, Eq, Structural, Debug)]
pub struct MyVertex {
    pub x_bits: u32,
    pub y_bits: u32,
    pub z_bits: u32,
    pub color: u32,
}

/// The 32-bit fields of a draw vertex in upload order.
pub open spec fn my_vertex_words(v: MyVertex) -> Seq<u32> {
    seq![v.x_bits, v.y_bits, v.z_bits, v.color]
}

/// The 16-byte image a draw vertex has in the device vertex buffer.
pub open spec fn spec_encode_my_vertex(v: MyVertex) -> Seq<u8> {
    concat_u32_le(my_vertex_words(v))
}

/// The byte image of the first `n` vertices of `vs`, in order.
pub open spec fn spec_encode_vertices(vs: Seq<MyVertex>, n: int) -> Seq<u8>
    decreases n,
{
    if n <= 0 {
        Seq::empty()
    } else {
        spec_encode_vertices(vs, n - 1) + spec_encode_my_vertex(vs[n - 1])
    }
}

/// One record of the host-supplied mesh source: position, normal, color and
/// texture coordinates, all carried as raw 32-bit patterns.
#[derive(Clone, Copy, Debug)]
pub struct MeshVertexRecord {
    pub pos: [u32; 3],
    pub normal: [u32; 3],
    pub color: [u32; 4],
    pub uv: [u32; 2],
}

/// The 32-bit fields of a mesh record in layout order.
pub open spec fn mesh_vertex_words(r: MeshVertexRecord) -> Seq<u32> {
    r.pos@ + r.normal@ + r.color@ + r.uv@
}

/// The 48-byte image of a mesh record.
pub open spec fn spec_encode_mesh_vertex(r: MeshVertexRecord) -> Seq<u8> {
    concat_u32_le(mesh_vertex_words(r))
}

/// Encodes a mesh record into its 48-byte image.
pub fn encode_mesh_vertex(r: &MeshVertexRecord) -> (v: Vec<u8>)
    ensures
        v@ == spec_encode_mesh_vertex(*r),
        v@.len() == 48,
{
    let mut w: Vec<u32> = Vec::new();
    w.push(r.pos[0]);
    w.push(r.pos[1]);
    w.push(r.pos[2]);
    w.push(r.normal[0]);
    w.push(r.normal[1]);
    w.push(r.normal[2]);
    w.push(r.color[0]);
    w.push(r.color[1]);
    w.push(r.color[2]);
    w.push(r.color[3]);
    w.push(r.uv[0]);
    w.push(r.uv[1]);
    assert(w@ =~= mesh_vertex_words(*r));
    crate::bytes::encode_words(&w)
}

/// Encodes the first `n` vertices of `vs` into one contiguous upload image.
pub fn encode_vertex_prefix(vs: &Vec<MyVertex>, n: usize) -> (v: Vec<u8>)
    requires
        n <= vs@.len(),
    ensures
        v@ == spec_encode_vertices(vs@, n as int),
        v@.len() == 16 * n,
{
    let mut v: Vec<u8> = Vec::new();
    let mut i: usize = 0;
    while i < n
        invariant
            i <= n <= vs@.len(),
            v@ == spec_encode_vertices(vs@, i as int),
            v@.len() == 16 * i,
        decreases n - i,
    {
        let mut w: Vec<u32> = Vec::new();
        let vert = vs[i];
        w.push(vert.x_bits);
        w.push(vert.y_bits);
        w.push(vert.z_bits);
        w.push(vert.color);
        assert(w@ =~= my_vertex_words(vs@[i as int]));
        let mut enc = crate::bytes::encode_words(&w);
        v.append(&mut enc);
        i = i + 1;
    }
    v
}

/// The mapped view after the first `i` mesh records have been written, each
/// at its own `stride`-byte step.
pub open spec fn spec_write_records(
    base: Seq<u8>,
    vs: Seq<MeshVertexRecord>,
    stride: int,
    i: int,
) -> Seq<u8>
    decreases i,
{
    if i <= 0 {
        base
    } else {
        write_at(
            spec_write_records(base, vs, stride, i - 1),
            (i - 1) * stride,
            spec_encode_mesh_vertex(vs[i - 1]),
        )
    }
}

pub proof fn lemma_write_records_len(base: Seq<u8>, vs: Seq<MeshVertexRecord>, stride: int, i: int)
    ensures
        spec_write_records(base, vs, stride, i).len() == base.len(),
    decreases i,
{
    if i > 0 {
        lemma_write_records_len(base, vs, stride, i - 1);
    }
}

/// With a stride of at least one record and all records in bounds, each
/// record occupies a window of its own and reads back exactly from the
/// written view.
pub proof fn lemma_write_records_window(
    base: Seq<u8>,
    vs: Seq<MeshVertexRecord>,
    stride: int,
    n: int,
    i: int,
    k: int,
)
    requires
        48 <= stride,
        0 <= i < n,
        n <= vs.len(),
        n * stride <= base.len(),
        0 <= k < 48,
    ensures
        spec_write_records(base, vs, stride, n)[i * stride + k] == spec_encode_mesh_vertex(vs[i])[k],
    decreases n,
{
    crate::bytes::lemma_concat_u32_le_len(mesh_vertex_words(vs[n - 1]));
    crate::bytes::lemma_concat_u32_le_len(mesh_vertex_words(vs[i]));
    lemma_write_records_len(base, vs, stride, n - 1);
    assert((i + 1) * stride == i * stride + stride) by (nonlinear_arith);
    assert((i + 1) * stride <= n * stride) by (nonlinear_arith)
        requires
            i + 1 <= n,
            0 <= stride,
    ;
    if i == n - 1 {
        assert(i * stride + k < base.len());
    } else {
        assert((i + 1) * stride <= (n - 1) * stride) by (nonlinear_arith)
            requires
                i + 1 <= n - 1,
                0 <= stride,
        ;
        assert((n - 1) * stride <= n * stride) by (nonlinear_arith)
            requires
                n - 1 <= n,
                0 <= stride,
        ;
        lemma_write_records_window(base, vs, stride, n - 1, i, k);
    }
}

/// Writes each record's 48-byte image at `stride`-byte steps into the
/// mapped view, leaving the other bytes untouched. Reports whether the
/// records fit; nothing is written when they do not.
pub fn write_vertices_strided(
    buffer: &mut VertexBuffer,
    vertices: &Vec<MeshVertexRecord>,
    stride: usize,
) -> (ok: bool)
    ensures
        ok <==> (48 <= stride && vertices@.len() * stride <= old(buffer).data@.len()),
        ok ==> final(buffer).data@ == spec_write_records(
            old(buffer).data@,
            vertices@,
            stride as int,
            vertices@.len() as int,
        ),
        !ok ==> *final(buffer) == *old(buffer),
        final(buffer).data@.len() == old(buffer).data@.len(),
{
    let n = vertices.len();
    let len = buffer.data.len();
    if stride < 48 {
        return false;
    }
    // `n <= len / stride` is exactly `n * stride <= len`, without overflow
    let fits = n <= len / stride;
    proof {
        let q = (len as int) / (stride as int);
        let r = (len as int) % (stride as int);
        vstd::arithmetic::div_mod::lemma_fundamental_div_mod(len as int, stride as int);
        assert(len as int == (stride as int) * q + r);
        assert(q * (stride as int) == (stride as int) * q) by (nonlinear_arith);
        if n <= len / stride {
            assert((n as int) * (stride as int) <= q * (stride as int)) by (nonlinear_arith)
                requires
                    n as int <= q,
                    0 <= stride as int,
            ;
        } else {
            assert((q + 1) * (stride as int) == q * (stride as int) + (stride as int))
                by (nonlinear_arith);
            assert((q + 1) * (stride as int) <= (n as int) * (stride as int)) by (nonlinear_arith)
                requires
                    q + 1 <= n as int,
                    0 <= stride as int,
            ;
        }
    }
    if !fits {
        return false;
    }
    let mut i: usize = 0;
    while i < n
        invariant
            48 <= stride,
            i <= n,
            n == vertices@.len(),
            len == old(buffer).data@.len(),
            (n as int) * (stride as int) <= len as int,
            buffer.data@ == spec_write_records(
                old(buffer).data@,
                vertices@,
                stride as int,
                i as int,
            ),
            buffer.data@.len() == len,
        decreases n - i,
    {
        let enc = encode_mesh_vertex(&vertices[i]);
        proof {
            assert((i as int) * (stride as int) + stride as int == ((i as int) + 1) * (
            stride as int)) by (nonlinear_arith);
            assert(((i as int) + 1) * (stride as int) <= (n as int) * (stride as int))
                by (nonlinear_arith)
                requires
                    (i as int) + 1 <= n as int,
                    0 <= stride as int,
            ;
            assert(0 <= (i as int) * (stride as int)) by (nonlinear_arith)
                requires
                    0 <= i as int,
                    0 <= stride as int,
            ;
        }
        let off = i * stride;
        crate::bytes::overwrite_at(&mut buffer.data, off, &enc);
        i = i + 1;
    }
    true
}

/// A CPU-side staging region for a texture update, with the row pitch the
/// backend chose for it. Created by `begin_modify_texture`, consumed exactly
/// once by the matching `end_modify_texture`.
pub struct TextureBuffer {
    /// The writable staging bytes, `row_pitch * height` of them.
    pub data: Vec<u8>,
    /// Bytes per texel row in the staging region.
    pub pitch: i32,
}

impl TextureBuffer {
    /// Allocates a zero-filled staging region.
    pub fn new(buffer_size: usize, row_pitch: i32) -> (t: TextureBuffer)
        ensures
            t.data@ == zero_seq(buffer_size as nat),
            t.pitch == row_pitch,
    {
        TextureBuffer { data: zero_bytes(buffer_size), pitch: row_pitch }
    }

    /// Bytes per texel row in the staging region.
    pub fn row_pitch(&self) -> (r: i32)
        ensures
            r == self.pitch,
    {
        self.pitch
    }
}

/// A CPU-writable image of a device vertex buffer, obtained discard-style:
/// its initial contents are all zero and carry no information. Created by
/// `begin_modify_vertex_buffer`, consumed exactly once by the matching
/// `end_modify_vertex_buffer`.
pub struct VertexBuffer {
    /// The writable bytes, as many as the device buffer holds.
    pub data: Vec<u8>,
}

impl VertexBuffer {
    pub fn new(data: Vec<u8>) -> (b: VertexBuffer)
        ensures
            b.data == data,
    {
        VertexBuffer { data }
    }

    /// The byte capacity of the mapped buffer.
    pub fn size(&self) -> (r: i32)
        requires
            self.data@.len() <= 0x7fff_ffff,
        ensures
            r == self.data@.len() as i32,
    {
        self.data.len() as i32
    }
}

/// The realized backends, dispatched as a tagged variant keyed by the
/// host-reported API kind.
pub enum RenderAPI {
    Direct3D11(crate::render_api_d3d11::RenderAPID3D11),
}

impl RenderAPI {
    /// The backend behind the tag.
    pub open spec fn backend(self) -> crate::render_api_d3d11::RenderAPID3D11 {
        match self {
            RenderAPI::Direct3D11(b) => b,
        }
    }

    pub open spec fn wf(self) -> bool {
        self.backend().wf()
    }

    pub open spec fn is_ready(self) -> bool {
        self.backend().is_ready()
    }
}

/// Constructs the backend for the host-reported API kind: an unbound
/// backend carrying the store's shaders for an API this library realizes,
/// and none otherwise.
pub fn create_render_api(api_type: GfxApi) -> (r: Option<RenderAPI>)
    ensures
        r is Some <==> api_type is Direct3D11,
        r matches Some(api) ==> {
            &&& api is Direct3D11
            &&& !api.is_ready()
            &&& api.wf()
            &&& api.backend().device is None
            &&& api.backend().pool is None
            &&& api.backend().last_draw is None
            &&& api.backend().has_valid_shaders()
            &&& api.backend().vertex_shader_blob@ == crate::shaders::spec_shader_blob(
                crate::shaders::ShaderRole::Vertex,
            )
            &&& api.backend().pixel_shader_blob@ == crate::shaders::spec_shader_blob(
                crate::shaders::ShaderRole::Pixel,
            )
        },
{
    match api_type {
        GfxApi::Direct3D11 => Some(
            RenderAPI::Direct3D11(crate::render_api_d3d11::RenderAPID3D11::new()),
        ),
        GfxApi::Vulkan => None,
        GfxApi::Null => None,
    }
}

} // verus!
