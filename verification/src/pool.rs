//! The resource pool: every device-resident object the fixed draw path
//! needs, created in one ordered pass after a device binds and torn down as
//! a whole on shutdown. A creation failure aborts the rest of the pass; no
//! partially created pool is ever handed out.

use vstd::prelude::*;

use crate::bytes::zero_seq;
use crate::shaders::valid_shader_blob;

verus! {

/// Byte capacity of the pool's dynamic vertex buffer, sized for the largest
/// simple-triangle batch.
pub const VERTEX_BUFFER_CAPACITY: usize = 1024;

/// Byte size of the constant buffer holding one 4x4 matrix.
pub const CONSTANT_BUFFER_SIZE: usize = 64;

/// Why a creation pass stopped.
#[derive(Clone, Copy, PartialEq, Eq, Structural, Debug)]
pub enum PoolError {
    /// A shader object could not be created from its bytecode blob.
    ShaderCreation,
    /// The input layout could not be bound to the vertex-shader signature.
    InputLayoutCreation,
}

/// A device shader object, holding the bytecode it was created from.
pub struct ShaderObject {
    pub code: Vec<u8>,
}

/// The vertex attributes the fixed input layout binds.
#[derive(Clone, Copy, PartialEq, Eq, Structural, Debug)]
pub enum VertexAttribute {
    Position,
    Color,
}

/// The data format of one bound attribute.
#[derive(Clone, Copy, PartialEq, Eq, Structural, Debug)]
pub enum AttributeFormat {
    /// Three 32-bit floating-point components.
    Float3,
    /// Four normalized 8-bit components.
    UnormByte4,
}

/// One attribute binding of the input layout.
#[derive(Clone, Copy, PartialEq, Eq, Structural, Debug)]
pub struct InputElementDesc {
    pub attribute: VertexAttribute,
    pub format: AttributeFormat,
    pub byte_offset: u32,
}

/// The vertex input layout: which attributes sit where in a vertex record.
pub struct InputLayout {
    pub elements: Vec<InputElementDesc>,
}

/// Fixed-function rasterizer settings of the draw path.
#[derive(Clone, Copy, PartialEq, Eq, Structural, Debug)]
pub struct RasterizerStateDesc {
    pub solid_fill: bool,
    pub culling_enabled: bool,
    pub depth_clip_enabled: bool,
}

/// Fixed-function blend settings of the draw path.
#[derive(Clone, Copy, PartialEq, Eq, Structural, Debug)]
pub struct BlendStateDesc {
    pub blend_enabled: bool,
    pub write_mask: u8,
}

/// Direction of the depth comparison.
#[derive(Clone, Copy, PartialEq, Eq, Structural, Debug)]
pub enum DepthCompare {
    GreaterEqual,
    LessEqual,
}

/// Fixed-function depth-stencil settings of the draw path.
#[derive(Clone, Copy, PartialEq, Eq, Structural, Debug)]
pub struct DepthStencilStateDesc {
    pub depth_enabled: bool,
    pub depth_write_enabled: bool,
    pub compare: DepthCompare,
}

/// All device-resident objects of the fixed draw path.
pub struct ResourcePool {
    pub vertex_buffer: Vec<u8>,
    pub constant_buffer: Vec<u8>,
    pub vertex_shader: ShaderObject,
    pub pixel_shader: ShaderObject,
    pub input_layout: InputLayout,
    pub rasterizer_state: RasterizerStateDesc,
    pub blend_state: BlendStateDesc,
    pub depth_state: DepthStencilStateDesc,
}

impl ResourcePool {
    /// The pool's buffers keep the capacities they were created with.
    pub open spec fn wf(self) -> bool {
        &&& self.vertex_buffer@.len() == VERTEX_BUFFER_CAPACITY
        &&& self.constant_buffer@.len() == CONSTANT_BUFFER_SIZE
    }
}

/// What one successful creation pass yields: zeroed buffers, shader objects
/// holding the given blobs, the two-attribute layout, and the pinned
/// fixed-function state, with the depth comparison chosen by the depth
/// convention in force.
pub open spec fn is_fresh_pool(p: ResourcePool, vs: Seq<u8>, ps: Seq<u8>, reverse_z: bool) -> bool {
    &&& p.vertex_buffer@ == zero_seq(VERTEX_BUFFER_CAPACITY as nat)
    &&& p.constant_buffer@ == zero_seq(CONSTANT_BUFFER_SIZE as nat)
    &&& p.vertex_shader.code@ == vs
    &&& p.pixel_shader.code@ == ps
    &&& p.input_layout.elements@.len() == 2
    &&& p.input_layout.elements@[0] == (InputElementDesc {
        attribute: VertexAttribute::Position,
        format: AttributeFormat::Float3,
        byte_offset: 0,
    })
    &&& p.input_layout.elements@[1] == (InputElementDesc {
        attribute: VertexAttribute::Color,
        format: AttributeFormat::UnormByte4,
        byte_offset: 12,
    })
    &&& p.rasterizer_state == (RasterizerStateDesc {
        solid_fill: true,
        culling_enabled: false,
        depth_clip_enabled: true,
    })
    &&& p.blend_state == (BlendStateDesc { blend_enabled: false, write_mask: 0xf })
    &&& p.depth_state == (DepthStencilStateDesc {
        depth_enabled: true,
        depth_write_enabled: false,
        compare: if reverse_z {
            DepthCompare::GreaterEqual
        } else {
            DepthCompare::LessEqual
        },
    })
}

/// Creates a zero-filled device buffer of the given capacity. In this model
/// plain memory allocation always succeeds.
pub fn create_gpu_buffer(byte_width: usize) -> (r: Result<Vec<u8>, PoolError>)
    ensures
        r matches Ok(v) && v@ == zero_seq(byte_width as nat),
{
    Ok(crate::bytes::zero_bytes(byte_width))
}

/// Creates a shader object from a bytecode blob; fails exactly when the
/// blob lacks the compiled-bytecode container magic.
pub fn create_shader_object(blob: &Vec<u8>) -> (r: Result<ShaderObject, PoolError>)
    ensures
        r is Ok <==> valid_shader_blob(blob@),
        r matches Ok(s) ==> s.code@ == blob@,
        r matches Err(e) ==> e == PoolError::ShaderCreation,
{
    if blob.len() >= 4 && blob[0] == 68 && blob[1] == 88 && blob[2] == 66 && blob[3] == 67 {
        let mut code: Vec<u8> = Vec::new();
        let mut i: usize = 0;
        while i < blob.len()
            invariant
                i <= blob@.len(),
                code@ == blob@.subrange(0, i as int),
            decreases blob@.len() - i,
        {
            code.push(blob[i]);
            assert(code@ =~= blob@.subrange(0, i + 1));
            i = i + 1;
        }
        assert(code@ =~= blob@);
        Ok(ShaderObject { code })
    } else {
        Err(PoolError::ShaderCreation)
    }
}

/// Creates the fixed two-attribute input layout against a vertex-shader
/// signature; fails exactly when the shader code is not valid bytecode.
pub fn create_input_layout(vertex_shader_code: &Vec<u8>) -> (r: Result<InputLayout, PoolError>)
    ensures
        r is Ok <==> valid_shader_blob(vertex_shader_code@),
        r matches Ok(l) ==> {
            &&& l.elements@.len() == 2
            &&& l.elements@[0] == (InputElementDesc {
                attribute: VertexAttribute::Position,
                format: AttributeFormat::Float3,
                byte_offset: 0,
            })
            &&& l.elements@[1] == (InputElementDesc {
                attribute: VertexAttribute::Color,
                format: AttributeFormat::UnormByte4,
                byte_offset: 12,
            })
        },
        r matches Err(e) ==> e == PoolError::InputLayoutCreation,
{
    let c = vertex_shader_code;
    if c.len() >= 4 && c[0] == 68 && c[1] == 88 && c[2] == 66 && c[3] == 67 {
        let mut elements: Vec<InputElementDesc> = Vec::new();
        elements.push(InputElementDesc {
            attribute: VertexAttribute::Position,
            format: AttributeFormat::Float3,
            byte_offset: 0,
        });
        elements.push(InputElementDesc {
            attribute: VertexAttribute::Color,
            format: AttributeFormat::UnormByte4,
            byte_offset: 12,
        });
        Ok(InputLayout { elements })
    } else {
        Err(PoolError::InputLayoutCreation)
    }
}

/// The creation pass: vertex buffer, constant buffer, shader objects, input
/// layout, then the fixed-function state objects, in that order, stopping at
/// the first failure. Succeeds exactly when both blobs are valid bytecode.
pub fn create_resources(vs_blob: &Vec<u8>, ps_blob: &Vec<u8>, uses_reverse_z: bool) -> (r: Result<
    ResourcePool,
    PoolError,
>)
    ensures
        r is Ok <==> valid_shader_blob(vs_blob@) && valid_shader_blob(ps_blob@),
        r matches Ok(p) ==> is_fresh_pool(p, vs_blob@, ps_blob@, uses_reverse_z),
        r matches Err(e) ==> e == PoolError::ShaderCreation,
{
    let vertex_buffer = match create_gpu_buffer(VERTEX_BUFFER_CAPACITY) {
        Ok(v) => v,
        Err(e) => {
            return Err(e);
        },
    };
    let constant_buffer = match create_gpu_buffer(CONSTANT_BUFFER_SIZE) {
        Ok(v) => v,
        Err(e) => {
            return Err(e);
        },
    };
    let vertex_shader = match create_shader_object(vs_blob) {
        Ok(s) => s,
        Err(e) => {
            return Err(e);
        },
    };
    let pixel_shader = match create_shader_object(ps_blob) {
        Ok(s) => s,
        Err(e) => {
            return Err(e);
        },
    };
    let input_layout = match create_input_layout(&vertex_shader.code) {
        Ok(l) => l,
        Err(_) => {
            return Err(PoolError::ShaderCreation);
        },
    };
    let rasterizer_state = RasterizerStateDesc {
        solid_fill: true,
        culling_enabled: false,
        depth_clip_enabled: true,
    };
    let depth_state = DepthStencilStateDesc {
        depth_enabled: true,
        depth_write_enabled: false,
        compare: if uses_reverse_z {
            DepthCompare::GreaterEqual
        } else {
            DepthCompare::LessEqual
        },
    };
    let blend_state = BlendStateDesc { blend_enabled: false, write_mask: 0xf };
    Ok(ResourcePool {
        vertex_buffer,
        constant_buffer,
        vertex_shader,
        pixel_shader,
        input_layout,
        rasterizer_state,
        blend_state,
        depth_state,
    })
}

} // verus!
