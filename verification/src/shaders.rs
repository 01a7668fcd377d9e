//! Shader blob store: the precompiled vertex- and pixel-stage programs that
//! the fixed draw path uses, held as immutable byte sequences keyed by role.
//! The bytes are opaque compiled bytecode; the store only promises the
//! container magic that shader-object creation checks.

use vstd::prelude::*;

verus! {

/// The role a shader blob plays in the fixed pipeline.
#[derive(Clone, Copy, PartialEq, Eq, Structural, Debug)]
pub enum ShaderRole {
    Vertex,
    Pixel,
}

/// A blob is acceptable to shader-object creation when it starts with the
/// four-byte container magic of compiled bytecode.
pub open spec fn valid_shader_blob(b: Seq<u8>) -> bool {
    &&& b.len() >= 4
    &&& b[0] == 68u8
    &&& b[1] == 88u8
    &&& b[2] == 66u8
    &&& b[3] == 67u8
}

/// The bytes the store holds for `role`.
pub open spec fn spec_shader_blob(role: ShaderRole) -> Seq<u8> {
    match role {
        ShaderRole::Vertex => VERTEX_SHADER_CODE@,
        ShaderRole::Pixel => PIXEL_SHADER_CODE@,
    }
}

/// Returns a copy of the stored blob for `role`.
pub fn shader_blob(role: ShaderRole) -> (v: Vec<u8>)
    ensures
        v@ == spec_shader_blob(role),
{
    let mut v: Vec<u8> = Vec::new();
    match role {
        ShaderRole::Vertex => {
            let mut i: usize = 0;
            while i < 680
                invariant
                    i <= 680,
                    v@ == VERTEX_SHADER_CODE@.subrange(0, i as int),
                decreases 680 - i,
            {
                v.push(VERTEX_SHADER_CODE[i]);
                assert(v@ =~= VERTEX_SHADER_CODE@.subrange(0, i + 1));
                i = i + 1;
            }
            assert(v@ =~= VERTEX_SHADER_CODE@);
        }
        ShaderRole::Pixel => {
            let mut i: usize = 0;
            while i < 288
                invariant
                    i <= 288,
                    v@ == PIXEL_SHADER_CODE@.subrange(0, i as int),
                decreases 288 - i,
            {
                v.push(PIXEL_SHADER_CODE[i]);
                assert(v@ =~= PIXEL_SHADER_CODE@.subrange(0, i + 1));
                i = i + 1;
            }
            assert(v@ =~= PIXEL_SHADER_CODE@);
        }
    }
    v
}

/// Both stored blobs carry the container magic, so shader-object creation
/// from the store succeeds.
pub proof fn lemma_store_blobs_valid()
    ensures
        valid_shader_blob(spec_shader_blob(ShaderRole::Vertex)),
        valid_shader_blob(spec_shader_blob(ShaderRole::Pixel)),
{
    assert(VERTEX_SHADER_CODE@[0] == 68u8);
    assert(VERTEX_SHADER_CODE@[1] == 88u8);
    assert(VERTEX_SHADER_CODE@[2] == 66u8);
    assert(VERTEX_SHADER_CODE@[3] == 67u8);
    assert(PIXEL_SHADER_CODE@[0] == 68u8);
    assert(PIXEL_SHADER_CODE@[1] == 88u8);
    assert(PIXEL_SHADER_CODE@[2] == 66u8);
    assert(PIXEL_SHADER_CODE@[3] == 67u8);
}

pub const VERTEX_SHADER_CODE: [u8; 680] = [
    68, 88, 66, 67, 86, 189, 21, 50, 166, 106, 171, 1, 10, 62, 115, 48, 224, 137, 163, 129,
    1, 0, 0, 0, 168, 2, 0, 0, 4, 0, 0, 0, 48, 0, 0, 0, 0, 1, 0, 0,
    4, 2, 0, 0, 84, 2, 0, 0, 65, 111, 110, 57, 200, 0, 0, 0, 200, 0, 0, 0,
    0, 2, 254, 255, 148, 0, 0, 0, 52, 0, 0, 0, 1, 0, 36, 0, 0, 0, 48, 0,
    0, 0, 48, 0, 0, 0, 36, 0, 1, 0, 48, 0, 0, 0, 0, 0, 4, 0, 1, 0,
    0, 0, 0, 0, 0, 0, 0, 0, 1, 2, 254, 255, 31, 0, 0, 2, 5, 0, 0, 128,
    0, 0, 15, 144, 31, 0, 0, 2, 5, 0, 1, 128, 1, 0, 15, 144, 5, 0, 0, 3,
    0, 0, 15, 128, 0, 0, 85, 144, 2, 0, 228, 160, 4, 0, 0, 4, 0, 0, 15, 128,
    1, 0, 228, 160, 0, 0, 0, 144, 0, 0, 228, 128, 4, 0, 0, 4, 0, 0, 15, 128,
    3, 0, 228, 160, 0, 0, 170, 144, 0, 0, 228, 128, 2, 0, 0, 3, 0, 0, 15, 128,
    0, 0, 228, 128, 4, 0, 228, 160, 4, 0, 0, 4, 0, 0, 3, 192, 0, 0, 255, 128,
    0, 0, 228, 160, 0, 0, 228, 128, 1, 0, 0, 2, 0, 0, 12, 192, 0, 0, 228, 128,
    1, 0, 0, 2, 0, 0, 15, 224, 1, 0, 228, 144, 255, 255, 0, 0, 83, 72, 68, 82,
    252, 0, 0, 0, 64, 0, 1, 0, 63, 0, 0, 0, 89, 0, 0, 4, 70, 142, 32, 0,
    0, 0, 0, 0, 4, 0, 0, 0, 95, 0, 0, 3, 114, 16, 16, 0, 0, 0, 0, 0,
    95, 0, 0, 3, 242, 16, 16, 0, 1, 0, 0, 0, 101, 0, 0, 3, 242, 32, 16, 0,
    0, 0, 0, 0, 103, 0, 0, 4, 242, 32, 16, 0, 1, 0, 0, 0, 1, 0, 0, 0,
    104, 0, 0, 2, 1, 0, 0, 0, 54, 0, 0, 5, 242, 32, 16, 0, 0, 0, 0, 0,
    70, 30, 16, 0, 1, 0, 0, 0, 56, 0, 0, 8, 242, 0, 16, 0, 0, 0, 0, 0,
    86, 21, 16, 0, 0, 0, 0, 0, 70, 142, 32, 0, 0, 0, 0, 0, 1, 0, 0, 0,
    50, 0, 0, 10, 242, 0, 16, 0, 0, 0, 0, 0, 70, 142, 32, 0, 0, 0, 0, 0,
    0, 0, 0, 0, 6, 16, 16, 0, 0, 0, 0, 0, 70, 14, 16, 0, 0, 0, 0, 0,
    50, 0, 0, 10, 242, 0, 16, 0, 0, 0, 0, 0, 70, 142, 32, 0, 0, 0, 0, 0,
    2, 0, 0, 0, 166, 26, 16, 0, 0, 0, 0, 0, 70, 14, 16, 0, 0, 0, 0, 0,
    0, 0, 0, 8, 242, 32, 16, 0, 1, 0, 0, 0, 70, 14, 16, 0, 0, 0, 0, 0,
    70, 142, 32, 0, 0, 0, 0, 0, 3, 0, 0, 0, 62, 0, 0, 1, 73, 83, 71, 78,
    72, 0, 0, 0, 2, 0, 0, 0, 8, 0, 0, 0, 56, 0, 0, 0, 0, 0, 0, 0,
    0, 0, 0, 0, 3, 0, 0, 0, 0, 0, 0, 0, 7, 7, 0, 0, 65, 0, 0, 0,
    0, 0, 0, 0, 0, 0, 0, 0, 3, 0, 0, 0, 1, 0, 0, 0, 15, 15, 0, 0,
    80, 79, 83, 73, 84, 73, 79, 78, 0, 67, 79, 76, 79, 82, 0, 171, 79, 83, 71, 78,
    76, 0, 0, 0, 2, 0, 0, 0, 8, 0, 0, 0, 56, 0, 0, 0, 0, 0, 0, 0,
    0, 0, 0, 0, 3, 0, 0, 0, 0, 0, 0, 0, 15, 0, 0, 0, 62, 0, 0, 0,
    0, 0, 0, 0, 1, 0, 0, 0, 3, 0, 0, 0, 1, 0, 0, 0, 15, 0, 0, 0,
    67, 79, 76, 79, 82, 0, 83, 86, 95, 80, 111, 115, 105, 116, 105, 111, 110, 0, 171, 171,
];

pub const PIXEL_SHADER_CODE: [u8; 288] = [
    68, 88, 66, 67, 196, 65, 213, 199, 14, 78, 29, 150, 87, 236, 231, 156, 203, 125, 244, 112,
    1, 0, 0, 0, 32, 1, 0, 0, 4, 0, 0, 0, 48, 0, 0, 0, 124, 0, 0, 0,
    188, 0, 0, 0, 236, 0, 0, 0, 65, 111, 110, 57, 68, 0, 0, 0, 68, 0, 0, 0,
    0, 2, 255, 255, 32, 0, 0, 0, 36, 0, 0, 0, 0, 0, 36, 0, 0, 0, 36, 0,
    0, 0, 36, 0, 0, 0, 36, 0, 0, 0, 36, 0, 1, 2, 255, 255, 31, 0, 0, 2,
    0, 0, 0, 128, 0, 0, 15, 176, 1, 0, 0, 2, 0, 8, 15, 128, 0, 0, 228, 176,
    255, 255, 0, 0, 83, 72, 68, 82, 56, 0, 0, 0, 64, 0, 0, 0, 14, 0, 0, 0,
    98, 16, 0, 3, 242, 16, 16, 0, 0, 0, 0, 0, 101, 0, 0, 3, 242, 32, 16, 0,
    0, 0, 0, 0, 54, 0, 0, 5, 242, 32, 16, 0, 0, 0, 0, 0, 70, 30, 16, 0,
    0, 0, 0, 0, 62, 0, 0, 1, 73, 83, 71, 78, 40, 0, 0, 0, 1, 0, 0, 0,
    8, 0, 0, 0, 32, 0, 0, 0, 0, 0, 0, 0, 0, 0, 0, 0, 3, 0, 0, 0,
    0, 0, 0, 0, 15, 15, 0, 0, 67, 79, 76, 79, 82, 0, 171, 171, 79, 83, 71, 78,
    44, 0, 0, 0, 1, 0, 0, 0, 8, 0, 0, 0, 32, 0, 0, 0, 0, 0, 0, 0,
    0, 0, 0, 0, 3, 0, 0, 0, 0, 0, 0, 0, 15, 0, 0, 0, 83, 86, 95, 84,
    65, 82, 71, 69, 84, 0, 171, 171,
];
} // verus!
