//! Byte-level helpers shared by the resource pool and the update protocols:
//! zero-filled buffers, little-endian encoding, in-place overwrites and byte
//! comparison, each with an exact element-wise contract.

use vstd::prelude::*;

verus! {

/// The sequence `s` with `data` written at offset `off`; bytes outside the
/// written window keep their old values.
pub open spec fn write_at(s: Seq<u8>, off: int, data: Seq<u8>) -> Seq<u8> {
    Seq::new(s.len(), |j: int| if off <= j < off + data.len() { data[j - off] } else { s[j] })
}

/// A zero-filled byte sequence of length `n`.
pub open spec fn zero_seq(n: nat) -> Seq<u8> {
    Seq::new(n, |j: int| 0u8)
}

/// The four little-endian bytes of a 32-bit value.
pub open spec fn u32_le(x: u32) -> Seq<u8> {
    seq![
        (x & 0xff) as u8,
        ((x >> 8) & 0xff) as u8,
        ((x >> 16) & 0xff) as u8,
        ((x >> 24) & 0xff) as u8,
    ]
}

/// All values of `s` encoded little-endian, in order.
pub open spec fn concat_u32_le(s: Seq<u32>) -> Seq<u8>
    decreases s.len(),
{
    if s.len() == 0 {
        Seq::empty()
    } else {
        concat_u32_le(s.drop_last()) + u32_le(s.last())
    }
}

pub proof fn lemma_concat_u32_le_len(s: Seq<u32>)
    ensures
        concat_u32_le(s).len() == 4 * s.len(),
    decreases s.len(),
{
    if s.len() > 0 {
        lemma_concat_u32_le_len(s.drop_last());
    }
}

/// Allocates a zero-filled byte buffer, the model of a freshly created
/// device-side memory region.
pub fn zero_bytes(n: usize) -> (v: Vec<u8>)
    ensures
        v@ == zero_seq(n as nat),
{
    let mut v: Vec<u8> = Vec::new();
    while v.len() < n
        invariant
            v@.len() <= n,
            v@ == zero_seq(v@.len()),
        decreases n - v@.len(),
    {
        v.push(0u8);
        assert(v@ =~= zero_seq(v@.len()));
    }
    assert(v@ =~= zero_seq(n as nat));
    v
}

/// Writes all of `src` into `dst` starting at `off`, leaving the rest of
/// `dst` unchanged.
pub fn overwrite_at(dst: &mut Vec<u8>, off: usize, src: &Vec<u8>)
    requires
        off + src@.len() <= old(dst)@.len(),
    ensures
        final(dst)@ == write_at(old(dst)@, off as int, src@),
{
    let mut k: usize = 0;
    while k < src.len()
        invariant
            off + src@.len() <= old(dst)@.len(),
            dst@.len() == old(dst)@.len(),
            k <= src@.len(),
            forall|j: int|
                0 <= j < old(dst)@.len() && !(off <= j < off + k) ==> dst@[j] == old(dst)@[j],
            forall|j: int| off <= j < off + k ==> dst@[j] == src@[j - off],
        decreases src@.len() - k,
    {
        let b = src[k];
        let n = dst.len();
        assert(off + k < n);
        dst.set(off + k, b);
        k = k + 1;
    }
    assert(dst@ =~= write_at(old(dst)@, off as int, src@));
}

/// Appends the little-endian bytes of `x`.
pub fn push_u32_le(v: &mut Vec<u8>, x: u32)
    ensures
        final(v)@ == old(v)@ + u32_le(x),
{
    assert(x & 0xff < 256 && (x >> 8) & 0xff < 256 && (x >> 16) & 0xff < 256 && (x >> 24) & 0xff
        < 256) by (bit_vector);
    v.push((x & 0xff) as u8);
    v.push(((x >> 8) & 0xff) as u8);
    v.push(((x >> 16) & 0xff) as u8);
    v.push(((x >> 24) & 0xff) as u8);
    assert(v@ =~= old(v)@ + u32_le(x));
}

/// Encodes a 4x4 matrix of 32-bit values into its 64-byte image.
pub fn encode_matrix(m: &[u32; 16]) -> (v: Vec<u8>)
    ensures
        v@ == concat_u32_le(m@),
        v@.len() == 64,
{
    let mut v: Vec<u8> = Vec::new();
    let mut i: usize = 0;
    while i < 16
        invariant
            i <= 16,
            v@ == concat_u32_le(m@.subrange(0, i as int)),
        decreases 16 - i,
    {
        let x = m[i];
        push_u32_le(&mut v, x);
        proof {
            assert(m@.subrange(0, i + 1 as int).drop_last() =~= m@.subrange(0, i as int));
        }
        i = i + 1;
    }
    proof {
        assert(m@.subrange(0, 16) =~= m@);
        lemma_concat_u32_le_len(m@);
    }
    v
}

/// Encodes a list of 32-bit values into its little-endian byte image.
pub fn encode_words(s: &Vec<u32>) -> (v: Vec<u8>)
    ensures
        v@ == concat_u32_le(s@),
        v@.len() == 4 * s@.len(),
{
    let mut v: Vec<u8> = Vec::new();
    let mut i: usize = 0;
    while i < s.len()
        invariant
            i <= s@.len(),
            v@ == concat_u32_le(s@.subrange(0, i as int)),
        decreases s@.len() - i,
    {
        let x = s[i];
        push_u32_le(&mut v, x);
        proof {
            assert(s@.subrange(0, i + 1 as int).drop_last() =~= s@.subrange(0, i as int));
        }
        i = i + 1;
    }
    proof {
        assert(s@.subrange(0, s@.len() as int) =~= s@);
        lemma_concat_u32_le_len(s@);
    }
    v
}

/// Reports whether two byte buffers hold the same bytes.
pub fn bytes_eq(a: &Vec<u8>, b: &Vec<u8>) -> (r: bool)
    ensures
        r <==> a@ == b@,
{
    if a.len() != b.len() {
        return false;
    }
    let mut i: usize = 0;
    while i < a.len()
        invariant
            i <= a@.len(),
            a@.len() == b@.len(),
            forall|j: int| 0 <= j < i ==> a@[j] == b@[j],
        decreases a@.len() - i,
    {
        if a[i] != b[i] {
            assert(a@[i as int] != b@[i as int]);
            return false;
        }
        i = i + 1;
    }
    assert(a@ =~= b@);
    true
}

} // verus!
