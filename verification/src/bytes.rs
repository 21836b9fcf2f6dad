//! Byte-buffer helpers used to lay out instruction data.
use vstd::prelude::*;

verus! {

/// The buffer of exactly `len` bytes that keeps the first bytes of `src`
/// and fills whatever `src` does not cover with zeros.
pub open spec fn padded(src: Seq<u8>, len: nat) -> Seq<u8> {
    Seq::new(len, |i: int| if i < src.len() { src[i] } else { 0u8 })
}

/// Copies `src` into a fresh buffer of exactly `len` bytes: longer input is
/// cut off, shorter input is followed by zero bytes.
pub fn pad_or_truncate(src: &[u8], len: usize) -> (out: Vec<u8>)
    ensures
        out@ == padded(src@, len as nat),
        out@.len() == len,
        forall|i: int| 0 <= i < len ==> #[trigger] out@[i] == (if i < src@.len() { src@[i] } else { 0u8 }),
{
    let mut out: Vec<u8> = Vec::new();
    let mut i: usize = 0;
    while i < len
        invariant
            i <= len,
            out@ == padded(src@, len as nat).take(i as int),
        decreases len - i,
    {
        let b: u8 = if i < src.len() { src[i] } else { 0u8 };
        out.push(b);
        i = i + 1;
    }
    out
}

/// The eight bytes of `v` in little-endian order: byte `i` holds bits
/// `8 * i` up to `8 * i + 7`.
pub open spec fn le_bytes(v: u64) -> Seq<u8> {
    Seq::new(8, |i: int| ((v >> ((8 * i) as u64)) & 0xff) as u8)
}

/// The number that eight little-endian bytes stand for.
pub open spec fn le_value(b: Seq<u8>) -> u64 {
    (b[0] as u64) | ((b[1] as u64) << 8u64) | ((b[2] as u64) << 16u64) | ((b[3] as u64) << 24u64)
        | ((b[4] as u64) << 32u64) | ((b[5] as u64) << 40u64) | ((b[6] as u64) << 48u64)
        | ((b[7] as u64) << 56u64)
}

/// Appends the little-endian bytes of `v` to `data`.
pub fn extend_le_u64(data: &mut Vec<u8>, v: u64)
    ensures
        final(data)@ == old(data)@ + le_bytes(v),
        final(data)@.len() == old(data)@.len() + 8,
        final(data)@.take(old(data)@.len() as int) == old(data)@,
        forall|i: int| 0 <= i < 8 ==> #[trigger] final(data)@.skip(old(data)@.len() as int)[i]
            == ((v >> ((8 * i) as u64)) & 0xff) as u8,
{
    let ghost start = data@;
    let mut i: u64 = 0;
    while i < 8
        invariant
            i <= 8,
            data@ == start + le_bytes(v).take(i as int),
        decreases 8 - i,
    {
        let b: u8 = ((v >> (8 * i)) & 0xff) as u8;
        data.push(b);
        proof {
            assert(le_bytes(v).take(i as int + 1) =~= le_bytes(v).take(i as int).push(b));
        }
        i = i + 1;
    }
    proof {
        assert(le_bytes(v).take(8) =~= le_bytes(v));
        assert(data@.take(start.len() as int) =~= start);
        assert(data@.skip(start.len() as int) =~= le_bytes(v));
    }
}

/// Laying out a buffer at length `len` twice changes nothing the second time.
pub proof fn lemma_pad_idempotent(src: Seq<u8>, len: nat)
    ensures
        padded(padded(src, len), len) == padded(src, len),
{
    assert(padded(padded(src, len), len) =~= padded(src, len));
}

/// A buffer laid out at its own length is unchanged.
pub proof fn lemma_pad_own_length(src: Seq<u8>)
    ensures
        padded(src, src.len()) == src,
{
    assert(padded(src, src.len()) =~= src);
}

/// Laying out at length `m` and then at a length `n` no greater than `m`
/// is the same as laying out at `n` at once.
pub proof fn lemma_pad_shrink(src: Seq<u8>, m: nat, n: nat)
    requires
        n <= m,
    ensures
        padded(padded(src, m), n) == padded(src, n),
{
    assert(padded(padded(src, m), n) =~= padded(src, n));
}

/// The bytes of the laid-out buffer are those of `src` up to `len`, then zeros:
/// it is the prefix of `src` followed by as many zeros as are missing.
pub proof fn lemma_pad_is_prefix_then_zeros(src: Seq<u8>, len: nat)
    ensures
        len <= src.len() ==> padded(src, len) == src.take(len as int),
        len > src.len() ==> padded(src, len) == src + Seq::new((len - src.len()) as nat, |_i: int| 0u8),
{
    if len <= src.len() {
        assert(padded(src, len) =~= src.take(len as int));
    } else {
        assert(padded(src, len) =~= src + Seq::new((len - src.len()) as nat, |_i: int| 0u8));
    }
}

/// Reading eight little-endian bytes back gives the number they were made from.
pub proof fn lemma_le_roundtrip(v: u64)
    ensures
        le_value(le_bytes(v)) == v,
{
    let b = le_bytes(v);
    assert(b[0] == ((v >> 0u64) & 0xff) as u8);
    assert(b[1] == ((v >> 8u64) & 0xff) as u8);
    assert(b[2] == ((v >> 16u64) & 0xff) as u8);
    assert(b[3] == ((v >> 24u64) & 0xff) as u8);
    assert(b[4] == ((v >> 32u64) & 0xff) as u8);
    assert(b[5] == ((v >> 40u64) & 0xff) as u8);
    assert(b[6] == ((v >> 48u64) & 0xff) as u8);
    assert(b[7] == ((v >> 56u64) & 0xff) as u8);
    assert(
        ((((v >> 0u64) & 0xff) as u8) as u64) | (((((v >> 8u64) & 0xff) as u8) as u64) << 8u64)
            | (((((v >> 16u64) & 0xff) as u8) as u64) << 16u64)
            | (((((v >> 24u64) & 0xff) as u8) as u64) << 24u64)
            | (((((v >> 32u64) & 0xff) as u8) as u64) << 32u64)
            | (((((v >> 40u64) & 0xff) as u8) as u64) << 40u64)
            | (((((v >> 48u64) & 0xff) as u8) as u64) << 48u64)
            | (((((v >> 56u64) & 0xff) as u8) as u64) << 56u64) == v
    ) by (bit_vector);
}

/// Different numbers have different little-endian bytes.
pub proof fn lemma_le_injective(v: u64, w: u64)
    requires
        le_bytes(v) == le_bytes(w),
    ensures
        v == w,
{
    lemma_le_roundtrip(v);
    lemma_le_roundtrip(w);
}

} // verus!
