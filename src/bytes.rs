use vstd::prelude::*;

verus! {

/// The unsigned integer whose little-endian encoding is `b[0..8]`.
pub open spec fn u64_le(b: Seq<u8>) -> u64
    recommends
        b.len() >= 8,
{
    (b[0] as u64) | ((b[1] as u64) << 8u64) | ((b[2] as u64) << 16u64) | ((b[3] as u64) << 24u64)
        | ((b[4] as u64) << 32u64) | ((b[5] as u64) << 40u64) | ((b[6] as u64) << 48u64) | ((
    b[7] as u64) << 56u64)
}

/// The eight little-endian bytes of `v`.
pub open spec fn u64_le_bytes(v: u64) -> Seq<u8> {
    seq![
        (v & 0xff) as u8,
        ((v >> 8u64) & 0xff) as u8,
        ((v >> 16u64) & 0xff) as u8,
        ((v >> 24u64) & 0xff) as u8,
        ((v >> 32u64) & 0xff) as u8,
        ((v >> 40u64) & 0xff) as u8,
        ((v >> 48u64) & 0xff) as u8,
        ((v >> 56u64) & 0xff) as u8,
    ]
}

/// Reads the little-endian `u64` at `data[at..at + 8]`.
pub fn read_u64_le(data: &[u8], at: usize) -> (r: u64)
    requires
        at + 8 <= data@.len(),
    ensures
        r == u64_le(data@.subrange(at as int, at + 8)),
{
    let b0 = data[at] as u64;
    let b1 = data[at + 1] as u64;
    let b2 = data[at + 2] as u64;
    let b3 = data[at + 3] as u64;
    let b4 = data[at + 4] as u64;
    let b5 = data[at + 5] as u64;
    let b6 = data[at + 6] as u64;
    let b7 = data[at + 7] as u64;
    b0 | (b1 << 8u64) | (b2 << 16u64) | (b3 << 24u64) | (b4 << 32u64) | (b5 << 40u64) | (b6
        << 48u64) | (b7 << 56u64)
}

/// Appends the little-endian bytes of `v` to `out`.
pub fn push_u64_le(out: &mut Vec<u8>, v: u64)
    ensures
        final(out)@ == old(out)@ + u64_le_bytes(v),
{
    out.push((v & 0xff) as u8);
    out.push(((v >> 8u64) & 0xff) as u8);
    out.push(((v >> 16u64) & 0xff) as u8);
    out.push(((v >> 24u64) & 0xff) as u8);
    out.push(((v >> 32u64) & 0xff) as u8);
    out.push(((v >> 40u64) & 0xff) as u8);
    out.push(((v >> 48u64) & 0xff) as u8);
    out.push(((v >> 56u64) & 0xff) as u8);
    assert(final(out)@ =~= old(out)@ + u64_le_bytes(v));
}

/// Decoding the encoding of `v` gives `v` back.
pub proof fn lemma_u64_le_round_trip(v: u64)
    ensures
        u64_le(u64_le_bytes(v)) == v,
{
    let b = u64_le_bytes(v);
    assert(((v & 0xff) as u8 as u64) | ((((v >> 8u64) & 0xff) as u8 as u64) << 8u64) | ((((v
        >> 16u64) & 0xff) as u8 as u64) << 16u64) | ((((v >> 24u64) & 0xff) as u8 as u64)
        << 24u64) | ((((v >> 32u64) & 0xff) as u8 as u64) << 32u64) | ((((v >> 40u64) & 0xff)
        as u8 as u64) << 40u64) | ((((v >> 48u64) & 0xff) as u8 as u64) << 48u64) | ((((v
        >> 56u64) & 0xff) as u8 as u64) << 56u64) == v) by (bit_vector);
}

} // verus!
