use vstd::prelude::*;
use crate::height::{TimeoutHeight, Timestamp};

verus! {

/// The eight big-endian bytes of `x`.
pub open spec fn be64(x: u64) -> Seq<u8> {
    seq![
        ((x / 0x0100_0000_0000_0000) % 256) as u8,
        ((x / 0x0001_0000_0000_0000) % 256) as u8,
        ((x / 0x0000_0100_0000_0000) % 256) as u8,
        ((x / 0x0000_0001_0000_0000) % 256) as u8,
        ((x / 0x0000_0000_0100_0000) % 256) as u8,
        ((x / 0x0000_0000_0001_0000) % 256) as u8,
        ((x / 0x0000_0000_0000_0100) % 256) as u8,
        (x % 256) as u8,
    ]
}

/// The bytes that are hashed into a packet commitment:
/// `be64(timeout_timestamp) ‖ be64(revision_number) ‖ be64(revision_height) ‖ data_hash`,
/// with an absent timeout height encoded as `(0, 0)`.
pub open spec fn commitment_preimage_spec(
    timeout_height: TimeoutHeight,
    timeout_timestamp: Timestamp,
    data_hash: Seq<u8>,
) -> Seq<u8> {
    be64(timeout_timestamp.nanoseconds) + be64(timeout_height.commitment_number_spec()) + be64(
        timeout_height.commitment_height_spec(),
    ) + data_hash
}

/// Appends the big-endian bytes of `x` to `out`.
pub fn push_be64(out: &mut Vec<u8>, x: u64)
    ensures
        final(out)@ == old(out)@ + be64(x),
{
    out.push((x / 0x0100_0000_0000_0000 % 256) as u8);
    out.push((x / 0x0001_0000_0000_0000 % 256) as u8);
    out.push((x / 0x0000_0100_0000_0000 % 256) as u8);
    out.push((x / 0x0000_0001_0000_0000 % 256) as u8);
    out.push((x / 0x0000_0000_0100_0000 % 256) as u8);
    out.push((x / 0x0000_0000_0001_0000 % 256) as u8);
    out.push((x / 0x0000_0000_0000_0100 % 256) as u8);
    out.push((x % 256) as u8);
    assert(final(out)@ =~= old(out)@ + be64(x));
}

/// Appends every byte of `bytes` to `out`, in order.
pub fn append_bytes(out: &mut Vec<u8>, bytes: &[u8])
    ensures
        final(out)@ == old(out)@ + bytes@,
{
    let ghost start = out@;
    let mut i: usize = 0;
    while i < bytes.len()
        invariant
            i <= bytes@.len(),
            out@ == start + bytes@.subrange(0, i as int),
        decreases bytes@.len() - i,
    {
        out.push(bytes[i]);
        i = i + 1;
        assert(out@ =~= start + bytes@.subrange(0, i as int));
    }
    assert(bytes@.subrange(0, i as int) =~= bytes@);
}

/// Builds the bytes that are hashed into a packet commitment, from the packet's
/// timeouts and the hash of its data.
pub fn commitment_preimage(
    timeout_height: &TimeoutHeight,
    timeout_timestamp: &Timestamp,
    data_hash: &[u8],
) -> (r: Vec<u8>)
    ensures
        r@ == commitment_preimage_spec(*timeout_height, *timeout_timestamp, data_hash@),
{
    let mut out: Vec<u8> = Vec::new();
    push_be64(&mut out, timeout_timestamp.nanoseconds());
    push_be64(&mut out, timeout_height.commitment_revision_number());
    push_be64(&mut out, timeout_height.commitment_revision_height());
    append_bytes(&mut out, data_hash);
    assert(out@ =~= commitment_preimage_spec(*timeout_height, *timeout_timestamp, data_hash@));
    out
}

} // verus!
