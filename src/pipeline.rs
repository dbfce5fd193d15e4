//! Packet handlers: what a send or a receive decides, from the store as the
//! reader shows it, before the keeper writes the outcome.

use vstd::prelude::*;
use crate::channel::{ChannelEnd, ChannelEndView, ChannelIdState, ChannelResult, ChannelState, Order};
use crate::commitment::commitment_preimage_spec;
use crate::context::{channel_result_applied, packet_result_applied, ChannelReader, SendPacketReader};
use crate::height::Height;
use crate::packet::{
    AckPacketResult, Packet, PacketError, PacketResult, Receipt, RecvPacketResult, SendPacketResult,
    TimeoutPacketResult, WriteAckPacketResult,
};

verus! {

/// The channel end leads to the packet's counterparty over at least one connection.
pub open spec fn counterparty_matches(ch: ChannelEndView, port: Seq<char>, chan: Seq<char>) -> bool {
    &&& ch.remote_port == port
    &&& ch.remote_channel == Some(chan)
    &&& ch.hops.len() > 0
}

/// Every check of a packet send passes on the store that `ctx` shows.
pub open spec fn send_packet_accepted<C: SendPacketReader>(ctx: C, p: Packet) -> bool {
    let key = (p.port_id_on_a@, p.chan_id_on_a@);
    ctx.send_channels().contains_key(key) && {
        let ch = ctx.send_channels()[key];
        ch.state == ChannelState::Open && counterparty_matches(
            ch,
            p.port_id_on_b@,
            p.chan_id_on_b@,
        ) && ctx.send_connections().contains_key(ch.hops[0]) && {
            let conn = ctx.send_connections()[ch.hops[0]];
            conn.state == crate::connection::ConnectionState::Open
                && ctx.send_client_states().contains_key(conn.client_id) && {
                let cs = ctx.send_client_states()[conn.client_id];
                !cs.frozen && !(p.timeout_height_on_b == crate::height::TimeoutHeight::Never
                    && p.timeout_timestamp_on_b.nanoseconds == 0)
                    && !p.timeout_height_on_b.has_expired_spec(cs.latest_height)
                    && ctx.send_consensus_states().contains_key((conn.client_id, cs.latest_height))
                    && !p.timeout_timestamp_on_b.has_expired_spec(
                    ctx.send_consensus_states()[(conn.client_id, cs.latest_height)].timestamp,
                ) && ctx.send_next_sends().contains_key(key) && p.sequence
                    == ctx.send_next_sends()[key] && p.sequence < u64::MAX
            }
        }
    }
}

/// Sends a packet: checks the channel, connection, client and timeouts, takes
/// the next send sequence and computes the packet's commitment.
pub fn send_packet<C: SendPacketReader>(ctx: &C, packet: &Packet) -> (r: Result<
    SendPacketResult,
    PacketError,
>)
    ensures
        r is Ok <==> send_packet_accepted(*ctx, *packet),
        r is Ok ==> ({
            let s = r->Ok_0;
            &&& s.port_id@ == packet.port_id_on_a@
            &&& s.channel_id@ == packet.chan_id_on_a@
            &&& s.seq == packet.sequence
            &&& s.seq_number == packet.sequence + 1
            &&& s.commitment@ == ctx.send_hash_spec(
                commitment_preimage_spec(
                    packet.timeout_height_on_b,
                    packet.timeout_timestamp_on_b,
                    ctx.send_hash_spec(packet.data@),
                ),
            )
        }),
        ctx.send_channels().contains_key((packet.port_id_on_a@, packet.chan_id_on_a@))
            && ctx.send_channels()[(packet.port_id_on_a@, packet.chan_id_on_a@)].state
            == ChannelState::Closed ==> (r matches Err(PacketError::ChannelClosed)),
{
    let ch = SendPacketReader::channel_end(ctx, &packet.port_id_on_a, &packet.chan_id_on_a)?;
    if ch.state == ChannelState::Closed {
        return Err(PacketError::ChannelClosed);
    }
    if ch.state != ChannelState::Open {
        return Err(PacketError::ChannelNotOpen);
    }
    if !counterparty_ok(&ch, &packet.port_id_on_b, &packet.chan_id_on_b) {
        return Err(PacketError::InvalidPacketCounterparty);
    }
    let conn = SendPacketReader::connection_end(ctx, &ch.connection_hops[0])?;
    if conn.state != crate::connection::ConnectionState::Open {
        return Err(PacketError::ConnectionNotOpen);
    }
    let cs = SendPacketReader::client_state(ctx, &conn.client_id)?;
    if cs.frozen {
        return Err(PacketError::ClientFrozen);
    }
    if packet.timeout_height_on_b == crate::height::TimeoutHeight::Never
        && packet.timeout_timestamp_on_b.nanoseconds == 0 {
        return Err(PacketError::MissingTimeout);
    }
    if packet.timeout_height_on_b.has_expired(&cs.latest_height) {
        return Err(PacketError::LowPacketHeight { chain_height: cs.latest_height });
    }
    let consensus = SendPacketReader::client_consensus_state(ctx, &conn.client_id, &cs.latest_height)?;
    if packet.timeout_timestamp_on_b.has_expired(&consensus.timestamp) {
        return Err(PacketError::LowPacketTimestamp);
    }
    let next = SendPacketReader::get_next_sequence_send(ctx, &packet.port_id_on_a, &packet.chan_id_on_a)?;
    if packet.sequence != next {
        return Err(PacketError::InvalidPacketSequence { given: packet.sequence, next });
    }
    if packet.sequence == u64::MAX {
        return Err(PacketError::SequenceOverflow);
    }
    let commitment = SendPacketReader::packet_commitment(
        ctx,
        packet.data.as_slice(),
        &packet.timeout_height_on_b,
        &packet.timeout_timestamp_on_b,
    );
    Ok(
        SendPacketResult {
            port_id: packet.port_id_on_a.clone(),
            channel_id: packet.chan_id_on_a.clone(),
            seq: packet.sequence,
            seq_number: packet.sequence + 1,
            commitment,
        },
    )
}

/// Whether the channel end leads to `(port, chan)` over at least one connection.
pub fn counterparty_ok(ch: &ChannelEnd, port: &String, chan: &String) -> (r: bool)
    ensures
        r == counterparty_matches(ch@, port@, chan@),
{
    if ch.connection_hops.len() == 0 || ch.remote.port_id != *port {
        return false;
    }
    match &ch.remote.channel_id {
        Some(c) => *c == *chan,
        None => false,
    }
}

/// The result a successful receive of `p` produces.
pub open spec fn recv_result_spec(ordering: Order, p: Packet) -> RecvPacketResult {
    match ordering {
        Order::Ordered => RecvPacketResult::Ordered {
            port_id: p.port_id_on_b,
            channel_id: p.chan_id_on_b,
            next_seq_recv: (p.sequence + 1) as u64,
        },
        Order::Unordered => RecvPacketResult::Unordered {
            port_id: p.port_id_on_b,
            channel_id: p.chan_id_on_b,
            sequence: p.sequence,
            receipt: Receipt::Present,
        },
    }
}

/// Every check of a packet receive passes on the store that `ctx` shows: the
/// channel and connection are open, the packet has not expired, and the
/// packet is the next one (ordered) or has no receipt yet (unordered).
pub open spec fn recv_packet_accepted<C: ChannelReader>(ctx: C, p: Packet) -> bool {
    let key = (p.port_id_on_b@, p.chan_id_on_b@);
    ctx.channels().contains_key(key) && {
        let ch = ctx.channels()[key];
        ch.state == ChannelState::Open && counterparty_matches(ch, p.port_id_on_a@, p.chan_id_on_a@)
            && ctx.connections().contains_key(ch.hops[0])
            && ctx.connections()[ch.hops[0]].state
            == crate::connection::ConnectionState::Open && ctx.host_height_spec() is Some
            && !p.timeout_height_on_b.has_expired_spec(ctx.host_height_spec()->Some_0)
            && ctx.pending_host_state() is Some && !p.timeout_timestamp_on_b.has_expired_spec(
            ctx.pending_host_state()->Some_0.timestamp,
        ) && match ch.ordering {
            Order::Ordered => ctx.next_recvs().contains_key(key) && p.sequence
                == ctx.next_recvs()[key] && p.sequence < u64::MAX,
            Order::Unordered => !ctx.receipts().contains((key.0, key.1, p.sequence)),
        }
    }
}

/// Receives a packet on chain B: checks the channel, connection and timeouts,
/// then rejects a packet out of order (ordered channel) or already received
/// (unordered channel).
pub fn recv_packet<C: ChannelReader>(ctx: &C, packet: &Packet) -> (r: Result<
    RecvPacketResult,
    PacketError,
>)
    ensures
        r is Ok <==> recv_packet_accepted(*ctx, *packet),
        r is Ok ==> r->Ok_0 == recv_result_spec(
            ctx.channels()[(packet.port_id_on_b@, packet.chan_id_on_b@)].ordering,
            *packet,
        ),
{
    let ch = match ChannelReader::channel_end(ctx, &packet.port_id_on_b, &packet.chan_id_on_b) {
        Ok(c) => c,
        Err(e) => return Err(PacketError::Channel(e)),
    };
    if ch.state != ChannelState::Open {
        return Err(PacketError::ChannelNotOpen);
    }
    if !counterparty_ok(&ch, &packet.port_id_on_a, &packet.chan_id_on_a) {
        return Err(PacketError::InvalidPacketCounterparty);
    }
    let conn = match ChannelReader::connection_end(ctx, &ch.connection_hops[0]) {
        Ok(c) => c,
        Err(e) => return Err(PacketError::Channel(e)),
    };
    if conn.state != crate::connection::ConnectionState::Open {
        return Err(PacketError::ConnectionNotOpen);
    }
    let host_height = match ctx.host_height() {
        Ok(h) => h,
        Err(e) => return Err(PacketError::Channel(e)),
    };
    if packet.timeout_height_on_b.has_expired(&host_height) {
        return Err(PacketError::PacketExpired);
    }
    let host_timestamp = match ctx.host_timestamp() {
        Ok(t) => t,
        Err(e) => return Err(PacketError::Channel(e)),
    };
    if packet.timeout_timestamp_on_b.has_expired(&host_timestamp) {
        return Err(PacketError::PacketExpired);
    }
    match ch.ordering {
        Order::Ordered => {
            let next = ctx.get_next_sequence_recv(&packet.port_id_on_b, &packet.chan_id_on_b)?;
            if packet.sequence != next {
                return Err(PacketError::InvalidPacketSequence { given: packet.sequence, next });
            }
            if packet.sequence == u64::MAX {
                return Err(PacketError::SequenceOverflow);
            }
            Ok(
                RecvPacketResult::Ordered {
                    port_id: packet.port_id_on_b.clone(),
                    channel_id: packet.chan_id_on_b.clone(),
                    next_seq_recv: packet.sequence + 1,
                },
            )
        },
        Order::Unordered => {
            let receipt = ctx.get_packet_receipt(
                &packet.port_id_on_b,
                &packet.chan_id_on_b,
                packet.sequence,
            );
            if receipt.is_ok() {
                return Err(PacketError::PacketAlreadyReceived { sequence: packet.sequence });
            }
            Ok(
                RecvPacketResult::Unordered {
                    port_id: packet.port_id_on_b.clone(),
                    channel_id: packet.chan_id_on_b.clone(),
                    sequence: packet.sequence,
                    receipt: Receipt::Present,
                },
            )
        },
    }
}

/// Whether two byte strings are equal.
pub fn bytes_equal(a: &[u8], b: &[u8]) -> (r: bool)
    ensures
        r == (a@ == b@),
{
    if a.len() != b.len() {
        return false;
    }
    let mut i: usize = 0;
    while i < a.len()
        invariant
            a@.len() == b@.len(),
            i <= a@.len(),
            forall|j: int| 0 <= j < i ==> a@[j] == b@[j],
        decreases a@.len() - i,
    {
        if a[i] != b[i] {
            return false;
        }
        i = i + 1;
    }
    assert(a@ =~= b@);
    true
}

/// The commitment stored for `p` on the sending chain matches `p`: the packet
/// being acknowledged or timed out is the one that was sent.
pub open spec fn commitment_matches<C: ChannelReader>(ctx: C, p: Packet) -> bool {
    let k = (p.port_id_on_a@, p.chan_id_on_a@, p.sequence);
    &&& ctx.commitments().contains_key(k)
    &&& ctx.commitments()[k] == ctx.hash_spec(
        commitment_preimage_spec(
            p.timeout_height_on_b,
            p.timeout_timestamp_on_b,
            ctx.hash_spec(p.data@),
        ),
    )
}

/// The sending end of `p` is open, leads to its counterparty, and its
/// connection is open.
pub open spec fn sender_end_open<C: ChannelReader>(ctx: C, p: Packet) -> bool {
    let key = (p.port_id_on_a@, p.chan_id_on_a@);
    &&& ctx.channels().contains_key(key)
    &&& ctx.channels()[key].state == ChannelState::Open
    &&& counterparty_matches(ctx.channels()[key], p.port_id_on_b@, p.chan_id_on_b@)
    &&& ctx.connections().contains_key(ctx.channels()[key].hops[0])
    &&& ctx.connections()[ctx.channels()[key].hops[0]].state
        == crate::connection::ConnectionState::Open
}

/// Every check of an acknowledgement of `p` passes on the sending chain.
pub open spec fn ack_packet_accepted<C: ChannelReader>(ctx: C, p: Packet) -> bool {
    let key = (p.port_id_on_a@, p.chan_id_on_a@);
    &&& sender_end_open(ctx, p)
    &&& commitment_matches(ctx, p)
    &&& (ctx.channels()[key].ordering == Order::Ordered ==> ctx.next_acks().contains_key(key)
        && p.sequence == ctx.next_acks()[key] && p.sequence < u64::MAX)
}

/// Processes an acknowledgement of `p` on the sending chain: the stored
/// commitment must match the packet, and on an ordered channel the packet must
/// be the next to be acknowledged.
pub fn acknowledge_packet<C: ChannelReader>(ctx: &C, packet: &Packet) -> (r: Result<
    AckPacketResult,
    PacketError,
>)
    ensures
        r is Ok <==> ack_packet_accepted(*ctx, *packet),
        r is Ok ==> ({
            let a = r->Ok_0;
            let key = (packet.port_id_on_a@, packet.chan_id_on_a@);
            &&& a.port_id@ == key.0
            &&& a.channel_id@ == key.1
            &&& a.seq == packet.sequence
            &&& a.seq_number == if ctx.channels()[key].ordering == Order::Ordered {
                Some((packet.sequence + 1) as u64)
            } else {
                None
            }
        }),
{
    let ch = open_sender_end(ctx, packet)?;
    check_commitment(ctx, packet)?;
    let seq_number = match ch.ordering {
        Order::Ordered => {
            let next = ctx.get_next_sequence_ack(&packet.port_id_on_a, &packet.chan_id_on_a)?;
            if packet.sequence != next {
                return Err(PacketError::InvalidPacketSequence { given: packet.sequence, next });
            }
            if packet.sequence == u64::MAX {
                return Err(PacketError::SequenceOverflow);
            }
            Some(packet.sequence + 1)
        },
        Order::Unordered => None,
    };
    Ok(
        AckPacketResult {
            port_id: packet.port_id_on_a.clone(),
            channel_id: packet.chan_id_on_a.clone(),
            seq: packet.sequence,
            seq_number,
        },
    )
}

/// Reads the sending end of `packet` and checks that it and its connection are open.
fn open_sender_end<C: ChannelReader>(ctx: &C, packet: &Packet) -> (r: Result<ChannelEnd, PacketError>)
    ensures
        r is Ok <==> sender_end_open(*ctx, *packet),
        r is Ok ==> r->Ok_0@ == ctx.channels()[(packet.port_id_on_a@, packet.chan_id_on_a@)],
{
    let ch = match ChannelReader::channel_end(ctx, &packet.port_id_on_a, &packet.chan_id_on_a) {
        Ok(c) => c,
        Err(e) => return Err(PacketError::Channel(e)),
    };
    if ch.state != ChannelState::Open {
        return Err(PacketError::ChannelNotOpen);
    }
    if !counterparty_ok(&ch, &packet.port_id_on_b, &packet.chan_id_on_b) {
        return Err(PacketError::InvalidPacketCounterparty);
    }
    let conn = match ChannelReader::connection_end(ctx, &ch.connection_hops[0]) {
        Ok(c) => c,
        Err(e) => return Err(PacketError::Channel(e)),
    };
    if conn.state != crate::connection::ConnectionState::Open {
        return Err(PacketError::ConnectionNotOpen);
    }
    Ok(ch)
}

/// Checks that the stored commitment for `packet` matches it.
fn check_commitment<C: ChannelReader>(ctx: &C, packet: &Packet) -> (r: Result<(), PacketError>)
    ensures
        r is Ok <==> commitment_matches(*ctx, *packet),
{
    let stored = ctx.get_packet_commitment(
        &packet.port_id_on_a,
        &packet.chan_id_on_a,
        packet.sequence,
    )?;
    let expected = ChannelReader::packet_commitment(
        ctx,
        packet.data.as_slice(),
        &packet.timeout_height_on_b,
        &packet.timeout_timestamp_on_b,
    );
    if !bytes_equal(stored.as_slice(), expected.as_slice()) {
        return Err(PacketError::IncorrectPacketCommitment { sequence: packet.sequence });
    }
    Ok(())
}

/// Every check of a timeout of `p` passes on the sending chain, given the
/// counterparty height at which its state was proved and the counterparty's
/// next receive sequence there.
pub open spec fn timeout_packet_accepted<C: ChannelReader>(
    ctx: C,
    p: Packet,
    proof_height: Height,
    next_seq_recv_on_b: u64,
) -> bool {
    let key = (p.port_id_on_a@, p.chan_id_on_a@);
    let client = ctx.connections()[ctx.channels()[key].hops[0]].client_id;
    &&& sender_end_open(ctx, p)
    &&& commitment_matches(ctx, p)
    &&& ctx.consensus_states().contains_key((client, proof_height))
    &&& (p.timeout_height_on_b.has_expired_spec(proof_height)
        || p.timeout_timestamp_on_b.has_expired_spec(
        ctx.consensus_states()[(client, proof_height)].timestamp,
    ))
    &&& (ctx.channels()[key].ordering == Order::Ordered ==> next_seq_recv_on_b <= p.sequence)
}

/// Processes a timeout of `p` on the sending chain: the stored commitment must
/// match the packet and the counterparty must have passed the packet's timeout
/// at `proof_height`. On an ordered channel the counterparty must not have
/// received it, and the channel closes.
pub fn timeout_packet<C: ChannelReader>(
    ctx: &C,
    packet: &Packet,
    proof_height: Height,
    next_seq_recv_on_b: u64,
) -> (r: Result<TimeoutPacketResult, PacketError>)
    ensures
        r is Ok <==> timeout_packet_accepted(*ctx, *packet, proof_height, next_seq_recv_on_b),
        r is Ok ==> ({
            let t = r->Ok_0;
            let key = (packet.port_id_on_a@, packet.chan_id_on_a@);
            let ch = ctx.channels()[key];
            &&& t.port_id@ == key.0
            &&& t.channel_id@ == key.1
            &&& t.seq == packet.sequence
            &&& (ch.ordering == Order::Unordered ==> t.channel is None)
            &&& (ch.ordering == Order::Ordered ==> t.channel is Some && t.channel->Some_0@ == (
            ChannelEndView { state: ChannelState::Closed, ..ch }))
        }),
{
    let ch = open_sender_end(ctx, packet)?;
    check_commitment(ctx, packet)?;
    let conn = match ChannelReader::connection_end(ctx, &ch.connection_hops[0]) {
        Ok(c) => c,
        Err(e) => return Err(PacketError::Channel(e)),
    };
    let consensus = match ChannelReader::client_consensus_state(ctx, &conn.client_id, &proof_height) {
        Ok(c) => c,
        Err(e) => return Err(PacketError::Channel(e)),
    };
    if !packet.timeout_height_on_b.has_expired(&proof_height)
        && !packet.timeout_timestamp_on_b.has_expired(&consensus.timestamp) {
        return Err(PacketError::PacketTimeoutNotReached);
    }
    let channel = match ch.ordering {
        Order::Ordered => {
            if next_seq_recv_on_b > packet.sequence {
                return Err(
                    PacketError::PacketAlreadyReceivedOnCounterparty { sequence: packet.sequence },
                );
            }
            Some(
                ChannelEnd {
                    state: ChannelState::Closed,
                    ordering: ch.ordering,
                    remote: ch.remote,
                    connection_hops: ch.connection_hops,
                    version: ch.version,
                },
            )
        },
        Order::Unordered => None,
    };
    Ok(
        TimeoutPacketResult {
            port_id: packet.port_id_on_a.clone(),
            channel_id: packet.chan_id_on_a.clone(),
            seq: packet.sequence,
            channel,
        },
    )
}

/// Writing an acknowledgement of `p` is accepted on the receiving chain: the
/// acknowledgement is not empty, the receiving end exists and none was written
/// for this packet yet.
pub open spec fn write_ack_accepted<C: ChannelReader>(ctx: C, p: Packet, ack: Seq<u8>) -> bool {
    &&& ack.len() > 0
    &&& ctx.channels().contains_key((p.port_id_on_b@, p.chan_id_on_b@))
    &&& !ctx.acks().contains_key((p.port_id_on_b@, p.chan_id_on_b@, p.sequence))
}

/// Records the acknowledgement a module produced for a received packet: its
/// commitment is the hash of its bytes.
pub fn write_acknowledgement<C: ChannelReader>(ctx: &C, packet: &Packet, ack: &[u8]) -> (r: Result<
    WriteAckPacketResult,
    PacketError,
>)
    ensures
        r is Ok <==> write_ack_accepted(*ctx, *packet, ack@),
        r is Ok ==> ({
            let w = r->Ok_0;
            &&& w.port_id@ == packet.port_id_on_b@
            &&& w.channel_id@ == packet.chan_id_on_b@
            &&& w.seq == packet.sequence
            &&& w.ack_commitment@ == ctx.hash_spec(ack@)
        }),
{
    if ack.len() == 0 {
        return Err(PacketError::EmptyAcknowledgement);
    }
    if let Err(e) = ChannelReader::channel_end(ctx, &packet.port_id_on_b, &packet.chan_id_on_b) {
        return Err(PacketError::Channel(e));
    }
    let existing = ctx.get_packet_acknowledgement(
        &packet.port_id_on_b,
        &packet.chan_id_on_b,
        packet.sequence,
    );
    if existing.is_ok() {
        return Err(PacketError::AcknowledgementExists { sequence: packet.sequence });
    }
    Ok(
        WriteAckPacketResult {
            port_id: packet.port_id_on_b.clone(),
            channel_id: packet.chan_id_on_b.clone(),
            seq: packet.sequence,
            ack_commitment: ctx.ack_commitment(ack),
        },
    )
}

/// Every check of a timeout-on-close of `p` passes on the sending chain: the
/// counterparty's channel end is proved closed at `proof_height`.
pub open spec fn timeout_on_close_accepted<C: ChannelReader>(
    ctx: C,
    p: Packet,
    proof: Seq<u8>,
    proof_height: Height,
    next_seq_recv_on_b: u64,
) -> bool {
    let key = (p.port_id_on_a@, p.chan_id_on_a@);
    let client = ctx.connections()[ctx.channels()[key].hops[0]].client_id;
    &&& sender_end_open(ctx, p)
    &&& commitment_matches(ctx, p)
    &&& ctx.channel_proof_ok(
        client,
        proof_height,
        proof,
        p.port_id_on_b@,
        p.chan_id_on_b@,
        ChannelState::Closed,
    )
    &&& (ctx.channels()[key].ordering == Order::Ordered ==> next_seq_recv_on_b <= p.sequence)
}

/// Processes a timeout of `p` because the counterparty closed its channel end:
/// the stored commitment must match the packet and the counterparty end must
/// be proved closed. On an ordered channel the counterparty must not have
/// received the packet, and the local end closes too.
pub fn timeout_on_close<C: ChannelReader>(
    ctx: &C,
    packet: &Packet,
    proof: &Vec<u8>,
    proof_height: Height,
    next_seq_recv_on_b: u64,
) -> (r: Result<TimeoutPacketResult, PacketError>)
    ensures
        r is Ok <==> timeout_on_close_accepted(
            *ctx,
            *packet,
            proof@,
            proof_height,
            next_seq_recv_on_b,
        ),
        r is Ok ==> ({
            let t = r->Ok_0;
            let key = (packet.port_id_on_a@, packet.chan_id_on_a@);
            let ch = ctx.channels()[key];
            &&& t.port_id@ == key.0
            &&& t.channel_id@ == key.1
            &&& t.seq == packet.sequence
            &&& (ch.ordering == Order::Unordered ==> t.channel is None)
            &&& (ch.ordering == Order::Ordered ==> t.channel is Some && t.channel->Some_0@ == (
            ChannelEndView { state: ChannelState::Closed, ..ch }))
        }),
{
    let ch = open_sender_end(ctx, packet)?;
    check_commitment(ctx, packet)?;
    let conn = match ChannelReader::connection_end(ctx, &ch.connection_hops[0]) {
        Ok(c) => c,
        Err(e) => return Err(PacketError::Channel(e)),
    };
    if !ctx.verify_channel_state(
        &conn.client_id,
        &proof_height,
        proof,
        &packet.port_id_on_b,
        &packet.chan_id_on_b,
        ChannelState::Closed,
    ) {
        return Err(PacketError::CounterpartyChannelNotClosed);
    }
    let channel = match ch.ordering {
        Order::Ordered => {
            if next_seq_recv_on_b > packet.sequence {
                return Err(
                    PacketError::PacketAlreadyReceivedOnCounterparty { sequence: packet.sequence },
                );
            }
            Some(
                ChannelEnd {
                    state: ChannelState::Closed,
                    ordering: ch.ordering,
                    remote: ch.remote,
                    connection_hops: ch.connection_hops,
                    version: ch.version,
                },
            )
        },
        Order::Unordered => None,
    };
    Ok(
        TimeoutPacketResult {
            port_id: packet.port_id_on_a.clone(),
            channel_id: packet.chan_id_on_a.clone(),
            seq: packet.sequence,
            channel,
        },
    )
}

/// An acknowledgement, once stored, consumes the packet's commitment: the
/// same packet can then be neither acknowledged nor timed out again.
pub proof fn lemma_ack_consumes_commitment<C: ChannelReader>(
    a: C,
    b: C,
    p: Packet,
    res: AckPacketResult,
)
    requires
        res.port_id@ == p.port_id_on_a@,
        res.channel_id@ == p.chan_id_on_a@,
        res.seq == p.sequence,
        packet_result_applied(a, b, PacketResult::Ack(res)),
    ensures
        !ack_packet_accepted(b, p),
        forall|h: Height, n: u64| !#[trigger] timeout_packet_accepted(b, p, h, n),
{
}

/// Anti-replay: once a receive of a packet has been stored, receiving the same
/// packet again fails, on an ordered channel (its sequence is no longer the
/// next one) as on an unordered one (its receipt is present).
pub proof fn lemma_recv_replay_rejected<C: ChannelReader>(a: C, b: C, p: Packet)
    requires
        recv_packet_accepted(a, p),
        packet_result_applied(
            a,
            b,
            PacketResult::Recv(
                recv_result_spec(a.channels()[(p.port_id_on_b@, p.chan_id_on_b@)].ordering, p),
            ),
        ),
    ensures
        !recv_packet_accepted(b, p),
{
}

/// On an ordered channel, a receive is accepted only for the next expected
/// sequence.
pub proof fn lemma_ordered_recv_needs_next<C: ChannelReader>(ctx: C, p: Packet)
    requires
        ctx.channels().contains_key((p.port_id_on_b@, p.chan_id_on_b@)),
        ctx.channels()[(p.port_id_on_b@, p.chan_id_on_b@)].ordering == Order::Ordered,
        ctx.next_recvs().contains_key((p.port_id_on_b@, p.chan_id_on_b@)),
        p.sequence != ctx.next_recvs()[(p.port_id_on_b@, p.chan_id_on_b@)],
    ensures
        !recv_packet_accepted(ctx, p),
{
}

/// The next send sequence of `(port, chan)` in the `i`-th store of a run of
/// accepted sends is `i + 1` when the run starts from a fresh channel.
pub proof fn lemma_next_send_at<C: ChannelReader>(
    stores: Seq<C>,
    packets: Seq<Packet>,
    results: Seq<SendPacketResult>,
    port: Seq<char>,
    chan: Seq<char>,
    i: int,
)
    requires
        stores.len() == packets.len() + 1,
        results.len() == packets.len(),
        0 <= i <= packets.len(),
        stores[0].next_sends().contains_key((port, chan)),
        stores[0].next_sends()[(port, chan)] == 1,
        forall|j: int|
            0 <= j < packets.len() ==> {
                &&& (#[trigger] packets[j]).port_id_on_a@ == port
                &&& packets[j].chan_id_on_a@ == chan
                &&& send_packet_accepted(stores[j], packets[j])
                &&& results[j].port_id@ == port
                &&& results[j].channel_id@ == chan
                &&& results[j].seq == packets[j].sequence
                &&& results[j].seq_number == packets[j].sequence + 1
                &&& packet_result_applied(stores[j], stores[j + 1], PacketResult::Send(results[j]))
            },
    ensures
        stores[i].next_sends().contains_key((port, chan)),
        stores[i].next_sends()[(port, chan)] == i + 1,
    decreases i,
{
    if i > 0 {
        lemma_next_send_at(stores, packets, results, port, chan, i - 1);
        let j = i - 1;
        assert(packets[j].port_id_on_a@ == port);
    }
}

/// Sends on a freshly created channel produce the sequences 1, 2, 3, ...:
/// after the keeper stores a channel result with a generated identifier for
/// `(port, chan)`, the `i`-th accepted send of a run, each applied by the
/// keeper, uses sequence `i + 1`, and after `n` sends the next send sequence
/// is `n + 1`.
pub proof fn lemma_send_sequences_consecutive<C: ChannelReader>(
    created_from: C,
    creation: ChannelResult,
    stores: Seq<C>,
    packets: Seq<Packet>,
    results: Seq<SendPacketResult>,
    port: Seq<char>,
    chan: Seq<char>,
)
    requires
        creation.channel_id_state == ChannelIdState::Generated,
        creation.port_id@ == port,
        creation.channel_id@ == chan,
        creation.channel_end.connection_hops@.len() > 0,
        stores.len() == packets.len() + 1,
        results.len() == packets.len(),
        channel_result_applied(created_from, stores[0], creation),
        forall|j: int|
            0 <= j < packets.len() ==> {
                &&& (#[trigger] packets[j]).port_id_on_a@ == port
                &&& packets[j].chan_id_on_a@ == chan
                &&& send_packet_accepted(stores[j], packets[j])
                &&& results[j].port_id@ == port
                &&& results[j].channel_id@ == chan
                &&& results[j].seq == packets[j].sequence
                &&& results[j].seq_number == packets[j].sequence + 1
                &&& packet_result_applied(stores[j], stores[j + 1], PacketResult::Send(results[j]))
            },
    ensures
        forall|i: int| 0 <= i < results.len() ==> (#[trigger] results[i]).seq == i + 1,
        stores[packets.len() as int].next_sends()[(port, chan)] == packets.len() + 1,
{
    assert(stores[0].next_sends().contains_key((port, chan)));
    assert(stores[0].next_sends()[(port, chan)] == 1);
    assert forall|i: int| 0 <= i < results.len() implies (#[trigger] results[i]).seq == i + 1 by {
        lemma_next_send_at(stores, packets, results, port, chan, i);
        assert(packets[i].port_id_on_a@ == port);
    }
    lemma_next_send_at(stores, packets, results, port, chan, packets.len() as int);
}

} // verus!
