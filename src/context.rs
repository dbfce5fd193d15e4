//! The capabilities a host chain supplies to the channel layer: read-only
//! queries (`ChannelReader`) and store writes (`ChannelKeeper`). Both are
//! specified over one abstract model of the provable store.

use vstd::prelude::*;
use crate::channel::{
    ChannelEnd, ChannelEndView, ChannelError, ChannelIdState, ChannelResult, ChannelState,
};
use crate::client::{ClientState, ConsensusState};
use crate::commitment::{commitment_preimage, commitment_preimage_spec};
use crate::connection::{ConnectionEnd, ConnectionEndView};
use crate::height::{Height, TimeoutHeight, Timestamp};
use crate::packet::{PacketError, PacketResult, Receipt, RecvPacketResult};

verus! {

/// `ceil(delay / block)`, and zero for a zero block time.
pub open spec fn block_delay_spec(delay: u64, block: u64) -> u64 {
    if block == 0 {
        0
    } else if delay % block == 0 {
        delay / block
    } else {
        (delay / block + 1) as u64
    }
}

/// Number of blocks that cover a delay period, rounded up, given the maximum
/// expected time per block (both in nanoseconds).
pub fn calculate_block_delay(delay_period_ns: u64, max_expected_time_per_block_ns: u64) -> (r:
    u64)
    ensures
        r == block_delay_spec(delay_period_ns, max_expected_time_per_block_ns),
{
    if max_expected_time_per_block_ns == 0 {
        return 0;
    }
    let q = delay_period_ns / max_expected_time_per_block_ns;
    if delay_period_ns % max_expected_time_per_block_ns == 0 {
        q
    } else {
        assert(q < 0xffff_ffff_ffff_ffffu64) by (nonlinear_arith)
            requires
                q == delay_period_ns / max_expected_time_per_block_ns,
                max_expected_time_per_block_ns >= 2,
        ;
        q + 1
    }
}

/// The parts of the store model, for stating what a write leaves alone.
pub enum StorePart {
    Channels,
    NextSend,
    NextRecv,
    NextAck,
    Commitments,
    Receipts,
    Acks,
    ConnectionChannels,
    Counter,
}

/// Every part of the store outside `parts` is the same in `a` and `b`.
pub open spec fn unchanged_outside<C: ChannelReader>(a: C, b: C, parts: Set<StorePart>) -> bool {
    &&& (!parts.contains(StorePart::Channels) ==> b.channels() == a.channels())
    &&& (!parts.contains(StorePart::NextSend) ==> b.next_sends() == a.next_sends())
    &&& (!parts.contains(StorePart::NextRecv) ==> b.next_recvs() == a.next_recvs())
    &&& (!parts.contains(StorePart::NextAck) ==> b.next_acks() == a.next_acks())
    &&& (!parts.contains(StorePart::Commitments) ==> b.commitments() == a.commitments())
    &&& (!parts.contains(StorePart::Receipts) ==> b.receipts() == a.receipts())
    &&& (!parts.contains(StorePart::Acks) ==> b.acks() == a.acks())
    &&& (!parts.contains(StorePart::ConnectionChannels) ==> b.connection_channel_lists()
        == a.connection_channel_lists())
    &&& (!parts.contains(StorePart::Counter) ==> b.channel_counter() == a.channel_counter())
    &&& b.connections() == a.connections()
    &&& b.client_states() == a.client_states()
    &&& b.consensus_states() == a.consensus_states()
}

/// The views of a sequence of (port, channel) pairs.
pub open spec fn pair_views(v: Seq<(String, String)>) -> Seq<(Seq<char>, Seq<char>)> {
    v.map_values(|p: (String, String)| (p.0@, p.1@))
}

/// The list of channels of `conn` after `(port, chan)` is associated with it.
pub open spec fn with_connection_channel(
    lists: Map<Seq<char>, Seq<(Seq<char>, Seq<char>)>>,
    conn: Seq<char>,
    port: Seq<char>,
    chan: Seq<char>,
) -> Map<Seq<char>, Seq<(Seq<char>, Seq<char>)>> {
    let l = if lists.contains_key(conn) {
        lists[conn]
    } else {
        Seq::empty()
    };
    lists.insert(conn, l.push((port, chan)))
}

/// The store `b` is the store `a` with the channel handshake result `res` applied.
pub open spec fn channel_result_applied<C: ChannelReader>(a: C, b: C, res: ChannelResult) -> bool {
    let key = (res.port_id@, res.channel_id@);
    let conn = res.channel_end.connection_hops@[0]@;
    &&& b.channels() == a.channels().insert(key, res.channel_end@)
    &&& match res.channel_id_state {
        ChannelIdState::Reused => unchanged_outside(a, b, set![StorePart::Channels]),
        ChannelIdState::Generated => {
            &&& b.channel_counter() == a.channel_counter() + 1
            &&& b.connection_channel_lists() == with_connection_channel(
                a.connection_channel_lists(),
                conn,
                key.0,
                key.1,
            )
            &&& b.next_sends() == a.next_sends().insert(key, 1)
            &&& b.next_recvs() == a.next_recvs().insert(key, 1)
            &&& b.next_acks() == a.next_acks().insert(key, 1)
            &&& unchanged_outside(
                a,
                b,
                set![
                    StorePart::Channels,
                    StorePart::Counter,
                    StorePart::ConnectionChannels,
                    StorePart::NextSend,
                    StorePart::NextRecv,
                    StorePart::NextAck,
                ],
            )
        },
    }
}

/// The store `b` is the store `a` with the packet handler result `res` applied.
pub open spec fn packet_result_applied<C: ChannelReader>(a: C, b: C, res: PacketResult) -> bool {
    match res {
        PacketResult::Send(s) => {
            &&& b.next_sends() == a.next_sends().insert((s.port_id@, s.channel_id@), s.seq_number)
            &&& b.commitments() == a.commitments().insert(
                (s.port_id@, s.channel_id@, s.seq),
                s.commitment@,
            )
            &&& unchanged_outside(a, b, set![StorePart::NextSend, StorePart::Commitments])
        },
        PacketResult::Recv(RecvPacketResult::NoOp) => unchanged_outside(a, b, Set::empty()),
        PacketResult::Recv(RecvPacketResult::Ordered { port_id, channel_id, next_seq_recv }) => {
            &&& b.next_recvs() == a.next_recvs().insert((port_id@, channel_id@), next_seq_recv)
            &&& unchanged_outside(a, b, set![StorePart::NextRecv])
        },
        PacketResult::Recv(RecvPacketResult::Unordered { port_id, channel_id, sequence, .. }) => {
            &&& b.receipts() == a.receipts().insert((port_id@, channel_id@, sequence))
            &&& unchanged_outside(a, b, set![StorePart::Receipts])
        },
        PacketResult::WriteAck(w) => {
            &&& b.acks() == a.acks().insert((w.port_id@, w.channel_id@, w.seq), w.ack_commitment@)
            &&& unchanged_outside(a, b, set![StorePart::Acks])
        },
        PacketResult::Ack(k) => {
            &&& b.commitments() == a.commitments().remove((k.port_id@, k.channel_id@, k.seq))
            &&& match k.seq_number {
                Some(n) => {
                    &&& b.next_acks() == a.next_acks().insert((k.port_id@, k.channel_id@), n)
                    &&& unchanged_outside(a, b, set![StorePart::Commitments, StorePart::NextAck])
                },
                None => unchanged_outside(a, b, set![StorePart::Commitments]),
            }
        },
        PacketResult::Timeout(t) => {
            &&& b.commitments() == a.commitments().remove((t.port_id@, t.channel_id@, t.seq))
            &&& match t.channel {
                Some(c) => {
                    &&& b.channels() == a.channels().insert((t.port_id@, t.channel_id@), c@)
                    &&& unchanged_outside(a, b, set![StorePart::Commitments, StorePart::Channels])
                },
                None => unchanged_outside(a, b, set![StorePart::Commitments]),
            }
        },
    }
}

/// The commitment of a packet with the given data and timeouts, under the
/// hash of `ctx`.
pub open spec fn commitment_of<C: ChannelReader>(
    ctx: C,
    data: Seq<u8>,
    timeout_height: TimeoutHeight,
    timeout_timestamp: Timestamp,
) -> Seq<u8> {
    ctx.hash_spec(commitment_preimage_spec(timeout_height, timeout_timestamp, ctx.hash_spec(data)))
}

/// A packet commitment is a function of the packet's timeout height, timeout
/// timestamp and data alone: two packets that agree on those have the same
/// commitment, whatever their sequences and identifiers.
pub proof fn lemma_commitment_depends_on_timeouts_and_data<C: ChannelReader>(
    ctx: C,
    p: crate::packet::Packet,
    q: crate::packet::Packet,
)
    requires
        p.timeout_height_on_b == q.timeout_height_on_b,
        p.timeout_timestamp_on_b == q.timeout_timestamp_on_b,
        p.data@ == q.data@,
    ensures
        commitment_of(ctx, p.data@, p.timeout_height_on_b, p.timeout_timestamp_on_b) == commitment_of(
            ctx,
            q.data@,
            q.timeout_height_on_b,
            q.timeout_timestamp_on_b,
        ),
        commitment_preimage_spec(p.timeout_height_on_b, p.timeout_timestamp_on_b, ctx.hash_spec(p.data@))
            == commitment_preimage_spec(
            q.timeout_height_on_b,
            q.timeout_timestamp_on_b,
            ctx.hash_spec(q.data@),
        ),
{
}

/// A channel end written by the keeper reads back unchanged: after a
/// successful `store_channel`, the store holds exactly the view of the end
/// that was written, which `channel_end` then returns.
pub proof fn lemma_channel_end_round_trip<C: ChannelReader>(
    a: C,
    b: C,
    port: Seq<char>,
    chan: Seq<char>,
    end: ChannelEnd,
)
    requires
        b.channels() == a.channels().insert((port, chan), end@),
    ensures
        b.channels().contains_key((port, chan)),
        b.channels()[(port, chan)] == end@,
{
}

/// A context supplying the read-only dependencies of the channel layer.
pub trait ChannelReader: Sized {
    /// Channel ends by (port, channel).
    spec fn channels(&self) -> Map<(Seq<char>, Seq<char>), ChannelEndView>;

    /// Connection ends by connection identifier.
    spec fn connections(&self) -> Map<Seq<char>, ConnectionEndView>;

    /// Client states by client identifier.
    spec fn client_states(&self) -> Map<Seq<char>, ClientState>;

    /// Consensus states by client identifier and height.
    spec fn consensus_states(&self) -> Map<(Seq<char>, Height), ConsensusState>;

    /// The channels associated with each connection, in order of association.
    spec fn connection_channel_lists(&self) -> Map<Seq<char>, Seq<(Seq<char>, Seq<char>)>>;

    spec fn next_sends(&self) -> Map<(Seq<char>, Seq<char>), u64>;

    spec fn next_recvs(&self) -> Map<(Seq<char>, Seq<char>), u64>;

    spec fn next_acks(&self) -> Map<(Seq<char>, Seq<char>), u64>;

    /// Packet commitments by (port, channel, sequence).
    spec fn commitments(&self) -> Map<(Seq<char>, Seq<char>, u64), Seq<u8>>;

    /// Receipts of packets received on unordered channels.
    spec fn receipts(&self) -> Set<(Seq<char>, Seq<char>, u64)>;

    /// Acknowledgement commitments by (port, channel, sequence).
    spec fn acks(&self) -> Map<(Seq<char>, Seq<char>, u64), Seq<u8>>;

    /// Number of channels created so far.
    spec fn channel_counter(&self) -> nat;

    /// The host's hash function.
    spec fn hash_spec(&self, value: Seq<u8>) -> Seq<u8>;

    spec fn host_height_spec(&self) -> Option<Height>;

    spec fn pending_host_state(&self) -> Option<ConsensusState>;

    spec fn max_block_time_spec(&self) -> u64;

    /// Whether the store can hand out the next channel identifier.
    spec fn channel_id_available(&self) -> bool;

    /// Whether `proof` shows, at `height` on the chain that the local client
    /// `client_id` tracks, the channel end `(port, chan)` in state `state`.
    spec fn channel_proof_ok(
        &self,
        client_id: Seq<char>,
        height: Height,
        proof: Seq<u8>,
        port: Seq<char>,
        chan: Seq<char>,
        state: ChannelState,
    ) -> bool;

    /// Verifies a proof of the counterparty's channel state, through the light client.
    fn verify_channel_state(
        &self,
        client_id: &String,
        height: &Height,
        proof: &Vec<u8>,
        port: &String,
        chan: &String,
        state: ChannelState,
    ) -> (r: bool)
        ensures
            r == self.channel_proof_ok(client_id@, *height, proof@, port@, chan@, state),
    ;

    fn channel_end(&self, port_id: &String, channel_id: &String) -> (r: Result<
        ChannelEnd,
        ChannelError,
    >)
        ensures
            r is Ok <==> self.channels().contains_key((port_id@, channel_id@)),
            r is Ok ==> r->Ok_0@ == self.channels()[(port_id@, channel_id@)],
    ;

    fn connection_end(&self, connection_id: &String) -> (r: Result<ConnectionEnd, ChannelError>)
        ensures
            r is Ok <==> self.connections().contains_key(connection_id@),
            r is Ok ==> r->Ok_0@ == self.connections()[connection_id@],
    ;

    fn connection_channels(&self, cid: &String) -> (r: Result<
        Vec<(String, String)>,
        ChannelError,
    >)
        ensures
            r is Ok <==> self.connection_channel_lists().contains_key(cid@),
            r is Ok ==> pair_views(r->Ok_0@) == self.connection_channel_lists()[cid@],
    ;

    fn client_state(&self, client_id: &String) -> (r: Result<ClientState, ChannelError>)
        ensures
            r is Ok <==> self.client_states().contains_key(client_id@),
            r is Ok ==> r->Ok_0 == self.client_states()[client_id@],
    ;

    fn client_consensus_state(&self, client_id: &String, height: &Height) -> (r: Result<
        ConsensusState,
        ChannelError,
    >)
        ensures
            r is Ok <==> self.consensus_states().contains_key((client_id@, *height)),
            r is Ok ==> r->Ok_0 == self.consensus_states()[(client_id@, *height)],
    ;

    fn get_next_sequence_send(&self, port_id: &String, channel_id: &String) -> (r: Result<
        u64,
        PacketError,
    >)
        ensures
            r is Ok <==> self.next_sends().contains_key((port_id@, channel_id@)),
            r is Ok ==> r->Ok_0 == self.next_sends()[(port_id@, channel_id@)],
    ;

    fn get_next_sequence_recv(&self, port_id: &String, channel_id: &String) -> (r: Result<
        u64,
        PacketError,
    >)
        ensures
            r is Ok <==> self.next_recvs().contains_key((port_id@, channel_id@)),
            r is Ok ==> r->Ok_0 == self.next_recvs()[(port_id@, channel_id@)],
    ;

    fn get_next_sequence_ack(&self, port_id: &String, channel_id: &String) -> (r: Result<
        u64,
        PacketError,
    >)
        ensures
            r is Ok <==> self.next_acks().contains_key((port_id@, channel_id@)),
            r is Ok ==> r->Ok_0 == self.next_acks()[(port_id@, channel_id@)],
    ;

    fn get_packet_commitment(&self, port_id: &String, channel_id: &String, sequence: u64) -> (r:
        Result<Vec<u8>, PacketError>)
        ensures
            r is Ok <==> self.commitments().contains_key((port_id@, channel_id@, sequence)),
            r is Ok ==> r->Ok_0@ == self.commitments()[(port_id@, channel_id@, sequence)],
    ;

    fn get_packet_receipt(&self, port_id: &String, channel_id: &String, sequence: u64) -> (r:
        Result<Receipt, PacketError>)
        ensures
            r is Ok <==> self.receipts().contains((port_id@, channel_id@, sequence)),
    ;

    fn get_packet_acknowledgement(&self, port_id: &String, channel_id: &String, sequence: u64) -> (r:
        Result<Vec<u8>, PacketError>)
        ensures
            r is Ok <==> self.acks().contains_key((port_id@, channel_id@, sequence)),
            r is Ok ==> r->Ok_0@ == self.acks()[(port_id@, channel_id@, sequence)],
    ;

    /// The host's hash function.
    fn hash(&self, value: &[u8]) -> (r: Vec<u8>)
        ensures
            r@ == self.hash_spec(value@),
    ;

    /// Computes the commitment of a packet: the hash of its timeouts and of the
    /// hash of its data. An absent timeout height counts as `(0, 0)`.
    fn packet_commitment(
        &self,
        packet_data: &[u8],
        timeout_height: &TimeoutHeight,
        timeout_timestamp: &Timestamp,
    ) -> (r: Vec<u8>)
        ensures
            r@ == self.hash_spec(
                commitment_preimage_spec(
                    *timeout_height,
                    *timeout_timestamp,
                    self.hash_spec(packet_data@),
                ),
            ),
    {
        let packet_data_hash = self.hash(packet_data);
        let hash_input = commitment_preimage(
            timeout_height,
            timeout_timestamp,
            packet_data_hash.as_slice(),
        );
        self.hash(hash_input.as_slice())
    }

    /// Computes the commitment of an acknowledgement: the hash of its bytes.
    fn ack_commitment(&self, ack: &[u8]) -> (r: Vec<u8>)
        ensures
            r@ == self.hash_spec(ack@),
    {
        self.hash(ack)
    }

    fn host_height(&self) -> (r: Result<Height, ChannelError>)
        ensures
            r is Ok <==> self.host_height_spec() is Some,
            r is Ok ==> r->Ok_0 == self.host_height_spec()->Some_0,
    ;

    fn pending_host_consensus_state(&self) -> (r: Result<ConsensusState, ChannelError>)
        ensures
            r is Ok <==> self.pending_host_state() is Some,
            r is Ok ==> r->Ok_0 == self.pending_host_state()->Some_0,
    ;

    /// The current timestamp of the host: that of its pending consensus state.
    fn host_timestamp(&self) -> (r: Result<Timestamp, ChannelError>)
        ensures
            r is Ok <==> self.pending_host_state() is Some,
            r is Ok ==> r->Ok_0 == self.pending_host_state()->Some_0.timestamp,
    {
        match self.pending_host_consensus_state() {
            Ok(state) => Ok(state.timestamp()),
            Err(e) => Err(e),
        }
    }

    /// The value of the channel counter, which names the next channel.
    fn generate_channel_identifier(&self) -> (r: Result<u64, ChannelError>)
        ensures
            r is Ok <==> self.channel_id_available(),
            r is Ok ==> r->Ok_0 == self.channel_counter(),
    ;

    /// The maximum expected time per block, in nanoseconds.
    fn max_expected_time_per_block(&self) -> (r: u64)
        ensures
            r == self.max_block_time_spec(),
    ;

    /// The number of blocks that cover a delay period, rounded up.
    fn block_delay(&self, delay_period_ns: u64) -> (r: u64)
        ensures
            r == block_delay_spec(delay_period_ns, self.max_block_time_spec()),
    {
        calculate_block_delay(delay_period_ns, self.max_expected_time_per_block())
    }
}

/// The read-only dependencies of sending a packet.
pub trait SendPacketReader: Sized {
    spec fn send_channels(&self) -> Map<(Seq<char>, Seq<char>), ChannelEndView>;

    spec fn send_connections(&self) -> Map<Seq<char>, ConnectionEndView>;

    spec fn send_client_states(&self) -> Map<Seq<char>, ClientState>;

    spec fn send_consensus_states(&self) -> Map<(Seq<char>, Height), ConsensusState>;

    spec fn send_next_sends(&self) -> Map<(Seq<char>, Seq<char>), u64>;

    spec fn send_hash_spec(&self, value: Seq<u8>) -> Seq<u8>;

    fn channel_end(&self, port_id: &String, channel_id: &String) -> (r: Result<
        ChannelEnd,
        PacketError,
    >)
        ensures
            r is Ok <==> self.send_channels().contains_key((port_id@, channel_id@)),
            r is Ok ==> r->Ok_0@ == self.send_channels()[(port_id@, channel_id@)],
    ;

    fn connection_end(&self, connection_id: &String) -> (r: Result<ConnectionEnd, PacketError>)
        ensures
            r is Ok <==> self.send_connections().contains_key(connection_id@),
            r is Ok ==> r->Ok_0@ == self.send_connections()[connection_id@],
    ;

    fn client_state(&self, client_id: &String) -> (r: Result<ClientState, PacketError>)
        ensures
            r is Ok <==> self.send_client_states().contains_key(client_id@),
            r is Ok ==> r->Ok_0 == self.send_client_states()[client_id@],
    ;

    fn client_consensus_state(&self, client_id: &String, height: &Height) -> (r: Result<
        ConsensusState,
        PacketError,
    >)
        ensures
            r is Ok <==> self.send_consensus_states().contains_key((client_id@, *height)),
            r is Ok ==> r->Ok_0 == self.send_consensus_states()[(client_id@, *height)],
    ;

    fn get_next_sequence_send(&self, port_id: &String, channel_id: &String) -> (r: Result<
        u64,
        PacketError,
    >)
        ensures
            r is Ok <==> self.send_next_sends().contains_key((port_id@, channel_id@)),
            r is Ok ==> r->Ok_0 == self.send_next_sends()[(port_id@, channel_id@)],
    ;

    fn hash(&self, value: &[u8]) -> (r: Vec<u8>)
        ensures
            r@ == self.send_hash_spec(value@),
    ;

    /// Computes the commitment of a packet, as `ChannelReader::packet_commitment` does.
    fn packet_commitment(
        &self,
        packet_data: &[u8],
        timeout_height: &TimeoutHeight,
        timeout_timestamp: &Timestamp,
    ) -> (r: Vec<u8>)
        ensures
            r@ == self.send_hash_spec(
                commitment_preimage_spec(
                    *timeout_height,
                    *timeout_timestamp,
                    self.send_hash_spec(packet_data@),
                ),
            ),
    {
        let packet_data_hash = self.hash(packet_data);
        let hash_input = commitment_preimage(
            timeout_height,
            timeout_timestamp,
            packet_data_hash.as_slice(),
        );
        self.hash(hash_input.as_slice())
    }
}

impl<T: ChannelReader> SendPacketReader for T {
    open spec fn send_channels(&self) -> Map<(Seq<char>, Seq<char>), ChannelEndView> {
        self.channels()
    }

    open spec fn send_connections(&self) -> Map<Seq<char>, ConnectionEndView> {
        self.connections()
    }

    open spec fn send_client_states(&self) -> Map<Seq<char>, ClientState> {
        self.client_states()
    }

    open spec fn send_consensus_states(&self) -> Map<(Seq<char>, Height), ConsensusState> {
        self.consensus_states()
    }

    open spec fn send_next_sends(&self) -> Map<(Seq<char>, Seq<char>), u64> {
        self.next_sends()
    }

    open spec fn send_hash_spec(&self, value: Seq<u8>) -> Seq<u8> {
        self.hash_spec(value)
    }

    fn channel_end(&self, port_id: &String, channel_id: &String) -> (r: Result<
        ChannelEnd,
        PacketError,
    >) {
        match ChannelReader::channel_end(self, port_id, channel_id) {
            Ok(c) => Ok(c),
            Err(e) => Err(PacketError::Channel(e)),
        }
    }

    fn connection_end(&self, connection_id: &String) -> (r: Result<ConnectionEnd, PacketError>) {
        match ChannelReader::connection_end(self, connection_id) {
            Ok(c) => Ok(c),
            Err(e) => Err(PacketError::Channel(e)),
        }
    }

    fn client_state(&self, client_id: &String) -> (r: Result<ClientState, PacketError>) {
        match ChannelReader::client_state(self, client_id) {
            Ok(c) => Ok(c),
            Err(e) => Err(PacketError::Channel(e)),
        }
    }

    fn client_consensus_state(&self, client_id: &String, height: &Height) -> (r: Result<
        ConsensusState,
        PacketError,
    >) {
        match ChannelReader::client_consensus_state(self, client_id, height) {
            Ok(c) => Ok(c),
            Err(e) => Err(PacketError::Channel(e)),
        }
    }

    fn get_next_sequence_send(&self, port_id: &String, channel_id: &String) -> (r: Result<
        u64,
        PacketError,
    >) {
        ChannelReader::get_next_sequence_send(self, port_id, channel_id)
    }

    fn hash(&self, value: &[u8]) -> (r: Vec<u8>) {
        ChannelReader::hash(self, value)
    }
}

/// A context supplying the store writes of the channel layer. Each write
/// states, when it succeeds, how the store model changes; on failure the host
/// rolls the transaction back.
pub trait ChannelKeeper: ChannelReader {
    /// Stores a channel handshake result: the channel end, and for a freshly
    /// allocated identifier the counter, the connection association and the
    /// three sequence numbers, all set to 1.
    fn store_channel_result(&mut self, result: ChannelResult) -> (r: Result<(), PacketError>)
        requires
            result.channel_end.connection_hops@.len() > 0,
            result.channel_id_state == ChannelIdState::Generated ==> old(self).channel_counter()
                < u64::MAX,
        ensures
            r is Ok ==> channel_result_applied(*old(self), *final(self), result),
    {
        let connection_id = result.channel_end.connection_hops[0].clone();
        let port_id = result.port_id;
        let channel_id = result.channel_id;
        let id_state = result.channel_id_state;
        let stored = self.store_channel(port_id.clone(), channel_id.clone(), result.channel_end);
        if let Err(e) = stored {
            return Err(PacketError::Channel(e));
        }
        match id_state {
            ChannelIdState::Generated => {
                self.increase_channel_counter();
                let assoc = self.store_connection_channels(
                    connection_id,
                    port_id.clone(),
                    channel_id.clone(),
                );
                if let Err(e) = assoc {
                    return Err(PacketError::Channel(e));
                }
                self.store_next_sequence_send(port_id.clone(), channel_id.clone(), 1)?;
                self.store_next_sequence_recv(port_id.clone(), channel_id.clone(), 1)?;
                self.store_next_sequence_ack(port_id, channel_id, 1)?;
            },
            ChannelIdState::Reused => {},
        }
        Ok(())
    }

    /// Stores the outcome of a packet handler. A receive that was a harmless
    /// duplicate leaves the store as it is.
    fn store_packet_result(&mut self, general_result: PacketResult) -> (r: Result<(), PacketError>)
        ensures
            r is Ok ==> packet_result_applied(*old(self), *final(self), general_result),
            general_result matches PacketResult::Recv(RecvPacketResult::NoOp) ==> r is Ok
                && unchanged_outside(*old(self), *final(self), Set::empty()),
    {
        match general_result {
            PacketResult::Send(res) => {
                self.store_next_sequence_send(
                    res.port_id.clone(),
                    res.channel_id.clone(),
                    res.seq_number,
                )?;
                self.store_packet_commitment(res.port_id, res.channel_id, res.seq, res.commitment)?;
            },
            PacketResult::Recv(res) => match res {
                RecvPacketResult::Ordered { port_id, channel_id, next_seq_recv } => {
                    self.store_next_sequence_recv(port_id, channel_id, next_seq_recv)?;
                },
                RecvPacketResult::Unordered { port_id, channel_id, sequence, receipt } => {
                    self.store_packet_receipt(port_id, channel_id, sequence, receipt)?;
                },
                RecvPacketResult::NoOp => {},
            },
            PacketResult::WriteAck(res) => {
                self.store_packet_acknowledgement(
                    res.port_id,
                    res.channel_id,
                    res.seq,
                    res.ack_commitment,
                )?;
            },
            PacketResult::Ack(res) => {
                self.delete_packet_commitment(&res.port_id, &res.channel_id, res.seq)?;
                if let Some(s) = res.seq_number {
                    self.store_next_sequence_ack(res.port_id, res.channel_id, s)?;
                }
            },
            PacketResult::Timeout(res) => {
                self.delete_packet_commitment(&res.port_id, &res.channel_id, res.seq)?;
                if let Some(c) = res.channel {
                    let stored = self.store_channel(res.port_id, res.channel_id, c);
                    if let Err(e) = stored {
                        return Err(PacketError::Channel(e));
                    }
                }
            },
        }
        Ok(())
    }

    fn store_packet_commitment(
        &mut self,
        port_id: String,
        channel_id: String,
        sequence: u64,
        commitment: Vec<u8>,
    ) -> (r: Result<(), PacketError>)
        ensures
            r is Ok ==> final(self).commitments() == old(self).commitments().insert(
                (port_id@, channel_id@, sequence),
                commitment@,
            ) && unchanged_outside(*old(self), *final(self), set![StorePart::Commitments]),
    ;

    fn delete_packet_commitment(&mut self, port_id: &String, channel_id: &String, seq: u64) -> (r:
        Result<(), PacketError>)
        ensures
            r is Ok ==> final(self).commitments() == old(self).commitments().remove(
                (port_id@, channel_id@, seq),
            ) && unchanged_outside(*old(self), *final(self), set![StorePart::Commitments]),
    ;

    fn store_packet_receipt(
        &mut self,
        port_id: String,
        channel_id: String,
        sequence: u64,
        receipt: Receipt,
    ) -> (r: Result<(), PacketError>)
        ensures
            r is Ok ==> final(self).receipts() == old(self).receipts().insert(
                (port_id@, channel_id@, sequence),
            ) && unchanged_outside(*old(self), *final(self), set![StorePart::Receipts]),
    ;

    fn store_packet_acknowledgement(
        &mut self,
        port_id: String,
        channel_id: String,
        sequence: u64,
        ack_commitment: Vec<u8>,
    ) -> (r: Result<(), PacketError>)
        ensures
            r is Ok ==> final(self).acks() == old(self).acks().insert(
                (port_id@, channel_id@, sequence),
                ack_commitment@,
            ) && unchanged_outside(*old(self), *final(self), set![StorePart::Acks]),
    ;

    fn delete_packet_acknowledgement(
        &mut self,
        port_id: &String,
        channel_id: &String,
        sequence: u64,
    ) -> (r: Result<(), PacketError>)
        ensures
            r is Ok ==> final(self).acks() == old(self).acks().remove(
                (port_id@, channel_id@, sequence),
            ) && unchanged_outside(*old(self), *final(self), set![StorePart::Acks]),
    ;

    fn store_connection_channels(
        &mut self,
        conn_id: String,
        port_id: String,
        channel_id: String,
    ) -> (r: Result<(), ChannelError>)
        ensures
            r is Ok ==> final(self).connection_channel_lists() == with_connection_channel(
                old(self).connection_channel_lists(),
                conn_id@,
                port_id@,
                channel_id@,
            ) && unchanged_outside(
                *old(self),
                *final(self),
                set![StorePart::ConnectionChannels],
            ),
    ;

    /// Stores the given channel end under `(port_id, channel_id)`.
    fn store_channel(&mut self, port_id: String, channel_id: String, channel_end: ChannelEnd) -> (r:
        Result<(), ChannelError>)
        ensures
            r is Ok ==> final(self).channels() == old(self).channels().insert(
                (port_id@, channel_id@),
                channel_end@,
            ) && unchanged_outside(*old(self), *final(self), set![StorePart::Channels]),
    ;

    fn store_next_sequence_send(&mut self, port_id: String, channel_id: String, seq: u64) -> (r:
        Result<(), PacketError>)
        ensures
            r is Ok ==> final(self).next_sends() == old(self).next_sends().insert(
                (port_id@, channel_id@),
                seq,
            ) && unchanged_outside(*old(self), *final(self), set![StorePart::NextSend]),
    ;

    fn store_next_sequence_recv(&mut self, port_id: String, channel_id: String, seq: u64) -> (r:
        Result<(), PacketError>)
        ensures
            r is Ok ==> final(self).next_recvs() == old(self).next_recvs().insert(
                (port_id@, channel_id@),
                seq,
            ) && unchanged_outside(*old(self), *final(self), set![StorePart::NextRecv]),
    ;

    fn store_next_sequence_ack(&mut self, port_id: String, channel_id: String, seq: u64) -> (r:
        Result<(), PacketError>)
        ensures
            r is Ok ==> final(self).next_acks() == old(self).next_acks().insert(
                (port_id@, channel_id@),
                seq,
            ) && unchanged_outside(*old(self), *final(self), set![StorePart::NextAck]),
    ;

    /// Increases the counter of created channels by one. Never fails while the
    /// counter fits in 64 bits.
    fn increase_channel_counter(&mut self)
        requires
            old(self).channel_counter() < u64::MAX,
        ensures
            final(self).channel_counter() == old(self).channel_counter() + 1,
            unchanged_outside(*old(self), *final(self), set![StorePart::Counter]),
    ;
}

} // verus!
