//! An in-memory host chain: one store that serves as channel reader and
//! keeper and as connection reader, hashing with SHA-256. The light client is
//! stood for by a record of the counterparty connection states it has seen.

use vstd::prelude::*;
use crate::channel::{ChannelEnd, ChannelEndView, ChannelError, ChannelState};
use crate::client::{ClientState, ConsensusState};
use crate::connection::{
    ConnectionEnd, ConnectionEndView, ConnectionError, ConnectionReader, ConnectionState,
};
use crate::context::{pair_views, with_connection_channel, ChannelKeeper, ChannelReader};
use crate::height::{Height, Timestamp};
use crate::packet::{PacketError, Receipt};
use crate::table::{StoreKey, Table};

verus! {

/// The SHA-256 digest of the given bytes.
pub uninterp spec fn sha256_of(data: Seq<u8>) -> Seq<u8>;

/// Relies on sha2's `Sha256::digest` (the `digest::Digest` trait): the 32-byte
/// SHA-256 digest, which depends on the input bytes alone.
#[verifier::external_body]
fn sha256(data: &[u8]) -> (r: Vec<u8>)
    ensures
        r@ == sha256_of(data@),
        r@.len() == 32,
{
    <sha2::Sha256 as sha2::Digest>::digest(data).to_vec()
}

/// The channel lists that a sequence of (connection, port, channel)
/// associations leaves behind.
pub open spec fn association_lists(es: Seq<(String, String, String)>) -> Map<
    Seq<char>,
    Seq<(Seq<char>, Seq<char>)>,
>
    decreases es.len(),
{
    if es.len() == 0 {
        Map::empty()
    } else {
        let last = es[es.len() - 1];
        with_connection_channel(association_lists(es.drop_last()), last.0@, last.1@, last.2@)
    }
}

/// The record `e` shows the channel end `(port, chan)` of `client`'s chain in
/// state `state` at the revision height of `height`.
pub open spec fn remote_channel_seen(
    e: (String, String, String, u64, ChannelState),
    client: Seq<char>,
    height: Height,
    port: Seq<char>,
    chan: Seq<char>,
    state: ChannelState,
) -> bool {
    e.0@ == client && e.1@ == port && e.2@ == chan && e.3 == height.revision_height && e.4 == state
}

pub open spec fn pair_key(a: Seq<char>, b: Seq<char>) -> (Seq<char>, Seq<char>, u64) {
    (a, b, 0)
}

pub open spec fn id_key(a: Seq<char>) -> (Seq<char>, Seq<char>, u64) {
    (a, Seq::<char>::empty(), 0)
}

pub struct MemoryChain {
    pub channel_table: Table<ChannelEnd>,
    pub connection_table: Table<ConnectionEnd>,
    pub client_table: Table<ClientState>,
    /// Consensus states by (client, "", revision height), with their revision number.
    pub consensus_table: Table<(u64, ConsensusState)>,
    pub next_send_table: Table<u64>,
    pub next_recv_table: Table<u64>,
    pub next_ack_table: Table<u64>,
    pub commitment_table: Table<Vec<u8>>,
    pub receipt_table: Table<Receipt>,
    pub ack_table: Table<Vec<u8>>,
    pub associations: Vec<(String, String, String)>,
    pub channel_count: u64,
    pub connection_count: u64,
    pub versions: Vec<String>,
    /// Counterparty connection states seen by the light client, by
    /// (client, remote connection, revision height).
    pub remote_states: Table<ConnectionState>,
    /// Counterparty channel states seen by the light client: client, port,
    /// channel, revision height and state.
    pub remote_channels: Vec<(String, String, String, u64, ChannelState)>,
    pub host_height: Height,
    pub host_time: Timestamp,
    pub max_block_time_ns: u64,
}

fn pair(a: &String, b: &String) -> (r: StoreKey)
    ensures
        r.view_key() == pair_key(a@, b@),
{
    StoreKey { a: a.clone(), b: b.clone(), n: 0 }
}

fn single(a: &String) -> (r: StoreKey)
    ensures
        r.view_key() == id_key(a@),
{
    StoreKey { a: a.clone(), b: String::new(), n: 0 }
}

fn triple(a: &String, b: &String, n: u64) -> (r: StoreKey)
    ensures
        r.view_key() == (a@, b@, n),
{
    StoreKey { a: a.clone(), b: b.clone(), n }
}

impl MemoryChain {
    /// An empty chain at the given height and time, supporting `versions`.
    pub fn new(host_height: Height, host_time: Timestamp, max_block_time_ns: u64, versions: Vec<
        String,
    >) -> (r: MemoryChain)
        ensures
            r.channels() == Map::<(Seq<char>, Seq<char>), ChannelEndView>::empty(),
            r.connections() == Map::<Seq<char>, ConnectionEndView>::empty(),
            r.commitments() == Map::<(Seq<char>, Seq<char>, u64), Seq<u8>>::empty(),
            r.channel_counter() == 0,
            r.host_height_spec() == Some(host_height),
            r.supported_versions() == versions@,
    {
        let r = MemoryChain {
            channel_table: Table::new(),
            connection_table: Table::new(),
            client_table: Table::new(),
            consensus_table: Table::new(),
            next_send_table: Table::new(),
            next_recv_table: Table::new(),
            next_ack_table: Table::new(),
            commitment_table: Table::new(),
            receipt_table: Table::new(),
            ack_table: Table::new(),
            associations: Vec::new(),
            channel_count: 0,
            connection_count: 0,
            versions,
            remote_states: Table::new(),
            remote_channels: Vec::new(),
            host_height,
            host_time,
            max_block_time_ns,
        };
        assert(r.channels() =~= Map::<(Seq<char>, Seq<char>), ChannelEndView>::empty());
        assert(r.connections() =~= Map::<Seq<char>, ConnectionEndView>::empty());
        assert(r.commitments() =~= Map::<(Seq<char>, Seq<char>, u64), Seq<u8>>::empty());
        r
    }

    pub fn set_connection(&mut self, connection_id: &String, end: ConnectionEnd)
        ensures
            final(self).connections() == old(self).connections().insert(connection_id@, end@),
    {
        let ghost e = end@;
        self.connection_table.set(single(connection_id), end);
        assert(self.connections() =~= old(self).connections().insert(connection_id@, e));
    }

    pub fn set_client_state(&mut self, client_id: &String, state: ClientState)
        ensures
            final(self).client_states() == old(self).client_states().insert(client_id@, state),
    {
        self.client_table.set(single(client_id), state);
        assert(self.client_states() =~= old(self).client_states().insert(client_id@, state));
    }

    pub fn set_consensus_state(&mut self, client_id: &String, height: Height, state: ConsensusState)
        ensures
            final(self).consensus_states()[(client_id@, height)] == state,
            final(self).consensus_states().contains_key((client_id@, height)),
    {
        self.consensus_table.set(
            triple(client_id, &String::new(), height.revision_height),
            (height.revision_number, state),
        );
    }

    /// Records that the light client `client_id` saw, at `height`, the
    /// counterparty connection `remote_id` in state `state`.
    pub fn set_remote_connection_state(
        &mut self,
        client_id: &String,
        remote_id: &String,
        height: Height,
        state: ConnectionState,
    )
        ensures
            forall|p: Seq<u8>|
                #[trigger] final(self).connection_proof_ok(client_id@, height, p, remote_id@, state),
    {
        self.remote_states.set(triple(client_id, remote_id, height.revision_height), state);
    }

    /// Records that the light client `client_id` saw, at `height`, the
    /// counterparty channel end `(port, chan)` in state `state`.
    pub fn set_remote_channel_state(
        &mut self,
        client_id: &String,
        port: &String,
        chan: &String,
        height: Height,
        state: ChannelState,
    )
        ensures
            forall|p: Seq<u8>|
                #[trigger] final(self).channel_proof_ok(client_id@, height, p, port@, chan@, state),
    {
        self.remote_channels.push(
            (client_id.clone(), port.clone(), chan.clone(), height.revision_height, state),
        );
        assert(remote_channel_seen(
            self.remote_channels@[self.remote_channels@.len() - 1],
            client_id@,
            height,
            port@,
            chan@,
            state,
        ));
    }

    pub fn set_host(&mut self, height: Height, time: Timestamp)
        ensures
            final(self).host_height_spec() == Some(height),
            final(self).pending_host_state() == Some(ConsensusState { timestamp: time }),
    {
        self.host_height = height;
        self.host_time = time;
    }
}

impl ChannelReader for MemoryChain {
    open spec fn channels(&self) -> Map<(Seq<char>, Seq<char>), ChannelEndView> {
        Map::new(
            |k: (Seq<char>, Seq<char>)| self.channel_table.model().contains_key(pair_key(k.0, k.1)),
            |k: (Seq<char>, Seq<char>)| self.channel_table.model()[pair_key(k.0, k.1)]@,
        )
    }

    open spec fn connections(&self) -> Map<Seq<char>, ConnectionEndView> {
        Map::new(
            |k: Seq<char>| self.connection_table.model().contains_key(id_key(k)),
            |k: Seq<char>| self.connection_table.model()[id_key(k)]@,
        )
    }

    open spec fn client_states(&self) -> Map<Seq<char>, ClientState> {
        Map::new(
            |k: Seq<char>| self.client_table.model().contains_key(id_key(k)),
            |k: Seq<char>| self.client_table.model()[id_key(k)],
        )
    }

    open spec fn consensus_states(&self) -> Map<(Seq<char>, Height), ConsensusState> {
        Map::new(
            |k: (Seq<char>, Height)|
                self.consensus_table.model().contains_key(
                    (k.0, Seq::<char>::empty(), k.1.revision_height),
                ) && self.consensus_table.model()[(
                    k.0,
                    Seq::<char>::empty(),
                    k.1.revision_height,
                )].0 == k.1.revision_number,
            |k: (Seq<char>, Height)|
                self.consensus_table.model()[(k.0, Seq::<char>::empty(), k.1.revision_height)].1,
        )
    }

    open spec fn connection_channel_lists(&self) -> Map<Seq<char>, Seq<(Seq<char>, Seq<char>)>> {
        association_lists(self.associations@)
    }

    open spec fn next_sends(&self) -> Map<(Seq<char>, Seq<char>), u64> {
        Map::new(
            |k: (Seq<char>, Seq<char>)| self.next_send_table.model().contains_key(pair_key(k.0, k.1)),
            |k: (Seq<char>, Seq<char>)| self.next_send_table.model()[pair_key(k.0, k.1)],
        )
    }

    open spec fn next_recvs(&self) -> Map<(Seq<char>, Seq<char>), u64> {
        Map::new(
            |k: (Seq<char>, Seq<char>)| self.next_recv_table.model().contains_key(pair_key(k.0, k.1)),
            |k: (Seq<char>, Seq<char>)| self.next_recv_table.model()[pair_key(k.0, k.1)],
        )
    }

    open spec fn next_acks(&self) -> Map<(Seq<char>, Seq<char>), u64> {
        Map::new(
            |k: (Seq<char>, Seq<char>)| self.next_ack_table.model().contains_key(pair_key(k.0, k.1)),
            |k: (Seq<char>, Seq<char>)| self.next_ack_table.model()[pair_key(k.0, k.1)],
        )
    }

    open spec fn commitments(&self) -> Map<(Seq<char>, Seq<char>, u64), Seq<u8>> {
        Map::new(
            |k: (Seq<char>, Seq<char>, u64)| self.commitment_table.model().contains_key(k),
            |k: (Seq<char>, Seq<char>, u64)| self.commitment_table.model()[k]@,
        )
    }

    open spec fn receipts(&self) -> Set<(Seq<char>, Seq<char>, u64)> {
        Set::new(|k: (Seq<char>, Seq<char>, u64)| self.receipt_table.model().contains_key(k))
    }

    open spec fn acks(&self) -> Map<(Seq<char>, Seq<char>, u64), Seq<u8>> {
        Map::new(
            |k: (Seq<char>, Seq<char>, u64)| self.ack_table.model().contains_key(k),
            |k: (Seq<char>, Seq<char>, u64)| self.ack_table.model()[k]@,
        )
    }

    open spec fn channel_counter(&self) -> nat {
        self.channel_count as nat
    }

    open spec fn hash_spec(&self, value: Seq<u8>) -> Seq<u8> {
        sha256_of(value)
    }

    open spec fn host_height_spec(&self) -> Option<Height> {
        Some(self.host_height)
    }

    open spec fn pending_host_state(&self) -> Option<ConsensusState> {
        Some(ConsensusState { timestamp: self.host_time })
    }

    open spec fn max_block_time_spec(&self) -> u64 {
        self.max_block_time_ns
    }

    open spec fn channel_id_available(&self) -> bool {
        true
    }

    open spec fn channel_proof_ok(
        &self,
        client_id: Seq<char>,
        height: Height,
        proof: Seq<u8>,
        port: Seq<char>,
        chan: Seq<char>,
        state: ChannelState,
    ) -> bool {
        exists|i: int|
            0 <= i < self.remote_channels@.len() && remote_channel_seen(
                #[trigger] self.remote_channels@[i],
                client_id,
                height,
                port,
                chan,
                state,
            )
    }

    fn verify_channel_state(
        &self,
        client_id: &String,
        height: &Height,
        proof: &Vec<u8>,
        port: &String,
        chan: &String,
        state: ChannelState,
    ) -> (r: bool) {
        let mut i: usize = 0;
        while i < self.remote_channels.len()
            invariant
                i <= self.remote_channels@.len(),
                forall|j: int|
                    0 <= j < i ==> !remote_channel_seen(
                        #[trigger] self.remote_channels@[j],
                        client_id@,
                        *height,
                        port@,
                        chan@,
                        state,
                    ),
            decreases self.remote_channels@.len() - i,
        {
            let e = &self.remote_channels[i];
            if e.0 == *client_id && e.1 == *port && e.2 == *chan && e.3 == height.revision_height
                && e.4 == state {
                return true;
            }
            i = i + 1;
        }
        false
    }

    fn channel_end(&self, port_id: &String, channel_id: &String) -> (r: Result<
        ChannelEnd,
        ChannelError,
    >) {
        match self.channel_table.get(&pair(port_id, channel_id)) {
            Some(c) => Ok(c.copy()),
            None => Err(
                ChannelError::ChannelNotFound {
                    port_id: port_id.clone(),
                    channel_id: channel_id.clone(),
                },
            ),
        }
    }

    fn connection_end(&self, connection_id: &String) -> (r: Result<ConnectionEnd, ChannelError>) {
        match self.connection_table.get(&single(connection_id)) {
            Some(c) => Ok(c.copy()),
            None => Err(ChannelError::ConnectionNotFound { connection_id: connection_id.clone() }),
        }
    }

    fn connection_channels(&self, cid: &String) -> (r: Result<
        Vec<(String, String)>,
        ChannelError,
    >) {
        let mut out: Vec<(String, String)> = Vec::new();
        let mut found = false;
        let mut i: usize = 0;
        while i < self.associations.len()
            invariant
                i <= self.associations@.len(),
                found == association_lists(self.associations@.subrange(0, i as int)).contains_key(
                    cid@,
                ),
                found ==> pair_views(out@) == association_lists(
                    self.associations@.subrange(0, i as int),
                )[cid@],
            decreases self.associations@.len() - i,
        {
            assert(self.associations@.subrange(0, i + 1).drop_last() =~= self.associations@.subrange(
                0,
                i as int,
            ));
            let entry = &self.associations[i];
            if entry.0 == *cid {
                if !found {
                    out = Vec::new();
                }
                let ghost before = out@;
                out.push((entry.1.clone(), entry.2.clone()));
                assert(pair_views(out@) =~= pair_views(before).push((entry.1@, entry.2@)));
                found = true;
            }
            i = i + 1;
        }
        assert(self.associations@.subrange(0, i as int) =~= self.associations@);
        if found {
            Ok(out)
        } else {
            Err(ChannelError::ConnectionNotFound { connection_id: cid.clone() })
        }
    }

    fn client_state(&self, client_id: &String) -> (r: Result<ClientState, ChannelError>) {
        match self.client_table.get(&single(client_id)) {
            Some(c) => Ok(*c),
            None => Err(ChannelError::ClientNotFound { client_id: client_id.clone() }),
        }
    }

    fn client_consensus_state(&self, client_id: &String, height: &Height) -> (r: Result<
        ConsensusState,
        ChannelError,
    >) {
        match self.consensus_table.get(&triple(client_id, &String::new(), height.revision_height)) {
            Some(entry) => {
                if entry.0 == height.revision_number {
                    Ok(entry.1)
                } else {
                    Err(ChannelError::ConsensusStateNotFound { client_id: client_id.clone() })
                }
            },
            None => Err(ChannelError::ConsensusStateNotFound { client_id: client_id.clone() }),
        }
    }

    fn get_next_sequence_send(&self, port_id: &String, channel_id: &String) -> (r: Result<
        u64,
        PacketError,
    >) {
        match self.next_send_table.get(&pair(port_id, channel_id)) {
            Some(s) => Ok(*s),
            None => Err(PacketError::MissingNextSendSeq),
        }
    }

    fn get_next_sequence_recv(&self, port_id: &String, channel_id: &String) -> (r: Result<
        u64,
        PacketError,
    >) {
        match self.next_recv_table.get(&pair(port_id, channel_id)) {
            Some(s) => Ok(*s),
            None => Err(PacketError::MissingNextRecvSeq),
        }
    }

    fn get_next_sequence_ack(&self, port_id: &String, channel_id: &String) -> (r: Result<
        u64,
        PacketError,
    >) {
        match self.next_ack_table.get(&pair(port_id, channel_id)) {
            Some(s) => Ok(*s),
            None => Err(PacketError::MissingNextAckSeq),
        }
    }

    fn get_packet_commitment(&self, port_id: &String, channel_id: &String, sequence: u64) -> (r:
        Result<Vec<u8>, PacketError>) {
        match self.commitment_table.get(&triple(port_id, channel_id, sequence)) {
            Some(c) => Ok(c.clone()),
            None => Err(PacketError::PacketCommitmentNotFound { sequence }),
        }
    }

    fn get_packet_receipt(&self, port_id: &String, channel_id: &String, sequence: u64) -> (r:
        Result<Receipt, PacketError>) {
        match self.receipt_table.get(&triple(port_id, channel_id, sequence)) {
            Some(c) => Ok(*c),
            None => Err(PacketError::PacketReceiptNotFound { sequence }),
        }
    }

    fn get_packet_acknowledgement(&self, port_id: &String, channel_id: &String, sequence: u64) -> (r:
        Result<Vec<u8>, PacketError>) {
        match self.ack_table.get(&triple(port_id, channel_id, sequence)) {
            Some(c) => Ok(c.clone()),
            None => Err(PacketError::PacketCommitmentNotFound { sequence }),
        }
    }

    fn hash(&self, value: &[u8]) -> (r: Vec<u8>) {
        sha256(value)
    }

    fn host_height(&self) -> (r: Result<Height, ChannelError>) {
        Ok(self.host_height)
    }

    fn pending_host_consensus_state(&self) -> (r: Result<ConsensusState, ChannelError>) {
        Ok(ConsensusState { timestamp: self.host_time })
    }

    fn generate_channel_identifier(&self) -> (r: Result<u64, ChannelError>) {
        Ok(self.channel_count)
    }

    fn max_expected_time_per_block(&self) -> (r: u64) {
        self.max_block_time_ns
    }
}

impl ChannelKeeper for MemoryChain {
    fn store_packet_commitment(
        &mut self,
        port_id: String,
        channel_id: String,
        sequence: u64,
        commitment: Vec<u8>,
    ) -> (r: Result<(), PacketError>) {
        let ghost c = commitment@;
        self.commitment_table.set(triple(&port_id, &channel_id, sequence), commitment);
        assert(self.commitments() =~= old(self).commitments().insert((port_id@, channel_id@, sequence), c));
        Ok(())
    }

    fn delete_packet_commitment(&mut self, port_id: &String, channel_id: &String, seq: u64) -> (r:
        Result<(), PacketError>) {
        self.commitment_table.remove(triple(port_id, channel_id, seq));
        assert(self.commitments() =~= old(self).commitments().remove((port_id@, channel_id@, seq)));
        Ok(())
    }

    fn store_packet_receipt(
        &mut self,
        port_id: String,
        channel_id: String,
        sequence: u64,
        receipt: Receipt,
    ) -> (r: Result<(), PacketError>) {
        self.receipt_table.set(triple(&port_id, &channel_id, sequence), receipt);
        assert(self.receipts() =~= old(self).receipts().insert((port_id@, channel_id@, sequence)));
        Ok(())
    }

    fn store_packet_acknowledgement(
        &mut self,
        port_id: String,
        channel_id: String,
        sequence: u64,
        ack_commitment: Vec<u8>,
    ) -> (r: Result<(), PacketError>) {
        let ghost c = ack_commitment@;
        self.ack_table.set(triple(&port_id, &channel_id, sequence), ack_commitment);
        assert(self.acks() =~= old(self).acks().insert((port_id@, channel_id@, sequence), c));
        Ok(())
    }

    fn delete_packet_acknowledgement(
        &mut self,
        port_id: &String,
        channel_id: &String,
        sequence: u64,
    ) -> (r: Result<(), PacketError>) {
        self.ack_table.remove(triple(port_id, channel_id, sequence));
        assert(self.acks() =~= old(self).acks().remove((port_id@, channel_id@, sequence)));
        Ok(())
    }

    fn store_connection_channels(
        &mut self,
        conn_id: String,
        port_id: String,
        channel_id: String,
    ) -> (r: Result<(), ChannelError>) {
        let ghost (c, p, h) = (conn_id@, port_id@, channel_id@);
        self.associations.push((conn_id, port_id, channel_id));
        assert(self.associations@.drop_last() =~= old(self).associations@);
        Ok(())
    }

    fn store_channel(&mut self, port_id: String, channel_id: String, channel_end: ChannelEnd) -> (r:
        Result<(), ChannelError>) {
        let ghost e = channel_end@;
        self.channel_table.set(pair(&port_id, &channel_id), channel_end);
        assert(self.channels() =~= old(self).channels().insert((port_id@, channel_id@), e));
        Ok(())
    }

    fn store_next_sequence_send(&mut self, port_id: String, channel_id: String, seq: u64) -> (r:
        Result<(), PacketError>) {
        self.next_send_table.set(pair(&port_id, &channel_id), seq);
        assert(self.next_sends() =~= old(self).next_sends().insert((port_id@, channel_id@), seq));
        Ok(())
    }

    fn store_next_sequence_recv(&mut self, port_id: String, channel_id: String, seq: u64) -> (r:
        Result<(), PacketError>) {
        self.next_recv_table.set(pair(&port_id, &channel_id), seq);
        assert(self.next_recvs() =~= old(self).next_recvs().insert((port_id@, channel_id@), seq));
        Ok(())
    }

    fn store_next_sequence_ack(&mut self, port_id: String, channel_id: String, seq: u64) -> (r:
        Result<(), PacketError>) {
        self.next_ack_table.set(pair(&port_id, &channel_id), seq);
        assert(self.next_acks() =~= old(self).next_acks().insert((port_id@, channel_id@), seq));
        Ok(())
    }

    fn increase_channel_counter(&mut self) {
        self.channel_count = self.channel_count + 1;
    }
}

impl ConnectionReader for MemoryChain {
    open spec fn conn_ends(&self) -> Map<Seq<char>, ConnectionEndView> {
        self.connections()
    }

    open spec fn conn_counter(&self) -> Option<u64> {
        Some(self.connection_count)
    }

    open spec fn supported_versions(&self) -> Seq<String> {
        self.versions@
    }

    open spec fn connection_proof_ok(
        &self,
        client_id: Seq<char>,
        height: Height,
        proof: Seq<u8>,
        remote_id: Seq<char>,
        state: ConnectionState,
    ) -> bool {
        &&& self.remote_states.model().contains_key((client_id, remote_id, height.revision_height))
        &&& self.remote_states.model()[(client_id, remote_id, height.revision_height)] == state
    }

    fn connection_end(&self, conn_id: &String) -> (r: Result<ConnectionEnd, ConnectionError>) {
        match self.connection_table.get(&single(conn_id)) {
            Some(c) => Ok(c.copy()),
            None => Err(ConnectionError::ConnectionNotFound { connection_id: conn_id.clone() }),
        }
    }

    fn connection_counter(&self) -> (r: Result<u64, ConnectionError>) {
        Ok(self.connection_count)
    }

    fn get_compatible_versions(&self) -> (r: Vec<String>) {
        self.versions.clone()
    }

    fn verify_connection_state(
        &self,
        client_id: &String,
        height: &Height,
        proof: &Vec<u8>,
        remote_id: &String,
        state: ConnectionState,
    ) -> (r: bool) {
        match self.remote_states.get(&triple(client_id, remote_id, height.revision_height)) {
            Some(s) => *s == state,
            None => false,
        }
    }
}

/// A connection end written to the chain reads back unchanged: after
/// `set_connection`, the chain holds exactly the view of the end that was
/// written, which `connection_end` then returns.
pub proof fn lemma_connection_end_round_trip(a: MemoryChain, b: MemoryChain, id: Seq<char>, end: ConnectionEnd)
    requires
        b.connections() == a.connections().insert(id, end@),
    ensures
        b.conn_ends().contains_key(id),
        b.conn_ends()[id] == end@,
{
}

} // verus!
