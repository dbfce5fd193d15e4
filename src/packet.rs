use vstd::prelude::*;
use crate::channel::{ChannelEnd, ChannelError};
use crate::height::{Height, TimeoutHeight, Timestamp};

verus! {

/// A unit of application data sent from chain A to chain B.
#[derive(Clone, Debug)]
pub struct Packet {
    pub sequence: u64,
    pub port_id_on_a: String,
    pub chan_id_on_a: String,
    pub port_id_on_b: String,
    pub chan_id_on_b: String,
    pub data: Vec<u8>,
    pub timeout_height_on_b: TimeoutHeight,
    pub timeout_timestamp_on_b: Timestamp,
}

/// Presence token stored for a packet received on an unordered channel.
#[derive(Clone, Copy, Debug, PartialEq, Eq, Structural)]
pub enum Receipt {
    Present,
}

/// Errors of the packet pipeline.
#[derive(Clone, Debug)]
pub enum PacketError {
    Channel(ChannelError),
    ChannelClosed,
    ChannelNotOpen,
    InvalidPacketCounterparty,
    ClientFrozen,
    ConnectionNotOpen,
    MissingTimeout,
    LowPacketHeight { chain_height: Height },
    LowPacketTimestamp,
    PacketExpired,
    EmptyAcknowledgement,
    AcknowledgementExists { sequence: u64 },
    CounterpartyChannelNotClosed,
    IncorrectPacketCommitment { sequence: u64 },
    PacketTimeoutNotReached,
    PacketAlreadyReceivedOnCounterparty { sequence: u64 },
    InvalidPacketSequence { given: u64, next: u64 },
    PacketAlreadyReceived { sequence: u64 },
    SequenceOverflow,
    MissingNextSendSeq,
    MissingNextRecvSeq,
    MissingNextAckSeq,
    PacketCommitmentNotFound { sequence: u64 },
    PacketReceiptNotFound { sequence: u64 },
    Store,
}

/// Outcome of a packet send: the sequence used, the next send sequence and
/// the commitment to store.
#[derive(Clone, Debug)]
pub struct SendPacketResult {
    pub port_id: String,
    pub channel_id: String,
    pub seq: u64,
    pub seq_number: u64,
    pub commitment: Vec<u8>,
}

/// Outcome of a packet receive.
#[derive(Clone, Debug)]
pub enum RecvPacketResult {
    NoOp,
    Unordered { port_id: String, channel_id: String, sequence: u64, receipt: Receipt },
    Ordered { port_id: String, channel_id: String, next_seq_recv: u64 },
}

/// Outcome of writing an acknowledgement.
#[derive(Clone, Debug)]
pub struct WriteAckPacketResult {
    pub port_id: String,
    pub channel_id: String,
    pub seq: u64,
    pub ack_commitment: Vec<u8>,
}

/// Outcome of processing an acknowledgement; `seq_number` is the next ack
/// sequence on an ordered channel.
#[derive(Clone, Debug)]
pub struct AckPacketResult {
    pub port_id: String,
    pub channel_id: String,
    pub seq: u64,
    pub seq_number: Option<u64>,
}

/// Outcome of a timeout; `channel` is the closed channel end on an ordered
/// channel.
#[derive(Clone, Debug)]
pub struct TimeoutPacketResult {
    pub port_id: String,
    pub channel_id: String,
    pub seq: u64,
    pub channel: Option<ChannelEnd>,
}

/// Any packet handler outcome, handed to the keeper.
#[derive(Clone, Debug)]
pub enum PacketResult {
    Send(SendPacketResult),
    Recv(RecvPacketResult),
    WriteAck(WriteAckPacketResult),
    Ack(AckPacketResult),
    Timeout(TimeoutPacketResult),
}

} // verus!
