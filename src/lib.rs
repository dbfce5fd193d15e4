//! Verified core of an inter-blockchain communication engine: heights and
//! timestamps, packet commitments, the channel and connection handshakes, the
//! packet pipeline and the fungible token transfer application.

pub mod bank;
pub mod channel;
pub mod client;
pub mod commitment;
pub mod connection;
pub mod context;
pub mod handshake;
pub mod height;
pub mod memory;
pub mod packet;
pub mod pipeline;
pub mod router;
pub mod table;
pub mod transfer;

pub use bank::Bank;
pub use channel::{ChannelEnd, ChannelError, ChannelIdState, ChannelResult, ChannelState, Order};
pub use connection::{dispatch, ConnectionEnd, ConnectionIdState, ConnectionResult, ConnectionState};
pub use context::{calculate_block_delay, ChannelKeeper, ChannelReader, SendPacketReader};
pub use height::{Height, TimeoutHeight, Timestamp};
pub use memory::MemoryChain;
pub use packet::{Packet, PacketError, PacketResult};
pub use router::RouterError;
pub use transfer::{refund_packet_token_execute, refund_packet_token_validate};
