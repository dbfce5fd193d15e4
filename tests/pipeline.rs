use ibc_core::channel::{ChannelCounterparty, ChannelEnd, ChannelIdState, ChannelResult, ChannelState, Order};
use ibc_core::client::{ClientState, ConsensusState};
use ibc_core::connection::{ConnectionCounterparty, ConnectionEnd, ConnectionState};
use ibc_core::context::{ChannelKeeper, ChannelReader};
use ibc_core::height::{Height, TimeoutHeight, Timestamp};
use ibc_core::memory::MemoryChain;
use ibc_core::packet::{Packet, PacketError, PacketResult, RecvPacketResult};
use ibc_core::pipeline::{recv_packet, send_packet};

fn s(x: &str) -> String {
    x.to_string()
}

fn chain(ordering: Order, state: ChannelState) -> MemoryChain {
    let mut c = MemoryChain::new(Height::new(1, 500), Timestamp { nanoseconds: 1000 }, 0, vec![s("1")]);
    c.set_connection(
        &s("connection-0"),
        ConnectionEnd {
            state: ConnectionState::Open,
            client_id: s("07-tendermint-0"),
            remote: ConnectionCounterparty {
                client_id: s("07-tendermint-0"),
                connection_id: Some(s("connection-0")),
                prefix: b"ibc".to_vec(),
            },
            versions: vec![s("1")],
            delay_period_ns: 0,
        },
    );
    c.set_client_state(&s("07-tendermint-0"), ClientState { latest_height: Height::new(1, 400), frozen: false });
    c.set_consensus_state(&s("07-tendermint-0"), Height::new(1, 400), ConsensusState { timestamp: Timestamp { nanoseconds: 500 } });
    let end = ChannelEnd {
        state,
        ordering,
        remote: ChannelCounterparty { port_id: s("transfer"), channel_id: Some(s("channel-0")) },
        connection_hops: vec![s("connection-0")],
        version: s("ics20-1"),
    };
    let result = ChannelResult {
        port_id: s("transfer"),
        channel_id: s("channel-0"),
        channel_id_state: ChannelIdState::Generated,
        channel_end: end,
    };
    assert!(c.store_channel_result(result).is_ok());
    c
}

fn packet(seq: u64) -> Packet {
    Packet {
        sequence: seq,
        port_id_on_a: s("transfer"),
        chan_id_on_a: s("channel-0"),
        port_id_on_b: s("transfer"),
        chan_id_on_b: s("channel-0"),
        data: b"{\"amount\":\"100\"}".to_vec(),
        timeout_height_on_b: TimeoutHeight::At(Height::new(1, 1000)),
        timeout_timestamp_on_b: Timestamp { nanoseconds: 0 },
    }
}

#[test]
fn channel_creation_initialises_sequences() {
    let c = chain(Order::Unordered, ChannelState::Open);
    assert_eq!(ChannelReader::get_next_sequence_send(&c, &s("transfer"), &s("channel-0")).ok(), Some(1));
    assert_eq!(ChannelReader::get_next_sequence_recv(&c, &s("transfer"), &s("channel-0")).ok(), Some(1));
    assert_eq!(ChannelReader::get_next_sequence_ack(&c, &s("transfer"), &s("channel-0")).ok(), Some(1));
    assert_eq!(ChannelReader::generate_channel_identifier(&c).ok(), Some(1));
    let chans = ChannelReader::connection_channels(&c, &s("connection-0")).ok().unwrap();
    assert_eq!(chans, vec![(s("transfer"), s("channel-0"))]);
}

#[test]
fn sends_use_consecutive_sequences() {
    let mut c = chain(Order::Unordered, ChannelState::Open);
    for seq in 1..=3u64 {
        let res = send_packet(&c, &packet(seq)).ok().unwrap();
        assert_eq!(res.seq, seq);
        assert_eq!(res.seq_number, seq + 1);
        assert!(c.store_packet_result(PacketResult::Send(res)).is_ok());
        assert!(ChannelReader::get_packet_commitment(&c, &s("transfer"), &s("channel-0"), seq).is_ok());
    }
    assert!(matches!(
        send_packet(&c, &packet(7)),
        Err(PacketError::InvalidPacketSequence { given: 7, next: 4 })
    ));
}

#[test]
fn commitment_is_sha256_of_layout() {
    let c = chain(Order::Unordered, ChannelState::Open);
    let empty = ChannelReader::hash(&c, &[]);
    assert_eq!(empty[0..4], [0xe3, 0xb0, 0xc4, 0x42]);
    let p = packet(1);
    let a = ChannelReader::packet_commitment(&c, &p.data, &p.timeout_height_on_b, &p.timeout_timestamp_on_b);
    let b = ChannelReader::packet_commitment(&c, &p.data.clone(), &p.timeout_height_on_b, &p.timeout_timestamp_on_b);
    assert_eq!(a, b);
    assert_eq!(a.len(), 32);
    let data_hash = ChannelReader::hash(&c, &p.data);
    let pre = ibc_core::commitment::commitment_preimage(&p.timeout_height_on_b, &p.timeout_timestamp_on_b, &data_hash);
    assert_eq!(a, ChannelReader::hash(&c, &pre));
    let other = ChannelReader::packet_commitment(&c, b"x", &p.timeout_height_on_b, &p.timeout_timestamp_on_b);
    assert_ne!(a, other);
    let send = send_packet(&c, &p).ok().unwrap();
    assert_eq!(send.commitment, a);
}

#[test]
fn send_rejects_bad_timeouts_and_closed_channel() {
    let c = chain(Order::Unordered, ChannelState::Open);
    let mut p = packet(1);
    p.timeout_height_on_b = TimeoutHeight::Never;
    assert!(matches!(send_packet(&c, &p), Err(PacketError::MissingTimeout)));
    p.timeout_height_on_b = TimeoutHeight::At(Height::new(1, 400));
    assert!(matches!(send_packet(&c, &p), Err(PacketError::LowPacketHeight { .. })));
    p.timeout_height_on_b = TimeoutHeight::Never;
    p.timeout_timestamp_on_b = Timestamp { nanoseconds: 500 };
    assert!(matches!(send_packet(&c, &p), Err(PacketError::LowPacketTimestamp)));
    p.timeout_timestamp_on_b = Timestamp { nanoseconds: 501 };
    assert!(send_packet(&c, &p).is_ok());
    let closed = chain(Order::Unordered, ChannelState::Closed);
    assert!(matches!(send_packet(&closed, &packet(1)), Err(PacketError::ChannelClosed)));
}

#[test]
fn unordered_recv_then_replay_fails() {
    let mut c = chain(Order::Unordered, ChannelState::Open);
    let res = recv_packet(&c, &packet(1)).ok().unwrap();
    assert!(matches!(res, RecvPacketResult::Unordered { sequence: 1, .. }));
    assert!(c.store_packet_result(PacketResult::Recv(res)).is_ok());
    assert!(ChannelReader::get_packet_receipt(&c, &s("transfer"), &s("channel-0"), 1).is_ok());
    assert!(matches!(
        recv_packet(&c, &packet(1)),
        Err(PacketError::PacketAlreadyReceived { sequence: 1 })
    ));
    assert!(recv_packet(&c, &packet(2)).is_ok());
}

#[test]
fn ordered_recv_rejects_out_of_order() {
    let mut c = chain(Order::Ordered, ChannelState::Open);
    assert!(matches!(
        recv_packet(&c, &packet(2)),
        Err(PacketError::InvalidPacketSequence { given: 2, next: 1 })
    ));
    let res = recv_packet(&c, &packet(1)).ok().unwrap();
    assert!(matches!(res, RecvPacketResult::Ordered { next_seq_recv: 2, .. }));
    assert!(c.store_packet_result(PacketResult::Recv(res)).is_ok());
    assert!(matches!(
        recv_packet(&c, &packet(1)),
        Err(PacketError::InvalidPacketSequence { given: 1, next: 2 })
    ));
    assert!(recv_packet(&c, &packet(2)).is_ok());
}

#[test]
fn expired_packet_is_not_received() {
    let mut c = chain(Order::Unordered, ChannelState::Open);
    c.set_host(Height::new(1, 1001), Timestamp { nanoseconds: 1000 });
    assert!(matches!(recv_packet(&c, &packet(1)), Err(PacketError::PacketExpired)));
    c.set_host(Height::new(1, 999), Timestamp { nanoseconds: 1000 });
    let mut p = packet(1);
    p.timeout_timestamp_on_b = Timestamp { nanoseconds: 1000 };
    assert!(matches!(recv_packet(&c, &p), Err(PacketError::PacketExpired)));
}

#[test]
fn ack_deletes_commitment() {
    let mut c = chain(Order::Unordered, ChannelState::Open);
    let res = send_packet(&c, &packet(1)).ok().unwrap();
    assert!(c.store_packet_result(PacketResult::Send(res)).is_ok());
    let ack = ibc_core::packet::AckPacketResult {
        port_id: s("transfer"),
        channel_id: s("channel-0"),
        seq: 1,
        seq_number: None,
    };
    assert!(c.store_packet_result(PacketResult::Ack(ack)).is_ok());
    assert!(ChannelReader::get_packet_commitment(&c, &s("transfer"), &s("channel-0"), 1).is_err());
    assert!(c.store_packet_result(PacketResult::Recv(RecvPacketResult::NoOp)).is_ok());
}

#[test]
fn block_delay_of_chain() {
    let mut c = MemoryChain::new(Height::new(1, 1), Timestamp { nanoseconds: 1 }, 3, vec![]);
    assert_eq!(ChannelReader::block_delay(&c, 10), 4);
    c.set_host(Height::new(1, 2), Timestamp { nanoseconds: 9 });
    assert_eq!(ChannelReader::host_timestamp(&c).ok(), Some(Timestamp { nanoseconds: 9 }));
}

#[test]
fn ack_checks_commitment_and_order() {
    let mut c = chain(Order::Ordered, ChannelState::Open);
    let p1 = packet(1);
    assert!(matches!(
        ibc_core::pipeline::acknowledge_packet(&c, &p1),
        Err(PacketError::PacketCommitmentNotFound { sequence: 1 })
    ));
    let res = send_packet(&c, &p1).ok().unwrap();
    assert!(c.store_packet_result(PacketResult::Send(res)).is_ok());
    let mut tampered = packet(1);
    tampered.data = b"other".to_vec();
    assert!(matches!(
        ibc_core::pipeline::acknowledge_packet(&c, &tampered),
        Err(PacketError::IncorrectPacketCommitment { sequence: 1 })
    ));
    let ack = ibc_core::pipeline::acknowledge_packet(&c, &p1).ok().unwrap();
    assert_eq!(ack.seq_number, Some(2));
    assert!(c.store_packet_result(PacketResult::Ack(ack)).is_ok());
    assert_eq!(ChannelReader::get_next_sequence_ack(&c, &s("transfer"), &s("channel-0")).ok(), Some(2));
    assert!(ibc_core::pipeline::acknowledge_packet(&c, &p1).is_err());
}

#[test]
fn timeout_after_deadline_closes_ordered_channel() {
    let mut c = chain(Order::Ordered, ChannelState::Open);
    let p1 = packet(1);
    let res = send_packet(&c, &p1).ok().unwrap();
    assert!(c.store_packet_result(PacketResult::Send(res)).is_ok());
    c.set_consensus_state(&s("07-tendermint-0"), Height::new(1, 999), ConsensusState { timestamp: Timestamp { nanoseconds: 900 } });
    c.set_consensus_state(&s("07-tendermint-0"), Height::new(1, 1001), ConsensusState { timestamp: Timestamp { nanoseconds: 901 } });
    assert!(matches!(
        ibc_core::pipeline::timeout_packet(&c, &p1, Height::new(1, 999), 1),
        Err(PacketError::PacketTimeoutNotReached)
    ));
    assert!(matches!(
        ibc_core::pipeline::timeout_packet(&c, &p1, Height::new(1, 1001), 2),
        Err(PacketError::PacketAlreadyReceivedOnCounterparty { sequence: 1 })
    ));
    let t = ibc_core::pipeline::timeout_packet(&c, &p1, Height::new(1, 1001), 1).ok().unwrap();
    assert_eq!(t.channel.as_ref().map(|ch| ch.state), Some(ChannelState::Closed));
    assert!(c.store_packet_result(PacketResult::Timeout(t)).is_ok());
    assert!(ChannelReader::get_packet_commitment(&c, &s("transfer"), &s("channel-0"), 1).is_err());
    let ch = ChannelReader::channel_end(&c, &s("transfer"), &s("channel-0")).ok().unwrap();
    assert_eq!(ch.state, ChannelState::Closed);
    assert!(matches!(send_packet(&c, &packet(2)), Err(PacketError::ChannelClosed)));
}

#[test]
fn write_ack_stores_hash_once() {
    let mut c = chain(Order::Unordered, ChannelState::Open);
    let p = packet(1);
    assert!(matches!(ibc_core::pipeline::write_acknowledgement(&c, &p, &[]), Err(PacketError::EmptyAcknowledgement)));
    let w = ibc_core::pipeline::write_acknowledgement(&c, &p, b"{\"result\":\"AQ==\"}").ok().unwrap();
    assert_eq!(w.ack_commitment, ChannelReader::hash(&c, b"{\"result\":\"AQ==\"}"));
    assert!(c.store_packet_result(PacketResult::WriteAck(w)).is_ok());
    assert!(ChannelReader::get_packet_acknowledgement(&c, &s("transfer"), &s("channel-0"), 1).is_ok());
    assert!(matches!(
        ibc_core::pipeline::write_acknowledgement(&c, &p, b"x"),
        Err(PacketError::AcknowledgementExists { sequence: 1 })
    ));
}

#[test]
fn timeout_on_close_needs_closed_counterparty() {
    let mut c = chain(Order::Ordered, ChannelState::Open);
    let p1 = packet(1);
    let res = send_packet(&c, &p1).ok().unwrap();
    assert!(c.store_packet_result(PacketResult::Send(res)).is_ok());
    let proof = vec![1u8];
    assert!(matches!(
        ibc_core::pipeline::timeout_on_close(&c, &p1, &proof, Height::new(1, 600), 1),
        Err(PacketError::CounterpartyChannelNotClosed)
    ));
    c.set_remote_channel_state(&s("07-tendermint-0"), &s("transfer"), &s("channel-0"), Height::new(1, 600), ChannelState::Closed);
    let t = ibc_core::pipeline::timeout_on_close(&c, &p1, &proof, Height::new(1, 600), 1).ok().unwrap();
    assert_eq!(t.channel.map(|ch| ch.state), Some(ChannelState::Closed));
}
