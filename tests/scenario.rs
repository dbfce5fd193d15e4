use ibc_core::bank::Bank;
use ibc_core::channel::{ChannelCounterparty, ChannelEnd, ChannelIdState, ChannelResult, ChannelState, Order};
use ibc_core::client::{ClientState, ConsensusState};
use ibc_core::connection::{ConnectionCounterparty, ConnectionEnd, ConnectionState};
use ibc_core::context::{ChannelKeeper, ChannelReader};
use ibc_core::height::{Height, TimeoutHeight, Timestamp};
use ibc_core::memory::MemoryChain;
use ibc_core::packet::{Packet, PacketResult};
use ibc_core::pipeline::{acknowledge_packet, recv_packet, send_packet, timeout_packet};
use ibc_core::transfer::{
    on_recv_packet_execute, refund_packet_token_execute, send_transfer_token_execute, Coin, PacketData,
};

fn s(x: &str) -> String {
    x.to_string()
}

fn chain(height: u64) -> MemoryChain {
    let mut c = MemoryChain::new(Height::new(1, height), Timestamp { nanoseconds: 1000 }, 0, vec![s("1")]);
    c.set_connection(
        &s("connection-0"),
        ConnectionEnd {
            state: ConnectionState::Open,
            client_id: s("07-tendermint-0"),
            remote: ConnectionCounterparty { client_id: s("07-tendermint-0"), connection_id: Some(s("connection-0")), prefix: vec![] },
            versions: vec![s("1")],
            delay_period_ns: 0,
        },
    );
    c.set_client_state(&s("07-tendermint-0"), ClientState { latest_height: Height::new(1, 500), frozen: false });
    c.set_consensus_state(&s("07-tendermint-0"), Height::new(1, 500), ConsensusState { timestamp: Timestamp { nanoseconds: 500 } });
    let end = ChannelEnd {
        state: ChannelState::Open,
        ordering: Order::Unordered,
        remote: ChannelCounterparty { port_id: s("transfer"), channel_id: Some(s("channel-0")) },
        connection_hops: vec![s("connection-0")],
        version: s("ics20-1"),
    };
    let r = ChannelResult { port_id: s("transfer"), channel_id: s("channel-0"), channel_id_state: ChannelIdState::Generated, channel_end: end };
    assert!(c.store_channel_result(r).is_ok());
    c
}

fn transfer_packet() -> (Packet, PacketData) {
    let data = PacketData { token: Coin { denom: s("uatom"), amount: 100 }, sender: s("alice"), receiver: s("bob"), memo: s("") };
    let p = Packet {
        sequence: 1,
        port_id_on_a: s("transfer"),
        chan_id_on_a: s("channel-0"),
        port_id_on_b: s("transfer"),
        chan_id_on_b: s("channel-0"),
        data: b"{\"amount\":\"100\",\"denom\":\"uatom\",\"receiver\":\"bob\",\"sender\":\"alice\"}".to_vec(),
        timeout_height_on_b: TimeoutHeight::At(Height::new(1, 1000)),
        timeout_timestamp_on_b: Timestamp { nanoseconds: 0 },
    };
    (p, data)
}

#[test]
fn send_recv_ack_unordered() {
    let mut a = chain(400);
    let mut b = chain(500);
    let mut bank_a = Bank::new();
    let mut bank_b = Bank::new();
    bank_a.set_balance(&s("alice"), &s("uatom"), 1000);
    let (p, data) = transfer_packet();
    let escrow = Bank::escrow_account(&s("transfer"), &s("channel-0"));

    assert!(send_transfer_token_execute(&mut bank_a, &p.port_id_on_a, &p.chan_id_on_a, &data).is_ok());
    let sent = send_packet(&a, &p).ok().unwrap();
    assert!(a.store_packet_result(PacketResult::Send(sent)).is_ok());
    assert_eq!(bank_a.balance_of(&s("alice"), &s("uatom")), 900);
    assert_eq!(bank_a.balance_of(&escrow, &s("uatom")), 100);
    assert!(ChannelReader::get_packet_commitment(&a, &s("transfer"), &s("channel-0"), 1).is_ok());

    let received = recv_packet(&b, &p).ok().unwrap();
    assert!(b.store_packet_result(PacketResult::Recv(received)).is_ok());
    assert!(on_recv_packet_execute(&mut bank_b, &p, &data).is_ok());
    assert_eq!(bank_b.balance_of(&s("bob"), &s("transfer/channel-0/uatom")), 100);
    assert!(ChannelReader::get_packet_receipt(&b, &s("transfer"), &s("channel-0"), 1).is_ok());

    let acked = acknowledge_packet(&a, &p).ok().unwrap();
    assert!(a.store_packet_result(PacketResult::Ack(acked)).is_ok());
    assert!(ChannelReader::get_packet_commitment(&a, &s("transfer"), &s("channel-0"), 1).is_err());
    assert_eq!(bank_a.balance_of(&s("alice"), &s("uatom")), 900);
    assert_eq!(bank_a.balance_of(&escrow, &s("uatom")), 100);
}

#[test]
fn send_timeout_refund() {
    let mut a = chain(400);
    let mut bank_a = Bank::new();
    bank_a.set_balance(&s("alice"), &s("uatom"), 1000);
    let (p, data) = transfer_packet();
    let escrow = Bank::escrow_account(&s("transfer"), &s("channel-0"));
    assert!(send_transfer_token_execute(&mut bank_a, &p.port_id_on_a, &p.chan_id_on_a, &data).is_ok());
    let sent = send_packet(&a, &p).ok().unwrap();
    assert!(a.store_packet_result(PacketResult::Send(sent)).is_ok());

    a.set_consensus_state(&s("07-tendermint-0"), Height::new(1, 1001), ConsensusState { timestamp: Timestamp { nanoseconds: 2000 } });
    let t = timeout_packet(&a, &p, Height::new(1, 1001), 1).ok().unwrap();
    assert!(t.channel.is_none());
    assert!(a.store_packet_result(PacketResult::Timeout(t)).is_ok());
    assert!(refund_packet_token_execute(&mut bank_a, &p, &data).is_ok());
    assert!(ChannelReader::get_packet_commitment(&a, &s("transfer"), &s("channel-0"), 1).is_err());
    assert_eq!(bank_a.balance_of(&s("alice"), &s("uatom")), 1000);
    assert_eq!(bank_a.balance_of(&escrow, &s("uatom")), 0);
}
