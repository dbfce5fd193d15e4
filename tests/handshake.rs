use ibc_core::channel::{ChannelError, ChannelIdState, ChannelState, Order};
use ibc_core::connection::{ConnectionCounterparty, ConnectionEnd, ConnectionState};
use ibc_core::context::{ChannelKeeper, ChannelReader};
use ibc_core::handshake::{channel_dispatch, ChannelMsg};
use ibc_core::height::{Height, Timestamp};
use ibc_core::memory::MemoryChain;

fn s(x: &str) -> String {
    x.to_string()
}

fn host() -> MemoryChain {
    let mut c = MemoryChain::new(Height::new(1, 10), Timestamp { nanoseconds: 1 }, 0, vec![s("1")]);
    c.set_connection(
        &s("connection-0"),
        ConnectionEnd {
            state: ConnectionState::Open,
            client_id: s("07-tendermint-0"),
            remote: ConnectionCounterparty { client_id: s("07-tendermint-9"), connection_id: Some(s("connection-4")), prefix: vec![] },
            versions: vec![s("1")],
            delay_period_ns: 0,
        },
    );
    c
}

fn init() -> ChannelMsg {
    ChannelMsg::OpenInit {
        port_id: s("transfer"),
        ordering: Order::Unordered,
        connection_hops: vec![s("connection-0")],
        remote_port: s("transfer"),
        version: s("ics20-1"),
    }
}

#[test]
fn chan_open_init_allocates_identifier() {
    let mut c = host();
    let r = channel_dispatch(&c, init()).ok().unwrap();
    assert_eq!(r.channel_id, "channel-0");
    assert!(matches!(r.channel_id_state, ChannelIdState::Generated));
    assert_eq!(r.channel_end.state, ChannelState::Init);
    assert!(c.store_channel_result(r).is_ok());
    let r2 = channel_dispatch(&c, init()).ok().unwrap();
    assert_eq!(r2.channel_id, "channel-1");
    let bad = ChannelMsg::OpenInit {
        port_id: s("transfer"),
        ordering: Order::Unordered,
        connection_hops: vec![s("connection-0"), s("connection-1")],
        remote_port: s("transfer"),
        version: s("ics20-1"),
    };
    assert!(matches!(channel_dispatch(&c, bad), Err(ChannelError::InvalidConnectionHops)));
}

#[test]
fn chan_open_ack_before_try_fails_then_opens() {
    let mut c = host();
    let r = channel_dispatch(&c, init()).ok().unwrap();
    assert!(c.store_channel_result(r).is_ok());
    let ack = || ChannelMsg::OpenAck {
        port_id: s("transfer"),
        channel_id: s("channel-0"),
        counterparty_channel_id: s("channel-7"),
        counterparty_version: s("ics20-1"),
        proof: vec![1],
        proofs_height: Height::new(1, 9),
    };
    assert!(matches!(channel_dispatch(&c, ack()), Err(ChannelError::ProofVerificationFailure)));
    c.set_remote_channel_state(&s("07-tendermint-0"), &s("transfer"), &s("channel-7"), Height::new(1, 9), ChannelState::TryOpen);
    let opened = channel_dispatch(&c, ack()).ok().unwrap();
    assert_eq!(opened.channel_end.state, ChannelState::Open);
    assert_eq!(opened.channel_end.remote.channel_id, Some(s("channel-7")));
    assert!(c.store_channel_result(opened).is_ok());
    let confirm = ChannelMsg::OpenConfirm { port_id: s("transfer"), channel_id: s("channel-0"), proof: vec![1], proofs_height: Height::new(1, 9) };
    assert!(matches!(
        channel_dispatch(&c, confirm),
        Err(ChannelError::InvalidState { expected: ChannelState::TryOpen, actual: ChannelState::Open })
    ));
    let close = ChannelMsg::CloseInit { port_id: s("transfer"), channel_id: s("channel-0") };
    let closed = channel_dispatch(&c, close).ok().unwrap();
    assert_eq!(closed.channel_end.state, ChannelState::Closed);
    assert!(c.store_channel_result(closed).is_ok());
    let end = ChannelReader::channel_end(&c, &s("transfer"), &s("channel-0")).ok().unwrap();
    assert_eq!(end.state, ChannelState::Closed);
}

#[test]
fn chan_open_try_needs_counterparty_init() {
    let mut c = host();
    let try_msg = || ChannelMsg::OpenTry {
        port_id: s("transfer"),
        ordering: Order::Ordered,
        connection_hops: vec![s("connection-0")],
        remote_port: s("transfer"),
        remote_channel: s("channel-3"),
        version: s("ics20-1"),
        proof: vec![1],
        proofs_height: Height::new(1, 9),
    };
    assert!(matches!(channel_dispatch(&c, try_msg()), Err(ChannelError::ProofVerificationFailure)));
    c.set_remote_channel_state(&s("07-tendermint-0"), &s("transfer"), &s("channel-3"), Height::new(1, 9), ChannelState::Init);
    let r = channel_dispatch(&c, try_msg()).ok().unwrap();
    assert_eq!(r.channel_end.state, ChannelState::TryOpen);
    assert_eq!(r.channel_end.ordering, Order::Ordered);
}
