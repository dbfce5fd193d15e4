use ibc_core::connection::{
    dispatch, pick_version, ConnectionCounterparty, ConnectionEnd, ConnectionError,
    ConnectionIdState, ConnectionMsg, ConnectionState,
};
use ibc_core::height::{Height, Timestamp};
use ibc_core::memory::MemoryChain;

fn s(x: &str) -> String {
    x.to_string()
}

fn remote(id: Option<&str>) -> ConnectionCounterparty {
    ConnectionCounterparty {
        client_id: s("07-tendermint-9"),
        connection_id: id.map(s),
        prefix: b"ibc".to_vec(),
    }
}

fn host() -> MemoryChain {
    MemoryChain::new(Height::new(1, 10), Timestamp { nanoseconds: 1 }, 0, vec![s("1"), s("2")])
}

#[test]
fn open_init_generates_identifier() {
    let c = host();
    let msg = ConnectionMsg::OpenInit { client_id: s("07-tendermint-0"), remote: remote(None), version: None, delay_period_ns: 0 };
    let r = dispatch(&c, msg).ok().unwrap();
    assert_eq!(r.connection_id, "connection-0");
    assert!(matches!(r.connection_id_state, ConnectionIdState::Generated));
    assert_eq!(r.connection_end.state, ConnectionState::Init);
    assert_eq!(r.connection_end.versions, vec![s("1"), s("2")]);
    let bad = ConnectionMsg::OpenInit { client_id: s("07-tendermint-0"), remote: remote(None), version: Some(s("9")), delay_period_ns: 0 };
    assert!(matches!(dispatch(&c, bad), Err(ConnectionError::VersionNotSupported)));
}

#[test]
fn open_try_without_common_version_fails() {
    let mut c = host();
    c.set_remote_connection_state(&s("07-tendermint-0"), &s("connection-5"), Height::new(1, 9), ConnectionState::Init);
    let msg = ConnectionMsg::OpenTry {
        client_id: s("07-tendermint-0"),
        remote: remote(Some("connection-5")),
        counterparty_versions: vec![s("3"), s("4")],
        delay_period_ns: 0,
        proof: vec![1],
        proofs_height: Height::new(1, 9),
    };
    assert!(matches!(dispatch(&c, msg), Err(ConnectionError::NoCommonVersion)));
}

#[test]
fn open_try_picks_earliest_common_version() {
    let mut c = host();
    c.set_remote_connection_state(&s("07-tendermint-0"), &s("connection-5"), Height::new(1, 9), ConnectionState::Init);
    let msg = ConnectionMsg::OpenTry {
        client_id: s("07-tendermint-0"),
        remote: remote(Some("connection-5")),
        counterparty_versions: vec![s("3"), s("2"), s("1")],
        delay_period_ns: 0,
        proof: vec![1],
        proofs_height: Height::new(1, 9),
    };
    let r = dispatch(&c, msg).ok().unwrap();
    assert_eq!(r.connection_end.versions, vec![s("2")]);
    assert_eq!(r.connection_end.state, ConnectionState::TryOpen);
    assert_eq!(pick_version(&vec![s("a"), s("b")], &vec![s("b"), s("a")]), Some(s("a")));
    assert_eq!(pick_version(&vec![s("a")], &vec![]), None);
}

fn init_end() -> ConnectionEnd {
    ConnectionEnd {
        state: ConnectionState::Init,
        client_id: s("07-tendermint-0"),
        remote: remote(None),
        versions: vec![s("1")],
        delay_period_ns: 0,
    }
}

#[test]
fn open_ack_before_try_fails() {
    let mut c = host();
    c.set_connection(&s("connection-0"), init_end());
    let ack = || ConnectionMsg::OpenAck {
        conn_id: s("connection-0"),
        counterparty_conn_id: s("connection-5"),
        version: s("1"),
        proof: vec![1],
        proofs_height: Height::new(1, 9),
    };
    assert!(matches!(dispatch(&c, ack()), Err(ConnectionError::ProofVerificationFailure)));
    c.set_remote_connection_state(&s("07-tendermint-0"), &s("connection-5"), Height::new(1, 9), ConnectionState::TryOpen);
    let r = dispatch(&c, ack()).ok().unwrap();
    assert_eq!(r.connection_end.state, ConnectionState::Open);
    assert_eq!(r.connection_end.remote.connection_id, Some(s("connection-5")));
    assert!(matches!(r.connection_id_state, ConnectionIdState::Reused));
}

#[test]
fn confirm_needs_try_open() {
    let mut c = host();
    c.set_connection(&s("connection-0"), init_end());
    let confirm = ConnectionMsg::OpenConfirm { conn_id: s("connection-0"), proof: vec![1], proofs_height: Height::new(1, 9) };
    assert!(matches!(
        dispatch(&c, confirm),
        Err(ConnectionError::InvalidState { expected: ConnectionState::TryOpen, actual: ConnectionState::Init })
    ));
    let unknown = ConnectionMsg::OpenAck {
        conn_id: s("connection-3"),
        counterparty_conn_id: s("connection-5"),
        version: s("1"),
        proof: vec![1],
        proofs_height: Height::new(1, 9),
    };
    assert!(matches!(dispatch(&c, unknown), Err(ConnectionError::ConnectionNotFound { .. })));
}
