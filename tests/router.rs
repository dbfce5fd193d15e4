use ibc_core::router::{classify, ContextError, MsgFamily, RouterError};
use ibc_core::transfer::{on_chan_open_try_validate, TokenTransferError};

#[test]
fn known_type_urls_are_classified() {
    let f = |u: &str| classify(&u.to_string()).ok();
    assert_eq!(f("/ibc.core.client.v1.MsgUpdateClient"), Some(MsgFamily::Client));
    assert_eq!(f("/ibc.core.connection.v1.MsgConnectionOpenTry"), Some(MsgFamily::Connection));
    assert_eq!(f("/ibc.core.channel.v1.MsgChannelCloseInit"), Some(MsgFamily::Channel));
    assert_eq!(f("/ibc.core.channel.v1.MsgRecvPacket"), Some(MsgFamily::Packet));
}

#[test]
fn unknown_type_url_is_rejected() {
    match classify(&"/cosmos.bank.v1beta1.MsgSend".to_string()) {
        Err(RouterError::UnknownMessageTypeUrl { url }) => assert_eq!(url, "/cosmos.bank.v1beta1.MsgSend"),
        _ => panic!("expected an unknown type URL"),
    }
}

#[test]
fn context_error_converts() {
    let e: RouterError = ContextError::PortNotBound { port_id: "transfer".to_string() }.into();
    assert!(matches!(e, RouterError::ContextError(ContextError::PortNotBound { .. })));
}

#[test]
fn transfer_version_is_checked() {
    assert!(on_chan_open_try_validate(&"ics20-1".to_string()).is_ok());
    assert!(matches!(
        on_chan_open_try_validate(&"ics20-2".to_string()),
        Err(TokenTransferError::InvalidVersion)
    ));
}
