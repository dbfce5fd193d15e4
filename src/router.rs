//! Errors surfaced at the entry point.

use vstd::prelude::*;
use crate::channel::ChannelError;
use crate::connection::ConnectionError;
use crate::packet::PacketError;

verus! {

/// The protobuf decoding error of the message definitions.
#[verifier::external_type_specification]
#[verifier::external_body]
pub struct ExProtoError(ibc_proto::Error);

/// Errors of the protocol handlers, by layer.
#[derive(Debug)]
pub enum ContextError {
    ConnectionError(ConnectionError),
    ChannelError(ChannelError),
    PacketError(PacketError),
    PortNotBound { port_id: String },
}

/// Error returned from the entry point.
#[derive(Debug)]
pub enum RouterError {
    ContextError(ContextError),
    UnknownMessageTypeUrl { url: String },
    MalformedMessageBytes(ibc_proto::Error),
}

impl From<ContextError> for RouterError {
    fn from(error: ContextError) -> (r: Self)
        ensures
            r == RouterError::ContextError(error),
    {
        RouterError::ContextError(error)
    }
}

impl vstd::std_specs::convert::FromSpecImpl<ContextError> for RouterError {
    open spec fn obeys_from_spec() -> bool {
        true
    }

    open spec fn from_spec(v: ContextError) -> RouterError {
        RouterError::ContextError(v)
    }
}

/// The four families of messages the entry point accepts.
#[derive(Clone, Copy, Debug, PartialEq, Eq, Structural)]
pub enum MsgFamily {
    Client,
    Connection,
    Channel,
    Packet,
}

/// The family of the message with type URL `url`, if the entry point knows it.
pub open spec fn family_of(url: Seq<char>) -> Option<MsgFamily> {
    if url == "/ibc.core.client.v1.MsgCreateClient"@ || url
        == "/ibc.core.client.v1.MsgUpdateClient"@ {
        Some(MsgFamily::Client)
    } else if url == "/ibc.core.connection.v1.MsgConnectionOpenInit"@ || url
        == "/ibc.core.connection.v1.MsgConnectionOpenTry"@ || url
        == "/ibc.core.connection.v1.MsgConnectionOpenAck"@ || url
        == "/ibc.core.connection.v1.MsgConnectionOpenConfirm"@ {
        Some(MsgFamily::Connection)
    } else if url == "/ibc.core.channel.v1.MsgChannelOpenInit"@ || url
        == "/ibc.core.channel.v1.MsgChannelOpenTry"@ || url
        == "/ibc.core.channel.v1.MsgChannelOpenAck"@ || url
        == "/ibc.core.channel.v1.MsgChannelOpenConfirm"@ || url
        == "/ibc.core.channel.v1.MsgChannelCloseInit"@ || url
        == "/ibc.core.channel.v1.MsgChannelCloseConfirm"@ {
        Some(MsgFamily::Channel)
    } else if url == "/ibc.core.channel.v1.MsgRecvPacket"@ || url
        == "/ibc.core.channel.v1.MsgAcknowledgement"@ || url
        == "/ibc.core.channel.v1.MsgTimeout"@ || url
        == "/ibc.core.channel.v1.MsgTimeoutOnClose"@ {
        Some(MsgFamily::Packet)
    } else {
        None
    }
}

fn is_url(url: &String, known: &str) -> (r: bool)
    ensures
        r == (url@ == known@),
{
    *url == String::from_str(known)
}

/// Classifies an envelope by its type URL; an unknown URL is rejected before
/// any handler runs.
pub fn classify(url: &String) -> (r: Result<MsgFamily, RouterError>)
    ensures
        r is Ok <==> family_of(url@) is Some,
        r is Ok ==> family_of(url@) == Some(r->Ok_0),
        r is Err ==> (r matches Err(RouterError::UnknownMessageTypeUrl { url: u }) && u@ == url@),
{
    if is_url(url, "/ibc.core.client.v1.MsgCreateClient") || is_url(
        url,
        "/ibc.core.client.v1.MsgUpdateClient",
    ) {
        Ok(MsgFamily::Client)
    } else if is_url(url, "/ibc.core.connection.v1.MsgConnectionOpenInit") || is_url(
        url,
        "/ibc.core.connection.v1.MsgConnectionOpenTry",
    ) || is_url(url, "/ibc.core.connection.v1.MsgConnectionOpenAck") || is_url(
        url,
        "/ibc.core.connection.v1.MsgConnectionOpenConfirm",
    ) {
        Ok(MsgFamily::Connection)
    } else if is_url(url, "/ibc.core.channel.v1.MsgChannelOpenInit") || is_url(
        url,
        "/ibc.core.channel.v1.MsgChannelOpenTry",
    ) || is_url(url, "/ibc.core.channel.v1.MsgChannelOpenAck") || is_url(
        url,
        "/ibc.core.channel.v1.MsgChannelOpenConfirm",
    ) || is_url(url, "/ibc.core.channel.v1.MsgChannelCloseInit") || is_url(
        url,
        "/ibc.core.channel.v1.MsgChannelCloseConfirm",
    ) {
        Ok(MsgFamily::Channel)
    } else if is_url(url, "/ibc.core.channel.v1.MsgRecvPacket") || is_url(
        url,
        "/ibc.core.channel.v1.MsgAcknowledgement",
    ) || is_url(url, "/ibc.core.channel.v1.MsgTimeout") || is_url(
        url,
        "/ibc.core.channel.v1.MsgTimeoutOnClose",
    ) {
        Ok(MsgFamily::Packet)
    } else {
        Err(RouterError::UnknownMessageTypeUrl { url: url.clone() })
    }
}

} // verus!
