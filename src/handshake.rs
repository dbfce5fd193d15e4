//! The channel handshake: opening in four steps and closing in two, each a
//! check against the store and, for the remote steps, a proof of the
//! counterparty's channel state.

use vstd::prelude::*;
use crate::channel::{
    ChannelCounterparty, ChannelEnd, ChannelEndView, ChannelError, ChannelIdState, ChannelResult,
    ChannelState, Order,
};
use crate::connection::{decimal, push_decimal, ConnectionState};
use crate::context::ChannelReader;
use crate::height::Height;

verus! {

/// The channel handshake messages.
#[derive(Clone, Debug)]
pub enum ChannelMsg {
    OpenInit {
        port_id: String,
        ordering: Order,
        connection_hops: Vec<String>,
        remote_port: String,
        version: String,
    },
    OpenTry {
        port_id: String,
        ordering: Order,
        connection_hops: Vec<String>,
        remote_port: String,
        remote_channel: String,
        version: String,
        proof: Vec<u8>,
        proofs_height: Height,
    },
    OpenAck {
        port_id: String,
        channel_id: String,
        counterparty_channel_id: String,
        counterparty_version: String,
        proof: Vec<u8>,
        proofs_height: Height,
    },
    OpenConfirm { port_id: String, channel_id: String, proof: Vec<u8>, proofs_height: Height },
    CloseInit { port_id: String, channel_id: String },
    CloseConfirm { port_id: String, channel_id: String, proof: Vec<u8>, proofs_height: Height },
}

/// `"channel-{n}"`, the identifier of the `n`-th channel.
pub open spec fn channel_id_spec(n: nat) -> Seq<char> {
    seq!['c', 'h', 'a', 'n', 'n', 'e', 'l', '-'] + decimal(n as u64)
}

/// Builds `"channel-{n}"`.
pub fn format_channel_id(n: u64) -> (r: String)
    ensures
        r@ == channel_id_spec(n as nat),
{
    proof {
        reveal_strlit("channel-");
    }
    let mut s = String::from_str("channel-");
    push_decimal(&mut s, n);
    assert(s@ =~= channel_id_spec(n as nat));
    s
}

/// The hops are a single connection, which is open; its client is `client`.
pub open spec fn hop_open<C: ChannelReader>(ctx: C, hops: Seq<String>) -> bool {
    &&& hops.len() == 1
    &&& ctx.connections().contains_key(hops[0]@)
    &&& ctx.connections()[hops[0]@].state == ConnectionState::Open
}

/// The client of the connection of an existing channel end.
pub open spec fn client_of<C: ChannelReader>(ctx: C, ch: ChannelEndView) -> Seq<char> {
    ctx.connections()[ch.hops[0]].client_id
}

/// The channel end `key` exists in state `state` and its connection is open.
pub open spec fn end_in<C: ChannelReader>(
    ctx: C,
    key: (Seq<char>, Seq<char>),
    state: ChannelState,
) -> bool {
    &&& ctx.channels().contains_key(key)
    &&& ctx.channels()[key].state == state
    &&& ctx.channels()[key].hops.len() > 0
    &&& ctx.connections().contains_key(ctx.channels()[key].hops[0])
    &&& ctx.connections()[ctx.channels()[key].hops[0]].state == ConnectionState::Open
}

/// The handshake message is accepted on the store that `ctx` shows.
pub open spec fn channel_msg_accepted<C: ChannelReader>(ctx: C, msg: ChannelMsg) -> bool {
    match msg {
        ChannelMsg::OpenInit { connection_hops, .. } => hop_open(ctx, connection_hops@)
            && ctx.channel_id_available(),
        ChannelMsg::OpenTry {
            connection_hops,
            remote_port,
            remote_channel,
            proof,
            proofs_height,
            ..
        } => {
            &&& hop_open(ctx, connection_hops@)
            &&& ctx.channel_id_available()
            &&& ctx.channel_proof_ok(
                ctx.connections()[connection_hops@[0]@].client_id,
                proofs_height,
                proof@,
                remote_port@,
                remote_channel@,
                ChannelState::Init,
            )
        },
        ChannelMsg::OpenAck {
            port_id,
            channel_id,
            counterparty_channel_id,
            proof,
            proofs_height,
            ..
        } => {
            let ch = ctx.channels()[(port_id@, channel_id@)];
            &&& end_in(ctx, (port_id@, channel_id@), ChannelState::Init)
            &&& ctx.channel_proof_ok(
                client_of(ctx, ch),
                proofs_height,
                proof@,
                ch.remote_port,
                counterparty_channel_id@,
                ChannelState::TryOpen,
            )
        },
        ChannelMsg::OpenConfirm { port_id, channel_id, proof, proofs_height } => {
            let ch = ctx.channels()[(port_id@, channel_id@)];
            &&& end_in(ctx, (port_id@, channel_id@), ChannelState::TryOpen)
            &&& ch.remote_channel is Some
            &&& ctx.channel_proof_ok(
                client_of(ctx, ch),
                proofs_height,
                proof@,
                ch.remote_port,
                ch.remote_channel->Some_0,
                ChannelState::Open,
            )
        },
        ChannelMsg::CloseInit { port_id, channel_id } => {
            end_in(ctx, (port_id@, channel_id@), ChannelState::Open)
        },
        ChannelMsg::CloseConfirm { port_id, channel_id, proof, proofs_height } => {
            let ch = ctx.channels()[(port_id@, channel_id@)];
            &&& end_in(ctx, (port_id@, channel_id@), ChannelState::Open)
            &&& ch.remote_channel is Some
            &&& ctx.channel_proof_ok(
                client_of(ctx, ch),
                proofs_height,
                proof@,
                ch.remote_port,
                ch.remote_channel->Some_0,
                ChannelState::Closed,
            )
        },
    }
}

/// `res` is what an accepted handshake message yields on the store that `ctx` shows.
pub open spec fn channel_msg_result<C: ChannelReader>(
    ctx: C,
    msg: ChannelMsg,
    res: ChannelResult,
) -> bool {
    let e = res.channel_end@;
    match msg {
        ChannelMsg::OpenInit { port_id, ordering, connection_hops, remote_port, version } => {
            &&& res.port_id == port_id
            &&& res.channel_id@ == channel_id_spec(ctx.channel_counter())
            &&& res.channel_id_state == ChannelIdState::Generated
            &&& e == (ChannelEndView {
                state: ChannelState::Init,
                ordering,
                remote_port: remote_port@,
                remote_channel: None,
                hops: crate::connection::string_views(connection_hops@),
                version: version@,
            })
        },
        ChannelMsg::OpenTry {
            port_id,
            ordering,
            connection_hops,
            remote_port,
            remote_channel,
            version,
            ..
        } => {
            &&& res.port_id == port_id
            &&& res.channel_id@ == channel_id_spec(ctx.channel_counter())
            &&& res.channel_id_state == ChannelIdState::Generated
            &&& e == (ChannelEndView {
                state: ChannelState::TryOpen,
                ordering,
                remote_port: remote_port@,
                remote_channel: Some(remote_channel@),
                hops: crate::connection::string_views(connection_hops@),
                version: version@,
            })
        },
        ChannelMsg::OpenAck { port_id, channel_id, counterparty_channel_id, counterparty_version, .. } => {
            let ch = ctx.channels()[(port_id@, channel_id@)];
            &&& res.port_id == port_id
            &&& res.channel_id == channel_id
            &&& res.channel_id_state == ChannelIdState::Reused
            &&& e == (ChannelEndView {
                state: ChannelState::Open,
                remote_channel: Some(counterparty_channel_id@),
                version: counterparty_version@,
                ..ch
            })
        },
        ChannelMsg::OpenConfirm { port_id, channel_id, .. } => {
            let ch = ctx.channels()[(port_id@, channel_id@)];
            &&& res.port_id == port_id
            &&& res.channel_id == channel_id
            &&& res.channel_id_state == ChannelIdState::Reused
            &&& e == (ChannelEndView { state: ChannelState::Open, ..ch })
        },
        ChannelMsg::CloseInit { port_id, channel_id } => {
            let ch = ctx.channels()[(port_id@, channel_id@)];
            &&& res.port_id == port_id
            &&& res.channel_id == channel_id
            &&& res.channel_id_state == ChannelIdState::Reused
            &&& e == (ChannelEndView { state: ChannelState::Closed, ..ch })
        },
        ChannelMsg::CloseConfirm { port_id, channel_id, .. } => {
            let ch = ctx.channels()[(port_id@, channel_id@)];
            &&& res.port_id == port_id
            &&& res.channel_id == channel_id
            &&& res.channel_id_state == ChannelIdState::Reused
            &&& e == (ChannelEndView { state: ChannelState::Closed, ..ch })
        },
    }
}

/// Reads the channel end `(port, chan)`, checks its state and that its
/// connection is open, and returns it with its connection's client.
fn end_with_state<C: ChannelReader>(
    ctx: &C,
    port: &String,
    chan: &String,
    state: ChannelState,
) -> (r: Result<(ChannelEnd, String), ChannelError>)
    ensures
        r is Ok <==> end_in(*ctx, (port@, chan@), state),
        r is Ok ==> r->Ok_0.0@ == ctx.channels()[(port@, chan@)] && r->Ok_0.1@ == client_of(
            *ctx,
            ctx.channels()[(port@, chan@)],
        ),
{
    let ch = ctx.channel_end(port, chan)?;
    if ch.state != state {
        return Err(ChannelError::InvalidState { expected: state, actual: ch.state });
    }
    if ch.connection_hops.len() == 0 {
        return Err(ChannelError::InvalidConnectionHops);
    }
    let conn = ChannelReader::connection_end(ctx, &ch.connection_hops[0])?;
    if conn.state != ConnectionState::Open {
        return Err(ChannelError::ConnectionNotOpen);
    }
    Ok((ch, conn.client_id))
}

/// Checks that `hops` is one open connection, and returns its client.
fn open_hop<C: ChannelReader>(ctx: &C, hops: &Vec<String>) -> (r: Result<String, ChannelError>)
    ensures
        r is Ok <==> hop_open(*ctx, hops@),
        r is Ok ==> r->Ok_0@ == ctx.connections()[hops@[0]@].client_id,
{
    if hops.len() != 1 {
        return Err(ChannelError::InvalidConnectionHops);
    }
    let conn = ChannelReader::connection_end(ctx, &hops[0])?;
    if conn.state != ConnectionState::Open {
        return Err(ChannelError::ConnectionNotOpen);
    }
    Ok(conn.client_id)
}

/// The next channel identifier, from the channel counter.
fn next_channel_id<C: ChannelReader>(ctx: &C) -> (r: Result<String, ChannelError>)
    ensures
        r is Ok <==> ctx.channel_id_available(),
        r is Ok ==> r->Ok_0@ == channel_id_spec(ctx.channel_counter()),
{
    let n = ctx.generate_channel_identifier()?;
    Ok(format_channel_id(n))
}

/// Processes one channel handshake message against a read-only context.
/// Messages out of order (an acknowledgement for an end that is not in
/// `Init`, a confirmation for one not in `TryOpen`, a counterparty not proved
/// in the state the step needs) are rejected; the context is never written.
pub fn channel_dispatch<C: ChannelReader>(ctx: &C, msg: ChannelMsg) -> (r: Result<
    ChannelResult,
    ChannelError,
>)
    ensures
        r is Ok <==> channel_msg_accepted(*ctx, msg),
        r is Ok ==> channel_msg_result(*ctx, msg, r->Ok_0),
{
    match msg {
        ChannelMsg::OpenInit { port_id, ordering, connection_hops, remote_port, version } => {
            open_hop(ctx, &connection_hops)?;
            let channel_id = next_channel_id(ctx)?;
            let end = ChannelEnd {
                state: ChannelState::Init,
                ordering,
                remote: ChannelCounterparty { port_id: remote_port, channel_id: None },
                connection_hops,
                version,
            };
            Ok(ChannelResult { port_id, channel_id, channel_id_state: ChannelIdState::Generated, channel_end: end })
        },
        ChannelMsg::OpenTry {
            port_id,
            ordering,
            connection_hops,
            remote_port,
            remote_channel,
            version,
            proof,
            proofs_height,
        } => {
            let client = open_hop(ctx, &connection_hops)?;
            if !ctx.verify_channel_state(
                &client,
                &proofs_height,
                &proof,
                &remote_port,
                &remote_channel,
                ChannelState::Init,
            ) {
                return Err(ChannelError::ProofVerificationFailure);
            }
            let channel_id = next_channel_id(ctx)?;
            let end = ChannelEnd {
                state: ChannelState::TryOpen,
                ordering,
                remote: ChannelCounterparty { port_id: remote_port, channel_id: Some(remote_channel) },
                connection_hops,
                version,
            };
            Ok(ChannelResult { port_id, channel_id, channel_id_state: ChannelIdState::Generated, channel_end: end })
        },
        ChannelMsg::OpenAck {
            port_id,
            channel_id,
            counterparty_channel_id,
            counterparty_version,
            proof,
            proofs_height,
        } => {
            let (ch, client) = end_with_state(ctx, &port_id, &channel_id, ChannelState::Init)?;
            if !ctx.verify_channel_state(
                &client,
                &proofs_height,
                &proof,
                &ch.remote.port_id,
                &counterparty_channel_id,
                ChannelState::TryOpen,
            ) {
                return Err(ChannelError::ProofVerificationFailure);
            }
            let end = ChannelEnd {
                state: ChannelState::Open,
                ordering: ch.ordering,
                remote: ChannelCounterparty {
                    port_id: ch.remote.port_id,
                    channel_id: Some(counterparty_channel_id),
                },
                connection_hops: ch.connection_hops,
                version: counterparty_version,
            };
            Ok(ChannelResult { port_id, channel_id, channel_id_state: ChannelIdState::Reused, channel_end: end })
        },
        ChannelMsg::OpenConfirm { port_id, channel_id, proof, proofs_height } => {
            let (ch, client) = end_with_state(ctx, &port_id, &channel_id, ChannelState::TryOpen)?;
            let remote_channel = match &ch.remote.channel_id {
                Some(c) => c.clone(),
                None => return Err(ChannelError::ProofVerificationFailure),
            };
            if !ctx.verify_channel_state(
                &client,
                &proofs_height,
                &proof,
                &ch.remote.port_id,
                &remote_channel,
                ChannelState::Open,
            ) {
                return Err(ChannelError::ProofVerificationFailure);
            }
            let end = ChannelEnd { state: ChannelState::Open, ..ch };
            Ok(ChannelResult { port_id, channel_id, channel_id_state: ChannelIdState::Reused, channel_end: end })
        },
        ChannelMsg::CloseInit { port_id, channel_id } => {
            let (ch, _client) = end_with_state(ctx, &port_id, &channel_id, ChannelState::Open)?;
            let end = ChannelEnd { state: ChannelState::Closed, ..ch };
            Ok(ChannelResult { port_id, channel_id, channel_id_state: ChannelIdState::Reused, channel_end: end })
        },
        ChannelMsg::CloseConfirm { port_id, channel_id, proof, proofs_height } => {
            let (ch, client) = end_with_state(ctx, &port_id, &channel_id, ChannelState::Open)?;
            let remote_channel = match &ch.remote.channel_id {
                Some(c) => c.clone(),
                None => return Err(ChannelError::ProofVerificationFailure),
            };
            if !ctx.verify_channel_state(
                &client,
                &proofs_height,
                &proof,
                &ch.remote.port_id,
                &remote_channel,
                ChannelState::Closed,
            ) {
                return Err(ChannelError::ProofVerificationFailure);
            }
            let end = ChannelEnd { state: ChannelState::Closed, ..ch };
            Ok(ChannelResult { port_id, channel_id, channel_id_state: ChannelIdState::Reused, channel_end: end })
        },
    }
}

} // verus!
