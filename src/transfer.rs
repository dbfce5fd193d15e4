//! The fungible token transfer application: the source-chain test on a
//! denomination trace, refunds, and the ledger effects of a transfer.

use vstd::prelude::*;
use crate::context::{packet_result_applied, ChannelReader};
use crate::packet::{AckPacketResult, Packet, PacketResult};

verus! {

/// An amount of tokens of one denomination (trace prefix and base denom).
#[derive(Clone, Debug)]
pub struct Coin {
    pub denom: String,
    pub amount: u128,
}

/// The data carried by a transfer packet.
#[derive(Clone, Debug)]
pub struct PacketData {
    pub token: Coin,
    pub sender: String,
    pub receiver: String,
    pub memo: String,
}

/// Errors of the transfer application.
#[derive(Clone, Debug)]
pub enum TokenTransferError {
    ParseAccountFailure,
    InsufficientFunds,
    Bank,
    InvalidVersion,
}

/// `"{port}/{channel}/"`, the trace prefix that a hop over `(port, channel)` adds.
pub open spec fn trace_prefix(port: Seq<char>, channel: Seq<char>) -> Seq<char> {
    port + seq!['/'] + channel + seq!['/']
}

/// The sending chain is the source of `denom` when the denomination trace
/// does not begin with the prefix of the sending port and channel.
pub open spec fn is_sender_chain_source_spec(
    port: Seq<char>,
    channel: Seq<char>,
    denom: Seq<char>,
) -> bool {
    !trace_prefix(port, channel).is_prefix_of(denom)
}

/// Whether `prefix` is a prefix of `s`, character by character.
pub fn starts_with(s: &str, prefix: &str) -> (r: bool)
    ensures
        r == prefix@.is_prefix_of(s@),
{
    let n = s.unicode_len();
    let m = prefix.unicode_len();
    if m > n {
        return false;
    }
    let mut i: usize = 0;
    while i < m
        invariant
            m == prefix@.len(),
            n == s@.len(),
            m <= n,
            i <= m,
            forall|j: int| 0 <= j < i ==> prefix@[j] == s@[j],
        decreases m - i,
    {
        if prefix.get_char(i) != s.get_char(i) {
            return false;
        }
        i = i + 1;
    }
    assert(prefix@ =~= s@.subrange(0, prefix@.len() as int));
    true
}

/// Builds `"{port}/{channel}/"`.
pub fn build_trace_prefix(port: &String, channel: &String) -> (r: String)
    ensures
        r@ == trace_prefix(port@, channel@),
{
    proof {
        reveal_strlit("/");
    }
    let mut p = port.clone();
    p.append("/");
    p.append(channel.as_str());
    p.append("/");
    p
}

/// Whether the chain sending over `(port, channel)` is the source of `denom`.
pub fn is_sender_chain_source(port: &String, channel: &String, denom: &String) -> (r: bool)
    ensures
        r == is_sender_chain_source_spec(port@, channel@, denom@),
{
    let prefix = build_trace_prefix(port, channel);
    !starts_with(denom.as_str(), prefix.as_str())
}

/// The channel version of the transfer application, `"ics20-1"`.
pub open spec fn transfer_version() -> Seq<char> {
    seq!['i', 'c', 's', '2', '0', '-', '1']
}

/// The transfer application's check of a channel opening: the only version it
/// accepts is `"ics20-1"`.
pub fn on_chan_open_try_validate(counterparty_version: &String) -> (r: Result<
    (),
    TokenTransferError,
>)
    ensures
        r is Ok <==> counterparty_version@ == transfer_version(),
        r is Err ==> (r matches Err(TokenTransferError::InvalidVersion)),
{
    proof {
        reveal_strlit("ics20-1");
        assert("ics20-1"@ =~= transfer_version());
    }
    let expected = String::from_str("ics20-1");
    if *counterparty_version == expected {
        Ok(())
    } else {
        Err(TokenTransferError::InvalidVersion)
    }
}

/// Balances of the ledger: what `l` holds of `denom` for `account`, zero when absent.
pub open spec fn balance(l: Map<(Seq<char>, Seq<char>), int>, account: Seq<char>, denom: Seq<char>) -> int {
    if l.contains_key((account, denom)) {
        l[(account, denom)]
    } else {
        0
    }
}

pub open spec fn credit(
    l: Map<(Seq<char>, Seq<char>), int>,
    account: Seq<char>,
    denom: Seq<char>,
    amount: int,
) -> Map<(Seq<char>, Seq<char>), int> {
    l.insert((account, denom), balance(l, account, denom) + amount)
}

pub open spec fn debit(
    l: Map<(Seq<char>, Seq<char>), int>,
    account: Seq<char>,
    denom: Seq<char>,
    amount: int,
) -> Map<(Seq<char>, Seq<char>), int> {
    l.insert((account, denom), balance(l, account, denom) - amount)
}

/// Moves `amount` of `denom` from `from` to `to`.
pub open spec fn move_coins(
    l: Map<(Seq<char>, Seq<char>), int>,
    from: Seq<char>,
    to: Seq<char>,
    denom: Seq<char>,
    amount: int,
) -> Map<(Seq<char>, Seq<char>), int> {
    credit(debit(l, from, denom, amount), to, denom, amount)
}

/// The ledger after a send over `(port, channel)`: escrow when the sender's
/// chain is the source of the denomination, burn otherwise.
pub open spec fn send_effect(
    l: Map<(Seq<char>, Seq<char>), int>,
    escrow: Seq<char>,
    port: Seq<char>,
    channel: Seq<char>,
    sender: Seq<char>,
    denom: Seq<char>,
    amount: int,
) -> Map<(Seq<char>, Seq<char>), int> {
    if is_sender_chain_source_spec(port, channel, denom) {
        move_coins(l, sender, escrow, denom, amount)
    } else {
        debit(l, sender, denom, amount)
    }
}

/// The ledger after a refund of a send over `(port, channel)`: unescrow when
/// the sender's chain is the source of the denomination, mint otherwise.
pub open spec fn refund_effect(
    l: Map<(Seq<char>, Seq<char>), int>,
    escrow: Seq<char>,
    port: Seq<char>,
    channel: Seq<char>,
    sender: Seq<char>,
    denom: Seq<char>,
    amount: int,
) -> Map<(Seq<char>, Seq<char>), int> {
    if is_sender_chain_source_spec(port, channel, denom) {
        move_coins(l, escrow, sender, denom, amount)
    } else {
        credit(l, sender, denom, amount)
    }
}

/// The error that reports a signer that names no account.
pub open spec fn is_parse_failure(r: Result<(), TokenTransferError>) -> bool {
    r matches Err(TokenTransferError::ParseAccountFailure)
}

/// Read-only capabilities the transfer application needs from the host's bank.
/// Each bank operation succeeds exactly when its success predicate holds, and
/// never reports an unparsable account (that error is the application's own).
pub trait TokenTransferValidationContext: Sized {
    /// Balances by (account, denomination).
    spec fn balances(&self) -> Map<(Seq<char>, Seq<char>), int>;

    /// The escrow account of `(port, channel)`.
    spec fn escrow_address(port: Seq<char>, channel: Seq<char>) -> Seq<char>;

    /// Whether a signer string names an account of the host.
    spec fn valid_account(signer: Seq<char>) -> bool;

    /// Whether `amount` of `denom` can be released from the escrow of `(port, channel)` to `to`.
    spec fn unescrow_ok(
        &self,
        port: Seq<char>,
        channel: Seq<char>,
        to: Seq<char>,
        denom: Seq<char>,
        amount: u128,
    ) -> bool;

    /// Whether `amount` of `denom` can be moved from `from` into the escrow of `(port, channel)`.
    spec fn escrow_ok(
        &self,
        from: Seq<char>,
        port: Seq<char>,
        channel: Seq<char>,
        denom: Seq<char>,
        amount: u128,
    ) -> bool;

    /// Whether `amount` of `denom` can be minted to `to`.
    spec fn mint_ok(&self, to: Seq<char>, denom: Seq<char>, amount: u128) -> bool;

    /// Whether `amount` of `denom` can be burnt from `from`.
    spec fn burn_ok(&self, from: Seq<char>, denom: Seq<char>, amount: u128) -> bool;

    /// Reads a signer as an account of the host.
    fn parse_account(&self, signer: &String) -> (r: Option<String>)
        ensures
            r is Some <==> Self::valid_account(signer@),
            r is Some ==> r->Some_0@ == signer@,
    ;

    /// Checks that `coin` can be released from the escrow of `(port, channel)` to `to`.
    fn unescrow_coins_validate(
        &self,
        port_id: &String,
        channel_id: &String,
        to: &String,
        coin: &Coin,
    ) -> (r: Result<(), TokenTransferError>)
        ensures
            r is Ok <==> self.unescrow_ok(port_id@, channel_id@, to@, coin.denom@, coin.amount),
            !is_parse_failure(r),
    ;

    /// Checks that `coin` can be minted to `to`.
    fn mint_coins_validate(&self, to: &String, coin: &Coin) -> (r: Result<(), TokenTransferError>)
        ensures
            r is Ok <==> self.mint_ok(to@, coin.denom@, coin.amount),
            !is_parse_failure(r),
    ;
}

/// Store-writing capabilities the transfer application needs from the host's
/// bank. A failed operation leaves the balances as they were.
pub trait TokenTransferExecutionContext: TokenTransferValidationContext {
    /// Releases `coin` from the escrow of `(port, channel)` to `to`.
    fn unescrow_coins_execute(
        &mut self,
        port_id: &String,
        channel_id: &String,
        to: &String,
        coin: &Coin,
    ) -> (r: Result<(), TokenTransferError>)
        ensures
            r is Ok <==> old(self).unescrow_ok(port_id@, channel_id@, to@, coin.denom@, coin.amount),
            r is Ok ==> final(self).balances() == move_coins(
                old(self).balances(),
                Self::escrow_address(port_id@, channel_id@),
                to@,
                coin.denom@,
                coin.amount as int,
            ),
            r is Err ==> final(self).balances() == old(self).balances(),
            !is_parse_failure(r),
    ;

    /// Moves `coin` from `from` into the escrow of `(port, channel)`.
    fn escrow_coins_execute(
        &mut self,
        from: &String,
        port_id: &String,
        channel_id: &String,
        coin: &Coin,
    ) -> (r: Result<(), TokenTransferError>)
        ensures
            r is Ok <==> old(self).escrow_ok(from@, port_id@, channel_id@, coin.denom@, coin.amount),
            r is Ok ==> final(self).balances() == move_coins(
                old(self).balances(),
                from@,
                Self::escrow_address(port_id@, channel_id@),
                coin.denom@,
                coin.amount as int,
            ),
            r is Err ==> final(self).balances() == old(self).balances(),
            !is_parse_failure(r),
    ;

    /// Burns `coin` from `from`.
    fn burn_coins_execute(&mut self, from: &String, coin: &Coin) -> (r: Result<(), TokenTransferError>)
        ensures
            r is Ok <==> old(self).burn_ok(from@, coin.denom@, coin.amount),
            r is Ok ==> final(self).balances() == debit(
                old(self).balances(),
                from@,
                coin.denom@,
                coin.amount as int,
            ),
            r is Err ==> final(self).balances() == old(self).balances(),
            !is_parse_failure(r),
    ;

    /// Mints `coin` to `to`.
    fn mint_coins_execute(&mut self, to: &String, coin: &Coin) -> (r: Result<(), TokenTransferError>)
        ensures
            r is Ok <==> old(self).mint_ok(to@, coin.denom@, coin.amount),
            r is Ok ==> final(self).balances() == credit(
                old(self).balances(),
                to@,
                coin.denom@,
                coin.amount as int,
            ),
            r is Err ==> final(self).balances() == old(self).balances(),
            !is_parse_failure(r),
    ;
}

/// A refund of the tokens of `data`, sent over the packet's source port and
/// channel, can be made on `ctx`: the sender is an account, and the bank can
/// release the tokens from escrow (source chain) or mint them back.
pub open spec fn refund_ok<C: TokenTransferValidationContext>(ctx: C, packet: Packet, data: PacketData) -> bool {
    &&& C::valid_account(data.sender@)
    &&& if is_sender_chain_source_spec(packet.port_id_on_a@, packet.chan_id_on_a@, data.token.denom@) {
        ctx.unescrow_ok(
            packet.port_id_on_a@,
            packet.chan_id_on_a@,
            data.sender@,
            data.token.denom@,
            data.token.amount,
        )
    } else {
        ctx.mint_ok(data.sender@, data.token.denom@, data.token.amount)
    }
}

/// Refunds the tokens of a packet to its sender: releases them from escrow
/// when this chain is their source, mints them back otherwise.
pub fn refund_packet_token_execute<C: TokenTransferExecutionContext>(
    ctx_a: &mut C,
    packet: &Packet,
    data: &PacketData,
) -> (r: Result<(), TokenTransferError>)
    ensures
        is_parse_failure(r) <==> !C::valid_account(data.sender@),
        r is Ok <==> refund_ok(*old(ctx_a), *packet, *data),
        r is Ok ==> final(ctx_a).balances() == refund_effect(
            old(ctx_a).balances(),
            C::escrow_address(packet.port_id_on_a@, packet.chan_id_on_a@),
            packet.port_id_on_a@,
            packet.chan_id_on_a@,
            data.sender@,
            data.token.denom@,
            data.token.amount as int,
        ),
        r is Err ==> final(ctx_a).balances() == old(ctx_a).balances(),
{
    let sender = match ctx_a.parse_account(&data.sender) {
        Some(s) => s,
        None => return Err(TokenTransferError::ParseAccountFailure),
    };
    if is_sender_chain_source(&packet.port_id_on_a, &packet.chan_id_on_a, &data.token.denom) {
        ctx_a.unescrow_coins_execute(&packet.port_id_on_a, &packet.chan_id_on_a, &sender, &data.token)
    } else {
        ctx_a.mint_coins_execute(&sender, &data.token)
    }
}

/// Checks that a refund of the tokens of a packet to its sender can be made:
/// it succeeds exactly when `refund_packet_token_execute` on the same
/// context would.
pub fn refund_packet_token_validate<C: TokenTransferValidationContext>(
    ctx_a: &C,
    packet: &Packet,
    data: &PacketData,
) -> (r: Result<(), TokenTransferError>)
    ensures
        is_parse_failure(r) <==> !C::valid_account(data.sender@),
        r is Ok <==> refund_ok(*ctx_a, *packet, *data),
{
    let sender = match ctx_a.parse_account(&data.sender) {
        Some(s) => s,
        None => return Err(TokenTransferError::ParseAccountFailure),
    };
    if is_sender_chain_source(&packet.port_id_on_a, &packet.chan_id_on_a, &data.token.denom) {
        ctx_a.unescrow_coins_validate(&packet.port_id_on_a, &packet.chan_id_on_a, &sender, &data.token)
    } else {
        ctx_a.mint_coins_validate(&sender, &data.token)
    }
}

/// A send of the tokens of `data` over `(port, channel)` can be made on `ctx`:
/// the sender is an account, and the bank can escrow (source chain) or burn them.
pub open spec fn send_ok<C: TokenTransferValidationContext>(
    ctx: C,
    port: Seq<char>,
    channel: Seq<char>,
    data: PacketData,
) -> bool {
    &&& C::valid_account(data.sender@)
    &&& if is_sender_chain_source_spec(port, channel, data.token.denom@) {
        ctx.escrow_ok(data.sender@, port, channel, data.token.denom@, data.token.amount)
    } else {
        ctx.burn_ok(data.sender@, data.token.denom@, data.token.amount)
    }
}

/// Takes the tokens of an outgoing transfer from the sender: escrows them when
/// this chain is their source, burns them otherwise.
pub fn send_transfer_token_execute<C: TokenTransferExecutionContext>(
    ctx_a: &mut C,
    port_id: &String,
    channel_id: &String,
    data: &PacketData,
) -> (r: Result<(), TokenTransferError>)
    ensures
        is_parse_failure(r) <==> !C::valid_account(data.sender@),
        r is Ok <==> send_ok(*old(ctx_a), port_id@, channel_id@, *data),
        r is Ok ==> final(ctx_a).balances() == send_effect(
            old(ctx_a).balances(),
            C::escrow_address(port_id@, channel_id@),
            port_id@,
            channel_id@,
            data.sender@,
            data.token.denom@,
            data.token.amount as int,
        ),
        r is Err ==> final(ctx_a).balances() == old(ctx_a).balances(),
{
    let sender = match ctx_a.parse_account(&data.sender) {
        Some(s) => s,
        None => return Err(TokenTransferError::ParseAccountFailure),
    };
    if is_sender_chain_source(port_id, channel_id, &data.token.denom) {
        ctx_a.escrow_coins_execute(&sender, port_id, channel_id, &data.token)
    } else {
        ctx_a.burn_coins_execute(&sender, &data.token)
    }
}

/// A refund undoes a send: for every account and denomination, the balance
/// after a send and its refund over the same channel equals the balance before.
pub proof fn lemma_refund_restores_send(
    l: Map<(Seq<char>, Seq<char>), int>,
    escrow: Seq<char>,
    port: Seq<char>,
    channel: Seq<char>,
    sender: Seq<char>,
    denom: Seq<char>,
    amount: int,
)
    ensures
        forall|a: Seq<char>, d: Seq<char>|
            balance(
                refund_effect(
                    send_effect(l, escrow, port, channel, sender, denom, amount),
                    escrow,
                    port,
                    channel,
                    sender,
                    denom,
                    amount,
                ),
                a,
                d,
            ) == #[trigger] balance(l, a, d),
{
}

/// The denomination credited on the receiving chain for `denom` sent from
/// `(src_port, src_channel)` to `(dst_port, dst_channel)`: a returning voucher
/// loses the sender's prefix, anything else gains the receiver's prefix.
pub open spec fn received_denom_spec(
    src_port: Seq<char>,
    src_channel: Seq<char>,
    dst_port: Seq<char>,
    dst_channel: Seq<char>,
    denom: Seq<char>,
) -> Seq<char> {
    let p = trace_prefix(src_port, src_channel);
    if p.is_prefix_of(denom) {
        denom.subrange(p.len() as int, denom.len() as int)
    } else {
        trace_prefix(dst_port, dst_channel) + denom
    }
}

/// The ledger of the receiving chain after a successful receive: a returning
/// voucher is released from escrow, anything else is minted as a voucher.
pub open spec fn recv_effect(
    l: Map<(Seq<char>, Seq<char>), int>,
    escrow: Seq<char>,
    src_port: Seq<char>,
    src_channel: Seq<char>,
    dst_port: Seq<char>,
    dst_channel: Seq<char>,
    receiver: Seq<char>,
    denom: Seq<char>,
    amount: int,
) -> Map<(Seq<char>, Seq<char>), int> {
    let d = received_denom_spec(src_port, src_channel, dst_port, dst_channel, denom);
    if trace_prefix(src_port, src_channel).is_prefix_of(denom) {
        move_coins(l, escrow, receiver, d, amount)
    } else {
        credit(l, receiver, d, amount)
    }
}

/// The denomination credited on the receiving chain for the token of a packet.
pub fn received_denom(packet: &Packet, denom: &String) -> (r: String)
    ensures
        r@ == received_denom_spec(
            packet.port_id_on_a@,
            packet.chan_id_on_a@,
            packet.port_id_on_b@,
            packet.chan_id_on_b@,
            denom@,
        ),
{
    let prefix = build_trace_prefix(&packet.port_id_on_a, &packet.chan_id_on_a);
    if starts_with(denom.as_str(), prefix.as_str()) {
        let n = denom.as_str().unicode_len();
        let m = prefix.as_str().unicode_len();
        let rest = denom.as_str().substring_char(m, n);
        String::from_str(rest)
    } else {
        let out = build_trace_prefix(&packet.port_id_on_b, &packet.chan_id_on_b);
        out.concat(denom.as_str())
    }
}

/// A receive of the tokens of `data` can be credited on `ctx`: the receiver is
/// an account, and the bank can release a returning voucher from escrow or
/// mint anything else as a voucher.
pub open spec fn recv_ok<C: TokenTransferValidationContext>(ctx: C, packet: Packet, data: PacketData) -> bool {
    let d = received_denom_spec(
        packet.port_id_on_a@,
        packet.chan_id_on_a@,
        packet.port_id_on_b@,
        packet.chan_id_on_b@,
        data.token.denom@,
    );
    &&& C::valid_account(data.receiver@)
    &&& if trace_prefix(packet.port_id_on_a@, packet.chan_id_on_a@).is_prefix_of(data.token.denom@) {
        ctx.unescrow_ok(packet.port_id_on_b@, packet.chan_id_on_b@, data.receiver@, d, data.token.amount)
    } else {
        ctx.mint_ok(data.receiver@, d, data.token.amount)
    }
}

/// Credits the tokens of an incoming transfer on the receiving chain: a
/// returning voucher is released from the escrow of the receiving port and
/// channel under its unprefixed denomination; anything else is minted as a
/// voucher under the receiver's prefix.
pub fn on_recv_packet_execute<C: TokenTransferExecutionContext>(
    ctx_b: &mut C,
    packet: &Packet,
    data: &PacketData,
) -> (r: Result<(), TokenTransferError>)
    ensures
        is_parse_failure(r) <==> !C::valid_account(data.receiver@),
        r is Ok <==> recv_ok(*old(ctx_b), *packet, *data),
        r is Err ==> final(ctx_b).balances() == old(ctx_b).balances(),
        r is Ok ==> final(ctx_b).balances() == recv_effect(
            old(ctx_b).balances(),
            C::escrow_address(packet.port_id_on_b@, packet.chan_id_on_b@),
            packet.port_id_on_a@,
            packet.chan_id_on_a@,
            packet.port_id_on_b@,
            packet.chan_id_on_b@,
            data.receiver@,
            data.token.denom@,
            data.token.amount as int,
        ),
{
    let receiver = match ctx_b.parse_account(&data.receiver) {
        Some(s) => s,
        None => return Err(TokenTransferError::ParseAccountFailure),
    };
    let coin = Coin { denom: received_denom(packet, &data.token.denom), amount: data.token.amount };
    let prefix = build_trace_prefix(&packet.port_id_on_a, &packet.chan_id_on_a);
    if starts_with(data.token.denom.as_str(), prefix.as_str()) {
        ctx_b.unescrow_coins_execute(&packet.port_id_on_b, &packet.chan_id_on_b, &receiver, &coin)
    } else {
        ctx_b.mint_coins_execute(&receiver, &coin)
    }
}

/// A transfer that is sent, received and acknowledged with success moves
/// `amount` out of the sender's balance on the sending chain and into the
/// receiver's balance of the received denomination on the receiving chain.
/// A success acknowledgement changes no balance.
pub proof fn lemma_send_recv_moves_amount(
    la: Map<(Seq<char>, Seq<char>), int>,
    lb: Map<(Seq<char>, Seq<char>), int>,
    escrow_a: Seq<char>,
    escrow_b: Seq<char>,
    packet: Packet,
    data: PacketData,
)
    requires
        data.sender@ != escrow_a,
        data.receiver@ != escrow_b,
    ensures
        ({
            let amount = data.token.amount as int;
            let denom = data.token.denom@;
            let la2 = send_effect(la, escrow_a, packet.port_id_on_a@, packet.chan_id_on_a@, data.sender@, denom, amount);
            let lb2 = recv_effect(lb, escrow_b, packet.port_id_on_a@, packet.chan_id_on_a@, packet.port_id_on_b@, packet.chan_id_on_b@, data.receiver@, denom, amount);
            let d = received_denom_spec(packet.port_id_on_a@, packet.chan_id_on_a@, packet.port_id_on_b@, packet.chan_id_on_b@, denom);
            &&& balance(la2, data.sender@, denom) == balance(la, data.sender@, denom) - amount
            &&& balance(lb2, data.receiver@, d) == balance(lb, data.receiver@, d) + amount
        }),
{
}

/// A transfer carried through to a success acknowledgement: the sending
/// chain's ledger loses `amount` from the sender, the receiving chain's ledger
/// gains `amount` of the received denomination for the receiver, and storing
/// the acknowledgement on the sending chain removes the packet's commitment
/// while touching no balance (the acknowledgement step makes no bank call).
pub proof fn lemma_transfer_acknowledged<C: ChannelReader>(
    la: Map<(Seq<char>, Seq<char>), int>,
    lb: Map<(Seq<char>, Seq<char>), int>,
    escrow_a: Seq<char>,
    escrow_b: Seq<char>,
    packet: Packet,
    data: PacketData,
    before_ack: C,
    after_ack: C,
    ack: AckPacketResult,
)
    requires
        data.sender@ != escrow_a,
        data.receiver@ != escrow_b,
        ack.port_id@ == packet.port_id_on_a@,
        ack.channel_id@ == packet.chan_id_on_a@,
        ack.seq == packet.sequence,
        packet_result_applied(before_ack, after_ack, PacketResult::Ack(ack)),
    ensures
        ({
            let amount = data.token.amount as int;
            let denom = data.token.denom@;
            let la2 = send_effect(la, escrow_a, packet.port_id_on_a@, packet.chan_id_on_a@, data.sender@, denom, amount);
            let lb2 = recv_effect(lb, escrow_b, packet.port_id_on_a@, packet.chan_id_on_a@, packet.port_id_on_b@, packet.chan_id_on_b@, data.receiver@, denom, amount);
            let d = received_denom_spec(packet.port_id_on_a@, packet.chan_id_on_a@, packet.port_id_on_b@, packet.chan_id_on_b@, denom);
            &&& balance(la2, data.sender@, denom) == balance(la, data.sender@, denom) - amount
            &&& balance(lb2, data.receiver@, d) == balance(lb, data.receiver@, d) + amount
        }),
        !after_ack.commitments().contains_key(
            (packet.port_id_on_a@, packet.chan_id_on_a@, packet.sequence),
        ),
{
    lemma_send_recv_moves_amount(la, lb, escrow_a, escrow_b, packet, data);
}

} // verus!
