use ibc_core::bank::Bank;
use ibc_core::height::{Height, TimeoutHeight, Timestamp};
use ibc_core::packet::Packet;
use ibc_core::transfer::{
    is_sender_chain_source, received_denom, refund_packet_token_execute,
    refund_packet_token_validate, send_transfer_token_execute, Coin, PacketData,
    TokenTransferError,
};

fn s(x: &str) -> String {
    x.to_string()
}

fn packet() -> Packet {
    Packet {
        sequence: 1,
        port_id_on_a: s("transfer"),
        chan_id_on_a: s("channel-0"),
        port_id_on_b: s("transfer"),
        chan_id_on_b: s("channel-0"),
        data: vec![],
        timeout_height_on_b: TimeoutHeight::At(Height { revision_number: 1, revision_height: 1000 }),
        timeout_timestamp_on_b: Timestamp { nanoseconds: 0 },
    }
}

fn data(denom: &str, amount: u128, sender: &str) -> PacketData {
    PacketData {
        token: Coin { denom: s(denom), amount },
        sender: s(sender),
        receiver: s("bob"),
        memo: s(""),
    }
}

#[test]
fn source_denom_is_unprefixed() {
    assert!(is_sender_chain_source(&s("transfer"), &s("channel-0"), &s("uatom")));
    assert!(!is_sender_chain_source(&s("transfer"), &s("channel-0"), &s("transfer/channel-0/uatom")));
    assert!(is_sender_chain_source(&s("transfer"), &s("channel-0"), &s("transferx/channel-0/uatom")));
    assert!(is_sender_chain_source(&s("transfer"), &s("channel-0"), &s("transfer/channel-01/uatom")));
}

#[test]
fn received_denom_prefixes_and_unprefixes() {
    let p = packet();
    assert_eq!(received_denom(&p, &s("uatom")), "transfer/channel-0/uatom");
    assert_eq!(received_denom(&p, &s("transfer/channel-0/uatom")), "uatom");
    let mut q = packet();
    q.port_id_on_b = s("xfer");
    q.chan_id_on_b = s("channel-7");
    assert_eq!(received_denom(&q, &s("transfer/channel-1/uatom")), "xfer/channel-7/transfer/channel-1/uatom");
}

#[test]
fn send_then_refund_restores_source_tokens() {
    let mut bank = Bank::new();
    bank.set_balance(&s("alice"), &s("uatom"), 1000);
    let escrow = Bank::escrow_account(&s("transfer"), &s("channel-0"));
    assert_eq!(escrow, "escrow/transfer/channel-0");
    let d = data("uatom", 100, "alice");
    assert!(send_transfer_token_execute(&mut bank, &s("transfer"), &s("channel-0"), &d).is_ok());
    assert_eq!(bank.balance_of(&s("alice"), &s("uatom")), 900);
    assert_eq!(bank.balance_of(&escrow, &s("uatom")), 100);
    assert!(refund_packet_token_validate(&bank, &packet(), &d).is_ok());
    assert!(refund_packet_token_execute(&mut bank, &packet(), &d).is_ok());
    assert_eq!(bank.balance_of(&s("alice"), &s("uatom")), 1000);
    assert_eq!(bank.balance_of(&escrow, &s("uatom")), 0);
}

#[test]
fn send_then_refund_restores_vouchers() {
    let mut bank = Bank::new();
    let voucher = "transfer/channel-0/uatom";
    bank.set_balance(&s("alice"), &s(voucher), 300);
    let d = data(voucher, 100, "alice");
    assert!(send_transfer_token_execute(&mut bank, &s("transfer"), &s("channel-0"), &d).is_ok());
    assert_eq!(bank.balance_of(&s("alice"), &s(voucher)), 200);
    let escrow = Bank::escrow_account(&s("transfer"), &s("channel-0"));
    assert_eq!(bank.balance_of(&escrow, &s(voucher)), 0);
    assert!(refund_packet_token_execute(&mut bank, &packet(), &d).is_ok());
    assert_eq!(bank.balance_of(&s("alice"), &s(voucher)), 300);
}

#[test]
fn refund_rejects_empty_sender() {
    let mut bank = Bank::new();
    let d = data("uatom", 100, "");
    assert!(matches!(
        refund_packet_token_execute(&mut bank, &packet(), &d),
        Err(TokenTransferError::ParseAccountFailure)
    ));
    assert!(matches!(
        refund_packet_token_validate(&bank, &packet(), &d),
        Err(TokenTransferError::ParseAccountFailure)
    ));
}

#[test]
fn refund_validate_needs_escrowed_funds() {
    let bank = Bank::new();
    let d = data("uatom", 100, "alice");
    assert!(matches!(
        refund_packet_token_validate(&bank, &packet(), &d),
        Err(TokenTransferError::InsufficientFunds)
    ));
}

#[test]
fn send_fails_on_short_balance() {
    let mut bank = Bank::new();
    bank.set_balance(&s("alice"), &s("uatom"), 50);
    let d = data("uatom", 100, "alice");
    assert!(matches!(
        send_transfer_token_execute(&mut bank, &s("transfer"), &s("channel-0"), &d),
        Err(TokenTransferError::InsufficientFunds)
    ));
    assert_eq!(bank.balance_of(&s("alice"), &s("uatom")), 50);
}

#[test]
fn send_recv_moves_amount_between_chains() {
    let mut bank_a = Bank::new();
    let mut bank_b = Bank::new();
    bank_a.set_balance(&s("alice"), &s("uatom"), 1000);
    let p = packet();
    let d = data("uatom", 100, "alice");
    assert!(send_transfer_token_execute(&mut bank_a, &p.port_id_on_a, &p.chan_id_on_a, &d).is_ok());
    let denom_b = received_denom(&p, &d.token.denom);
    let coin_b = Coin { denom: denom_b.clone(), amount: 100 };
    assert!(ibc_core::transfer::TokenTransferExecutionContext::mint_coins_execute(&mut bank_b, &s("bob"), &coin_b).is_ok());
    assert_eq!(bank_a.balance_of(&s("alice"), &s("uatom")), 900);
    assert_eq!(bank_b.balance_of(&s("bob"), &s("transfer/channel-0/uatom")), 100);
}

#[test]
fn recv_mints_voucher_and_return_unescrows() {
    let mut bank_b = Bank::new();
    let p = packet();
    let d = PacketData { token: Coin { denom: s("uatom"), amount: 100 }, sender: s("alice"), receiver: s("bob"), memo: s("") };
    assert!(ibc_core::transfer::on_recv_packet_execute(&mut bank_b, &p, &d).is_ok());
    assert_eq!(bank_b.balance_of(&s("bob"), &s("transfer/channel-0/uatom")), 100);

    let mut bank_a = Bank::new();
    let escrow_a = Bank::escrow_account(&s("transfer"), &s("channel-0"));
    bank_a.set_balance(&escrow_a, &s("uatom"), 100);
    let back = PacketData { token: Coin { denom: s("transfer/channel-0/uatom"), amount: 100 }, sender: s("bob"), receiver: s("carol"), memo: s("") };
    assert!(ibc_core::transfer::on_recv_packet_execute(&mut bank_a, &p, &back).is_ok());
    assert_eq!(bank_a.balance_of(&s("carol"), &s("uatom")), 100);
    assert_eq!(bank_a.balance_of(&escrow_a, &s("uatom")), 0);
    let bad = PacketData { token: Coin { denom: s("uatom"), amount: 1 }, sender: s("alice"), receiver: s(""), memo: s("") };
    assert!(matches!(
        ibc_core::transfer::on_recv_packet_execute(&mut bank_b, &p, &bad),
        Err(TokenTransferError::ParseAccountFailure)
    ));
}

#[test]
fn refund_without_escrow_fails_and_moves_nothing() {
    let mut bank = Bank::new();
    bank.set_balance(&s("alice"), &s("uatom"), 7);
    let d = data("uatom", 100, "alice");
    assert!(matches!(
        refund_packet_token_execute(&mut bank, &packet(), &d),
        Err(TokenTransferError::InsufficientFunds)
    ));
    assert_eq!(bank.balance_of(&s("alice"), &s("uatom")), 7);
}

#[test]
fn refund_mint_that_would_overflow_fails() {
    let mut bank = Bank::new();
    let voucher = "transfer/channel-0/uatom";
    bank.set_balance(&s("alice"), &s(voucher), u128::MAX);
    let d = data(voucher, 1, "alice");
    assert!(matches!(refund_packet_token_validate(&bank, &packet(), &d), Err(TokenTransferError::Bank)));
    assert!(matches!(refund_packet_token_execute(&mut bank, &packet(), &d), Err(TokenTransferError::Bank)));
    assert_eq!(bank.balance_of(&s("alice"), &s(voucher)), u128::MAX);
    let ok = data(voucher, 0, "alice");
    assert!(refund_packet_token_validate(&bank, &packet(), &ok).is_ok());
}
