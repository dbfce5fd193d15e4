//! An in-memory bank: balances per (account, denomination), with escrow
//! accounts named after their port and channel.

use vstd::prelude::*;
use crate::table::{StoreKey, Table};
use crate::transfer::{
    balance, credit, debit, is_parse_failure, move_coins, Coin, TokenTransferError, TokenTransferExecutionContext,
    TokenTransferValidationContext,
};

verus! {

/// `"escrow/{port}/{channel}"`.
pub open spec fn escrow_name(port: Seq<char>, channel: Seq<char>) -> Seq<char> {
    seq!['e', 's', 'c', 'r', 'o', 'w', '/'] + port + seq!['/'] + channel
}

/// `amount` of `denom` can move from `from` to `to` without a short or an
/// overflowing balance.
pub open spec fn can_move(
    l: Map<(Seq<char>, Seq<char>), int>,
    from: Seq<char>,
    to: Seq<char>,
    denom: Seq<char>,
    amount: u128,
) -> bool {
    &&& balance(l, from, denom) >= amount
    &&& balance(debit(l, from, denom, amount as int), to, denom) + amount <= u128::MAX
}

pub struct Bank {
    pub accounts: Table<u128>,
}

impl Bank {
    /// Balances by (account, denomination).
    pub open spec fn ledger(&self) -> Map<(Seq<char>, Seq<char>), int> {
        Map::new(
            |k: (Seq<char>, Seq<char>)| self.accounts.model().contains_key((k.0, k.1, 0)),
            |k: (Seq<char>, Seq<char>)| self.accounts.model()[(k.0, k.1, 0)] as int,
        )
    }

    pub fn new() -> (r: Bank)
        ensures
            r.ledger() == Map::<(Seq<char>, Seq<char>), int>::empty(),
    {
        let r = Bank { accounts: Table::new() };
        assert(r.ledger() =~= Map::<(Seq<char>, Seq<char>), int>::empty());
        r
    }

    pub fn balance_of(&self, account: &String, denom: &String) -> (r: u128)
        ensures
            r == balance(self.ledger(), account@, denom@),
    {
        let key = StoreKey { a: account.clone(), b: denom.clone(), n: 0 };
        match self.accounts.get(&key) {
            Some(v) => *v,
            None => 0,
        }
    }

    pub fn set_balance(&mut self, account: &String, denom: &String, amount: u128)
        ensures
            final(self).ledger() == old(self).ledger().insert((account@, denom@), amount as int),
    {
        let key = StoreKey { a: account.clone(), b: denom.clone(), n: 0 };
        self.accounts.set(key, amount);
        assert(self.ledger() =~= old(self).ledger().insert((account@, denom@), amount as int));
    }

    /// The escrow account of `(port, channel)`.
    pub fn escrow_account(port_id: &String, channel_id: &String) -> (r: String)
        ensures
            r@ == escrow_name(port_id@, channel_id@),
    {
        proof {
            reveal_strlit("escrow/");
            reveal_strlit("/");
        }
        let mut s = String::from_str("escrow/");
        s.append(port_id.as_str());
        s.append("/");
        s.append(channel_id.as_str());
        s
    }

    /// Takes `amount` of `denom` from `account`; fails when the balance is short.
    pub fn debit_coins(&mut self, account: &String, denom: &String, amount: u128) -> (r: Result<
        (),
        TokenTransferError,
    >)
        ensures
            r is Ok <==> balance(old(self).ledger(), account@, denom@) >= amount,
            !is_parse_failure(r),
            r is Ok ==> final(self).ledger() == debit(old(self).ledger(), account@, denom@, amount as int),
            r is Err ==> final(self).ledger() == old(self).ledger(),
    {
        let b = self.balance_of(account, denom);
        if b < amount {
            return Err(TokenTransferError::InsufficientFunds);
        }
        self.set_balance(account, denom, b - amount);
        Ok(())
    }

    /// Adds `amount` of `denom` to `account`; fails when the balance would overflow.
    pub fn credit_coins(&mut self, account: &String, denom: &String, amount: u128) -> (r: Result<
        (),
        TokenTransferError,
    >)
        ensures
            r is Ok <==> balance(old(self).ledger(), account@, denom@) + amount <= u128::MAX,
            !is_parse_failure(r),
            r is Ok ==> final(self).ledger() == credit(old(self).ledger(), account@, denom@, amount as int),
            r is Err ==> final(self).ledger() == old(self).ledger(),
    {
        let b = self.balance_of(account, denom);
        if b > u128::MAX - amount {
            return Err(TokenTransferError::Bank);
        }
        self.set_balance(account, denom, b + amount);
        Ok(())
    }

    /// Whether `amount` of `denom` can move from `from` to `to`.
    pub fn can_move_coins(&self, from: &String, to: &String, denom: &String, amount: u128) -> (r: bool)
        ensures
            r == can_move(self.ledger(), from@, to@, denom@, amount),
    {
        let b_from = self.balance_of(from, denom);
        if b_from < amount {
            return false;
        }
        let b_to = if *from == *to { b_from - amount } else { self.balance_of(to, denom) };
        b_to <= u128::MAX - amount
    }

    /// Moves `amount` of `denom` from `from` to `to`; on failure nothing moves.
    pub fn move_coins(&mut self, from: &String, to: &String, denom: &String, amount: u128) -> (r: Result<
        (),
        TokenTransferError,
    >)
        ensures
            r is Ok <==> can_move(old(self).ledger(), from@, to@, denom@, amount),
            !is_parse_failure(r),
            r is Ok ==> final(self).ledger() == move_coins(old(self).ledger(), from@, to@, denom@, amount as int),
            r is Err ==> final(self).ledger() == old(self).ledger(),
    {
        let b_from = self.balance_of(from, denom);
        if b_from < amount {
            return Err(TokenTransferError::InsufficientFunds);
        }
        let b_to = if *from == *to { b_from - amount } else { self.balance_of(to, denom) };
        if b_to > u128::MAX - amount {
            return Err(TokenTransferError::Bank);
        }
        self.set_balance(from, denom, b_from - amount);
        self.set_balance(to, denom, b_to + amount);
        Ok(())
    }
}

impl TokenTransferValidationContext for Bank {
    open spec fn balances(&self) -> Map<(Seq<char>, Seq<char>), int> {
        self.ledger()
    }

    open spec fn escrow_address(port: Seq<char>, channel: Seq<char>) -> Seq<char> {
        escrow_name(port, channel)
    }

    open spec fn valid_account(signer: Seq<char>) -> bool {
        signer.len() > 0
    }

    open spec fn unescrow_ok(
        &self,
        port: Seq<char>,
        channel: Seq<char>,
        to: Seq<char>,
        denom: Seq<char>,
        amount: u128,
    ) -> bool {
        can_move(self.ledger(), escrow_name(port, channel), to, denom, amount)
    }

    open spec fn escrow_ok(
        &self,
        from: Seq<char>,
        port: Seq<char>,
        channel: Seq<char>,
        denom: Seq<char>,
        amount: u128,
    ) -> bool {
        can_move(self.ledger(), from, escrow_name(port, channel), denom, amount)
    }

    open spec fn mint_ok(&self, to: Seq<char>, denom: Seq<char>, amount: u128) -> bool {
        balance(self.ledger(), to, denom) + amount <= u128::MAX
    }

    open spec fn burn_ok(&self, from: Seq<char>, denom: Seq<char>, amount: u128) -> bool {
        balance(self.ledger(), from, denom) >= amount
    }

    fn parse_account(&self, signer: &String) -> (r: Option<String>) {
        if signer.as_str().unicode_len() == 0 {
            None
        } else {
            Some(signer.clone())
        }
    }

    fn unescrow_coins_validate(
        &self,
        port_id: &String,
        channel_id: &String,
        to: &String,
        coin: &Coin,
    ) -> (r: Result<(), TokenTransferError>) {
        let escrow = Bank::escrow_account(port_id, channel_id);
        if self.can_move_coins(&escrow, to, &coin.denom, coin.amount) {
            Ok(())
        } else {
            Err(TokenTransferError::InsufficientFunds)
        }
    }

    fn mint_coins_validate(&self, to: &String, coin: &Coin) -> (r: Result<(), TokenTransferError>) {
        if self.balance_of(to, &coin.denom) > u128::MAX - coin.amount {
            Err(TokenTransferError::Bank)
        } else {
            Ok(())
        }
    }
}

impl TokenTransferExecutionContext for Bank {
    fn unescrow_coins_execute(
        &mut self,
        port_id: &String,
        channel_id: &String,
        to: &String,
        coin: &Coin,
    ) -> (r: Result<(), TokenTransferError>) {
        let escrow = Bank::escrow_account(port_id, channel_id);
        self.move_coins(&escrow, to, &coin.denom, coin.amount)
    }

    fn escrow_coins_execute(
        &mut self,
        from: &String,
        port_id: &String,
        channel_id: &String,
        coin: &Coin,
    ) -> (r: Result<(), TokenTransferError>) {
        let escrow = Bank::escrow_account(port_id, channel_id);
        self.move_coins(from, &escrow, &coin.denom, coin.amount)
    }

    fn burn_coins_execute(&mut self, from: &String, coin: &Coin) -> (r: Result<(), TokenTransferError>) {
        self.debit_coins(from, &coin.denom, coin.amount)
    }

    fn mint_coins_execute(&mut self, to: &String, coin: &Coin) -> (r: Result<(), TokenTransferError>) {
        self.credit_coins(to, &coin.denom, coin.amount)
    }
}

} // verus!
