use std::collections::HashMap;

use vstd::prelude::*;

verus! {

/// A movement of funds: `from == None` marks minting at construction time.
#[derive(Clone, Copy, Debug, PartialEq, Eq)]
pub struct Transfer {
    pub from: Option<u64>,
    pub to: Option<u64>,
    pub value: u128,
}

/// A grant: `owner` lets `spender` move up to `value` of its funds.
#[derive(Clone, Copy, Debug, PartialEq, Eq)]
pub struct Approval {
    pub owner: u64,
    pub spender: u64,
    pub value: u128,
}

/// One entry of the token ledger's outbound event queue.
#[derive(Clone, Copy, Debug, PartialEq, Eq)]
pub enum TokenEvent {
    Transfer(Transfer),
    Approval(Approval),
}

/// Everything that can make a token operation fail.
#[derive(Clone, Copy, Debug, PartialEq, Eq, Structural)]
pub enum Error {
    /// The sender's balance does not cover the amount.
    InsufficientBalance,
    /// The caller's allowance from the owner does not cover the amount.
    InsufficientApproval,
}

/// The single key under which `owner`'s allowance for `spender` is stored:
/// the two 64-bit account ids packed into one 128-bit word.
pub open spec fn pair_key(owner: u64, spender: u64) -> u128 {
    ((owner as u128) << 64u128) | (spender as u128)
}

/// The balance of `who` in a balance table: accounts never written hold 0.
pub open spec fn map_balance(m: Map<u64, u128>, who: u64) -> u128 {
    if m.dom().contains(who) {
        m[who]
    } else {
        0
    }
}

/// A balance table after moving `value` from `from` to `to`: first the
/// debit is written, then the credit, so a self-transfer nets to nothing.
pub open spec fn balances_after_transfer(m: Map<u64, u128>, from: u64, to: u64, value: u128) -> Map<
    u64,
    u128,
> {
    let debited = m.insert(from, (map_balance(m, from) - value) as u128);
    debited.insert(to, (map_balance(debited, to) + value) as u128)
}

/// The fungible-balance ledger: account balances, spending allowances, and
/// an outbound event queue.  It settles marketplace sales and is itself a
/// plain keyed table — no account needs a minimum balance to stay alive,
/// so a settlement that must keep its accounts alive behaves exactly like
/// any other.
pub struct Erc200 {
    pub total_supply: u128,
    pub balances: HashMap<u64, u128>,
    pub allowances: HashMap<u128, u128>,
    pub events: Vec<TokenEvent>,
}

impl Erc200 {
    /// The balance of `who`; accounts never written hold 0.
    pub open spec fn spec_balance(&self, who: u64) -> u128 {
        map_balance(self.balances@, who)
    }

    /// What `spender` may still move out of `who`'s funds.
    pub open spec fn spec_allowance(&self, who: u64, spender: u64) -> u128 {
        if self.allowances@.dom().contains(pair_key(who, spender)) {
            self.allowances@[pair_key(who, spender)]
        } else {
            0
        }
    }

    /// Mints `supply` to `caller` and records the minting transfer.
    pub fn new(caller: u64, supply: u128) -> (r: Erc200)
        ensures
            r.total_supply == supply,
            r.balances@ == Map::<u64, u128>::empty().insert(caller, supply),
            r.allowances@ == Map::<u128, u128>::empty(),
            r.events@ == Seq::<TokenEvent>::empty().push(
                TokenEvent::Transfer((Transfer { from: None, to: Some(caller), value: supply })),
            ),
    {
        let mut balances: HashMap<u64, u128> = HashMap::new();
        balances.insert(caller, supply);
        let mut events: Vec<TokenEvent> = Vec::new();
        events.push(TokenEvent::Transfer(Transfer { from: None, to: Some(caller), value: supply }));
        Erc200 { total_supply: supply, balances, allowances: HashMap::new(), events }
    }

    pub fn total_supply(&self) -> (r: u128)
        ensures
            r == self.total_supply,
    {
        self.total_supply
    }

    pub fn balance_of(&self, who: u64) -> (r: u128)
        ensures
            r == self.spec_balance(who),
    {
        match self.balances.get(&who) {
            Some(b) => *b,
            None => 0,
        }
    }

    pub fn allowance(&self, who: u64, spender: u64) -> (r: u128)
        ensures
            r == self.spec_allowance(who, spender),
    {
        let key: u128 = ((who as u128) << 64u128) | (spender as u128);
        match self.allowances.get(&key) {
            Some(a) => *a,
            None => 0,
        }
    }

    /// Moves `value` from the caller's account to `to`.
    pub fn transfer(&mut self, caller: u64, to: u64, value: u128) -> (r: Result<(), Error>)
        requires
            (old(self).spec_balance(caller) >= value && caller != to)
                ==> old(self).spec_balance(to) + value <= u128::MAX,
        ensures
            r == Ok::<(), Error>(()) <==> old(self).spec_balance(caller) >= value,
            old(self).spec_balance(caller) < value ==> r == Err::<(), Error>(
                Error::InsufficientBalance,
            ) && *final(self) == *old(self),
            old(self).spec_balance(caller) >= value ==> {
                &&& final(self).balances@ == balances_after_transfer(
                    old(self).balances@,
                    caller,
                    to,
                    value,
                )
                &&& final(self).events@ == old(self).events@.push(
                    TokenEvent::Transfer(
                        (Transfer { from: Some(caller), to: Some(to), value }),
                    ),
                )
                &&& final(self).allowances@ == old(self).allowances@
                &&& final(self).total_supply == old(self).total_supply
            },
    {
        self.inner_transfer(caller, to, value)
    }

    /// Lets `to` move up to `value` of the caller's funds; overwrites any
    /// earlier grant.
    pub fn approve(&mut self, caller: u64, to: u64, value: u128) -> (r: Result<(), Error>)
        ensures
            r == Ok::<(), Error>(()),
            final(self).allowances@ == old(self).allowances@.insert(pair_key(caller, to), value),
            final(self).events@ == old(self).events@.push(
                TokenEvent::Approval((Approval { owner: caller, spender: to, value })),
            ),
            final(self).balances@ == old(self).balances@,
            final(self).total_supply == old(self).total_supply,
    {
        let key: u128 = ((caller as u128) << 64u128) | (to as u128);
        self.allowances.insert(key, value);
        self.events.push(TokenEvent::Approval(Approval { owner: caller, spender: to, value }));
        Ok(())
    }

    /// Moves `value` from `from` to `to` on the caller's behalf, drawing on
    /// the caller's allowance from `from`.  The allowance is only reduced
    /// when the transfer itself went through.
    pub fn transfer_from(&mut self, caller: u64, from: u64, to: u64, value: u128) -> (r: Result<
        (),
        Error,
    >)
        requires
            (old(self).spec_allowance(from, caller) >= value && old(self).spec_balance(from)
                >= value && from != to) ==> old(self).spec_balance(to) + value <= u128::MAX,
        ensures
            old(self).spec_allowance(from, caller) < value ==> r == Err::<(), Error>(
                Error::InsufficientApproval,
            ) && *final(self) == *old(self),
            old(self).spec_allowance(from, caller) >= value && old(self).spec_balance(from) < value
                ==> r == Err::<(), Error>(Error::InsufficientBalance) && *final(self) == *old(self),
            old(self).spec_allowance(from, caller) >= value && old(self).spec_balance(from) >= value
                ==> {
                &&& r == Ok::<(), Error>(())
                &&& final(self).balances@ == balances_after_transfer(
                    old(self).balances@,
                    from,
                    to,
                    value,
                )
                &&& final(self).allowances@ == old(self).allowances@.insert(
                    pair_key(from, caller),
                    (old(self).spec_allowance(from, caller) - value) as u128,
                )
                &&& final(self).events@ == old(self).events@.push(
                    TokenEvent::Transfer(
                        (Transfer { from: Some(from), to: Some(to), value }),
                    ),
                )
                &&& final(self).total_supply == old(self).total_supply
            },
    {
        let allowance = self.allowance(from, caller);
        if allowance < value {
            return Err(Error::InsufficientApproval);
        }
        self.inner_transfer(from, to, value)?;
        let key: u128 = ((from as u128) << 64u128) | (caller as u128);
        self.allowances.insert(key, allowance - value);
        Ok(())
    }

    /// Moves `value` from `from` to `to`, atomically: on an insufficient
    /// balance nothing at all changes.
    pub fn inner_transfer(&mut self, from: u64, to: u64, value: u128) -> (r: Result<(), Error>)
        requires
            (old(self).spec_balance(from) >= value && from != to)
                ==> old(self).spec_balance(to) + value <= u128::MAX,
        ensures
            r == Ok::<(), Error>(()) <==> old(self).spec_balance(from) >= value,
            old(self).spec_balance(from) < value ==> r == Err::<(), Error>(
                Error::InsufficientBalance,
            ) && *final(self) == *old(self),
            old(self).spec_balance(from) >= value ==> {
                &&& final(self).balances@ == balances_after_transfer(
                    old(self).balances@,
                    from,
                    to,
                    value,
                )
                &&& final(self).events@ == old(self).events@.push(
                    TokenEvent::Transfer(
                        (Transfer { from: Some(from), to: Some(to), value }),
                    ),
                )
                &&& final(self).allowances@ == old(self).allowances@
                &&& final(self).total_supply == old(self).total_supply
            },
    {
        let from_balance = self.balance_of(from);
        if from_balance < value {
            return Err(Error::InsufficientBalance);
        }
        self.balances.insert(from, from_balance - value);
        let to_balance = self.balance_of(to);
        self.balances.insert(to, to_balance + value);
        self.events.push(TokenEvent::Transfer(Transfer { from: Some(from), to: Some(to), value }));
        Ok(())
    }
}

impl Default for Erc200 {
    /// An empty ledger: supply 0, minted to account 0.
    fn default() -> (r: Erc200)
        ensures
            r.total_supply == 0,
            r.balances@ == Map::<u64, u128>::empty().insert(0u64, 0u128),
            r.allowances@ == Map::<u128, u128>::empty(),
            r.events@ == Seq::<TokenEvent>::empty().push(
                TokenEvent::Transfer((Transfer { from: None, to: Some(0u64), value: 0u128 })),
            ),
    {
        Erc200::new(0, 0)
    }
}

} // verus!
