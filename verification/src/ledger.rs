use std::collections::HashMap;

use vstd::prelude::*;

use crate::allocator::next_id;
use crate::breeding::{crossover, crossover_spec};
use crate::deriver::{dna_of, random_value};
use crate::errors::Error;
use crate::kitty::Kitty;
use crate::token::{balances_after_transfer, Erc200, TokenEvent, Transfer};

verus! {

/// A domain event, appended to the ledger's outbound queue when the
/// operation it reports has committed.
#[derive(Clone, Copy, Debug, PartialEq, Eq)]
pub enum Event {
    /// owner, new id
    KittyCreate(u64, u64),
    /// breeder, first parent, second parent, child
    KittyBred(u64, u64, u64, u64),
    /// old owner, new owner, id
    KittyTransfer(u64, u64, u64),
    /// buyer, seller, id, amount paid
    Bought(u64, u64, u64, u128),
}

/// The asset ledger: an asset table, an ownership index, a price index, the
/// id counter, and an outbound event queue.  Each operation validates every
/// precondition against the current state first and only then writes, so an
/// observer between operations never sees a partial result.
pub struct Pallet {
    pub kitties: HashMap<u64, Kitty>,
    pub owners: HashMap<u64, u64>,
    pub prices: HashMap<u64, u128>,
    pub counter: u64,
    pub events: Vec<Event>,
}

impl Pallet {
    /// Well-formedness: ids are allocated densely from 1 up to the counter,
    /// every existing asset has exactly one owner, and only existing assets
    /// carry a listed price.
    pub open spec fn wf(&self) -> bool {
        &&& forall|id: u64|
            #[trigger] self.kitties@.dom().contains(id) <==> 1 <= id <= self.counter
        &&& forall|id: u64|
            #[trigger] self.owners@.dom().contains(id) <==> self.kitties@.dom().contains(id)
        &&& forall|id: u64| #[trigger]
            self.prices@.dom().contains(id) ==> self.kitties@.dom().contains(id)
    }

    /// Whether an asset with this id has been minted.
    pub open spec fn has_kitty(&self, id: u64) -> bool {
        self.kitties@.dom().contains(id)
    }

    /// Whether the asset is advertised for sale.
    pub open spec fn is_listed(&self, id: u64) -> bool {
        self.prices@.dom().contains(id)
    }

    /// Every check a sale of `kitty_id` to `buyer` at an offered `price`
    /// makes, in validation order: the asset exists, it is listed, the buyer
    /// is not its owner, the offer reaches the listed price, and the buyer's
    /// balance covers the offer.
    pub open spec fn sale_admissible(
        &self,
        buyer: u64,
        kitty_id: u64,
        price: u128,
        bank: Erc200,
    ) -> bool {
        &&& self.has_kitty(kitty_id)
        &&& self.is_listed(kitty_id)
        &&& self.spec_owner(kitty_id) != buyer
        &&& self.prices@[kitty_id] <= price
        &&& bank.spec_balance(buyer) >= price
    }

    /// The owner of an existing asset.
    pub open spec fn spec_owner(&self, id: u64) -> u64 {
        self.owners@[id]
    }

    /// An empty ledger: nothing minted yet.
    pub fn new() -> (r: Pallet)
        ensures
            r.wf(),
            r.counter == 0,
            r.kitties@ == Map::<u64, Kitty>::empty(),
            r.owners@ == Map::<u64, u64>::empty(),
            r.prices@ == Map::<u64, u128>::empty(),
            r.events@ == Seq::<Event>::empty(),
    {
        Pallet {
            kitties: HashMap::new(),
            owners: HashMap::new(),
            prices: HashMap::new(),
            counter: 0,
            events: Vec::new(),
        }
    }

    /// The highest id allocated so far, `None` before the first minting.
    pub fn kitties_count(&self) -> (r: Option<u64>)
        ensures
            self.counter == 0 ==> r == None::<u64>,
            self.counter > 0 ==> r == Some(self.counter),
    {
        if self.counter == 0 {
            None
        } else {
            Some(self.counter)
        }
    }

    /// The asset stored under this id.
    pub fn kitties(&self, kitty_id: u64) -> (r: Option<Kitty>)
        ensures
            self.has_kitty(kitty_id) ==> r == Some(self.kitties@[kitty_id]),
            !self.has_kitty(kitty_id) ==> r == None::<Kitty>,
    {
        match self.kitties.get(&kitty_id) {
            Some(k) => Some(*k),
            None => None,
        }
    }

    /// The current owner of this asset.
    pub fn owner_of(&self, kitty_id: u64) -> (r: Option<u64>)
        ensures
            self.owners@.dom().contains(kitty_id) ==> r == Some(self.owners@[kitty_id]),
            !self.owners@.dom().contains(kitty_id) ==> r == None::<u64>,
    {
        match self.owners.get(&kitty_id) {
            Some(o) => Some(*o),
            None => None,
        }
    }

    /// The listed price of this asset, `None` while it is not for sale.
    pub fn price_of(&self, kitty_id: u64) -> (r: Option<u128>)
        ensures
            self.prices@.dom().contains(kitty_id) ==> r == Some(self.prices@[kitty_id]),
            !self.prices@.dom().contains(kitty_id) ==> r == None::<u128>,
    {
        match self.prices.get(&kitty_id) {
            Some(p) => Some(*p),
            None => None,
        }
    }

    /// The id the next minting will use, overflow-checked; nothing is
    /// committed here.
    pub fn get_new_kitties_count(&self) -> (r: Result<u64, Error>)
        ensures
            self.counter < u64::MAX ==> r == Ok::<u64, Error>((self.counter + 1) as u64),
            self.counter == u64::MAX ==> r == Err::<u64, Error>(Error::CounterOverflow),
    {
        next_id(self.counter)
    }

    /// Mints a fresh asset for `who`, with a trait vector derived from the
    /// entropy seed and the transaction index.  Fails only when no id is
    /// left, and then changes nothing.  The entropy seed must fit the
    /// encoding's compact 32-bit length prefix.
    pub fn create(&mut self, who: u64, entropy: &[u8], tx_index: u64) -> (r: Result<u64, Error>)
        requires
            old(self).wf(),
            entropy@.len() <= u32::MAX,
        ensures
            final(self).wf(),
            old(self).counter == u64::MAX ==> r == Err::<u64, Error>(Error::CounterOverflow)
                && *final(self) == *old(self),
            old(self).counter < u64::MAX ==> ({
                let nid = (old(self).counter + 1) as u64;
                &&& r == Ok::<u64, Error>(nid)
                &&& final(self).counter == nid
                &&& final(self).kitties@.dom() =~= old(self).kitties@.dom().insert(nid)
                &&& final(self).kitties@[nid].0@ == dna_of(entropy@, who, tx_index)
                &&& forall|id: u64|
                    #[trigger] old(self).kitties@.dom().contains(id) ==> final(self).kitties@[id]
                        == old(self).kitties@[id]
                &&& final(self).owners@ == old(self).owners@.insert(nid, who)
                &&& final(self).prices@ == old(self).prices@
                &&& final(self).events@ == old(self).events@.push(Event::KittyCreate(who, nid))
            }),
    {
        let new_cnt = match self.get_new_kitties_count() {
            Ok(id) => id,
            Err(e) => {
                return Err(e);
            },
        };
        let dna = random_value(entropy, who, tx_index);
        self.kitties.insert(new_cnt, Kitty(dna));
        self.owners.insert(new_cnt, who);
        self.counter = new_cnt;
        self.events.push(Event::KittyCreate(who, new_cnt));
        Ok(new_cnt)
    }

    /// Hands an asset of the caller's to `new_owner`.  A missing asset, a
    /// caller that is not the owner, and a transfer back to the caller are
    /// each rejected, and then nothing changes.
    pub fn transfer(&mut self, who: u64, new_owner: u64, kitty_id: u64) -> (r: Result<(), Error>)
        requires
            old(self).wf(),
        ensures
            final(self).wf(),
            !old(self).has_kitty(kitty_id) ==> r == Err::<(), Error>(Error::AssetNotExist)
                && *final(self) == *old(self),
            old(self).has_kitty(kitty_id) && old(self).spec_owner(kitty_id) != who ==> r
                == Err::<(), Error>(Error::NotOwner) && *final(self) == *old(self),
            old(self).has_kitty(kitty_id) && old(self).spec_owner(kitty_id) == who && new_owner
                == who ==> r == Err::<(), Error>(Error::SameOwnerTransfer)
                && *final(self) == *old(self),
            old(self).has_kitty(kitty_id) && old(self).spec_owner(kitty_id) == who && new_owner
                != who ==> {
                &&& r == Ok::<(), Error>(())
                &&& final(self).owners@ == old(self).owners@.insert(kitty_id, new_owner)
                &&& final(self).kitties@ == old(self).kitties@
                &&& final(self).prices@ == old(self).prices@
                &&& final(self).counter == old(self).counter
                &&& final(self).events@ == old(self).events@.push(
                    Event::KittyTransfer(who, new_owner, kitty_id),
                )
            },
    {
        let owner = match self.owner_of(kitty_id) {
            Some(o) => o,
            None => {
                return Err(Error::AssetNotExist);
            },
        };
        if owner != who {
            return Err(Error::NotOwner);
        }
        if new_owner == who {
            return Err(Error::SameOwnerTransfer);
        }
        self.owners.insert(kitty_id, new_owner);
        self.events.push(Event::KittyTransfer(who, new_owner, kitty_id));
        Ok(())
    }

    /// Breeds a child from two distinct parents of the caller's.  The child
    /// gets a fresh id and a trait vector combined bit by bit from the
    /// parents' under a derived selector; both parents stay untouched.  Any
    /// failed check aborts the whole operation with no state change.  The
    /// entropy seed must fit the encoding's compact 32-bit length prefix.
    pub fn breed(
        &mut self,
        who: u64,
        kitty_id_1: u64,
        kitty_id_2: u64,
        entropy: &[u8],
        tx_index: u64,
    ) -> (r: Result<u64, Error>)
        requires
            old(self).wf(),
            entropy@.len() <= u32::MAX,
        ensures
            final(self).wf(),
            kitty_id_1 == kitty_id_2 ==> r == Err::<u64, Error>(Error::SameParentIndex)
                && *final(self) == *old(self),
            kitty_id_1 != kitty_id_2 && (!old(self).has_kitty(kitty_id_1) || !old(self).has_kitty(
                kitty_id_2,
            )) ==> r == Err::<u64, Error>(Error::InvalidAssetIndex) && *final(self) == *old(self),
            kitty_id_1 != kitty_id_2 && old(self).has_kitty(kitty_id_1) && old(self).has_kitty(
                kitty_id_2,
            ) && (old(self).spec_owner(kitty_id_1) != who || old(self).spec_owner(kitty_id_2)
                != who) ==> r == Err::<u64, Error>(Error::NotOwner) && *final(self) == *old(self),
            kitty_id_1 != kitty_id_2 && old(self).has_kitty(kitty_id_1) && old(self).has_kitty(
                kitty_id_2,
            ) && old(self).spec_owner(kitty_id_1) == who && old(self).spec_owner(kitty_id_2) == who
                && old(self).counter == u64::MAX ==> r == Err::<u64, Error>(Error::CounterOverflow)
                && *final(self) == *old(self),
            kitty_id_1 != kitty_id_2 && old(self).has_kitty(kitty_id_1) && old(self).has_kitty(
                kitty_id_2,
            ) && old(self).spec_owner(kitty_id_1) == who && old(self).spec_owner(kitty_id_2) == who
                && old(self).counter < u64::MAX ==> ({
                let nid = (old(self).counter + 1) as u64;
                &&& r == Ok::<u64, Error>(nid)
                &&& final(self).counter == nid
                &&& final(self).kitties@.dom() =~= old(self).kitties@.dom().insert(nid)
                &&& final(self).kitties@[nid].0@ == crossover_spec(
                    dna_of(entropy@, who, tx_index),
                    old(self).kitties@[kitty_id_1].0@,
                    old(self).kitties@[kitty_id_2].0@,
                )
                &&& forall|id: u64|
                    #[trigger] old(self).kitties@.dom().contains(id) ==> final(self).kitties@[id]
                        == old(self).kitties@[id]
                &&& final(self).owners@ == old(self).owners@.insert(nid, who)
                &&& final(self).prices@ == old(self).prices@
                &&& final(self).events@ == old(self).events@.push(
                    Event::KittyBred(who, kitty_id_1, kitty_id_2, nid),
                )
            }),
    {
        if kitty_id_1 == kitty_id_2 {
            return Err(Error::SameParentIndex);
        }
        let kitty1 = match self.kitties(kitty_id_1) {
            Some(k) => k,
            None => {
                return Err(Error::InvalidAssetIndex);
            },
        };
        let kitty2 = match self.kitties(kitty_id_2) {
            Some(k) => k,
            None => {
                return Err(Error::InvalidAssetIndex);
            },
        };
        let owner1 = match self.owner_of(kitty_id_1) {
            Some(o) => o,
            None => {
                return Err(Error::NotOwner);
            },
        };
        let owner2 = match self.owner_of(kitty_id_2) {
            Some(o) => o,
            None => {
                return Err(Error::NotOwner);
            },
        };
        if owner1 != who {
            return Err(Error::NotOwner);
        }
        if owner2 != who {
            return Err(Error::NotOwner);
        }
        let new_cnt = match self.get_new_kitties_count() {
            Ok(id) => id,
            Err(e) => {
                return Err(e);
            },
        };
        let selector = random_value(entropy, who, tx_index);
        let new_dna = crossover(&selector, &kitty1.0, &kitty2.0);
        self.kitties.insert(new_cnt, Kitty(new_dna));
        self.owners.insert(new_cnt, who);
        self.counter = new_cnt;
        self.events.push(Event::KittyBred(who, kitty_id_1, kitty_id_2, new_cnt));
        Ok(new_cnt)
    }

    /// Advertises an asset of the caller's for sale at `price`; a later
    /// listing overwrites an earlier one.
    pub fn list(&mut self, who: u64, kitty_id: u64, price: u128) -> (r: Result<(), Error>)
        requires
            old(self).wf(),
        ensures
            final(self).wf(),
            !old(self).has_kitty(kitty_id) ==> r == Err::<(), Error>(Error::AssetNotExist)
                && *final(self) == *old(self),
            old(self).has_kitty(kitty_id) && old(self).spec_owner(kitty_id) != who ==> r
                == Err::<(), Error>(Error::NotOwner) && *final(self) == *old(self),
            old(self).has_kitty(kitty_id) && old(self).spec_owner(kitty_id) == who ==> {
                &&& r == Ok::<(), Error>(())
                &&& final(self).prices@ == old(self).prices@.insert(kitty_id, price)
                &&& final(self).kitties@ == old(self).kitties@
                &&& final(self).owners@ == old(self).owners@
                &&& final(self).counter == old(self).counter
                &&& final(self).events@ == old(self).events@
            },
    {
        let owner = match self.owner_of(kitty_id) {
            Some(o) => o,
            None => {
                return Err(Error::AssetNotExist);
            },
        };
        if owner != who {
            return Err(Error::NotOwner);
        }
        self.prices.insert(kitty_id, price);
        Ok(())
    }

    /// Buys a listed asset: after every check passes, the offered amount
    /// moves from the buyer to the seller on the balance ledger, ownership
    /// moves to the buyer, and the listing is cleared — one atomic step.
    /// Any failed check, including an insufficient buyer balance, leaves
    /// both the ledger and the balances exactly as they were.
    pub fn buy(&mut self, buyer: u64, kitty_id: u64, price: u128, bank: &mut Erc200) -> (r: Result<
        (),
        Error,
    >)
        requires
            old(self).wf(),
            old(self).sale_admissible(buyer, kitty_id, price, *old(bank))
                ==> old(bank).spec_balance(old(self).spec_owner(kitty_id)) + price <= u128::MAX,
        ensures
            final(self).wf(),
            !old(self).has_kitty(kitty_id) ==> r == Err::<(), Error>(Error::AssetNotExist)
                && *final(self) == *old(self) && *final(bank) == *old(bank),
            old(self).has_kitty(kitty_id) && !old(self).is_listed(kitty_id)
                ==> r == Err::<(), Error>(Error::NoPriceSet)
                && *final(self) == *old(self) && *final(bank) == *old(bank),
            old(self).has_kitty(kitty_id) && old(self).is_listed(kitty_id)
                && old(self).spec_owner(kitty_id) == buyer
                ==> r == Err::<(), Error>(Error::BuyerIsOwner)
                && *final(self) == *old(self) && *final(bank) == *old(bank),
            old(self).has_kitty(kitty_id) && old(self).is_listed(kitty_id)
                && old(self).spec_owner(kitty_id) != buyer && old(self).prices@[kitty_id] > price
                ==> r == Err::<(), Error>(Error::PriceTooLow)
                && *final(self) == *old(self) && *final(bank) == *old(bank),
            old(self).has_kitty(kitty_id) && old(self).is_listed(kitty_id)
                && old(self).spec_owner(kitty_id) != buyer && old(self).prices@[kitty_id] <= price
                && old(bank).spec_balance(buyer) < price
                ==> r == Err::<(), Error>(Error::InsufficientBalance)
                && *final(self) == *old(self) && *final(bank) == *old(bank),
            old(self).sale_admissible(buyer, kitty_id, price, *old(bank)) ==> ({
                let seller = old(self).spec_owner(kitty_id);
                &&& r == Ok::<(), Error>(())
                &&& final(bank).balances@ == balances_after_transfer(
                    old(bank).balances@,
                    buyer,
                    seller,
                    price,
                )
                &&& final(bank).events@ == old(bank).events@.push(
                    TokenEvent::Transfer(
                        (Transfer { from: Some(buyer), to: Some(seller), value: price }),
                    ),
                )
                &&& final(bank).allowances@ == old(bank).allowances@
                &&& final(bank).total_supply == old(bank).total_supply
                &&& final(self).owners@ == old(self).owners@.insert(kitty_id, buyer)
                &&& final(self).prices@ == old(self).prices@.remove(kitty_id)
                &&& final(self).kitties@ == old(self).kitties@
                &&& final(self).counter == old(self).counter
                &&& final(self).events@ == old(self).events@.push(
                    Event::Bought(buyer, seller, kitty_id, price),
                )
            }),
    {
        if self.kitties(kitty_id).is_none() {
            return Err(Error::AssetNotExist);
        }
        let kitty_price = match self.price_of(kitty_id) {
            Some(p) => p,
            None => {
                return Err(Error::NoPriceSet);
            },
        };
        let owner = match self.owner_of(kitty_id) {
            Some(o) => o,
            None => {
                return Err(Error::NotOwner);
            },
        };
        if owner == buyer {
            return Err(Error::BuyerIsOwner);
        }
        if kitty_price > price {
            return Err(Error::PriceTooLow);
        }
        if bank.balance_of(buyer) < price {
            return Err(Error::InsufficientBalance);
        }
        let seller = owner;
        match bank.inner_transfer(buyer, seller, price) {
            Ok(_) => {},
            Err(_) => {
                return Err(Error::InsufficientBalance);
            },
        };
        self.owners.insert(kitty_id, buyer);
        self.prices.remove(&kitty_id);
        self.events.push(Event::Bought(buyer, seller, kitty_id, price));
        Ok(())
    }
}

/// Law: the counter is the maximum allocated id — every minted asset's id
/// lies between 1 and the counter, and the counter itself names a minted
/// asset as soon as anything was minted.
pub proof fn lemma_counter_is_max_id(s: Pallet)
    requires
        s.wf(),
    ensures
        forall|id: u64| #[trigger] s.kitties@.dom().contains(id) ==> 1 <= id <= s.counter,
        s.counter > 0 ==> s.kitties@.dom().contains(s.counter),
{
}

/// Law: minting is monotonic — the id a successful `create` or `breed`
/// returns, the old counter plus one, strictly exceeds every id allocated
/// before it.
pub proof fn lemma_fresh_id_exceeds_existing(s: Pallet, id: u64)
    requires
        s.wf(),
        s.kitties@.dom().contains(id),
        s.counter < u64::MAX,
    ensures
        id < s.counter + 1,
{
}

} // verus!
