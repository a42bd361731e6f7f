use kitties::{Erc200, Error, Event, Pallet};

#[test]
fn create_kitty_should_work() {
    let entropy = vec![80u8];
    let bank = Erc200::new(1, 10000000);
    assert_eq!(bank.balance_of(1), 10000000);
    // create a kitty with account #10.
    let mut pallet = Pallet::new();
    let kitty00 = pallet.create(10, &entropy, 0);
    assert!(kitty00.is_ok());
    assert!(pallet.create(10, &entropy, 1).is_ok());
    assert!(pallet.create(10, &entropy, 2).is_ok());
    // check that there is now 3 kitty in storage
    assert_eq!(pallet.kitties_count(), Some(3));
}

#[test]
fn transfer_kitty_should_work() {
    let entropy = vec![80u8];
    let bank = Erc200::new(1, 10000000);
    assert_eq!(bank.balance_of(1), 10000000);
    // create a kitty with account #10.
    let mut pallet = Pallet::new();
    let kitty00 = pallet.create(10, &entropy, 0);
    assert!(kitty00.is_ok());
    let kitty_id = pallet.kitties_count().unwrap();
    assert!(pallet.transfer(10, 3, kitty_id).is_ok());

    assert_eq!(pallet.owner_of(kitty_id), Some(3));
}

#[test]
fn ids_are_monotonic_and_counter_is_max() {
    let entropy = vec![7u8, 7, 7];
    let mut pallet = Pallet::new();
    let id1 = pallet.create(10, &entropy, 0).unwrap();
    let id2 = pallet.create(10, &entropy, 1).unwrap();
    let id3 = pallet.breed(10, id1, id2, &entropy, 2).unwrap();
    assert_eq!(id1, 1);
    assert_eq!(id2, 2);
    assert_eq!(id3, 3);
    assert!(id1 < id2 && id2 < id3);
    assert_eq!(pallet.kitties_count(), Some(3));
}

#[test]
fn ownership_on_create() {
    let entropy = vec![1u8, 2, 3];
    let mut pallet = Pallet::new();
    let new_id = pallet.create(42, &entropy, 0).unwrap();
    assert_eq!(pallet.owner_of(new_id), Some(42));
}

#[test]
fn breed_rejects_identical_parents() {
    let entropy = vec![9u8];
    let mut pallet = Pallet::new();
    for i in 0..5u64 {
        pallet.create(10, &entropy, i).unwrap();
    }
    let before = pallet.kitties_count();
    assert_eq!(pallet.breed(10, 5, 5, &entropy, 9), Err(Error::SameParentIndex));
    assert_eq!(pallet.kitties_count(), before);
    assert_eq!(pallet.kitties(6), None);
    // the check comes before any lookup, so it also fires on an empty ledger
    let mut empty = Pallet::new();
    assert_eq!(empty.breed(10, 5, 5, &entropy, 0), Err(Error::SameParentIndex));
    assert_eq!(empty.kitties_count(), None);
}

#[test]
fn breed_rejects_missing_parent() {
    let entropy = vec![9u8];
    let mut pallet = Pallet::new();
    pallet.create(10, &entropy, 0).unwrap();
    assert_eq!(pallet.breed(10, 1, 2, &entropy, 1), Err(Error::InvalidAssetIndex));
    assert_eq!(pallet.kitties_count(), Some(1));
}

#[test]
fn breed_rejects_foreign_parents() {
    let entropy = vec![9u8];
    let mut pallet = Pallet::new();
    let id1 = pallet.create(10, &entropy, 0).unwrap();
    let id2 = pallet.create(11, &entropy, 1).unwrap();
    // account 10 owns only the first parent
    assert_eq!(pallet.breed(10, id1, id2, &entropy, 2), Err(Error::NotOwner));
    // account 12 owns neither parent
    assert_eq!(pallet.breed(12, id1, id2, &entropy, 2), Err(Error::NotOwner));
    assert_eq!(pallet.kitties_count(), Some(2));
    assert_eq!(pallet.owner_of(id1), Some(10));
    assert_eq!(pallet.owner_of(id2), Some(11));
}

#[test]
fn breed_combines_parent_traits() {
    let entropy = vec![3u8, 1, 4];
    let mut pallet = Pallet::new();
    let id1 = pallet.create(10, &entropy, 0).unwrap();
    let id2 = pallet.create(10, &entropy, 1).unwrap();
    let child = pallet.breed(10, id1, id2, &entropy, 2).unwrap();
    let selector = kitties::random_value(&entropy, 10, 2);
    let dna1 = pallet.kitties(id1).unwrap().0;
    let dna2 = pallet.kitties(id2).unwrap().0;
    let expected = kitties::crossover(&selector, &dna1, &dna2);
    assert_eq!(pallet.kitties(child).unwrap().0, expected);
    // parents are untouched
    assert_eq!(pallet.kitties(id1).unwrap().0, dna1);
    assert_eq!(pallet.kitties(id2).unwrap().0, dna2);
}

#[test]
fn transfer_rejects_missing_asset() {
    let mut pallet = Pallet::new();
    assert_eq!(pallet.transfer(10, 3, 1), Err(Error::AssetNotExist));
}

#[test]
fn transfer_rejects_non_owner() {
    let entropy = vec![5u8];
    let mut pallet = Pallet::new();
    let id = pallet.create(10, &entropy, 0).unwrap();
    assert_eq!(pallet.transfer(11, 3, id), Err(Error::NotOwner));
    assert_eq!(pallet.owner_of(id), Some(10));
}

#[test]
fn transfer_rejects_self_transfer() {
    let entropy = vec![5u8];
    let mut pallet = Pallet::new();
    let id = pallet.create(10, &entropy, 0).unwrap();
    assert_eq!(pallet.transfer(10, 10, id), Err(Error::SameOwnerTransfer));
    assert_eq!(pallet.owner_of(id), Some(10));
}

#[test]
fn overflow_halts_minting() {
    let entropy = vec![5u8];
    let mut pallet = Pallet::new();
    pallet.counter = u64::MAX;
    assert_eq!(pallet.create(10, &entropy, 0), Err(Error::CounterOverflow));
    assert_eq!(pallet.counter, u64::MAX);
    assert_eq!(pallet.get_new_kitties_count(), Err(Error::CounterOverflow));
}

#[test]
fn events_report_committed_operations() {
    let entropy = vec![6u8];
    let mut pallet = Pallet::new();
    let id1 = pallet.create(10, &entropy, 0).unwrap();
    assert_eq!(pallet.events.last(), Some(&Event::KittyCreate(10, id1)));
    let id2 = pallet.create(10, &entropy, 1).unwrap();
    let child = pallet.breed(10, id1, id2, &entropy, 2).unwrap();
    assert_eq!(pallet.events.last(), Some(&Event::KittyBred(10, id1, id2, child)));
    pallet.transfer(10, 3, id1).unwrap();
    assert_eq!(pallet.events.last(), Some(&Event::KittyTransfer(10, 3, id1)));
    // a failed operation appends nothing
    let n = pallet.events.len();
    assert!(pallet.transfer(10, 4, 99).is_err());
    assert_eq!(pallet.events.len(), n);
}
