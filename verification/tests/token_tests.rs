use kitties::token::{Erc200, Error, TokenEvent, Transfer};

#[test]
fn new_mints_the_supply_to_the_caller() {
    let bank = Erc200::new(5, 1000);
    assert_eq!(bank.total_supply(), 1000);
    assert_eq!(bank.balance_of(5), 1000);
    assert_eq!(bank.balance_of(6), 0);
    assert_eq!(
        bank.events.last(),
        Some(&TokenEvent::Transfer(Transfer { from: None, to: Some(5), value: 1000 }))
    );
}

#[test]
fn default_ledger_is_empty() {
    let bank = Erc200::default();
    assert_eq!(bank.total_supply(), 0);
    assert_eq!(bank.balance_of(0), 0);
}

#[test]
fn transfer_moves_funds() {
    let mut bank = Erc200::new(5, 1000);
    assert!(bank.transfer(5, 6, 300).is_ok());
    assert_eq!(bank.balance_of(5), 700);
    assert_eq!(bank.balance_of(6), 300);
    assert_eq!(bank.total_supply(), 1000);
    assert_eq!(
        bank.events.last(),
        Some(&TokenEvent::Transfer(Transfer { from: Some(5), to: Some(6), value: 300 }))
    );
}

#[test]
fn transfer_rejects_insufficient_balance() {
    let mut bank = Erc200::new(5, 100);
    assert_eq!(bank.transfer(5, 6, 300), Err(Error::InsufficientBalance));
    assert_eq!(bank.balance_of(5), 100);
    assert_eq!(bank.balance_of(6), 0);
}

#[test]
fn approve_records_the_allowance() {
    let mut bank = Erc200::new(5, 1000);
    assert_eq!(bank.allowance(5, 6), 0);
    assert!(bank.approve(5, 6, 400).is_ok());
    assert_eq!(bank.allowance(5, 6), 400);
    // the grant is directional and per pair
    assert_eq!(bank.allowance(6, 5), 0);
    assert_eq!(bank.allowance(5, 7), 0);
}

#[test]
fn transfer_from_draws_on_the_allowance() {
    let mut bank = Erc200::new(5, 1000);
    bank.approve(5, 6, 400).unwrap();
    assert!(bank.transfer_from(6, 5, 7, 150).is_ok());
    assert_eq!(bank.balance_of(5), 850);
    assert_eq!(bank.balance_of(7), 150);
    assert_eq!(bank.allowance(5, 6), 250);
}

#[test]
fn transfer_from_rejects_insufficient_approval() {
    let mut bank = Erc200::new(5, 1000);
    bank.approve(5, 6, 100).unwrap();
    assert_eq!(bank.transfer_from(6, 5, 7, 150), Err(Error::InsufficientApproval));
    assert_eq!(bank.balance_of(5), 1000);
    assert_eq!(bank.allowance(5, 6), 100);
}

#[test]
fn transfer_from_rejects_insufficient_balance() {
    let mut bank = Erc200::new(5, 100);
    bank.approve(5, 6, 400).unwrap();
    assert_eq!(bank.transfer_from(6, 5, 7, 150), Err(Error::InsufficientBalance));
    assert_eq!(bank.balance_of(5), 100);
    assert_eq!(bank.balance_of(7), 0);
    // the allowance is only reduced when the transfer went through
    assert_eq!(bank.allowance(5, 6), 400);
}

#[test]
fn self_transfer_nets_to_nothing() {
    let mut bank = Erc200::new(5, 1000);
    assert!(bank.transfer(5, 5, 400).is_ok());
    assert_eq!(bank.balance_of(5), 1000);
}
