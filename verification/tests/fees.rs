use stellar_stream::error::Error;
use stellar_stream::fees::calculate_fee;
use stellar_stream::state::StellarStream;
use stellar_stream::types::{Address, AddressKind, Event, Party, Role, Transfer};

fn account(n: u128) -> Address {
    Address { kind: AddressKind::Account, hi: 0, lo: n }
}

#[test]
fn fee_is_the_rate_in_basis_points_rounded_down() {
    assert_eq!(calculate_fee(1000, 500), 50);
    assert_eq!(calculate_fee(1000, 0), 0);
    assert_eq!(calculate_fee(1000, 1000), 100);
    assert_eq!(calculate_fee(1, 1000), 0);
    assert_eq!(calculate_fee(9, 1000), 0);
    assert_eq!(calculate_fee(10, 1000), 1);
    assert_eq!(calculate_fee(19999, 1), 1);
    assert_eq!(calculate_fee(12345, 333), 411);
}

#[test]
fn fee_on_the_largest_amount_does_not_overflow() {
    assert_eq!(calculate_fee(i128::MAX, 1000), i128::MAX / 10);
    assert_eq!(
        calculate_fee(i128::MAX, 1),
        17014118346046923173168730371588410
    );
}

#[test]
fn five_percent_of_a_thousand_goes_to_the_treasury() {
    let admin = account(1);
    let sender = account(2);
    let receiver = account(3);
    let token = account(4);
    let treasury = account(5);
    let (mut engine, _) = StellarStream::initialize(admin);
    assert_eq!(
        engine.initialize_fee(admin, 500, treasury),
        Ok(Event::FeeInitialized { manager: admin, fee_bps: 500, treasury })
    );
    assert_eq!(engine.fee_bps(), 500);
    assert_eq!(engine.treasury(), Some(treasury));

    let created = engine.create_stream(sender, receiver, token, 1000, 100, 100, 200).unwrap();
    assert_eq!(
        created.deposit,
        Transfer { token, from: Party::Account(sender), to: Party::Escrow, amount: 950 }
    );
    assert_eq!(
        created.fee,
        Some(Transfer {
            token,
            from: Party::Account(sender),
            to: Party::Account(treasury),
            amount: 50,
        })
    );
    assert_eq!(created.deposit.amount + created.fee.unwrap().amount, 1000);
    let stream = engine.get_stream(created.stream_id).unwrap();
    assert_eq!(stream.amount, 950);
    assert_eq!(stream.withdrawn_amount, 0);
    assert_eq!(engine.withdraw(1, receiver, 150).unwrap().payout.amount, 475);
}

#[test]
fn a_fee_that_rounds_to_nothing_asks_for_no_transfer_and_no_treasury() {
    let admin = account(1);
    let (mut engine, _) = StellarStream::initialize(admin);
    engine.update_fee(admin, 100).unwrap();
    assert_eq!(engine.treasury(), None);
    let created = engine.create_stream(account(2), account(3), account(4), 99, 0, 0, 10).unwrap();
    assert_eq!(created.fee, None);
    assert_eq!(created.deposit.amount, 99);
    assert_eq!(engine.get_stream(1).unwrap().amount, 99);
}

#[test]
fn a_fee_that_is_due_needs_a_treasury() {
    let admin = account(1);
    let (mut engine, _) = StellarStream::initialize(admin);
    engine.update_fee(admin, 100).unwrap();
    let before = engine.clone();
    assert_eq!(
        engine.create_stream(account(2), account(3), account(4), 100, 0, 0, 10),
        Err(Error::TreasuryNotSet)
    );
    assert_eq!(engine, before);
    engine.update_treasury(admin, account(5)).unwrap();
    let created = engine.create_stream(account(2), account(3), account(4), 100, 0, 0, 10).unwrap();
    assert_eq!(created.fee.unwrap().amount, 1);
    assert_eq!(created.deposit.amount, 99);
}

#[test]
fn fee_settings_are_for_a_treasury_manager() {
    let admin = account(1);
    let other = account(2);
    let (mut engine, _) = StellarStream::initialize(admin);
    let before = engine.clone();
    assert_eq!(engine.initialize_fee(other, 10, other), Err(Error::MissingRole));
    assert_eq!(engine.update_fee(other, 10), Err(Error::MissingRole));
    assert_eq!(engine.update_treasury(other, other), Err(Error::MissingRole));
    assert_eq!(engine.initialize_fee(other, 5000, other), Err(Error::MissingRole));
    assert_eq!(engine, before);
    engine.grant_role(admin, other, Role::TreasuryManager).unwrap();
    assert_eq!(
        engine.update_fee(other, 10),
        Ok(Event::FeeUpdated { manager: other, fee_bps: 10 })
    );
    assert_eq!(
        engine.update_treasury(other, other),
        Ok(Event::TreasuryUpdated { manager: other, treasury: other })
    );
    assert_eq!((engine.fee_bps(), engine.treasury()), (10, Some(other)));
}

#[test]
fn a_rate_above_ten_percent_is_refused() {
    let admin = account(1);
    let (mut engine, _) = StellarStream::initialize(admin);
    assert_eq!(engine.initialize_fee(admin, 1001, account(5)), Err(Error::FeeTooHigh));
    assert_eq!(engine.update_fee(admin, 1001), Err(Error::FeeTooHigh));
    assert_eq!(engine.update_fee(admin, u32::MAX), Err(Error::FeeTooHigh));
    assert_eq!((engine.fee_bps(), engine.treasury()), (0, None));
    assert!(engine.initialize_fee(admin, 1000, account(5)).is_ok());
    assert!(engine.update_fee(admin, 0).is_ok());
    assert_eq!((engine.fee_bps(), engine.treasury()), (0, Some(account(5))));
}
