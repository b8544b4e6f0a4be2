use stellar_stream::error::Error;
use stellar_stream::state::StellarStream;
use stellar_stream::types::{Address, AddressKind, Role, RoleGrant, Stream};

fn account(n: u128) -> Address {
    Address { kind: AddressKind::Account, hi: 0, lo: n }
}

fn stream(amount: i128, withdrawn: i128) -> Stream {
    Stream {
        sender: account(2),
        receiver: account(3),
        token: account(4),
        amount,
        start_time: 100,
        cliff_time: 100,
        end_time: 200,
        withdrawn_amount: withdrawn,
    }
}

fn grants() -> Vec<RoleGrant> {
    vec![
        RoleGrant { account: account(1), role: Role::Admin },
        RoleGrant { account: account(9), role: Role::Pauser },
    ]
}

#[test]
fn restore_puts_back_what_was_taken_apart() {
    let admin = account(1);
    let (mut engine, _) = StellarStream::initialize(admin);
    engine.initialize_fee(admin, 250, account(5)).unwrap();
    engine.grant_role(admin, account(9), Role::Pauser).unwrap();
    engine.create_stream(account(2), account(3), account(4), 1000, 100, 100, 200).unwrap();
    engine.create_stream(account(2), account(3), account(4), 500, 100, 150, 200).unwrap();
    engine.withdraw(1, account(3), 150).unwrap();
    engine.set_pause(account(9), true).unwrap();
    engine.acquire_guard().unwrap();

    let entries = vec![(2, engine.get_stream(2).unwrap()), (1, engine.get_stream(1).unwrap())];
    let restored = StellarStream::restore(
        engine.grants(),
        engine.fee_bps(),
        engine.treasury(),
        engine.is_paused(),
        engine.is_locked(),
        engine.last_stream_id(),
        entries,
    )
    .unwrap();
    assert_eq!(restored, engine);
    assert_eq!(restored.get_stream(1).unwrap().withdrawn_amount, 487);
    assert!(restored.is_paused() && restored.is_locked());
    assert_eq!(restored.get_admin(), Some(admin));
}

#[test]
fn restore_from_a_part_serves_the_streams_it_was_given() {
    let mut engine =
        StellarStream::restore(grants(), 0, None, false, false, 7, vec![(5, stream(1000, 250))])
            .unwrap();
    assert_eq!(engine.get_stream(5), Ok(stream(1000, 250)));
    assert_eq!(engine.get_stream(4), Err(Error::StreamNotFound));
    assert_eq!(engine.withdraw(5, account(3), 150).unwrap().payout.amount, 250);
    assert_eq!(
        engine.create_stream(account(2), account(3), account(4), 10, 0, 0, 10).unwrap().stream_id,
        8
    );
}

#[test]
fn restore_refuses_parts_that_make_no_engine() {
    let ok = |g: Vec<RoleGrant>, fee: u32, last: u64, s: Vec<(u64, Stream)>| {
        StellarStream::restore(g, fee, None, false, false, last, s).is_some()
    };
    assert!(ok(grants(), 1000, 3, vec![(1, stream(10, 0)), (3, stream(10, 10))]));
    assert!(ok(vec![], 0, 0, vec![]));
    assert!(!ok(grants(), 1001, 3, vec![]));
    let mut twice = grants();
    twice.push(RoleGrant { account: account(1), role: Role::Admin });
    assert!(!ok(twice, 0, 3, vec![]));
    assert!(!ok(grants(), 0, 3, vec![(0, stream(10, 0))]));
    assert!(!ok(grants(), 0, 3, vec![(4, stream(10, 0))]));
    assert!(!ok(grants(), 0, 3, vec![(1, stream(10, 0)), (1, stream(10, 0))]));
    assert!(!ok(grants(), 0, 3, vec![(1, stream(0, 0))]));
    assert!(!ok(grants(), 0, 3, vec![(1, stream(10, 11))]));
    assert!(!ok(grants(), 0, 3, vec![(1, stream(10, -1))]));
    let mut late_cliff = stream(10, 0);
    late_cliff.cliff_time = 200;
    assert!(!ok(grants(), 0, 3, vec![(1, late_cliff)]));
    let mut early_cliff = stream(10, 0);
    early_cliff.cliff_time = 99;
    assert!(!ok(grants(), 0, 3, vec![(1, early_cliff)]));
}
