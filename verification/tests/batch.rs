use stellar_stream::error::Error;
use stellar_stream::state::StellarStream;
use stellar_stream::types::{
    Address, AddressKind, Event, Party, Role, RoleGrant, Stream, StreamRequest, Transfer,
};

fn account(n: u128) -> Address {
    Address { kind: AddressKind::Account, hi: 0, lo: n }
}

fn request(receiver: u128, amount: i128, start: u64, cliff: u64, end: u64) -> StreamRequest {
    StreamRequest {
        receiver: account(receiver),
        amount,
        start_time: start,
        cliff_time: cliff,
        end_time: end,
    }
}

#[test]
fn batch_creates_one_stream_for_each_request_from_one_transfer() {
    let admin = account(1);
    let sender = account(2);
    let token = account(4);
    let (mut engine, _) = StellarStream::initialize(admin);
    engine.create_stream(sender, account(3), token, 5, 0, 0, 10).unwrap();
    let created = engine
        .create_batch_streams(
            sender,
            token,
            vec![request(10, 100, 0, 0, 50), request(11, 250, 10, 20, 30), request(10, 1, 5, 5, 6)],
        )
        .unwrap();
    assert_eq!(created.stream_ids, vec![2, 3, 4]);
    assert_eq!(
        created.events,
        vec![
            Event::StreamCreated { sender, stream_id: 2 },
            Event::StreamCreated { sender, stream_id: 3 },
            Event::StreamCreated { sender, stream_id: 4 },
        ]
    );
    assert_eq!(
        created.deposit,
        Transfer { token, from: Party::Account(sender), to: Party::Escrow, amount: 351 }
    );
    assert_eq!(engine.last_stream_id(), 4);
    assert_eq!(
        engine.get_stream(3),
        Ok(Stream {
            sender,
            receiver: account(11),
            token,
            amount: 250,
            start_time: 10,
            cliff_time: 20,
            end_time: 30,
            withdrawn_amount: 0,
        })
    );
    assert_eq!(engine.get_stream(2).unwrap().receiver, account(10));
    assert_eq!(engine.get_stream(4).unwrap().amount, 1);
    assert_eq!(engine.get_stream(1).unwrap().amount, 5);
    assert_eq!(engine.get_stream(5), Err(Error::StreamNotFound));
    assert_eq!(engine.create_stream(sender, account(3), token, 5, 0, 0, 10).unwrap().stream_id, 5);
}

#[test]
fn batch_takes_no_fee_and_does_not_look_at_the_pause_flag() {
    let admin = account(1);
    let sender = account(2);
    let token = account(4);
    let (mut engine, _) = StellarStream::initialize(admin);
    engine.initialize_fee(admin, 1000, account(5)).unwrap();
    engine.set_pause(admin, true).unwrap();
    let created =
        engine.create_batch_streams(sender, token, vec![request(10, 1000, 0, 0, 50)]).unwrap();
    assert_eq!(created.deposit.amount, 1000);
    assert_eq!(engine.get_stream(1).unwrap().amount, 1000);
}

#[test]
fn batch_with_one_bad_request_creates_nothing() {
    let admin = account(1);
    let sender = account(2);
    let token = account(4);
    let (mut engine, _) = StellarStream::initialize(admin);
    let before = engine.clone();
    assert_eq!(
        engine.create_batch_streams(
            sender,
            token,
            vec![request(10, 100, 0, 0, 50), request(11, 0, 10, 20, 30)]
        ),
        Err(Error::InvalidAmount)
    );
    assert_eq!(
        engine.create_batch_streams(
            sender,
            token,
            vec![request(10, 100, 0, 0, 50), request(11, 5, 30, 30, 30)]
        ),
        Err(Error::InvalidTimeRange)
    );
    assert_eq!(
        engine.create_batch_streams(
            sender,
            token,
            vec![request(10, 100, 0, 0, 50), request(11, 5, 10, 9, 30)]
        ),
        Err(Error::InvalidCliff)
    );
    assert_eq!(
        engine.create_batch_streams(
            sender,
            token,
            vec![request(10, 100, 0, 0, 50), request(11, 5, 10, 30, 30)]
        ),
        Err(Error::InvalidCliff)
    );
    assert_eq!(engine, before);
    assert_eq!(engine.get_stream(1), Err(Error::StreamNotFound));
}

#[test]
fn batch_failure_is_that_of_the_first_bad_request() {
    let admin = account(1);
    let (mut engine, _) = StellarStream::initialize(admin);
    assert_eq!(
        engine.create_batch_streams(
            account(2),
            account(4),
            vec![request(10, -1, 0, 0, 50), request(11, 5, 30, 30, 30)]
        ),
        Err(Error::InvalidAmount)
    );
    assert_eq!(
        engine.create_batch_streams(
            account(2),
            account(4),
            vec![request(10, -1, 9, 3, 5), request(11, 5, 30, 30, 31)]
        ),
        Err(Error::InvalidTimeRange)
    );
    assert_eq!(
        engine.create_batch_streams(
            account(2),
            account(4),
            vec![
                request(10, i128::MAX, 0, 0, 50),
                request(11, 1, 0, 0, 50),
                request(11, 0, 0, 0, 50)
            ]
        ),
        Err(Error::AmountOverflow)
    );
    assert_eq!(
        engine.create_batch_streams(
            account(2),
            account(4),
            vec![
                request(10, i128::MAX, 0, 0, 50),
                request(11, 0, 0, 0, 50),
                request(11, 1, 0, 0, 50)
            ]
        ),
        Err(Error::InvalidAmount)
    );
}

#[test]
fn batch_sum_may_reach_the_largest_amount() {
    let admin = account(1);
    let (mut engine, _) = StellarStream::initialize(admin);
    let created = engine
        .create_batch_streams(
            account(2),
            account(4),
            vec![request(10, i128::MAX - 1, 0, 0, 50), request(11, 1, 0, 0, 50)],
        )
        .unwrap();
    assert_eq!(created.deposit.amount, i128::MAX);
}

#[test]
fn empty_batch_creates_nothing_and_moves_nothing() {
    let admin = account(1);
    let (mut engine, _) = StellarStream::initialize(admin);
    let before = engine.clone();
    let created = engine.create_batch_streams(account(2), account(4), vec![]).unwrap();
    assert_eq!(created.stream_ids, Vec::<u64>::new());
    assert_eq!(created.events, Vec::<Event>::new());
    assert_eq!(created.deposit.amount, 0);
    assert_eq!(engine, before);
}

#[test]
fn batch_refuses_when_the_ids_do_not_reach() {
    let grant = RoleGrant { account: account(1), role: Role::Admin };
    let mut engine =
        StellarStream::restore(vec![grant], 0, None, false, false, u64::MAX - 1, vec![]).unwrap();
    let before = engine.clone();
    assert_eq!(
        engine.create_batch_streams(
            account(2),
            account(4),
            vec![request(10, 1, 0, 0, 50), request(11, 1, 0, 0, 50)]
        ),
        Err(Error::StreamIdsExhausted)
    );
    assert_eq!(engine, before);
    let created = engine
        .create_batch_streams(account(2), account(4), vec![request(10, 1, 0, 0, 50)])
        .unwrap();
    assert_eq!(created.stream_ids, vec![u64::MAX]);
}

#[test]
fn streams_of_a_batch_pay_out_like_any_other() {
    let admin = account(1);
    let sender = account(2);
    let (mut engine, _) = StellarStream::initialize(admin);
    engine
        .create_batch_streams(
            sender,
            account(4),
            vec![request(10, 1000, 100, 100, 200), request(11, 600, 0, 40, 60)],
        )
        .unwrap();
    assert_eq!(engine.withdraw(1, account(10), 150).unwrap().payout.amount, 500);
    assert_eq!(engine.withdraw(2, account(11), 39), Err(Error::NothingToWithdraw));
    assert_eq!(engine.withdraw(2, account(11), 45).unwrap().payout.amount, 450);
    assert_eq!(engine.cancel_stream(2, sender, 50).unwrap().returned, 100);
}
