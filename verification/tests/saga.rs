use hex_escrow::bid::Bid;
use hex_escrow::cell::Cell;
use hex_escrow::contract::{ClockStep, MoveStep, StepError};
use hex_escrow::external::{AccountView, Reply, Stream, StreamFinishReason, StreamStatus};
use hex_escrow::game::{Game, MoveError, Player};
use hex_escrow::internal::{
    apply_move, halt_stream, halt_streams, pay, settle, summarize, FinishedStreams, Origin, Plan,
    SagaError, StatusType, StreamRequest,
};
use hex_escrow::roketo::{pause_stream, start_stream, stop_stream, Call};
use hex_escrow::utils::{FEE, MIN_MAKE_BID_GAS, ONE_NEAR};
use hex_escrow::{Contract, MoveType};

fn stream(id: u8, balance: u128, available: u128, status: StreamStatus) -> Stream {
    Stream { id: [id; 32], balance, available_to_withdraw_by_formula: available, status }
}

fn finished(reason: StreamFinishReason) -> StreamStatus {
    StreamStatus::Finished { reason }
}

fn idle() -> Plan {
    Plan {
        stop_first: false,
        stop_second: false,
        start: None,
        pay_first: 0,
        pay_second: 0,
        first: [0u8; 32],
        second: [0u8; 32],
    }
}

/// The plan that asks for nothing yet names the two clocks of `funded_bid`.
fn quiet() -> Plan {
    Plan { first: [1u8; 32], second: [2u8; 32], ..idle() }
}

fn funded_bid(stake: u128) -> Bid {
    let mut bid = Bid::new(stake);
    bid.record_funding(Player::First, [1u8; 32]);
    bid.record_funding(Player::Second, [2u8; 32]);
    bid
}

fn own() -> Origin {
    Origin { predecessor: String::from("ledger.testnet"), current: String::from("ledger.testnet") }
}

fn foreign() -> Origin {
    Origin { predecessor: String::from("bob"), current: String::from("ledger.testnet") }
}

fn players() -> (String, String) {
    (String::from("alice"), String::from("bob"))
}

#[test]
fn statuses_fold_into_three_classes() {
    assert_eq!(StatusType::new(StreamStatus::Active), StatusType::Active);
    assert_eq!(StatusType::new(StreamStatus::Initialized), StatusType::Paused);
    assert_eq!(StatusType::new(StreamStatus::Paused), StatusType::Paused);
    assert_eq!(StatusType::new(finished(StreamFinishReason::StoppedByReceiver)), StatusType::Paused);
    assert_eq!(StatusType::new(finished(StreamFinishReason::StoppedByOwner)), StatusType::Finished);
    assert_eq!(StatusType::new(finished(StreamFinishReason::FinishedNaturally)), StatusType::Finished);
    assert_eq!(
        StatusType::new(finished(StreamFinishReason::FinishedWhileTransferred)),
        StatusType::Finished
    );
    assert_eq!(
        StatusType::new(finished(StreamFinishReason::FinishedBecauseCannotBeExtended)),
        StatusType::Finished
    );
}

#[test]
fn running_stream_is_paused_or_stopped() {
    let running = stream(1, 100, 40, StreamStatus::Active);
    let (request, after) = halt_stream(running);
    assert_eq!(request, Some(StreamRequest::Pause));
    assert_eq!(after, stream(1, 100, 40, StreamStatus::Paused));

    let drained = stream(1, 100, 100, StreamStatus::Active);
    let (request, after) = halt_stream(drained);
    assert_eq!(request, Some(StreamRequest::Stop));
    assert_eq!(after, stream(1, 100, 100, finished(StreamFinishReason::StoppedByOwner)));

    let paused = stream(1, 100, 100, StreamStatus::Paused);
    assert_eq!(halt_stream(paused), (None, paused));
    let ended = stream(1, 0, 0, finished(StreamFinishReason::FinishedNaturally));
    assert_eq!(halt_stream(ended), (None, ended));
    let fresh = stream(1, 5, 0, StreamStatus::Initialized);
    assert_eq!(halt_stream(fresh), (None, fresh));
}

#[test]
fn answers_to_the_query_are_checked() {
    let s = stream(1, 10, 3, StreamStatus::Paused);
    assert_eq!(halt_streams(&vec![]), Err(SagaError::WrongResultsCount));
    assert_eq!(halt_streams(&vec![Reply::Received(s)]), Err(SagaError::WrongResultsCount));
    assert_eq!(
        halt_streams(&vec![Reply::Received(s), Reply::Received(s), Reply::Received(s)]),
        Err(SagaError::WrongResultsCount)
    );
    assert_eq!(halt_streams(&vec![Reply::Failed, Reply::Malformed]), Err(SagaError::CallFailed));
    assert_eq!(halt_streams(&vec![Reply::Malformed, Reply::Failed]), Err(SagaError::WrongValueReceived));
    assert_eq!(halt_streams(&vec![Reply::Received(s), Reply::Failed]), Err(SagaError::CallFailed));
    assert_eq!(
        halt_streams(&vec![Reply::Received(s), Reply::Malformed]),
        Err(SagaError::WrongValueReceived)
    );
}

#[test]
fn both_running_streams_are_halted() {
    let first = stream(1, 10, 3, StreamStatus::Active);
    let second = stream(2, 10, 10, StreamStatus::Active);
    let plan = halt_streams(&vec![Reply::Received(first), Reply::Received(second)]).unwrap();
    assert_eq!(plan.first, Some(StreamRequest::Pause));
    assert_eq!(plan.second, Some(StreamRequest::Stop));
    assert_eq!(plan.stream1.status, StreamStatus::Paused);
    assert_eq!(plan.stream2.status, finished(StreamFinishReason::StoppedByOwner));
    assert_eq!(plan.stream1.id, [1u8; 32]);
    assert_eq!(plan.stream2.id, [2u8; 32]);

    let contract = Contract::new();
    let paused = stream(1, 10, 3, StreamStatus::Paused);
    let answers = vec![Reply::Received(paused), Reply::Received(second)];
    assert_eq!(contract.parse_two_promise_streams(&answers, &foreign()), Err(SagaError::Untrusted));
    let plan = contract.parse_two_promise_streams(&answers, &own()).unwrap();
    assert_eq!(plan.first, None);
    assert_eq!(plan.second, Some(StreamRequest::Stop));
    assert_eq!(plan.stream1, paused);
}

#[test]
fn halted_streams_are_left_alone_when_looked_at_again() {
    let first = stream(1, 10, 3, StreamStatus::Paused);
    let second = stream(2, 10, 10, finished(StreamFinishReason::FinishedNaturally));
    let once = halt_streams(&vec![Reply::Received(first), Reply::Received(second)]).unwrap();
    assert_eq!((once.first, once.second), (None, None));
    let twice = halt_streams(&vec![Reply::Received(once.stream1), Reply::Received(once.stream2)]).unwrap();
    assert_eq!(once, twice);

    let (alice, bob) = players();
    let mut game = Game::new(alice, bob, 3, Some(600));
    let bid = funded_bid(5);
    let summary = summarize(first.status, second.status).unwrap();
    settle(&mut game, &bid, summary, &first, &second);
    assert!(game.is_finished);
    let before = game.copy();
    let plan = settle(&mut game, &bid, summary, &first, &second);
    assert_eq!(plan, idle());
    assert_eq!(game, before);
}

#[test]
fn clocks_are_summed_up() {
    let paused = StreamStatus::Paused;
    let done = finished(StreamFinishReason::FinishedNaturally);
    assert_eq!(summarize(paused, paused), Some(FinishedStreams::Neither));
    assert_eq!(summarize(done, paused), Some(FinishedStreams::First));
    assert_eq!(summarize(paused, done), Some(FinishedStreams::Second));
    assert_eq!(summarize(done, done), Some(FinishedStreams::Both));
    assert_eq!(summarize(StreamStatus::Active, paused), None);
    assert_eq!(summarize(done, StreamStatus::Active), None);
    assert_eq!(
        summarize(finished(StreamFinishReason::StoppedByReceiver), StreamStatus::Initialized),
        Some(FinishedStreams::Neither)
    );
    let contract = Contract::new();
    let a = stream(1, 0, 0, done);
    let b = stream(2, 4, 1, paused);
    assert_eq!(contract.parse_two_streams(a, b, &own()), Ok((FinishedStreams::First, a, b)));
    assert_eq!(contract.parse_two_streams(b, a, &own()), Ok((FinishedStreams::Second, b, a)));
    assert_eq!(contract.parse_two_streams(b, a, &foreign()), Err(SagaError::Untrusted));
}

#[test]
fn payouts() {
    assert_eq!(pay(5, Some(Player::First)), (10, 0));
    assert_eq!(pay(5, Some(Player::Second)), (0, 10));
    assert_eq!(pay(5, None), (5, 5));
    assert_eq!(pay(0, None), (0, 0));
}

#[test]
fn forfeit_pays_both_stakes_to_the_other_player() {
    let (alice, bob) = players();
    let bid = funded_bid(5);
    let done = stream(1, 0, 5, finished(StreamFinishReason::FinishedNaturally));
    let paused = stream(2, 3, 2, StreamStatus::Paused);

    let mut game = Game::new(alice.clone(), bob.clone(), 3, Some(600));
    let plan = settle(&mut game, &bid, FinishedStreams::First, &done, &paused);
    assert!(game.is_finished);
    assert_eq!(game.winner, Some(Player::Second));
    assert_eq!(
        plan,
        Plan { stop_first: false, stop_second: true, pay_first: 0, pay_second: 10, ..quiet() }
    );

    let mut game = Game::new(alice, bob, 3, Some(600));
    let paused = stream(1, 3, 2, StreamStatus::Paused);
    let done = stream(2, 0, 5, finished(StreamFinishReason::FinishedNaturally));
    let plan = settle(&mut game, &bid, FinishedStreams::Second, &paused, &done);
    assert!(game.is_finished);
    assert_eq!(game.winner, Some(Player::First));
    assert_eq!(
        plan,
        Plan { stop_first: true, stop_second: false, pay_first: 10, pay_second: 0, ..quiet() }
    );
}

#[test]
fn stream_that_has_ended_is_not_ended_again() {
    let (alice, bob) = players();
    let bid = funded_bid(7);
    let done = stream(1, 0, 5, finished(StreamFinishReason::FinishedNaturally));
    let left = stream(2, 3, 2, finished(StreamFinishReason::StoppedByReceiver));
    let mut game = Game::new(alice.clone(), bob.clone(), 3, Some(600));
    let plan = settle(&mut game, &bid, FinishedStreams::First, &done, &left);
    assert!(!plan.stop_first && !plan.stop_second);
    assert_eq!(plan.pay_second, 14);

    let waiting = stream(2, 3, 0, StreamStatus::Initialized);
    let mut game = Game::new(alice, bob, 3, Some(600));
    let plan = settle(&mut game, &bid, FinishedStreams::First, &done, &waiting);
    assert!(!plan.stop_first && plan.stop_second);
    let other = stream(9, 3, 0, StreamStatus::Paused);
    let mut game = Game::new(String::from("alice"), String::from("bob"), 3, Some(600));
    let plan = settle(&mut game, &bid, FinishedStreams::First, &done, &other);
    assert_eq!(plan.second, [9u8; 32]);
    assert_eq!(
        plan.remote_calls(),
        vec![Call::Stream(stop_stream([9u8; 32])), Call::Transfer { to: Player::Second, amount: 14 }]
    );
}

#[test]
fn both_clocks_out_refunds_each_stake() {
    let (alice, bob) = players();
    let bid = funded_bid(5);
    let a = stream(1, 0, 5, finished(StreamFinishReason::FinishedNaturally));
    let b = stream(2, 0, 5, finished(StreamFinishReason::StoppedByOwner));
    let mut game = Game::new(alice, bob, 3, Some(600));
    let plan = settle(&mut game, &bid, FinishedStreams::Both, &a, &b);
    assert!(game.is_finished);
    assert_eq!(game.winner, None);
    assert_eq!(
        plan,
        Plan { stop_first: false, stop_second: false, pay_first: 5, pay_second: 5, ..quiet() }
    );
}

#[test]
fn neither_clock_out_leaves_the_game() {
    let (alice, bob) = players();
    let bid = funded_bid(5);
    let a = stream(1, 2, 1, StreamStatus::Paused);
    let mut game = Game::new(alice.clone(), bob.clone(), 3, Some(600));
    let plan = settle(&mut game, &bid, FinishedStreams::Neither, &a, &a);
    assert_eq!(plan, idle());
    assert_eq!(game, Game::new(alice, bob, 3, Some(600)));
}

#[test]
fn move_starts_the_clock_of_the_player_to_move() {
    let (alice, bob) = players();
    let bid = funded_bid(5);
    let mut game = Game::new(alice.clone(), bob.clone(), 3, Some(600));
    let plan = apply_move(&mut game, Some(bid), MoveType::PLACE, Some(Cell::new(0, 0)), &alice).unwrap();
    assert_eq!(plan, Plan { start: Some(Player::Second), ..quiet() });
    let plan = apply_move(&mut game, Some(bid), MoveType::PLACE, Some(Cell::new(1, 0)), &bob).unwrap();
    assert_eq!(plan, Plan { start: Some(Player::First), ..quiet() });
    assert_eq!(
        apply_move(&mut game, Some(bid), MoveType::PLACE, Some(Cell::new(1, 0)), &alice),
        Err(MoveError::CellOccupied)
    );
    let plan = apply_move(&mut game, None, MoveType::PLACE, Some(Cell::new(2, 2)), &alice).unwrap();
    assert_eq!(plan, idle());
}

#[test]
fn winning_move_ends_both_clocks_and_pays_the_pot() {
    let (alice, bob) = players();
    let bid = funded_bid(5);
    let mut game = Game::new(alice.clone(), bob.clone(), 2, Some(600));
    apply_move(&mut game, Some(bid), MoveType::PLACE, Some(Cell::new(0, 0)), &alice).unwrap();
    apply_move(&mut game, Some(bid), MoveType::PLACE, Some(Cell::new(1, 1)), &bob).unwrap();
    let plan = apply_move(&mut game, Some(bid), MoveType::PLACE, Some(Cell::new(0, 1)), &alice).unwrap();
    assert!(game.is_finished);
    assert_eq!(game.winner, Some(Player::First));
    assert_eq!(
        plan,
        Plan { stop_first: true, stop_second: true, pay_first: 10, pay_second: 0, ..quiet() }
    );
    let over = game.copy();
    assert_eq!(apply_move(&mut game, Some(bid), MoveType::PLACE, Some(Cell::new(1, 0)), &bob), Ok(idle()));
    assert_eq!(apply_move(&mut game, Some(Bid::new(5)), MoveType::SWAP, None, &alice), Ok(idle()));
    assert_eq!(game, over);
}

#[test]
fn unfunded_record_blocks_the_move() {
    let (alice, bob) = players();
    let mut bid = Bid::new(5);
    let mut game = Game::new(alice.clone(), bob.clone(), 3, Some(600));
    let cell = Some(Cell::new(0, 0));
    assert_eq!(apply_move(&mut game, Some(bid), MoveType::PLACE, cell, &alice), Err(MoveError::BetsNotPlaced));
    bid.record_funding(Player::Second, [2u8; 32]);
    assert!(!bid.both_funded());
    assert_eq!(apply_move(&mut game, Some(bid), MoveType::PLACE, cell, &alice), Err(MoveError::BetsNotPlaced));
    assert_eq!(game, Game::new(alice.clone(), bob, 3, Some(600)));
    bid.record_funding(Player::First, [1u8; 32]);
    assert!(bid.both_funded());
    assert!(apply_move(&mut game, Some(bid), MoveType::PLACE, cell, &alice).is_ok());
}

fn account(stream: [u8; 32]) -> AccountView {
    AccountView {
        active_incoming_streams: 0,
        active_outgoing_streams: 1,
        inactive_incoming_streams: 0,
        inactive_outgoing_streams: 0,
        deposit: 0,
        stake: 0,
        last_created_stream: Some(stream),
        is_cron_allowed: false,
    }
}

#[test]
fn clock_running_out_gives_the_pot_to_the_player_who_moved() {
    let (alice, bob) = players();
    let ledger = String::from("ledger.testnet");
    let stake = 5 * ONE_NEAR;
    let mut contract = Contract::new();
    let id = contract.create_game(alice.clone(), bob.clone(), Some(5), Some(stake), Some(600)).unwrap();

    let funding = contract.make_bid(id, &alice, &ledger, 2 * stake + FEE, MIN_MAKE_BID_GAS).unwrap();
    assert_eq!(funding.player, Player::First);
    contract.resolve_player_bid(id, Player::First, &vec![Reply::Received(account([1u8; 32]))], &own()).unwrap();
    let funding = contract.make_bid(id, &bob, &ledger, 2 * stake + FEE, MIN_MAKE_BID_GAS).unwrap();
    assert_eq!(funding.player, Player::Second);
    contract.resolve_player_bid(id, Player::Second, &vec![Reply::Received(account([2u8; 32]))], &own()).unwrap();

    let cell = Some(Cell::new(2, 2));
    let step = contract.make_move(id, MoveType::PLACE, cell, &alice).unwrap();
    assert_eq!(step, MoveStep::Query { first: [1u8; 32], second: [2u8; 32] });
    let first = stream(1, stake, 0, StreamStatus::Initialized);
    let second = stream(2, stake, 0, StreamStatus::Initialized);
    let halt = contract
        .parse_two_promise_streams(&vec![Reply::Received(first), Reply::Received(second)], &own())
        .unwrap();
    assert_eq!((halt.first, halt.second), (None, None));
    let summary = contract.parse_two_streams(halt.stream1, halt.stream2, &own()).unwrap();
    assert_eq!(summary.0, FinishedStreams::Neither);
    let before = contract.get_game(id).unwrap();
    let step = contract.resolve_streams(id, MoveType::PLACE, cell, &vec![Reply::Received(summary)], &own());
    assert_eq!(step, Ok(ClockStep::Move { game_id: id, move_type: MoveType::PLACE, cell }));
    assert_eq!(contract.get_game(id).unwrap(), before);
    let plan = contract.make_move_internal(id, MoveType::PLACE, cell, &alice, &own()).unwrap();
    assert_eq!(plan, Plan { start: Some(Player::Second), ..quiet() });
    let game = contract.get_game(id).unwrap();
    assert_eq!(game.turn, 1);
    assert!(!game.is_finished);

    let cell = Some(Cell::new(1, 1));
    let step = contract.make_move(id, MoveType::PLACE, cell, &bob).unwrap();
    assert_eq!(step, MoveStep::Query { first: [1u8; 32], second: [2u8; 32] });
    let first = stream(1, stake, 0, StreamStatus::Initialized);
    let second = stream(2, 0, stake, finished(StreamFinishReason::FinishedNaturally));
    let halt = contract
        .parse_two_promise_streams(&vec![Reply::Received(first), Reply::Received(second)], &own())
        .unwrap();
    let summary = contract.parse_two_streams(halt.stream1, halt.stream2, &own()).unwrap();
    assert_eq!(summary.0, FinishedStreams::Second);
    let step = contract.resolve_streams(id, MoveType::PLACE, cell, &vec![Reply::Received(summary)], &own());
    let plan = match step {
        Ok(ClockStep::Close(plan)) => plan,
        other => panic!("the clock has run out, yet the step answers {:?}", other),
    };
    assert_eq!(plan.pay_first, 10 * ONE_NEAR);
    assert_eq!(plan.pay_second, 0);
    assert!(plan.stop_first);
    assert!(!plan.stop_second);
    assert_eq!(plan.start, None);
    let game = contract.get_game(id).unwrap();
    assert!(game.is_finished);
    assert_eq!(game.winner, Some(Player::First));
    assert_eq!(game.turn, 1);
    assert_eq!(game.board.get_cell(&Cell::new(1, 1)), 0);

    let again = contract.resolve_streams(id, MoveType::PLACE, cell, &vec![Reply::Received(summary)], &own());
    assert_eq!(again, Ok(ClockStep::Close(idle())));
    assert_eq!(contract.get_game(id).unwrap(), game);
}

#[test]
fn summary_step_checks_its_answer() {
    let (alice, bob) = players();
    let mut contract = Contract::new();
    let plain = contract.create_game(alice.clone(), bob.clone(), Some(3), None, None).unwrap();
    let s = stream(1, 1, 0, StreamStatus::Paused);
    let cell = Some(Cell::new(0, 0));
    let answer = || Reply::Received((FinishedStreams::Neither, s, s));
    assert_eq!(
        contract.resolve_streams(plain, MoveType::PLACE, cell, &vec![], &own()),
        Err(SagaError::WrongResultsCount)
    );
    assert_eq!(
        contract.resolve_streams(plain, MoveType::PLACE, cell, &vec![Reply::Failed], &own()),
        Err(SagaError::CallFailed)
    );
    assert_eq!(
        contract.resolve_streams(plain, MoveType::PLACE, cell, &vec![Reply::Malformed], &own()),
        Err(SagaError::WrongValueReceived)
    );
    assert_eq!(
        contract.resolve_streams(plain, MoveType::PLACE, cell, &vec![answer()], &own()),
        Err(SagaError::NoSuchBet)
    );
    assert_eq!(
        contract.resolve_streams(plain, MoveType::PLACE, cell, &vec![answer()], &foreign()),
        Err(SagaError::Untrusted)
    );
    let id = contract.create_game(alice.clone(), bob, Some(3), Some(2 * ONE_NEAR), None).unwrap();
    let before = contract.get_game(id).unwrap();
    assert_eq!(
        contract.resolve_streams(id, MoveType::PLACE, cell, &vec![answer()], &own()),
        Ok(ClockStep::Move { game_id: id, move_type: MoveType::PLACE, cell })
    );
    assert_eq!(contract.get_game(id).unwrap(), before);
    assert_eq!(
        contract.make_move_internal(id, MoveType::PLACE, cell, &alice, &own()),
        Err(StepError::Move(MoveError::BetsNotPlaced))
    );
    assert_eq!(
        contract.make_move_internal(id, MoveType::PLACE, cell, &alice, &foreign()),
        Err(StepError::Saga(SagaError::Untrusted))
    );
}

#[test]
fn one_clock_is_started_while_the_game_goes_on() {
    let (alice, bob) = players();
    let bid = funded_bid(5);
    let mut game = Game::new(alice.clone(), bob.clone(), 3, Some(600));
    let moves = [(0usize, 0usize), (1, 0), (2, 2), (0, 2), (2, 0)];
    for (turn, (x, y)) in moves.iter().enumerate() {
        let caller = if turn % 2 == 0 { &alice } else { &bob };
        let first = stream(1, 5, 1, if turn % 2 == 0 { StreamStatus::Active } else { StreamStatus::Paused });
        let second = stream(2, 5, 1, if turn % 2 == 1 { StreamStatus::Active } else { StreamStatus::Paused });
        let halt = halt_streams(&vec![Reply::Received(first), Reply::Received(second)]).unwrap();
        assert_ne!(halt.stream1.status, StreamStatus::Active);
        assert_ne!(halt.stream2.status, StreamStatus::Active);
        assert_eq!(halt.first.is_some(), turn % 2 == 0);
        assert_eq!(halt.second.is_some(), turn % 2 == 1);
        let plan = apply_move(&mut game, Some(bid), MoveType::PLACE, Some(Cell::new(*x, *y)), caller).unwrap();
        assert!(!game.is_finished);
        assert!(!plan.stop_first && !plan.stop_second);
        assert_eq!(plan.start, Some(if turn % 2 == 0 { Player::Second } else { Player::First }));
        assert_eq!(plan.start, Some(game.mover()));
    }
}

#[test]
fn plans_name_their_calls_in_order() {
    assert_eq!(idle().remote_calls(), vec![]);
    let all = Plan { stop_first: true, stop_second: true, pay_first: 10, pay_second: 0, ..quiet() };
    assert_eq!(
        all.remote_calls(),
        vec![
            Call::Stream(stop_stream([1u8; 32])),
            Call::Stream(stop_stream([2u8; 32])),
            Call::Transfer { to: Player::First, amount: 10 },
        ]
    );
    let refund = Plan { pay_first: 5, pay_second: 5, ..quiet() };
    assert_eq!(
        refund.remote_calls(),
        vec![
            Call::Transfer { to: Player::First, amount: 5 },
            Call::Transfer { to: Player::Second, amount: 5 },
        ]
    );
    let forfeit = Plan { stop_second: true, pay_second: 10, ..quiet() };
    assert_eq!(
        forfeit.remote_calls(),
        vec![Call::Stream(stop_stream([2u8; 32])), Call::Transfer { to: Player::Second, amount: 10 }]
    );
    let go_on = Plan { start: Some(Player::Second), ..quiet() };
    assert_eq!(go_on.remote_calls(), vec![Call::Stream(start_stream([2u8; 32]))]);
    let go_on = Plan { start: Some(Player::First), ..quiet() };
    assert_eq!(go_on.remote_calls(), vec![Call::Stream(start_stream([1u8; 32]))]);
}

#[test]
fn halting_requests_name_their_streams() {
    let first = stream(1, 10, 3, StreamStatus::Active);
    let second = stream(2, 10, 10, StreamStatus::Active);
    let paused = stream(3, 10, 3, StreamStatus::Paused);
    let plan = halt_streams(&vec![Reply::Received(first), Reply::Received(second)]).unwrap();
    assert_eq!(plan.requests(), vec![pause_stream([1u8; 32]), stop_stream([2u8; 32])]);
    let plan = halt_streams(&vec![Reply::Received(paused), Reply::Received(second)]).unwrap();
    assert_eq!(plan.requests(), vec![stop_stream([2u8; 32])]);
    let plan = halt_streams(&vec![Reply::Received(first), Reply::Received(paused)]).unwrap();
    assert_eq!(plan.requests(), vec![pause_stream([1u8; 32])]);
    let plan = halt_streams(&vec![Reply::Received(paused), Reply::Received(paused)]).unwrap();
    assert_eq!(plan.requests(), vec![]);
}
