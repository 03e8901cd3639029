use cumulus_consensus::error::{ClientError, Error};
use cumulus_consensus::follow::{follow, follow_best, follow_finalized};
use cumulus_consensus::head::HeadUpdate;
use cumulus_consensus::local::{perform, LocalClient};
use cumulus_consensus::task::{Action, Follower, Side, Task};
use std::cell::{Cell, RefCell};

#[derive(Debug, Clone, Copy, PartialEq, Eq)]
enum Call {
    MarkBest(u32),
    Finalize(u32),
}

/// A local chain whose headers are four bytes, the block's number in little
/// endian, and whose hash of a header is the number plus 1000. It records the
/// calls made on it and fails the call whose turn `fails_at` names.
struct Chain {
    calls: RefCell<Vec<Call>>,
    known: bool,
    fails_at: Cell<Option<usize>>,
}

impl Chain {
    fn new(known: bool) -> Chain {
        Chain { calls: RefCell::new(Vec::new()), known, fails_at: Cell::new(None) }
    }

    fn failing_at(turn: usize) -> Chain {
        Chain { calls: RefCell::new(Vec::new()), known: true, fails_at: Cell::new(Some(turn)) }
    }

    fn answer(&self, call: Call) -> Result<bool, ClientError> {
        let turn = self.calls.borrow().len();
        self.calls.borrow_mut().push(call);
        if self.fails_at.get() == Some(turn) {
            Err(ClientError { message: format!("store failed on call {}", turn) })
        } else {
            Ok(self.known)
        }
    }

    fn calls(&self) -> Vec<Call> {
        self.calls.borrow().clone()
    }
}

impl LocalClient for Chain {
    type Hash = u32;

    fn decode_head(head_data: &[u8]) -> Option<u32> {
        if head_data.len() == 4 {
            let number =
                u32::from_le_bytes([head_data[0], head_data[1], head_data[2], head_data[3]]);
            Some(number + 1000)
        } else {
            None
        }
    }

    fn mark_best(&self, hash: u32) -> Result<bool, ClientError> {
        self.answer(Call::MarkBest(hash))
    }

    fn finalize(&self, hash: u32) -> Result<bool, ClientError> {
        self.answer(Call::Finalize(hash))
    }
}

fn header(number: u32) -> Vec<u8> {
    number.to_le_bytes().to_vec()
}

fn update(relay_number: u32, number: u32) -> HeadUpdate {
    HeadUpdate {
        relay_hash: polkadot_primitives::Hash::repeat_byte(relay_number as u8),
        relay_number,
        head_data: header(number),
    }
}

fn idle() -> Task<String> {
    Task::Following { best: Follower::Idle, finalized: Follower::Idle }
}

#[test]
fn three_valid_best_heads_are_marked_in_order_and_the_task_keeps_running() {
    let local = Chain::new(true);
    let mut task: Task<String> = Task::new();
    follow_best(&mut task, &local, Ok(Some(update(10, 1))));
    follow_best(&mut task, &local, Ok(Some(update(11, 2))));
    follow_best(&mut task, &local, Ok(Some(update(12, 3))));
    assert_eq!(
        local.calls(),
        vec![Call::MarkBest(1001), Call::MarkBest(1002), Call::MarkBest(1003)]
    );
    assert!(task.is_running());
    assert!(!task.is_complete());
    assert!(task.fault().is_none());
    assert!(task.wants(Side::Best));
    assert!(task.wants(Side::Finalized));
    assert_eq!(task, idle());
}

#[test]
fn malformed_second_finalized_head_halts_after_one_finalize() {
    let local = Chain::new(true);
    let mut task: Task<String> = Task::new();
    follow_finalized(&mut task, &local, Ok(Some(header(7))));
    assert_eq!(local.calls(), vec![Call::Finalize(1007)]);
    assert!(task.is_running());
    follow_finalized(&mut task, &local, Ok(Some(vec![1, 2, 3])));
    assert_eq!(task, Task::Halted(Error::InvalidHeadData));
    assert!(!task.is_running());
    assert!(!task.wants(Side::Best));
    assert!(!task.wants(Side::Finalized));
    follow_finalized(&mut task, &local, Ok(Some(header(8))));
    follow_best(&mut task, &local, Ok(Some(update(1, 9))));
    assert_eq!(local.calls(), vec![Call::Finalize(1007)]);
    assert_eq!(task.fault(), Some(&Error::InvalidHeadData));
}

#[test]
fn client_error_on_second_best_head_halts_and_leaves_finalized_heads_unprocessed() {
    let local = Chain::failing_at(1);
    let mut task: Task<String> = Task::new();
    follow_best(&mut task, &local, Ok(Some(update(1, 1))));
    assert!(task.is_running());
    follow_best(&mut task, &local, Ok(Some(update(2, 2))));
    assert_eq!(local.calls(), vec![Call::MarkBest(1001), Call::MarkBest(1002)]);
    assert_eq!(
        task,
        Task::Halted(Error::Client(ClientError { message: "store failed on call 1".to_string() }))
    );
    follow_finalized(&mut task, &local, Ok(Some(header(1))));
    follow_finalized(&mut task, &local, Ok(Some(header(2))));
    follow_best(&mut task, &local, Ok(Some(update(3, 3))));
    assert_eq!(local.calls(), vec![Call::MarkBest(1001), Call::MarkBest(1002)]);
    assert!(!task.wants(Side::Finalized));
    assert!(!task.is_complete());
}

#[test]
fn every_valid_best_head_is_marked_exactly_once_in_order() {
    let local = Chain::new(true);
    let mut task: Task<String> = Task::new();
    let numbers = [5u32, 3, 9, 9, 0, 4_000_000, 1];
    for (at, number) in numbers.iter().enumerate() {
        follow_best(&mut task, &local, Ok(Some(update(at as u32, *number))));
    }
    let expected: Vec<Call> = numbers.iter().map(|n| Call::MarkBest(n + 1000)).collect();
    assert_eq!(local.calls().len(), 7);
    assert_eq!(local.calls(), expected);
    assert_eq!(task, idle());
}

#[test]
fn malformed_best_head_stops_the_marking_at_the_heads_before_it() {
    let local = Chain::new(true);
    let mut task: Task<String> = Task::new();
    follow_best(&mut task, &local, Ok(Some(update(1, 1))));
    follow_best(&mut task, &local, Ok(Some(update(2, 2))));
    follow_best(
        &mut task,
        &local,
        Ok(Some(HeadUpdate {
            relay_hash: polkadot_primitives::Hash::zero(),
            relay_number: 3,
            head_data: vec![0; 5],
        })),
    );
    follow_best(&mut task, &local, Ok(Some(update(4, 4))));
    follow_best(&mut task, &local, Ok(Some(update(5, 5))));
    assert_eq!(local.calls(), vec![Call::MarkBest(1001), Call::MarkBest(1002)]);
    assert_eq!(task, Task::Halted(Error::InvalidHeadData));
}

#[test]
fn empty_head_data_is_invalid() {
    let local = Chain::new(true);
    let mut task: Task<String> = Task::new();
    follow_finalized(&mut task, &local, Ok(Some(Vec::new())));
    assert_eq!(task, Task::Halted(Error::InvalidHeadData));
    assert_eq!(local.calls(), Vec::new());
}

#[test]
fn unknown_blocks_do_not_halt_the_task() {
    let local = Chain::new(false);
    let mut task: Task<String> = Task::new();
    for number in 0..20u32 {
        follow_best(&mut task, &local, Ok(Some(update(number, number))));
        follow_finalized(&mut task, &local, Ok(Some(header(number))));
        assert!(task.is_running());
    }
    assert_eq!(local.calls().len(), 40);
    assert_eq!(local.calls()[0], Call::MarkBest(1000));
    assert_eq!(local.calls()[1], Call::Finalize(1000));
    assert_eq!(local.calls()[39], Call::Finalize(1019));
    assert_eq!(task, idle());
    assert!(task.wants(Side::Best));
    assert!(task.wants(Side::Finalized));
}

#[test]
fn fault_of_the_finalized_follower_stops_the_best_follower() {
    let local = Chain::new(true);
    let mut task: Task<String> = Task::new();
    follow_best(&mut task, &local, Ok(Some(update(1, 1))));
    follow_finalized(&mut task, &local, Err("subscription dropped".to_string()));
    assert_eq!(task, Task::Halted(Error::Polkadot("subscription dropped".to_string())));
    assert!(!task.wants(Side::Best));
    follow_best(&mut task, &local, Ok(Some(update(2, 2))));
    follow_best(&mut task, &local, Ok(None));
    assert_eq!(local.calls(), vec![Call::MarkBest(1001)]);
    assert_eq!(task, Task::Halted(Error::Polkadot("subscription dropped".to_string())));
}

#[test]
fn failure_of_the_best_subscription_halts_with_the_remote_error() {
    let local = Chain::new(true);
    let mut task: Task<u16> = Task::new();
    follow_best(&mut task, &local, Err(404));
    assert_eq!(task, Task::Halted(Error::Polkadot(404)));
    assert_eq!(task.fault(), Some(&Error::Polkadot(404)));
    assert_eq!(local.calls(), Vec::new());
}

#[test]
fn client_error_on_finalize_halts_with_the_client_error() {
    let local = Chain::failing_at(0);
    let mut task: Task<String> = Task::new();
    follow_finalized(&mut task, &local, Ok(Some(header(3))));
    assert_eq!(local.calls(), vec![Call::Finalize(1003)]);
    assert_eq!(
        task.fault(),
        Some(&Error::Client(ClientError { message: "store failed on call 0".to_string() }))
    );
}

#[test]
fn task_completes_only_when_both_subscriptions_have_ended() {
    let local = Chain::new(true);
    let mut task: Task<String> = Task::new();
    follow_best(&mut task, &local, Ok(Some(update(1, 1))));
    follow_best(&mut task, &local, Ok(None));
    assert!(task.is_running());
    assert!(!task.is_complete());
    assert!(!task.wants(Side::Best));
    assert!(task.wants(Side::Finalized));
    follow_finalized(&mut task, &local, Ok(Some(header(1))));
    follow_finalized(&mut task, &local, Ok(None));
    assert!(task.is_complete());
    assert!(!task.is_running());
    assert!(task.fault().is_none());
    assert_eq!(task, Task::Following { best: Follower::Ended, finalized: Follower::Ended });
    assert_eq!(local.calls(), vec![Call::MarkBest(1001), Call::Finalize(1001)]);
}

#[test]
fn items_of_an_ended_subscription_are_not_processed() {
    let local = Chain::new(true);
    let mut task: Task<String> = Task::new();
    follow_finalized(&mut task, &local, Ok(None));
    follow_finalized(&mut task, &local, Ok(Some(header(1))));
    follow_finalized(&mut task, &local, Ok(Some(vec![9])));
    follow_finalized(&mut task, &local, Err("late".to_string()));
    assert_eq!(local.calls(), Vec::new());
    assert_eq!(task, Task::Following { best: Follower::Idle, finalized: Follower::Ended });
}

#[test]
fn followers_interleave_without_disturbing_each_other() {
    let local = Chain::new(true);
    let mut task: Task<String> = Task::new();
    follow_finalized(&mut task, &local, Ok(Some(header(1))));
    follow_best(&mut task, &local, Ok(Some(update(1, 3))));
    follow_best(&mut task, &local, Ok(Some(update(2, 4))));
    follow_finalized(&mut task, &local, Ok(Some(header(2))));
    assert_eq!(
        local.calls(),
        vec![Call::Finalize(1001), Call::MarkBest(1003), Call::MarkBest(1004), Call::Finalize(1002)]
    );
    assert_eq!(task, idle());
}

#[test]
fn follow_serves_the_side_it_is_given() {
    let local = Chain::new(true);
    let mut task: Task<String> = Task::new();
    follow(&mut task, &local, Side::Best, Ok(Some(header(1))));
    follow(&mut task, &local, Side::Finalized, Ok(Some(header(2))));
    follow(&mut task, &local, Side::Finalized, Ok(None));
    assert_eq!(local.calls(), vec![Call::MarkBest(1001), Call::Finalize(1002)]);
    assert_eq!(task, Task::Following { best: Follower::Idle, finalized: Follower::Ended });
}

#[test]
fn the_relay_block_of_an_update_does_not_matter_to_the_follower() {
    let local = Chain::new(true);
    let mut task: Task<String> = Task::new();
    let first = HeadUpdate {
        relay_hash: polkadot_primitives::Hash::repeat_byte(1),
        relay_number: 1,
        head_data: header(6),
    };
    let second = HeadUpdate {
        relay_hash: polkadot_primitives::Hash::repeat_byte(2),
        relay_number: u32::MAX,
        head_data: header(6),
    };
    assert_ne!(first, second);
    follow_best(&mut task, &local, Ok(Some(first)));
    follow_best(&mut task, &local, Ok(Some(second)));
    assert_eq!(local.calls(), vec![Call::MarkBest(1006), Call::MarkBest(1006)]);
}

#[test]
fn perform_makes_the_call_that_the_action_names() {
    let local = Chain::new(false);
    assert_eq!(perform(&local, Action::MarkBest(5)), Ok(false));
    assert_eq!(perform(&local, Action::Finalize(9)), Ok(false));
    assert_eq!(local.calls(), vec![Call::MarkBest(5), Call::Finalize(9)]);
    let failing = Chain::failing_at(0);
    assert_eq!(
        perform(&failing, Action::Finalize(1)),
        Err(ClientError { message: "store failed on call 0".to_string() })
    );
    assert_eq!(perform(&failing, Action::MarkBest(2)), Ok(true));
    assert_eq!(failing.calls(), vec![Call::Finalize(1), Call::MarkBest(2)]);
}
