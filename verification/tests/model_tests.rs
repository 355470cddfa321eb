//! The sequential interpreter: the worker-loop semantics run over a queue
//! of operations already in hand, with the replies it records.

use actor_worker::model::{run_ops, ReplyRec};
use actor_worker::protocol::{Op, RunExit};
use actor_worker::thingy::Thingy;

#[test]
fn construct_then_stop_leaves_constructor_effects_only() {
    let mut t = Thingy::new(-1);
    let (replies, exit) = run_ops(&mut t, &vec![Op::Quit]);
    assert_eq!(exit, RunExit::Stopped);
    assert!(replies.is_empty());
    assert_eq!(t.get_a(), 0);
}

#[test]
fn empty_queue_leaves_worker_waiting() {
    let mut t = Thingy::new(-1);
    let (replies, exit) = run_ops(&mut t, &vec![]);
    assert_eq!(exit, RunExit::Pending);
    assert!(replies.is_empty());
    assert_eq!(t.get_a(), 0);
}

#[test]
fn queued_operations_match_direct_invocation() {
    let ops = vec![Op::PlusOneA, Op::IncA(5), Op::SetAndGetA(3), Op::GetA, Op::SetAndGetB(8)];

    let mut through_worker = Thingy::new(-1);
    let (replies, exit) = run_ops(&mut through_worker, &ops);

    let mut direct = Thingy::new(-1);
    direct.plus_one_a();
    direct.inc_a(5);
    let first = direct.set_and_get_a(3);
    let second = direct.get_a();
    let third = direct.set_and_get_b(8);

    assert_eq!(exit, RunExit::Pending);
    assert_eq!(through_worker.get_a(), direct.get_a());
    assert_eq!(
        replies,
        vec![
            ReplyRec { op: Op::SetAndGetA(3), value: first },
            ReplyRec { op: Op::GetA, value: second },
            ReplyRec { op: Op::SetAndGetB(8), value: third },
        ]
    );
}

#[test]
fn each_reply_carries_its_own_calls_argument() {
    let mut t = Thingy::new(-1);
    let (replies, exit) = run_ops(&mut t, &vec![Op::SetAndGetB(7), Op::SetAndGetB(42)]);
    assert_eq!(exit, RunExit::Pending);
    assert_eq!(replies.len(), 2);
    assert_eq!(replies[0], ReplyRec { op: Op::SetAndGetB(7), value: 7 });
    assert_eq!(replies[1], ReplyRec { op: Op::SetAndGetB(42), value: 42 });
}

#[test]
fn set_then_get_round_trip() {
    let mut t = Thingy::new(-1);
    let (replies, _) = run_ops(&mut t, &vec![Op::SetAndGetA(3), Op::SetAndGetA(9)]);
    assert_eq!(replies[0].value, 3);
    assert_eq!(replies[1].value, 9);
}

#[test]
fn nothing_after_stop_is_processed() {
    let mut t = Thingy::new(-1);
    let (replies, exit) = run_ops(
        &mut t,
        &vec![Op::IncA(3), Op::Quit, Op::IncA(100), Op::GetA],
    );
    assert_eq!(exit, RunExit::Stopped);
    assert!(replies.is_empty());
    assert_eq!(t.get_a(), 3);
}

#[test]
fn failing_operation_kills_the_run() {
    let mut t = Thingy::new(-1);
    let (replies, exit) = run_ops(
        &mut t,
        &vec![Op::GetA, Op::AssertFalse, Op::IncA(100), Op::Quit],
    );
    assert_eq!(exit, RunExit::Failed);
    assert_eq!(replies, vec![ReplyRec { op: Op::GetA, value: 0 }]);
    assert_eq!(t.get_a(), 0);
}

#[test]
fn overflowing_increment_is_fatal() {
    let mut t = Thingy::new(-1);
    let (replies, exit) = run_ops(
        &mut t,
        &vec![Op::SetAndGetA(i32::MAX), Op::IncA(1), Op::GetA],
    );
    assert_eq!(exit, RunExit::Failed);
    assert_eq!(replies.len(), 1);
    assert_eq!(replies[0].value, i32::MAX);
    assert_eq!(t.get_a(), i32::MAX);
}

#[test]
fn overflowing_plus_one_is_fatal() {
    let mut t = Thingy::new(-1);
    let (_, exit) = run_ops(&mut t, &vec![Op::SetAndGetA(i32::MAX), Op::PlusOneA]);
    assert_eq!(exit, RunExit::Failed);
}
