//! The actor exercised end to end: a live worker thread behind a
//! controller, driven from the test thread.

use actor_worker::controller::ThingyController;
use actor_worker::protocol::ActorError;
use actor_worker::worker::{ThingyWorker, WorkerDone};

fn final_a(done: WorkerDone) -> i32 {
    match done {
        WorkerDone::Stopped(obj) => obj.get_a(),
        _ => panic!("worker did not stop cleanly"),
    }
}

#[test]
fn basic_unit_test() {
    assert_eq!(1, 1);
}

#[test]
fn create_and_close_worker() {
    let (handle, thingy) = ThingyWorker::new(-1);
    thingy.controller_stop_thread().unwrap();
    let done = handle.join().unwrap();
    assert_eq!(final_a(done), 0);
}

#[test]
#[should_panic]
fn assert_false_in_worker() {
    let (handle, thingy) = ThingyWorker::new(-1);
    thingy.assert_false().unwrap();
    let _ = thingy.controller_stop_thread();
    let done = handle.join().unwrap();
    if matches!(done, WorkerDone::Failed) {
        panic!("the failing operation killed the actor");
    }
}

#[test]
fn worker_method_no_args() {
    let (handle, thingy) = ThingyWorker::new(-1);
    thingy.plus_one_a().unwrap();
    thingy.controller_stop_thread().unwrap();
    let done = handle.join().unwrap();
    assert_eq!(final_a(done), 1);
}

#[test]
fn worker_method_with_args() {
    let (handle, thingy) = ThingyWorker::new(-1);
    thingy.inc_a(3).unwrap();
    thingy.controller_stop_thread().unwrap();
    let done = handle.join().unwrap();
    assert_eq!(final_a(done), 3);
}

#[test]
fn worker_blocking_method_no_args() {
    let (handle, thingy) = ThingyWorker::new(-1);
    assert_eq!(thingy.get_a().unwrap(), 0);
    thingy.controller_stop_thread().unwrap();
    handle.join().unwrap();
}

#[test]
fn worker_blocking_method_with_args() {
    let (handle, thingy) = ThingyWorker::new(-1);
    assert_eq!(thingy.set_and_get_a(3).unwrap(), 3);
    thingy.controller_stop_thread().unwrap();
    handle.join().unwrap();
}

#[test]
fn worker_check_ordering() {
    let (handle, thingy) = ThingyWorker::new(-1);
    thingy.inc_a(3).unwrap();
    assert_eq!(thingy.get_a().unwrap(), 3);
    thingy.controller_stop_thread().unwrap();
    handle.join().unwrap();
}

#[test]
fn worker_check_ordering2() {
    let (handle, thingy) = ThingyWorker::new(-1);
    assert_eq!(thingy.set_and_get_a(3).unwrap(), 3);
    assert_eq!(thingy.set_and_get_a(6).unwrap(), 6);
    assert_eq!(thingy.set_and_get_a(9).unwrap(), 9);
    thingy.controller_stop_thread().unwrap();
    handle.join().unwrap();
}

#[test]
fn per_call_round_trip() {
    let (handle, thingy) = ThingyWorker::new(-1);
    assert_eq!(thingy.set_and_get_b(3).unwrap(), 3);
    assert_eq!(thingy.set_and_get_b(9).unwrap(), 9);
    assert_eq!(thingy.set_and_get_b_once(4).unwrap(), 4);
    assert_eq!(thingy.set_and_get_b_once(11).unwrap(), 11);
    thingy.controller_stop_thread().unwrap();
    handle.join().unwrap();
}

#[test]
fn drain_before_exit_observes_all_side_effects() {
    let (handle, thingy) = ThingyWorker::new(-1);
    thingy.inc_a(3).unwrap();
    thingy.plus_one_a().unwrap();
    thingy.controller_stop_thread().unwrap();
    let done = handle.join().unwrap();
    assert_eq!(final_a(done), 4);
}

#[test]
fn commands_after_stop_are_never_processed() {
    let (handle, thingy) = ThingyWorker::new(-1);
    thingy.inc_a(3).unwrap();
    thingy.controller_stop_thread().unwrap();
    // The worker may still be draining, so this send can succeed or find
    // the channel closed; either way the operation must never run.
    let _ = thingy.inc_a(100);
    let done = handle.join().unwrap();
    assert_eq!(final_a(done), 3);
}

#[test]
fn fatal_operation_closes_the_actor() {
    let (handle, thingy) = ThingyWorker::new(-1);
    thingy.assert_false().unwrap();
    let done = handle.join().unwrap();
    assert!(matches!(done, WorkerDone::Failed));
    assert_eq!(thingy.inc_a(1), Err(ActorError::Closed));
    assert_eq!(thingy.get_a(), Err(ActorError::Closed));
    assert_eq!(thingy.set_and_get_b(5), Err(ActorError::Closed));
    assert_eq!(thingy.set_and_get_b_once(5), Err(ActorError::Closed));
    assert_eq!(thingy.controller_stop_thread(), Err(ActorError::Closed));
}

#[test]
fn cloned_controller_reaches_the_same_actor() {
    let (handle, thingy) = ThingyWorker::new(-1);
    let other: ThingyController = thingy.clone();
    other.inc_a(7).unwrap();
    assert_eq!(thingy.get_a().unwrap(), 7);
    thingy.controller_stop_thread().unwrap();
    handle.join().unwrap();
}
