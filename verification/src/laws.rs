//! Laws of the worker runtime, stated over the run model and proved once
//! and for all: what construction followed by immediate termination leaves
//! behind, that a drained queue of operations acts exactly like direct
//! invocation on the unwrapped object, that every reply is bound to the
//! command that produced it, that everything enqueued before termination is
//! processed before the worker exits, and that a failed operation ends the
//! run with nothing after it processed.

use vstd::prelude::*;

use crate::model::{
    lemma_run_append, lemma_run_one, run, step_flow, step_replies, step_reply, step_state,
    RunModel,
};
use crate::protocol::{Flow, Op, RunExit};
use crate::thingy::{constructed, ThingyView};

verus! {

/// Every operation in `ops`, dispatched in order from state `t`, completes
/// and lets the worker proceed: none is the termination command and none
/// fails.
pub open spec fn all_proceed(t: ThingyView, ops: Seq<Op>) -> bool
    decreases ops.len(),
{
    ops.len() == 0 || (step_flow(t, ops[0]) == Flow::Proceed && all_proceed(
        step_state(t, ops[0]),
        ops.drop_first(),
    ))
}

/// The state reached by invoking the operations directly on the unwrapped
/// object, one after the other, with no worker in between.
pub open spec fn direct_state(t: ThingyView, ops: Seq<Op>) -> ThingyView
    decreases ops.len(),
{
    if ops.len() == 0 {
        t
    } else {
        direct_state(step_state(t, ops[0]), ops.drop_first())
    }
}

/// Extending a completing sequence by one more completing operation: the
/// whole still completes, and the direct state advances by that one step.
pub proof fn lemma_all_proceed_push(t: ThingyView, ops: Seq<Op>, op: Op)
    requires
        all_proceed(t, ops),
        step_flow(direct_state(t, ops), op) is Proceed,
    ensures
        all_proceed(t, ops.push(op)),
        direct_state(t, ops.push(op)) == step_state(direct_state(t, ops), op),
    decreases ops.len(),
{
    let snoc = ops.push(op);
    assert(snoc.len() == ops.len() + 1);
    if ops.len() == 0 {
        assert(direct_state(t, ops) == t);
        assert(snoc[0] == op);
        assert(snoc.drop_first() =~= Seq::<Op>::empty());
        assert(all_proceed(step_state(t, op), snoc.drop_first()));
        assert(direct_state(step_state(t, op), snoc.drop_first()) == step_state(t, op));
        assert(all_proceed(t, snoc));
    } else {
        assert(snoc[0] == ops[0]);
        assert(snoc.drop_first() =~= ops.drop_first().push(op));
        assert(step_flow(t, ops[0]) is Proceed && all_proceed(
            step_state(t, ops[0]),
            ops.drop_first(),
        ));
        assert(direct_state(t, ops) == direct_state(step_state(t, ops[0]), ops.drop_first()));
        lemma_all_proceed_push(step_state(t, ops[0]), ops.drop_first(), op);
        assert(all_proceed(step_state(t, ops[0]), snoc.drop_first()));
        assert(all_proceed(t, snoc));
        assert(direct_state(t, snoc) == direct_state(step_state(t, ops[0]), snoc.drop_first()));
    }
}

/// Construct-then-stop: a worker that is told to stop before any other
/// command leaves exactly the state the constructor made — no operation
/// side effects, no replies.
pub proof fn lemma_construct_then_stop(seed: int)
    ensures
        run(constructed(seed), seq![Op::Quit]) == (RunModel {
            state: constructed(seed),
            replies: Seq::<(Op, int)>::empty(),
            exit: RunExit::Stopped,
        }),
{
    lemma_run_one(constructed(seed), Op::Quit);
}

/// Sequential consistency: a sequence of operations, each of which
/// completes, drives the worker through exactly the state transitions that
/// invoking the same sequence directly on the unwrapped object produces,
/// and leaves the worker waiting for more commands.
pub proof fn lemma_sequential_consistency(t: ThingyView, ops: Seq<Op>)
    requires
        all_proceed(t, ops),
    ensures
        run(t, ops).state == direct_state(t, ops),
        run(t, ops).exit == RunExit::Pending,
    decreases ops.len(),
{
    if ops.len() != 0 {
        lemma_sequential_consistency(step_state(t, ops[0]), ops.drop_first());
    }
}

/// Blocking round-trip, one step: an operation that sets a field and then
/// returns it replies with exactly the value just set, whatever the state
/// it found.
pub proof fn lemma_blocking_round_trip(t: ThingyView, i: i32)
    ensures
        step_reply(t, Op::SetAndGetA(i)) == Some(i as int),
        step_state(t, Op::SetAndGetA(i)).a == i as int,
        step_reply(t, Op::SetAndGetB(i)) == Some(i as int),
        step_state(t, Op::SetAndGetB(i)).b == i as int,
{
}

/// Reply binding: every reply a run produces is paired with the blocking
/// command that produced it, and for the echoing operations its value is
/// that command's own argument — never another caller's.
pub proof fn lemma_reply_matches_own_call(t: ThingyView, ops: Seq<Op>, k: int)
    requires
        0 <= k < run(t, ops).replies.len(),
    ensures
        ({
            let rep = run(t, ops).replies[k];
            &&& (rep.0 is GetA || rep.0 is SetAndGetA || rep.0 is SetAndGetB)
            &&& (rep.0 matches Op::SetAndGetA(i) ==> rep.1 == i as int)
            &&& (rep.0 matches Op::SetAndGetB(i) ==> rep.1 == i as int)
        }),
    decreases ops.len(),
{
    if ops.len() == 0 {
        // no replies at all: nothing to show
    } else {
        match step_flow(t, ops[0]) {
            Flow::Stop => {},
            Flow::Fatal => {},
            Flow::Proceed => {
                let head = step_replies(t, ops[0]);
                if k >= head.len() {
                    lemma_reply_matches_own_call(
                        step_state(t, ops[0]),
                        ops.drop_first(),
                        k - head.len(),
                    );
                }
            },
        }
    }
}

/// Drain-before-exit: every command enqueued before the termination command
/// is fully processed — state changes applied, replies produced — before
/// the worker stops, and nothing enqueued after it is ever looked at.
pub proof fn lemma_drain_before_exit(t: ThingyView, ops: Seq<Op>, rest: Seq<Op>)
    requires
        all_proceed(t, ops),
    ensures
        run(t, ops.push(Op::Quit) + rest) == (RunModel {
            state: run(t, ops).state,
            replies: run(t, ops).replies,
            exit: RunExit::Stopped,
        }),
{
    lemma_sequential_consistency(t, ops);
    let tail = seq![Op::Quit] + rest;
    assert(ops.push(Op::Quit) + rest =~= ops + tail);
    lemma_run_append(t, ops, tail);
    let mid = run(t, ops).state;
    assert(tail.len() > 0);
    assert(tail[0] == Op::Quit);
    assert(run(mid, tail) == RunModel {
        state: mid,
        replies: Seq::<(Op, int)>::empty(),
        exit: RunExit::Stopped,
    });
    assert(run(t, ops).replies + Seq::<(Op, int)>::empty() =~= run(t, ops).replies);
}

/// Fatal propagation: a failing operation kills the actor. Everything
/// before it is processed; it and everything after it produce nothing, and
/// the run ends failed.
pub proof fn lemma_fatal_stops_processing(t: ThingyView, ops: Seq<Op>, rest: Seq<Op>)
    requires
        all_proceed(t, ops),
    ensures
        run(t, ops.push(Op::AssertFalse) + rest) == (RunModel {
            state: run(t, ops).state,
            replies: run(t, ops).replies,
            exit: RunExit::Failed,
        }),
{
    lemma_sequential_consistency(t, ops);
    let tail = seq![Op::AssertFalse] + rest;
    assert(ops.push(Op::AssertFalse) + rest =~= ops + tail);
    lemma_run_append(t, ops, tail);
    let mid = run(t, ops).state;
    assert(tail.len() > 0);
    assert(tail[0] == Op::AssertFalse);
    assert(run(mid, tail) == RunModel {
        state: mid,
        replies: Seq::<(Op, int)>::empty(),
        exit: RunExit::Failed,
    });
    assert(run(t, ops).replies + Seq::<(Op, int)>::empty() =~= run(t, ops).replies);
}

} // verus!
