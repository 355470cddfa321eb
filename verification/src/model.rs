//! The meaning of the worker loop.
//!
//! A worker owns one [`Thingy`] and interprets commands one at a time, in
//! the single global FIFO order in which they were dequeued. `step_state`,
//! `step_reply` and `step_flow` give the effect of one operation; `run`
//! folds them over a whole sequence of operations, recording every reply
//! together with the operation that produced it, until the termination
//! command or a failed operation ends the run. `run_ops` is the executable
//! form of the same interpreter, proved equal to `run`.
//!
//! An operation that fails — the always-failing check, or an increment that
//! would overflow the field — is fatal to the actor: the run ends, the
//! state reached so far is abandoned, and nothing after the failing
//! operation is processed.

use vstd::prelude::*;

use crate::protocol::{Flow, Op, RunExit};
use crate::thingy::{Thingy, ThingyView};

verus! {

pub open spec fn fits_i32(v: int) -> bool {
    i32::MIN <= v <= i32::MAX
}

/// The object state after the worker dispatches `op` on state `t`.
/// Termination and failed operations leave the state as it was.
pub open spec fn step_state(t: ThingyView, op: Op) -> ThingyView {
    match op {
        Op::Quit => t,
        Op::AssertFalse => t,
        Op::PlusOneA => if t.a + 1 <= i32::MAX {
            ThingyView { a: t.a + 1, ..t }
        } else {
            t
        },
        Op::IncA(i) => if fits_i32(t.a + i) {
            ThingyView { a: t.a + i, ..t }
        } else {
            t
        },
        Op::GetA => t,
        Op::SetAndGetA(i) => ThingyView { a: i as int, ..t },
        Op::SetAndGetB(i) => ThingyView { b: i as int, ..t },
    }
}

/// The reply produced by dispatching `op` on state `t`: `None` for
/// fire-and-forget operations and for operations that do not complete.
pub open spec fn step_reply(t: ThingyView, op: Op) -> Option<int> {
    match op {
        Op::GetA => Some(t.a),
        Op::SetAndGetA(i) => Some(i as int),
        Op::SetAndGetB(i) => Some(i as int),
        _ => None,
    }
}

/// Whether the worker keeps going, stops, or dies after dispatching `op`
/// on state `t`. An increment that would overflow the field fails the
/// operation, which is fatal, exactly as the always-failing check is.
pub open spec fn step_flow(t: ThingyView, op: Op) -> Flow {
    match op {
        Op::Quit => Flow::Stop,
        Op::AssertFalse => Flow::Fatal,
        Op::PlusOneA => if t.a + 1 <= i32::MAX {
            Flow::Proceed
        } else {
            Flow::Fatal
        },
        Op::IncA(i) => if fits_i32(t.a + i) {
            Flow::Proceed
        } else {
            Flow::Fatal
        },
        Op::GetA => Flow::Proceed,
        Op::SetAndGetA(_) => Flow::Proceed,
        Op::SetAndGetB(_) => Flow::Proceed,
    }
}

/// The outcome of a worker run over a finite sequence of operations: the
/// final object state, every reply paired with the operation it answers,
/// in order, and how the run ended.
pub ghost struct RunModel {
    pub state: ThingyView,
    pub replies: Seq<(Op, int)>,
    pub exit: RunExit,
}

/// The replies that dispatching `op` on state `t` contributes to a run.
pub open spec fn step_replies(t: ThingyView, op: Op) -> Seq<(Op, int)> {
    match step_reply(t, op) {
        Some(v) => seq![(op, v)],
        None => Seq::empty(),
    }
}

/// Interprets `ops` in order on state `t`: the first termination command
/// stops the run, the first failed operation kills it, and every operation
/// before that point is fully processed, its reply recorded.
pub open spec fn run(t: ThingyView, ops: Seq<Op>) -> RunModel
    decreases ops.len(),
{
    if ops.len() == 0 {
        RunModel { state: t, replies: Seq::empty(), exit: RunExit::Pending }
    } else {
        match step_flow(t, ops[0]) {
            Flow::Stop => RunModel { state: t, replies: Seq::empty(), exit: RunExit::Stopped },
            Flow::Fatal => RunModel { state: t, replies: Seq::empty(), exit: RunExit::Failed },
            Flow::Proceed => {
                let rest = run(step_state(t, ops[0]), ops.drop_first());
                RunModel {
                    state: rest.state,
                    replies: step_replies(t, ops[0]) + rest.replies,
                    exit: rest.exit,
                }
            },
        }
    }
}

/// Splitting a run: the commands of `s2` are processed, from the state
/// `s1` left behind, exactly when `s1` exhausted its commands without
/// stopping or failing; otherwise `s2` is never looked at.
pub proof fn lemma_run_append(t: ThingyView, s1: Seq<Op>, s2: Seq<Op>)
    ensures
        run(t, s1 + s2) == if run(t, s1).exit is Pending {
            RunModel {
                state: run(run(t, s1).state, s2).state,
                replies: run(t, s1).replies + run(run(t, s1).state, s2).replies,
                exit: run(run(t, s1).state, s2).exit,
            }
        } else {
            RunModel { state: run(t, s1).state, replies: run(t, s1).replies, exit: run(t, s1).exit }
        },
    decreases s1.len(),
{
    if s1.len() == 0 {
        assert(s1 + s2 =~= s2);
        assert(run(t, s1).replies + run(t, s2).replies =~= run(t, s2).replies);
        assert(run(t, s1) == RunModel {
            state: run(t, s1).state,
            replies: run(t, s1).replies,
            exit: run(t, s1).exit,
        });
        assert(run(t, s2) == RunModel {
            state: run(t, s2).state,
            replies: run(t, s2).replies,
            exit: run(t, s2).exit,
        });
    } else {
        let op = s1[0];
        assert((s1 + s2)[0] == op);
        assert((s1 + s2).len() > 0);
        assert((s1 + s2).drop_first() =~= s1.drop_first() + s2);
        match step_flow(t, op) {
            Flow::Stop => {
                assert(run(t, s1 + s2) == run(t, s1));
            },
            Flow::Fatal => {
                assert(run(t, s1 + s2) == run(t, s1));
            },
            Flow::Proceed => {
                let t1 = step_state(t, op);
                lemma_run_append(t1, s1.drop_first(), s2);
                if run(t1, s1.drop_first()).exit is Pending {
                    assert(step_replies(t, op) + (run(t1, s1.drop_first()).replies + run(
                        run(t1, s1.drop_first()).state,
                        s2,
                    ).replies) =~= (step_replies(t, op) + run(t1, s1.drop_first()).replies) + run(
                        run(t1, s1.drop_first()).state,
                        s2,
                    ).replies);
                }
            },
        }
    }
}

/// A run of a single operation, written out: it stops, fails, or applies
/// the one step and is left waiting.
pub proof fn lemma_run_one(t: ThingyView, op: Op)
    ensures
        run(t, seq![op]) == (match step_flow(t, op) {
            Flow::Stop => RunModel { state: t, replies: Seq::empty(), exit: RunExit::Stopped },
            Flow::Fatal => RunModel { state: t, replies: Seq::empty(), exit: RunExit::Failed },
            Flow::Proceed => RunModel {
                state: step_state(t, op),
                replies: step_replies(t, op),
                exit: RunExit::Pending,
            },
        }),
{
    let s = seq![op];
    assert(s.len() == 1);
    assert(s[0] == op);
    assert(s.drop_first() =~= Seq::<Op>::empty());
    assert(run(step_state(t, op), s.drop_first()) == RunModel {
        state: step_state(t, op),
        replies: Seq::<(Op, int)>::empty(),
        exit: RunExit::Pending,
    });
    assert(step_replies(t, op) + Seq::<(Op, int)>::empty() =~= step_replies(t, op));
}

/// One reply as the executable interpreter records it: the operation that
/// produced it and the value sent back.
#[derive(Clone, Copy, PartialEq, Eq, Structural, Debug)]
pub struct ReplyRec {
    pub op: Op,
    pub value: i32,
}

/// Dispatches one operation on the object, returning the reply to deliver,
/// if any, and whether the worker keeps going, stops, or dies. Overflow is
/// checked before touching the object, so a failed increment leaves it
/// unchanged.
pub fn dispatch(t: &mut Thingy, op: Op) -> (r: (Option<i32>, Flow))
    ensures
        final(t)@ == step_state(old(t)@, op),
        r.1 == step_flow(old(t)@, op),
        (match r.0 {
            Some(v) => step_reply(old(t)@, op) == Some(v as int),
            None => step_reply(old(t)@, op) is None,
        }),
{
    match op {
        Op::Quit => (None, Flow::Stop),
        Op::AssertFalse => {
            let ok = t.assert_false();
            if ok {
                (None, Flow::Proceed)
            } else {
                (None, Flow::Fatal)
            }
        },
        Op::PlusOneA => {
            if t.get_a() < i32::MAX {
                t.plus_one_a();
                (None, Flow::Proceed)
            } else {
                (None, Flow::Fatal)
            }
        },
        Op::IncA(i) => {
            let sum: i64 = t.get_a() as i64 + i as i64;
            if i32::MIN as i64 <= sum && sum <= i32::MAX as i64 {
                t.inc_a(i);
                (None, Flow::Proceed)
            } else {
                (None, Flow::Fatal)
            }
        },
        Op::GetA => (Some(t.get_a()), Flow::Proceed),
        Op::SetAndGetA(i) => (Some(t.set_and_get_a(i)), Flow::Proceed),
        Op::SetAndGetB(i) => (Some(t.set_and_get_b(i)), Flow::Proceed),
    }
}

/// The sequence of recorded replies, as the model sees it.
pub open spec fn recs_view(s: Seq<ReplyRec>) -> Seq<(Op, int)> {
    s.map(|j: int, rec: ReplyRec| (rec.op, rec.value as int))
}

/// Runs the worker loop over a queue of operations already in hand,
/// producing exactly the state, replies and exit that [`run`] describes.
pub fn run_ops(t: &mut Thingy, ops: &Vec<Op>) -> (r: (Vec<ReplyRec>, RunExit))
    ensures
        final(t)@ == run(old(t)@, ops@).state,
        r.1 == run(old(t)@, ops@).exit,
        recs_view(r.0@) == run(old(t)@, ops@).replies,
{
    let ghost t0 = old(t)@;
    let mut replies: Vec<ReplyRec> = Vec::new();
    let mut k: usize = 0;
    proof {
        assert(ops@.take(0int) =~= Seq::<Op>::empty());
        assert(recs_view(replies@) =~= Seq::<(Op, int)>::empty());
    }
    while k < ops.len()
        invariant
            t0 == old(t)@,
            k <= ops@.len(),
            run(t0, ops@.take(k as int)) == (RunModel {
                state: t@,
                replies: recs_view(replies@),
                exit: RunExit::Pending,
            }),
        decreases ops@.len() - k,
    {
        let op = ops[k];
        proof {
            lemma_run_append(t0, ops@.take(k as int), seq![op]);
            lemma_run_one(t@, op);
            assert(ops@.take(k as int) + seq![op] =~= ops@.take(k as int + 1));
        }
        let ghost before = t@;
        let ghost old_replies = replies@;
        let (rep, flow) = dispatch(t, op);
        match flow {
            Flow::Proceed => {
                if let Some(v) = rep {
                    replies.push(ReplyRec { op, value: v });
                    proof {
                        assert(recs_view(replies@) =~= recs_view(old_replies) + step_replies(
                            before,
                            op,
                        ));
                    }
                } else {
                    proof {
                        assert(recs_view(replies@) =~= recs_view(old_replies) + step_replies(
                            before,
                            op,
                        ));
                    }
                }
                k = k + 1;
            },
            Flow::Stop => {
                proof {
                    lemma_run_append(t0, ops@.take(k as int), ops@.skip(k as int));
                    assert(ops@.take(k as int) + ops@.skip(k as int) =~= ops@);
                    let tail = ops@.skip(k as int);
                    assert(tail.len() > 0);
                    assert(tail[0] == op);
                    assert(run(before, tail) == RunModel {
                        state: before,
                        replies: Seq::<(Op, int)>::empty(),
                        exit: RunExit::Stopped,
                    });
                    assert(recs_view(replies@) + Seq::<(Op, int)>::empty() =~= recs_view(
                        replies@,
                    ));
                }
                return (replies, RunExit::Stopped);
            },
            Flow::Fatal => {
                proof {
                    lemma_run_append(t0, ops@.take(k as int), ops@.skip(k as int));
                    assert(ops@.take(k as int) + ops@.skip(k as int) =~= ops@);
                    let tail = ops@.skip(k as int);
                    assert(tail.len() > 0);
                    assert(tail[0] == op);
                    assert(run(before, tail) == RunModel {
                        state: before,
                        replies: Seq::<(Op, int)>::empty(),
                        exit: RunExit::Failed,
                    });
                    assert(recs_view(replies@) + Seq::<(Op, int)>::empty() =~= recs_view(
                        replies@,
                    ));
                }
                return (replies, RunExit::Failed);
            },
        }
    }
    proof {
        assert(ops@.take(ops@.len() as int) =~= ops@);
    }
    (replies, RunExit::Pending)
}

} // verus!
