//! The worker loop: the exclusive owner of the wrapped object.
//!
//! Construction wires up the channels, constructs the object — so the
//! constructor's side effects happen before any command is processed — and
//! spawns the loop on its dedicated thread. The loop blocks on the command
//! channel, dispatches each command to the object, and routes each blocking
//! command's reply to the conduit bound to that call: the shared reply
//! channel for the tagged operations, the conduit carried inside the
//! command for the per-call strategies. It exits when it dequeues the
//! termination command; a failed operation, or a reply that cannot be
//! delivered, is fatal and ends the loop at once, leaving everything after
//! it unprocessed.

use vstd::prelude::*;
use vstd::*;

use crate::controller::ThingyController;
use crate::laws::{all_proceed, direct_state, lemma_all_proceed_push};
use crate::model::{dispatch, step_flow, step_state};
use crate::protocol::{Command, Flow, Op, Reply};
use crate::thingy::{constructed, Thingy};

verus! {

/// How a worker thread ended, as returned through its join handle: stopped
/// by the termination command — carrying the object in its final state —
/// killed by a failed operation or undeliverable reply, or abandoned by
/// every controller without a termination command.
#[derive(Debug)]
pub enum WorkerDone {
    Stopped(Thingy),
    Failed,
    Disconnected,
}

enum WorkerExit {
    Stopped,
    Failed,
    Disconnected,
}

struct WorkerHalf {
    thingy: Thingy,
    commands: crossbeam_channel::Receiver<Command>,
    replies: crossbeam_channel::Sender<Reply>,
}

impl WorkerHalf {
    /// Dispatches one dequeued command: the object moves exactly as the
    /// step model says, and the reply, if any, goes to the conduit bound
    /// to this very command. A reply that cannot be delivered turns a
    /// proceeding step fatal; a step the model already ends keeps its
    /// verdict.
    fn handle_command(&mut self, cmd: Command) -> (flow: Flow)
        ensures
            final(self).thingy@ == step_state(old(self).thingy@, cmd.op()),
            flow is Proceed ==> step_flow(old(self).thingy@, cmd.op()) is Proceed,
            !(step_flow(old(self).thingy@, cmd.op()) is Proceed) ==> flow == step_flow(
                old(self).thingy@,
                cmd.op(),
            ),
            flow is Stop ==> step_flow(old(self).thingy@, cmd.op()) is Stop,
    {
        match cmd {
            Command::WorkerQuit => {
                let (_rep, flow) = dispatch(&mut self.thingy, Op::Quit);
                flow
            },
            Command::AssertFalse => {
                let (_rep, flow) = dispatch(&mut self.thingy, Op::AssertFalse);
                flow
            },
            Command::PlusOneA => {
                let (_rep, flow) = dispatch(&mut self.thingy, Op::PlusOneA);
                flow
            },
            Command::IncA(i) => {
                let (_rep, flow) = dispatch(&mut self.thingy, Op::IncA(i));
                flow
            },
            Command::GetA => {
                let (rep, flow) = dispatch(&mut self.thingy, Op::GetA);
                match rep {
                    Some(v) => match self.replies.send(Reply::GetA(v)) {
                        Ok(_) => flow,
                        Err(_) => Flow::Fatal,
                    },
                    None => Flow::Fatal,
                }
            },
            Command::SetAndGetA(i) => {
                let (rep, flow) = dispatch(&mut self.thingy, Op::SetAndGetA(i));
                match rep {
                    Some(v) => match self.replies.send(Reply::SetAndGetA(v)) {
                        Ok(_) => flow,
                        Err(_) => Flow::Fatal,
                    },
                    None => Flow::Fatal,
                }
            },
            Command::SetAndGetB(snd, i) => {
                let (rep, flow) = dispatch(&mut self.thingy, Op::SetAndGetB(i));
                match rep {
                    Some(v) => match snd.send(v) {
                        Ok(_) => flow,
                        Err(_) => Flow::Fatal,
                    },
                    None => Flow::Fatal,
                }
            },
            Command::SetAndGetBOnce(snd, i) => {
                let (rep, flow) = dispatch(&mut self.thingy, Op::SetAndGetB(i));
                match rep {
                    Some(v) => match snd.send(v) {
                        Ok(_) => flow,
                        Err(_) => Flow::Fatal,
                    },
                    None => Flow::Fatal,
                }
            },
        }
    }

    /// Blocks for one command and processes it. `None` means the loop goes
    /// on, and the object took exactly one completing step of the model;
    /// a clean stop or a disconnected command channel — every controller
    /// dropped without sending termination — leaves the object untouched.
    fn step(&mut self) -> (r: Option<WorkerExit>)
        ensures
            r is None ==> exists|op: Op|
                step_flow(old(self).thingy@, op) is Proceed && #[trigger] step_state(
                    old(self).thingy@,
                    op,
                ) == final(self).thingy@,
            r == Some(WorkerExit::Stopped) ==> final(self).thingy@ == old(self).thingy@,
            r == Some(WorkerExit::Disconnected) ==> final(self).thingy@ == old(self).thingy@,
    {
        match self.commands.recv() {
            Ok(cmd) => {
                let ghost pre = self.thingy@;
                let ghost op = cmd.op();
                match self.handle_command(cmd) {
                    Flow::Proceed => {
                        proof {
                            assert(step_flow(pre, op) is Proceed && step_state(pre, op)
                                == self.thingy@);
                        }
                        None
                    },
                    Flow::Stop => {
                        proof {
                            assert(step_flow(pre, op) is Stop);
                            assert(step_state(pre, op) == pre) by {
                                match op {
                                    Op::Quit => {},
                                    _ => {
                                        assert(false);
                                    },
                                }
                            }
                        }
                        Some(WorkerExit::Stopped)
                    },
                    Flow::Fatal => Some(WorkerExit::Failed),
                }
            },
            Err(_) => Some(WorkerExit::Disconnected),
        }
    }

    /// The loop itself: when it stops cleanly, the object it hands back
    /// was reached from the starting state by some sequence of completing
    /// operations, applied exactly as direct invocation would apply them.
    /// Termination checking asks for a bound on every loop; the command
    /// budget used here outlasts any number of commands a process could
    /// ever enqueue, so exhausting it means the callers are long gone and
    /// is reported like a disconnected channel.
    #[verifier::loop_isolation(false)]
    fn run(self) -> (done: WorkerDone)
        ensures
            done matches WorkerDone::Stopped(t) ==> exists|ops: Seq<Op>|
                all_proceed(self.thingy@, ops) && t@ == direct_state(self.thingy@, ops),
    {
        let ghost init = self.thingy@;
        let mut half = self;
        let ghost mut history: Seq<Op> = Seq::empty();
        let mut budget: u64 = u64::MAX;
        while budget > 0
            invariant
                all_proceed(init, history),
                half.thingy@ == direct_state(init, history),
            decreases budget,
        {
            budget = budget - 1;
            let ghost pre = half.thingy@;
            match half.step() {
                None => {
                    proof {
                        let op = choose|op: Op|
                            step_flow(pre, op) is Proceed && #[trigger] step_state(pre, op)
                                == half.thingy@;
                        lemma_all_proceed_push(init, history, op);
                        history = history.push(op);
                    }
                },
                Some(WorkerExit::Stopped) => {
                    proof {
                        assert(all_proceed(init, history) && half.thingy@ == direct_state(
                            init,
                            history,
                        ));
                    }
                    return WorkerDone::Stopped(half.thingy);
                },
                Some(WorkerExit::Failed) => {
                    return WorkerDone::Failed;
                },
                Some(WorkerExit::Disconnected) => {
                    return WorkerDone::Disconnected;
                },
            }
        }
        WorkerDone::Disconnected
    }
}

/// Constructs actors around a [`Thingy`].
pub struct ThingyWorker;

impl ThingyWorker {
    /// Builds the actor: constructs the object from the seed — its
    /// constructor side effects therefore happen before any command is
    /// processed — spawns the worker loop on a dedicated thread, and
    /// returns the thread's join handle together with the controller.
    /// The controller may be cloned freely; to shut the actor down, send
    /// the termination command and then join the handle.
    ///
    /// The handle's predicate carries the loop's guarantee out to the
    /// join: a worker that stopped cleanly hands back an object that was
    /// reached from `constructed(a)` by some sequence of completing
    /// operations, applied as direct invocation would apply them.
    pub fn new(a: i32) -> (r: (thread::JoinHandle<WorkerDone>, ThingyController))
        requires
            a < i32::MAX,
        ensures
            forall|done: WorkerDone| #[trigger] r.0.predicate(done) ==> (done matches
                WorkerDone::Stopped(t) ==> exists|ops: Seq<Op>|
                all_proceed(constructed(a as int), ops) && t@ == direct_state(
                    constructed(a as int),
                    ops,
                )),
    {
        let (send_cmd, recv_cmd) = crossbeam_channel::unbounded::<Command>();
        let (send_rep, recv_rep) = crossbeam_channel::unbounded::<Reply>();
        let thingy = Thingy::new(a);
        let half = WorkerHalf { thingy, commands: recv_cmd, replies: send_rep };
        let handle = thread::spawn(move ||
            -> (done: WorkerDone)
            ensures
                done matches WorkerDone::Stopped(t) ==> exists|ops: Seq<Op>|
                    all_proceed(constructed(a as int), ops) && t@ == direct_state(
                        constructed(a as int),
                        ops,
                    ),
            { half.run() });
        (handle, ThingyController { send: send_cmd, recv: recv_rep })
    }
}

} // verus!
