//! The caller-side handle of the actor.
//!
//! A controller presents one method per operation of the wrapped object,
//! hiding the channel protocol: each method builds the command, sends it,
//! and — for a blocking operation — receives the matching reply. The
//! controller may be cloned to give any number of caller threads access;
//! the command channel is made for concurrent producers.
//!
//! The blocking methods differ in reply-delivery strategy. `get_a` and
//! `set_and_get_a` wait on the one reply channel shared by all clones of
//! this controller: the cheapest strategy, but concurrent blocking calls
//! through clones may receive each other's replies, which the tag check
//! surfaces as [`ActorError::ReplyMismatch`] rather than coercing. Use
//! those two from one caller thread at a time. `set_and_get_b` allocates a
//! fresh channel per call and `set_and_get_b_once` a fresh single-use
//! channel per call; both are safe under arbitrarily many concurrent
//! callers, since each call owns its reply conduit.

use vstd::prelude::*;

use crate::channel::once_recv;
use crate::protocol::{unwrap_get_a, unwrap_set_and_get_a, ActorError, Command, Reply};

verus! {

/// The cloneable handle callers use to talk to the actor: the sending end
/// of the command channel and the receiving end of the shared reply
/// channel.
#[derive(Clone)]
pub struct ThingyController {
    pub(crate) send: crossbeam_channel::Sender<Command>,
    pub(crate) recv: crossbeam_channel::Receiver<Reply>,
}

impl ThingyController {
    /// Sends the termination command, after which the worker processes
    /// everything enqueued before it and exits. Sending it twice is
    /// harmless — the second command never reaches a loop iteration — and
    /// a send after the worker is gone reports the actor closed.
    pub fn controller_stop_thread(&self) -> (r: Result<(), ActorError>)
        ensures
            r matches Err(e) ==> e is Closed,
    {
        match self.send.send(Command::WorkerQuit) {
            Ok(_) => Ok(()),
            Err(_) => Err(ActorError::Closed),
        }
    }

    /// Fire-and-forget: enqueues the operation whose check always fails,
    /// which will kill the actor when the worker dispatches it.
    pub fn assert_false(&self) -> (r: Result<(), ActorError>)
        ensures
            r matches Err(e) ==> e is Closed,
    {
        match self.send.send(Command::AssertFalse) {
            Ok(_) => Ok(()),
            Err(_) => Err(ActorError::Closed),
        }
    }

    /// Fire-and-forget: enqueues an increment of `a` by one. On return the
    /// operation is enqueued, not necessarily executed yet.
    pub fn plus_one_a(&self) -> (r: Result<(), ActorError>)
        ensures
            r matches Err(e) ==> e is Closed,
    {
        match self.send.send(Command::PlusOneA) {
            Ok(_) => Ok(()),
            Err(_) => Err(ActorError::Closed),
        }
    }

    /// Fire-and-forget: enqueues adding `i` to `a`. On return the
    /// operation is enqueued, not necessarily executed yet.
    pub fn inc_a(&self, i: i32) -> (r: Result<(), ActorError>)
        ensures
            r matches Err(e) ==> e is Closed,
    {
        match self.send.send(Command::IncA(i)) {
            Ok(_) => Ok(()),
            Err(_) => Err(ActorError::Closed),
        }
    }

    /// Blocking, shared reply channel: reads `a`. Suspends the caller
    /// until the worker has processed everything queued ahead and this
    /// call's reply arrives; a reply with the wrong tag is refused.
    pub fn get_a(&self) -> (r: Result<i32, ActorError>)
        ensures
            r matches Err(e) ==> (e is Closed || e is ReplyMismatch),
    {
        if self.send.send(Command::GetA).is_err() {
            return Err(ActorError::Closed);
        }
        match self.recv.recv() {
            Ok(rep) => unwrap_get_a(rep),
            Err(_) => Err(ActorError::Closed),
        }
    }

    /// Blocking, shared reply channel: sets `a` and returns the value the
    /// worker set — for this operation, always the argument itself. A
    /// reply with the wrong tag is refused.
    pub fn set_and_get_a(&self, i: i32) -> (r: Result<i32, ActorError>)
        ensures
            r matches Err(e) ==> (e is Closed || e is ReplyMismatch),
    {
        if self.send.send(Command::SetAndGetA(i)).is_err() {
            return Err(ActorError::Closed);
        }
        match self.recv.recv() {
            Ok(rep) => unwrap_set_and_get_a(rep),
            Err(_) => Err(ActorError::Closed),
        }
    }

    /// Blocking, per-call reply channel: sets `b` and returns the value
    /// the worker set. The call allocates a channel of its own and passes
    /// the sending half inside the command, so concurrent callers can
    /// never receive each other's replies.
    pub fn set_and_get_b(&self, i: i32) -> (r: Result<i32, ActorError>)
        ensures
            r matches Err(e) ==> e is Closed,
    {
        let (snd, rcv) = crossbeam_channel::unbounded::<i32>();
        if self.send.send(Command::SetAndGetB(snd, i)).is_err() {
            return Err(ActorError::Closed);
        }
        match rcv.recv() {
            Ok(v) => Ok(v),
            Err(_) => Err(ActorError::Closed),
        }
    }

    /// Blocking, per-call single-use channel: sets `b` and returns the
    /// value the worker set. Like [`Self::set_and_get_b`], but the conduit
    /// is built for exactly one value and one consumption, making it the
    /// cheapest strategy that is safe under concurrent callers.
    pub fn set_and_get_b_once(&self, i: i32) -> (r: Result<i32, ActorError>)
        ensures
            r matches Err(e) ==> e is Closed,
    {
        let (snd, rcv) = futures::channel::oneshot::channel::<i32>();
        if self.send.send(Command::SetAndGetBOnce(snd, i)).is_err() {
            return Err(ActorError::Closed);
        }
        match once_recv(rcv) {
            Ok(v) => Ok(v),
            Err(_) => Err(ActorError::Closed),
        }
    }
}

} // verus!
