//! The in-process command/reply protocol.
//!
//! Each exposed operation of the wrapped object maps to exactly one command;
//! a built-in termination command ends the worker. Blocking (value-returning)
//! operations are answered either on the shared, tagged reply channel or on a
//! reply conduit carried inside the command itself. This module also holds
//! the rule a protocol builder must enforce over an operation-set
//! description: a non-static operation that returns a value must be
//! blocking, and the wrapped object must offer a public constructor.

use vstd::prelude::*;

verus! {

/// One requested operation of the wrapped object, stripped of any reply
/// conduit: the part of a command that determines what happens to the
/// object's state and which value, if any, is produced.
#[derive(Clone, Copy, PartialEq, Eq, Structural, Debug)]
pub enum Op {
    /// The built-in termination request.
    Quit,
    /// Run the operation whose internal check always fails.
    AssertFalse,
    /// Increment `a` by one (fire-and-forget).
    PlusOneA,
    /// Add the argument to `a` (fire-and-forget).
    IncA(i32),
    /// Read `a` (blocking).
    GetA,
    /// Set `a` and return the value just set (blocking).
    SetAndGetA(i32),
    /// Set `b` and return the value just set (blocking).
    SetAndGetB(i32),
}

/// A command as it travels over the command channel: the requested
/// operation together with, for blocking operations answered under a
/// per-call strategy, the reply conduit bound to that specific call.
///
/// `GetA` and `SetAndGetA` are answered on the shared, tagged reply
/// channel; `SetAndGetB` carries a fresh channel of its own, and
/// `SetAndGetBOnce` a fresh single-use channel, so under those two
/// strategies no two calls can ever receive each other's replies.
pub enum Command {
    WorkerQuit,
    AssertFalse,
    PlusOneA,
    IncA(i32),
    GetA,
    SetAndGetA(i32),
    SetAndGetB(crossbeam_channel::Sender<i32>, i32),
    SetAndGetBOnce(futures::channel::oneshot::Sender<i32>, i32),
}

impl Command {
    /// The operation a command requests, with its reply conduit stripped:
    /// what decides the effect on the object and the value produced.
    pub open spec fn op(self) -> Op {
        match self {
            Command::WorkerQuit => Op::Quit,
            Command::AssertFalse => Op::AssertFalse,
            Command::PlusOneA => Op::PlusOneA,
            Command::IncA(i) => Op::IncA(i),
            Command::GetA => Op::GetA,
            Command::SetAndGetA(i) => Op::SetAndGetA(i),
            Command::SetAndGetB(_, i) => Op::SetAndGetB(i),
            Command::SetAndGetBOnce(_, i) => Op::SetAndGetB(i),
        }
    }
}

/// What the worker loop does after dispatching one command: keep going,
/// stop cleanly, or die because the dispatched operation failed.
#[derive(Clone, Copy, PartialEq, Eq, Structural, Debug)]
pub enum Flow {
    Proceed,
    Stop,
    Fatal,
}

/// How a (finite) run of the worker ended: still waiting for commands,
/// stopped by the termination command, or killed by a failed operation.
#[derive(Clone, Copy, PartialEq, Eq, Structural, Debug)]
pub enum RunExit {
    Pending,
    Stopped,
    Failed,
}

/// A reply on the shared reply channel, tagged with the operation it
/// answers so that the caller can check it received the reply it expected.
#[derive(Clone, Copy, PartialEq, Eq, Structural, Debug)]
pub enum Reply {
    GetA(i32),
    SetAndGetA(i32),
}

/// A failure surfaced to a caller of the controller.
#[derive(Clone, Copy, PartialEq, Eq, Structural, Debug)]
pub enum ActorError {
    /// The worker is gone: a channel endpoint was found disconnected.
    Closed,
    /// A reply on the shared channel carried the wrong tag. This signals
    /// concurrent blocking calls through clones that share one reply
    /// receiver, and is never silently coerced.
    ReplyMismatch,
}

/// Checks a reply expected to answer a `get_a` call, refusing any other tag.
pub fn unwrap_get_a(rep: Reply) -> (r: Result<i32, ActorError>)
    ensures
        rep matches Reply::GetA(v) ==> r == Ok::<i32, ActorError>(v),
        !(rep is GetA) ==> r == Err::<i32, ActorError>(ActorError::ReplyMismatch),
{
    match rep {
        Reply::GetA(v) => Ok(v),
        _ => Err(ActorError::ReplyMismatch),
    }
}

/// Checks a reply expected to answer a `set_and_get_a` call, refusing any
/// other tag.
pub fn unwrap_set_and_get_a(rep: Reply) -> (r: Result<i32, ActorError>)
    ensures
        rep matches Reply::SetAndGetA(v) ==> r == Ok::<i32, ActorError>(v),
        !(rep is SetAndGetA) ==> r == Err::<i32, ActorError>(ActorError::ReplyMismatch),
{
    match rep {
        Reply::SetAndGetA(v) => Ok(v),
        _ => Err(ActorError::ReplyMismatch),
    }
}

/// The description of one operation of a wrapped object, as a protocol
/// builder consumes it: whether it is publicly exposed, whether it is the
/// constructor, whether it takes no receiver (static), whether callers wait
/// for its reply, and whether it declares a return value.
#[derive(Clone, Copy, PartialEq, Eq, Structural, Debug)]
pub struct OpDesc {
    pub is_public: bool,
    pub is_constructor: bool,
    pub is_static: bool,
    pub is_blocking: bool,
    pub returns_value: bool,
}

/// A reason a protocol definition is rejected.
#[derive(Clone, Copy, PartialEq, Eq, Structural, Debug)]
pub enum ProtocolError {
    /// The wrapped object has no constructor at all.
    MissingConstructor,
    /// The wrapped object has a constructor, but none that is public.
    PrivateConstructor,
    /// The operation at this index is exposed, non-static and non-blocking,
    /// yet declares a return value, which would be silently dropped.
    NonBlockingValueReturn(usize),
}

/// An exposed, non-static operation that declares a return value must be
/// blocking; such a description is rejected rather than having the value
/// dropped.
pub open spec fn violates_blocking_rule(d: OpDesc) -> bool {
    d.is_public && !d.is_static && !d.is_blocking && d.returns_value
}

pub open spec fn has_constructor(ops: Seq<OpDesc>) -> bool {
    exists|k: int| 0 <= k < ops.len() && ops[k].is_constructor
}

pub open spec fn has_public_constructor(ops: Seq<OpDesc>) -> bool {
    exists|k: int| 0 <= k < ops.len() && ops[k].is_constructor && ops[k].is_public
}

/// A protocol definition is accepted exactly when the object offers a
/// public constructor and no operation breaks the blocking rule.
pub open spec fn valid_protocol(ops: Seq<OpDesc>) -> bool {
    &&& has_public_constructor(ops)
    &&& forall|k: int| 0 <= k < ops.len() ==> !violates_blocking_rule(#[trigger] ops[k])
}

/// Validates an operation-set description, returning the first reason it
/// must be rejected: a missing or private constructor, then the first
/// operation that declares a return value without being blocking.
pub fn validate_protocol(ops: &Vec<OpDesc>) -> (r: Result<(), ProtocolError>)
    ensures
        r is Ok <==> valid_protocol(ops@),
        r == Err::<(), ProtocolError>(ProtocolError::MissingConstructor) <==> !has_constructor(ops@),
        r == Err::<(), ProtocolError>(ProtocolError::PrivateConstructor) <==> (has_constructor(ops@)
            && !has_public_constructor(ops@)),
        r matches Err(e) ==> (e matches ProtocolError::NonBlockingValueReturn(k) ==> (
            has_public_constructor(ops@)
            && k < ops@.len()
            && violates_blocking_rule(ops@[k as int])
            && forall|j: int| 0 <= j < k ==> !violates_blocking_rule(#[trigger] ops@[j])
        )),
{
    let mut any_constructor = false;
    let mut public_constructor = false;
    let mut k: usize = 0;
    while k < ops.len()
        invariant
            0 <= k <= ops.len(),
            any_constructor <==> exists|j: int| 0 <= j < k && ops@[j].is_constructor,
            public_constructor <==> exists|j: int|
                0 <= j < k && ops@[j].is_constructor && ops@[j].is_public,
        decreases ops.len() - k,
    {
        if ops[k].is_constructor {
            any_constructor = true;
            if ops[k].is_public {
                public_constructor = true;
            }
        }
        k = k + 1;
    }
    if !any_constructor {
        return Err(ProtocolError::MissingConstructor);
    }
    if !public_constructor {
        return Err(ProtocolError::PrivateConstructor);
    }
    let mut k: usize = 0;
    while k < ops.len()
        invariant
            0 <= k <= ops.len(),
            forall|j: int| 0 <= j < k ==> !violates_blocking_rule(#[trigger] ops@[j]),
            has_public_constructor(ops@),
        decreases ops.len() - k,
    {
        let d = ops[k];
        if d.is_public && !d.is_static && !d.is_blocking && d.returns_value {
            return Err(ProtocolError::NonBlockingValueReturn(k));
        }
        k = k + 1;
    }
    Ok(())
}

} // verus!
