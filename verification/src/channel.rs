//! The channel endpoints the runtime is built on, taken on trust.
//!
//! The command channel and the shared reply channel are unbounded
//! multi-producer channels; each blocking call under a per-call strategy
//! additionally owns either a fresh unbounded channel or a fresh single-use
//! channel. What a channel holds and which endpoint receives what is shared
//! mutable state between threads, so nothing here claims which value a
//! receive returns; the verified code around these endpoints is written to
//! hold for every value that can come back.

use vstd::prelude::*;

verus! {

#[verifier::external_type_specification]
#[verifier::external_body]
#[verifier::reject_recursive_types(T)]
pub struct ExSender<T>(crossbeam_channel::Sender<T>);

#[verifier::external_type_specification]
#[verifier::external_body]
#[verifier::reject_recursive_types(T)]
pub struct ExReceiver<T>(crossbeam_channel::Receiver<T>);

#[verifier::external_type_specification]
#[verifier::reject_recursive_types(T)]
pub struct ExSendError<T>(crossbeam_channel::SendError<T>);

#[verifier::external_type_specification]
pub struct ExRecvError(crossbeam_channel::RecvError);

#[verifier::external_type_specification]
#[verifier::external_body]
#[verifier::reject_recursive_types(T)]
pub struct ExOnceSender<T>(futures::channel::oneshot::Sender<T>);

#[verifier::external_type_specification]
#[verifier::external_body]
#[verifier::reject_recursive_types(T)]
pub struct ExOnceReceiver<T>(futures::channel::oneshot::Receiver<T>);

#[verifier::external_type_specification]
pub struct ExCanceled(futures::channel::oneshot::Canceled);

/// Relies on crossbeam_channel::unbounded: a fresh channel of unlimited
/// capacity, so sending on it never blocks.
pub assume_specification<T>[ crossbeam_channel::unbounded::<T> ]() -> (r: (
    crossbeam_channel::Sender<T>,
    crossbeam_channel::Receiver<T>,
));

/// Relies on crossbeam_channel::Sender::send: on an unbounded channel it
/// returns without blocking, and it fails exactly when every receiver of
/// the channel has been dropped, handing the unsent message back.
pub assume_specification<T>[ crossbeam_channel::Sender::<T>::send ](
    s: &crossbeam_channel::Sender<T>,
    msg: T,
) -> (r: Result<(), crossbeam_channel::SendError<T>>)
    ensures
        r matches Err(e) ==> e.0 == msg,
;

/// Relies on crossbeam_channel::Receiver::recv: it blocks until a message
/// arrives and fails only when the channel is empty and every sender has
/// been dropped, so a caller never hangs on a dead channel.
pub assume_specification<T>[ crossbeam_channel::Receiver::<T>::recv ](
    r: &crossbeam_channel::Receiver<T>,
) -> (res: Result<T, crossbeam_channel::RecvError>);

/// Relies on Clone for crossbeam_channel::Sender: another handle onto the
/// same channel.
pub assume_specification<T>[ <crossbeam_channel::Sender<T> as Clone>::clone ](
    s: &crossbeam_channel::Sender<T>,
) -> (r: crossbeam_channel::Sender<T>);

/// Relies on Clone for crossbeam_channel::Receiver: another handle onto
/// the same channel.
pub assume_specification<T>[ <crossbeam_channel::Receiver<T> as Clone>::clone ](
    r: &crossbeam_channel::Receiver<T>,
) -> (res: crossbeam_channel::Receiver<T>);

/// Relies on futures::channel::oneshot::channel: a fresh single-use
/// channel that delivers at most one value to exactly one receiver.
pub assume_specification<T>[ futures::channel::oneshot::channel::<T> ]() -> (r: (
    futures::channel::oneshot::Sender<T>,
    futures::channel::oneshot::Receiver<T>,
));

/// Relies on futures::channel::oneshot::Sender::send: it consumes the
/// endpoint, never blocks, and fails exactly when the paired receiver was
/// already dropped, handing the value back.
pub assume_specification<T>[ futures::channel::oneshot::Sender::<T>::send ](
    s: futures::channel::oneshot::Sender<T>,
    t: T,
) -> (r: Result<(), T>)
    ensures
        r matches Err(v) ==> v == t,
;

/// Relies on futures::executor::block_on driving the single-use receiver
/// to completion: it blocks until the paired sender sends or is dropped,
/// and fails exactly in the latter case. block_on panics when its calling
/// thread is already running inside another such executor; this library
/// only ever calls it from a plainly blocked caller thread.
#[verifier::external_body]
pub fn once_recv<T>(rx: futures::channel::oneshot::Receiver<T>) -> (r: Result<
    T,
    futures::channel::oneshot::Canceled,
>) {
    futures::executor::block_on(rx)
}

} // verus!
