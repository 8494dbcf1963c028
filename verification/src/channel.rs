//! The one-way queues of the standard library, as far as the handlers use
//! them. Nothing is known here of what the other end does: whether a send
//! is taken and what a receive brings is decided by the thread that holds
//! the other endpoint.

use vstd::prelude::*;
use std::sync::mpsc::{Receiver, RecvError, SendError, Sender};

verus! {

/// `std::sync::mpsc::Sender`: the sending end of a queue. Opaque.
#[verifier::external_type_specification]
#[verifier::external_body]
#[verifier::reject_recursive_types(T)]
pub struct ExSender<T>(Sender<T>);

/// `std::sync::mpsc::Receiver`: the receiving end of a queue. Opaque.
#[verifier::external_type_specification]
#[verifier::external_body]
#[verifier::reject_recursive_types(T)]
pub struct ExReceiver<T>(Receiver<T>);

/// `std::sync::mpsc::SendError`: a message that no receiver was left to
/// take. Opaque.
#[verifier::external_type_specification]
#[verifier::external_body]
#[verifier::reject_recursive_types(T)]
pub struct ExSendError<T>(SendError<T>);

/// `std::sync::mpsc::RecvError`: nothing is queued and no sender is left.
/// Opaque.
#[verifier::external_type_specification]
#[verifier::external_body]
pub struct ExRecvError(RecvError);

/// `std::sync::mpsc::Sender::send`. It never blocks. Nothing is claimed of
/// its result: it fails when the receiver has been dropped, which the
/// caller cannot know beforehand.
pub assume_specification<T>[ Sender::<T>::send ](tx: &Sender<T>, t: T) -> (sent: Result<
    (),
    SendError<T>,
>);

/// `std::sync::mpsc::Receiver::recv`. It blocks until a message is queued
/// or every sender is gone. Nothing is claimed of its result.
pub assume_specification<T>[ Receiver::<T>::recv ](rx: &Receiver<T>) -> (received: Result<
    T,
    RecvError,
>);

} // verus!
