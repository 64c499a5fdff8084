//! The broadcast channel that carries the wide event type, as this library
//! relies on it.
use tokio::sync::broadcast;
use tokio::sync::broadcast::error::{RecvError, SendError};
use vstd::prelude::*;

verus! {

/// The producer side of a broadcast channel; opaque here.
#[verifier::external_type_specification]
#[verifier::external_body]
#[verifier::reject_recursive_types(T)]
pub struct ExSender<T>(broadcast::Sender<T>);

/// The consumer side of a broadcast channel; opaque here.
#[verifier::external_type_specification]
#[verifier::external_body]
#[verifier::reject_recursive_types(T)]
pub struct ExReceiver<T>(broadcast::Receiver<T>);

/// The value handed back by a send that reached no receiver.
#[verifier::external_type_specification]
pub struct ExSendError<T>(SendError<T>);

/// Why a receiver could not pull its next value.
#[verifier::external_type_specification]
pub struct ExRecvError(RecvError);

/// Relies on tokio's `broadcast::channel`: it makes a channel that retains up
/// to `capacity` values (rounded up to a power of two) for receivers that
/// have not yet caught up, and panics on a capacity of zero or above
/// `usize::MAX / 2`.
pub assume_specification<T: Clone>[ broadcast::channel::<T> ](capacity: usize) -> (
    broadcast::Sender<T>,
    broadcast::Receiver<T>,
)
    requires
        0 < capacity <= usize::MAX / 2,
;

/// Relies on tokio's `Sender::subscribe`: a new receiver of the same channel,
/// positioned after every value sent so far. (It panics only once
/// `usize::MAX / 4` receivers are alive at once, which no memory can hold.)
pub assume_specification<T>[ broadcast::Sender::<T>::subscribe ](
    tx: &broadcast::Sender<T>,
) -> broadcast::Receiver<T>;

/// Relies on tokio's `Clone` for `Sender`: one more producer handle that
/// shares the very channel state of `tx`.
pub assume_specification<T>[ <broadcast::Sender<T> as Clone>::clone ](
    tx: &broadcast::Sender<T>,
) -> (r: broadcast::Sender<T>)
    ensures
        r == *tx,
;

/// Relies on tokio's `Sender::send`: with at least one receiver subscribed it
/// delivers the value to each of them and returns how many there are; with
/// none it hands the value back, unsent, inside the error.
pub assume_specification<T>[ broadcast::Sender::<T>::send ](
    tx: &broadcast::Sender<T>,
    value: T,
) -> (r: Result<usize, SendError<T>>)
    ensures
        r is Ok ==> r->Ok_0 > 0,
        r is Err ==> r->Err_0.0 == value,
;

} // verus!
