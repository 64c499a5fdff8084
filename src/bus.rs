//! The bus handle and the typed sender and receiver views it mints.
use core::marker::PhantomData;
use tokio::sync::broadcast;
use tokio::sync::broadcast::error::{RecvError, SendError};
use vstd::prelude::*;
use vstd::std_specs::convert::{FromSpec, TryFromSpec};

verus! {

/// One shared broadcast channel of the wide event type `E`.
#[verifier::reject_recursive_types(E)]
pub struct EventBus<E> {
    tx: broadcast::Sender<E>,
    capacity: Ghost<nat>,
}

impl<E> EventBus<E> {
    /// The producer handle of the bus's channel.
    pub closed spec fn sender(&self) -> broadcast::Sender<E> {
        self.tx
    }
}

impl<E: Clone> EventBus<E> {
    /// The capacity the bus was made with. The channel retains that many
    /// unread values, rounded up to a power of two.
    pub closed spec fn capacity(&self) -> nat {
        self.capacity@
    }

    /// A bus whose channel retains `capacity` values (rounded up to a power
    /// of two) for receivers that lag.
    pub fn new(capacity: usize) -> (r: Self)
        requires
            0 < capacity <= usize::MAX / 2,
        ensures
            r.capacity() == capacity,
    {
        let (tx, _) = broadcast::channel(capacity);
        EventBus { tx, capacity: Ghost(capacity as nat) }
    }

    /// A receiver of the values of `T` sent on this bus from now on.
    pub fn get_receiver<T: TryFrom<E>>(&self) -> (r: EventReceiver<E, T>)
        ensures
            r.bus() == self.sender(),
    {
        EventReceiver { rx: self.tx.subscribe(), bus: Ghost(self.tx), phantom: PhantomData }
    }

    /// A sender of values of `T` onto this bus's channel.
    pub fn get_sender<T: Into<E>>(&self) -> (r: EventSender<E, T>)
        ensures
            r.sender() == self.sender(),
    {
        EventSender { tx: self.tx.clone(), phantom: PhantomData }
    }
}

/// The sending view of a bus, bound to the narrow type `T`.
#[verifier::reject_recursive_types(E)]
pub struct EventSender<E, T> {
    tx: broadcast::Sender<E>,
    phantom: PhantomData<T>,
}

impl<E, T> EventSender<E, T> {
    /// The producer handle this view publishes through.
    pub closed spec fn sender(&self) -> broadcast::Sender<E> {
        self.tx
    }
}

impl<E: From<T>, T> EventSender<E, T> {
    /// Embeds `value` into the wide type and publishes it to every receiver
    /// of the bus, whatever its narrow type. Fails, handing back the embedded
    /// value, when no receiver is subscribed.
    pub fn send(&self, value: T) -> (r: Result<(), SendError<E>>)
        ensures
            E::obeys_from_spec() ==> (r is Err ==> r->Err_0.0 == E::from_spec(value)),
    {
        match self.tx.send(E::from(value)) {
            Ok(_) => Ok(()),
            Err(e) => Err(e),
        }
    }
}

/// What a receiver does with one value pulled off its subscription.
pub enum RecvStep<T> {
    /// The value belongs to the receiver's narrow type: hand it out.
    Deliver(T),
    /// The value belongs to another narrow type: drop it and pull again.
    Skip,
    /// The pull itself failed: surface the failure at once.
    Fail(RecvError),
}

/// The step for `pulled`, for a narrow type whose extraction follows its
/// specification.
pub open spec fn step<E, T: TryFrom<E>>(pulled: Result<E, RecvError>) -> RecvStep<T> {
    match pulled {
        Ok(w) => match T::try_from_spec(w) {
            Ok(t) => RecvStep::Deliver(t),
            Err(_) => RecvStep::Skip,
        },
        Err(e) => RecvStep::Fail(e),
    }
}

/// The receiving view of a bus, bound to the narrow type `T`, with a
/// subscription of its own.
#[verifier::reject_recursive_types(E)]
pub struct EventReceiver<E, T> {
    rx: broadcast::Receiver<E>,
    bus: Ghost<broadcast::Sender<E>>,
    phantom: PhantomData<T>,
}

impl<E, T> EventReceiver<E, T> {
    /// The subscription this view reads from.
    pub closed spec fn receiver(&self) -> broadcast::Receiver<E> {
        self.rx
    }

    /// The producer handle of the bus this view was minted from.
    pub closed spec fn bus(&self) -> broadcast::Sender<E> {
        self.bus@
    }
}

impl<E: Clone, T: TryFrom<E>> EventReceiver<E, T> {
    /// Borrows the subscription, to pull the next wide value off it.
    pub fn subscription(&mut self) -> (r: &mut broadcast::Receiver<E>)
        ensures
            *r == old(self).receiver(),
            final(self).receiver() == *final(r),
            final(self).bus() == old(self).bus(),
    {
        &mut self.rx
    }

    /// Decides what one pull of the subscription gives: a value that
    /// extracts to `T` is delivered, any other value is skipped, and a failed
    /// pull ends the receive with that failure, never retried.
    pub fn on_pulled(pulled: Result<E, RecvError>) -> (r: RecvStep<T>)
        ensures
            T::obeys_try_from_spec() ==> r == step::<E, T>(pulled),
            pulled is Ok <==> !(r is Fail),
            pulled is Err ==> r == RecvStep::<T>::Fail(pulled->Err_0),
    {
        match pulled {
            Ok(w) => match T::try_from(w) {
                Ok(t) => RecvStep::Deliver(t),
                Err(_) => RecvStep::Skip,
            },
            Err(e) => RecvStep::Fail(e),
        }
    }
}

} // verus!
