//! A typed publish/subscribe bus over one broadcast channel: senders and
//! receivers each work with a narrow event type, while the channel carries
//! the wide type that embeds them all.
pub mod bus;
pub mod stream;
pub mod transport;
