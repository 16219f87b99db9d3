//! Trusted declarations of the channel primitives the engine hands values
//! across execution contexts with.
//!
//! Everything here is believed, not proved: each item names the outside
//! function it relies on. Nothing is promised about delivery or about what a
//! receiver sees — those depend on the other ends of the channels — so every
//! caller must state what holds whatever these calls do.

use vstd::prelude::*;

verus! {

#[verifier::external_type_specification]
#[verifier::external_body]
#[verifier::reject_recursive_types(T)]
/// The sending half of a channel.
pub struct ExSender<T>(crossbeam_channel::Sender<T>);

#[verifier::external_type_specification]
#[verifier::external_body]
#[verifier::reject_recursive_types(T)]
/// The receiving half of a channel.
pub struct ExReceiver<T>(crossbeam_channel::Receiver<T>);

/// Relies on `crossbeam_channel::unbounded`: a channel of unbounded capacity,
/// on which a send never blocks.
#[verifier::external_body]
pub fn channel<T>() -> (crossbeam_channel::Sender<T>, crossbeam_channel::Receiver<T>) {
    crossbeam_channel::unbounded()
}

/// Relies on `crossbeam_channel::Sender::send`: on an unbounded channel it
/// returns without blocking, and it fails — handing the message back —
/// exactly when every receiver has been dropped.
#[verifier::external_body]
pub fn send<T>(s: &crossbeam_channel::Sender<T>, msg: T) -> Result<(), T> {
    s.send(msg).map_err(|e| e.0)
}

/// Relies on `crossbeam_channel::Sender::clone`: another handle to the same
/// channel.
pub assume_specification<T>[ <crossbeam_channel::Sender<T> as core::clone::Clone>::clone ](
    s: &crossbeam_channel::Sender<T>,
) -> crossbeam_channel::Sender<T>;

} // verus!
