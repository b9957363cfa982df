//! The receiving end of a `flume` channel, as far as the consumer uses it.
//!
//! Another thread fills the channel while this one reads it, so nothing is
//! claimed about what a call returns: the code that calls these functions is
//! verified for every answer.

use vstd::prelude::*;

verus! {

/// Declares `flume::Receiver` as a type whose inside is not looked into.
#[verifier::external_type_specification]
#[verifier::external_body]
#[verifier::reject_recursive_types(T)]
pub struct ExReceiver<T>(flume::Receiver<T>);

/// Asks `flume::Receiver::len` how many messages wait in the channel.
///
/// Trusted: nothing beyond the type of the answer.
#[verifier::external_body]
pub(crate) fn pending<T>(receiver: &flume::Receiver<T>) -> (depth: usize) {
    receiver.len()
}

/// Takes the oldest waiting message with `flume::Receiver::try_recv`,
/// without blocking; `None` stands for an empty or a closed channel.
///
/// Trusted: nothing beyond the type of the answer.
#[verifier::external_body]
pub(crate) fn take_pending<T>(receiver: &flume::Receiver<T>) -> (message: Option<T>) {
    receiver.try_recv().ok()
}

} // verus!
