//! The two ends of the lifecycle event channel. The channel is the bounded
//! queue of `futures::sync::mpsc`; nothing that happens inside it is proved
//! here.

use vstd::prelude::*;
use futures::sync::mpsc::{Receiver, Sender};
use crate::types::SubgraphAssignmentProviderEvent;

verus! {

#[verifier::external_type_specification]
#[verifier::external_body]
#[verifier::reject_recursive_types(T)]
pub struct ExSender<T>(Sender<T>);

#[verifier::external_type_specification]
#[verifier::external_body]
#[verifier::reject_recursive_types(T)]
pub struct ExReceiver<T>(Receiver<T>);

/// How many events the channel buffers before a producer has to wait.
pub const EVENT_CHANNEL_CAPACITY: usize = 100;

/// Calls `futures::sync::mpsc::channel` and hands back its sending and its
/// receiving end. The call refuses, by a panic, a buffer of a quarter of the
/// address space or more, which the precondition leaves out. Nothing is
/// claimed of the two ends.
#[verifier::external_body]
pub(crate) fn event_channel(buffer: usize) -> (ends: (
    Sender<SubgraphAssignmentProviderEvent>,
    Receiver<SubgraphAssignmentProviderEvent>,
))
    requires
        buffer < usize::MAX / 4,
{
    futures::sync::mpsc::channel(buffer)
}

} // verus!
