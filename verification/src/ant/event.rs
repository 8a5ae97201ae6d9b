//! ANT events and the registered event handler.
use vstd::prelude::*;

use crate::error::NRF_SUCCESS;

verus! {

/// Size of an ANT message buffer (`MESG_BUFFER_SIZE`).
pub const MESG_BUFFER_SIZE: usize = 41;

/// ANT event data from `sd_ant_event_get`.
#[derive(Debug, Clone, Copy, PartialEq, Eq)]
pub struct AntEvent {
    pub channel: u8,
    pub event: u8,
    pub msg: [u8; 41],
}

impl AntEvent {
    /// One poll of the event queue: an event when the call returned
    /// `NRF_SUCCESS`, and `None` (the queue is drained) otherwise.
    pub fn from_event_get(ret: u32, channel: u8, event: u8, msg: [u8; 41]) -> (r: Option<AntEvent>)
        ensures
            ret == NRF_SUCCESS ==> r == Some(AntEvent { channel, event, msg }),
            ret != NRF_SUCCESS ==> r is None,
    {
        if ret == NRF_SUCCESS {
            Some(AntEvent { channel, event, msg })
        } else {
            None
        }
    }
}

/// The slot of the global ANT event handler: empty until an application
/// registers one; events are dispatched to the handler registered last.
pub struct AntEventDispatcher<H> {
    handler: Option<H>,
}

impl<H: Copy> AntEventDispatcher<H> {
    /// The registered handler, if any.
    pub closed spec fn spec_handler(self) -> Option<H> {
        self.handler
    }

    /// A slot with no handler registered.
    pub fn new() -> (d: Self)
        ensures
            d.spec_handler() is None,
    {
        AntEventDispatcher { handler: None }
    }

    /// The slot after `handler` was registered in it.
    pub closed spec fn spec_with_handler(self, handler: H) -> Self {
        AntEventDispatcher { handler: Some(handler) }
    }

    /// The handler an event is dispatched to: the registered one, or none.
    pub fn dispatch_target(&self) -> (r: Option<H>)
        ensures
            r == self.spec_handler(),
    {
        self.handler
    }
}

/// Register the global ANT event handler, replacing any earlier one.
pub fn set_event_handler<H: Copy>(dispatcher: &mut AntEventDispatcher<H>, handler: H)
    ensures
        *final(dispatcher) == old(dispatcher).spec_with_handler(handler),
{
    dispatcher.handler = Some(handler);
}

/// Dispatching after registering: an event goes to the handler registered
/// last, whatever was registered before.
pub proof fn lemma_dispatch_after_register<H: Copy>(d: AntEventDispatcher<H>, first: H, last: H)
    ensures
        d.spec_with_handler(last).spec_handler() == Some(last),
        d.spec_with_handler(first).spec_with_handler(last).spec_handler() == Some(last),
{
}

} // verus!
