//! The laws of the machine: what transitions do, what each variant does to
//! the shared counter, and what any serialized run of the two loops leaves in
//! the counter.

use vstd::prelude::*;

use crate::handlers::{HandlerWrapper, fresh_fancy, fresh_simple};
use crate::machine::{Message, next_handler};

verus! {

/// The transition table in full: for every reachable pair of current variant
/// and message, advancing yields exactly the table's fresh target — `Stay`
/// keeps the tag, `Change` swaps it — and the fields of the target are the
/// defaults, whatever fields the prior instance carried.
pub proof fn lemma_transition_table(current: HandlerWrapper, message: Message)
    ensures
        current is Fancy && message is Stay ==> next_handler(current, message)
            == HandlerWrapper::Fancy(fresh_fancy()),
        current is Fancy && message is Change ==> next_handler(current, message)
            == HandlerWrapper::Simple(fresh_simple()),
        current is Simple && message is Stay ==> next_handler(current, message)
            == HandlerWrapper::Simple(fresh_simple()),
        current is Simple && message is Change ==> next_handler(current, message)
            == HandlerWrapper::Fancy(fresh_fancy()),
{
}

/// Applying `Change` twice returns to the starting variant, freshly built:
/// fancy goes to simple and back to fancy, and simple likewise.
pub proof fn lemma_change_involution(current: HandlerWrapper)
    ensures
        next_handler(next_handler(current, Message::Change), Message::Change) is Fancy
            <==> current is Fancy,
        current is Fancy ==> next_handler(next_handler(current, Message::Change), Message::Change)
            == HandlerWrapper::Fancy(fresh_fancy()),
        current is Simple ==> next_handler(next_handler(current, Message::Change), Message::Change)
            == HandlerWrapper::Simple(fresh_simple()),
{
}

/// `Stay` leaves the variant tag unchanged but resets the fields to their
/// defaults: idempotent on the tag, not on the instance.
pub proof fn lemma_stay_keeps_tag(current: HandlerWrapper, name: String)
    ensures
        next_handler(current, (Message::Stay { name })) is Fancy <==> current is Fancy,
        current is Fancy ==> next_handler(current, (Message::Stay { name }))
            == HandlerWrapper::Fancy(fresh_fancy()),
        current is Simple ==> next_handler(current, (Message::Stay { name }))
            == HandlerWrapper::Simple(fresh_simple()),
{
}

/// The name carried by `Stay` is dead data: varying it never changes the
/// resulting handler.
pub proof fn lemma_stay_name_inert(current: HandlerWrapper, name1: String, name2: String)
    ensures
        next_handler(current, (Message::Stay { name: name1 }))
            == next_handler(current, (Message::Stay { name: name2 })),
{
}

/// The simple variant never changes the shared counter: `z` before equals
/// `z` after its action.
pub proof fn lemma_simple_keeps_z(handler: HandlerWrapper, z: int)
    requires
        handler is Simple,
    ensures
        handler.z_after(z) == z,
{
}

/// The fancy variant bumps the shared counter by exactly one each time its
/// action runs.
pub proof fn lemma_fancy_bumps_z(handler: HandlerWrapper, z: int)
    requires
        handler is Fancy,
    ensures
        handler.z_after(z) == z + 1,
{
}

/// One serialized operation on the state: an invocation of the active handler
/// or a transition. Under mutual exclusion, any concurrent run of the two
/// loops is some sequence of these.
pub enum Event {
    Act { input: i32 },
    Advance { message: Message },
}

/// The active handler after one serialized operation.
pub open spec fn handler_after(handler: HandlerWrapper, event: Event) -> HandlerWrapper {
    match event {
        Event::Act { .. } => handler,
        Event::Advance { message } => next_handler(handler, message),
    }
}

/// The shared counter after one serialized operation.
pub open spec fn z_after_event(handler: HandlerWrapper, z: int, event: Event) -> int {
    match event {
        Event::Act { .. } => handler.z_after(z),
        Event::Advance { .. } => z,
    }
}

/// The shared counter after a whole serialized history.
pub open spec fn z_after_history(handler: HandlerWrapper, z: int, events: Seq<Event>) -> int
    decreases events.len(),
{
    if events.len() == 0 {
        z
    } else {
        z_after_history(
            handler_after(handler, events[0]),
            z_after_event(handler, z, events[0]),
            events.drop_first(),
        )
    }
}

/// How many invocations in the history ran while the fancy variant was
/// active.
pub open spec fn mutating_acts(handler: HandlerWrapper, events: Seq<Event>) -> int
    decreases events.len(),
{
    if events.len() == 0 {
        0
    } else {
        (if events[0] is Act && handler is Fancy {
            1int
        } else {
            0int
        }) + mutating_acts(handler_after(handler, events[0]), events.drop_first())
    }
}

/// No lost updates: after any serialized history of invocations and
/// transitions, the counter equals its starting value plus exactly the number
/// of invocations that ran while the fancy variant was active.
pub proof fn lemma_counter_accounts_for_acts(handler: HandlerWrapper, z: int, events: Seq<Event>)
    ensures
        z_after_history(handler, z, events) == z + mutating_acts(handler, events),
    decreases events.len(),
{
    if events.len() > 0 {
        lemma_counter_accounts_for_acts(
            handler_after(handler, events[0]),
            z_after_event(handler, z, events[0]),
            events.drop_first(),
        );
    }
}

} // verus!
