//! Transition messages, the transition table, and the `State` facade.

use vstd::prelude::*;

use crate::handlers::{FancyHandler, HandlerWrapper, SharedState, SimpleHandler, fresh_fancy,
    fresh_simple};

verus! {

/// A transition trigger. `Stay` carries a name that no transition logic
/// consults; the field is kept for interface fidelity.
#[derive(Debug)]
pub enum Message {
    Stay { name: String },
    Change,
}

/// The transition table: from the current variant and a message to the next
/// variant, always freshly constructed with default fields regardless of the
/// prior instance's fields. Total over all four variant/message pairs.
pub open spec fn next_handler(current: HandlerWrapper, message: Message) -> HandlerWrapper {
    match message {
        Message::Stay { .. } => match current {
            HandlerWrapper::Fancy(_) => HandlerWrapper::Fancy(fresh_fancy()),
            HandlerWrapper::Simple(_) => HandlerWrapper::Simple(fresh_simple()),
        },
        Message::Change => match current {
            HandlerWrapper::Fancy(_) => HandlerWrapper::Simple(fresh_simple()),
            HandlerWrapper::Simple(_) => HandlerWrapper::Fancy(fresh_fancy()),
        },
    }
}

/// The facade over the active handler and the shared record. All external
/// interaction goes through `do_something` and `advance_handler`, which is
/// what makes serialized access under a single lock sufficient.
#[derive(Debug)]
pub struct State {
    pub handler: HandlerWrapper,
    pub shared: SharedState,
}

impl State {
    /// A fresh state: the simple variant is active and the counter starts at 5.
    pub fn new() -> (s: State)
        ensures
            s.handler == HandlerWrapper::Simple(fresh_simple()),
            s.shared.z == 5,
    {
        State {
            handler: HandlerWrapper::Simple(SimpleHandler::new()),
            shared: SharedState::new(),
        }
    }

    /// Runs the active handler on `input`, returning the value it computed.
    /// The handler itself is unchanged; only the handler's action may change
    /// `shared`, and it does so exactly as `z_after` prescribes.
    pub fn do_something(&mut self, input: i32) -> (out: i32)
        requires
            old(self).handler.ready(input as int, old(self).shared.z as int),
        ensures
            final(self).handler == old(self).handler,
            out as int == old(self).handler.output_spec(input as int, old(self).shared.z as int),
            final(self).shared.z as int == old(self).handler.z_after(old(self).shared.z as int),
    {
        self.handler.do_something(input, &mut self.shared)
    }

    /// Like `do_something`, but first checks that the computation stays within
    /// `i32`; on the inputs where it would not, returns `None` and changes
    /// nothing.
    pub fn try_do_something(&mut self, input: i32) -> (out: Option<i32>)
        ensures
            (out is Some) == old(self).handler.ready(input as int, old(self).shared.z as int),
            match out {
                Some(v) => {
                    &&& final(self).handler == old(self).handler
                    &&& v as int == old(self).handler.output_spec(
                        input as int,
                        old(self).shared.z as int,
                    )
                    &&& final(self).shared.z as int == old(self).handler.z_after(
                        old(self).shared.z as int,
                    )
                },
                None => *final(self) == *old(self),
            },
    {
        let within_bounds: bool = match &self.handler {
            HandlerWrapper::Fancy(inner) => {
                proof {
                    assert(-0x4000_0000_0000_0000 <= (inner.value as int) * (input as int)
                        && (inner.value as int) * (input as int) <= 0x4000_0000_0000_0000)
                        by (nonlinear_arith)
                        requires
                            -0x8000_0000 <= inner.value as int <= 0x7fff_ffff,
                            -0x8000_0000 <= input as int <= 0x7fff_ffff,
                    ;
                }
                let t: i128 = inner.value as i128 * input as i128 * 3;
                i32::MIN as i128 <= t && t <= i32::MAX as i128 && self.shared.z < i32::MAX
            },
            HandlerWrapper::Simple(inner) => {
                let t: i64 = inner.x as i64 + inner.y as i64 + input as i64 + self.shared.z as i64;
                i32::MIN as i64 <= t && t <= i32::MAX as i64
            },
        };
        if within_bounds {
            Some(self.do_something(input))
        } else {
            None
        }
    }

    /// Replaces the active handler with the table's prescribed fresh instance;
    /// the shared state is untouched by transitions.
    pub fn advance_handler(&mut self, message: Message)
        ensures
            final(self).handler == next_handler(old(self).handler, message),
            final(self).shared == old(self).shared,
    {
        match (self.handler, message) {
            (HandlerWrapper::Fancy(_), Message::Stay { name: _ }) => {
                self.handler = HandlerWrapper::Fancy(FancyHandler::new());
            },
            (HandlerWrapper::Fancy(_), Message::Change) => {
                self.handler = HandlerWrapper::Simple(SimpleHandler::new());
            },
            (HandlerWrapper::Simple(_), Message::Stay { name: _ }) => {
                self.handler = HandlerWrapper::Simple(SimpleHandler::new());
            },
            (HandlerWrapper::Simple(_), Message::Change) => {
                self.handler = HandlerWrapper::Fancy(FancyHandler::new());
            },
        }
    }
}

} // verus!
