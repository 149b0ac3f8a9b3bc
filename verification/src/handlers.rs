//! The handler variants and the record they act on.

use vstd::prelude::*;

verus! {

/// The record shared between the two loops. Only a handler's action may
/// change it; transitions leave it untouched.
#[derive(Clone, Copy, Debug, PartialEq, Eq, Structural)]
pub struct SharedState {
    pub z: i32,
}

impl SharedState {
    pub fn new() -> (s: SharedState)
        ensures
            s.z == 5,
    {
        SharedState { z: 5 }
    }
}

/// Whether a mathematical integer fits in an `i32`.
pub open spec fn fits_i32(n: int) -> bool {
    i32::MIN as int <= n && n <= i32::MAX as int
}

/// The fields a freshly constructed `FancyHandler` carries.
pub open spec fn fresh_fancy() -> FancyHandler {
    FancyHandler { value: 5 }
}

/// The fields a freshly constructed `SimpleHandler` carries.
pub open spec fn fresh_simple() -> SimpleHandler {
    SimpleHandler { x: 2, y: 3 }
}

#[derive(Clone, Copy, Debug, PartialEq, Eq, Structural)]
pub struct FancyHandler {
    pub value: i32,
}

impl FancyHandler {
    pub fn new() -> (h: FancyHandler)
        ensures
            h == fresh_fancy(),
    {
        FancyHandler { value: 5 }
    }

    /// The value this handler computes from its input.
    pub open spec fn output_spec(self, input: int) -> int {
        self.value * input * 3
    }

    /// Bumps the shared counter by one, then computes `value * input * 3`.
    pub fn do_something(&self, input: i32, shared: &mut SharedState) -> (out: i32)
        requires
            fits_i32(self.output_spec(input as int)),
            old(shared).z < i32::MAX,
        ensures
            out as int == self.output_spec(input as int),
            final(shared).z == old(shared).z + 1,
    {
        shared.z = shared.z + 1;
        proof {
            let a: int = self.value as int * input as int;
            assert(self.output_spec(input as int) == a * 3);
            assert(fits_i32(a));
        }
        let prod: i32 = self.value * input;
        prod * 3
    }
}

#[derive(Clone, Copy, Debug, PartialEq, Eq, Structural)]
pub struct SimpleHandler {
    pub x: i32,
    pub y: i32,
}

impl SimpleHandler {
    pub fn new() -> (h: SimpleHandler)
        ensures
            h == fresh_simple(),
    {
        SimpleHandler { x: 2, y: 3 }
    }

    /// The value this handler computes from its input and the shared counter.
    pub open spec fn output_spec(self, input: int, z: int) -> int {
        self.x + self.y + input + z
    }

    /// Computes `x + y + input + z`; the shared state is left untouched.
    pub fn do_something(&self, input: i32, shared: &mut SharedState) -> (out: i32)
        requires
            fits_i32(self.output_spec(input as int, old(shared).z as int)),
        ensures
            out as int == self.output_spec(input as int, old(shared).z as int),
            *final(shared) == *old(shared),
    {
        let total: i64 = self.x as i64 + self.y as i64 + input as i64 + shared.z as i64;
        total as i32
    }
}

/// The closed set of handler variants; exactly one is active at a time, and
/// dispatch is an exhaustive match, so a new variant without a matching arm
/// cannot compile.
#[derive(Clone, Copy, Debug, PartialEq, Eq, Structural)]
pub enum HandlerWrapper {
    Fancy(FancyHandler),
    Simple(SimpleHandler),
}

impl HandlerWrapper {
    /// The value the active variant computes from `input` and the counter `z`.
    pub open spec fn output_spec(self, input: int, z: int) -> int {
        match self {
            HandlerWrapper::Fancy(inner) => inner.output_spec(input),
            HandlerWrapper::Simple(inner) => inner.output_spec(input, z),
        }
    }

    /// The shared counter after the active variant has run: the fancy variant
    /// bumps it by one, the simple variant leaves it alone.
    pub open spec fn z_after(self, z: int) -> int {
        match self {
            HandlerWrapper::Fancy(_) => z + 1,
            HandlerWrapper::Simple(_) => z,
        }
    }

    /// Whether running the active variant on `input` with counter `z` stays
    /// within `i32`.
    pub open spec fn ready(self, input: int, z: int) -> bool {
        fits_i32(self.output_spec(input, z)) && fits_i32(self.z_after(z))
    }

    /// Dispatches to the active variant.
    pub fn do_something(&self, input: i32, shared: &mut SharedState) -> (out: i32)
        requires
            self.ready(input as int, old(shared).z as int),
        ensures
            out as int == self.output_spec(input as int, old(shared).z as int),
            final(shared).z as int == self.z_after(old(shared).z as int),
    {
        match self {
            HandlerWrapper::Fancy(inner) => inner.do_something(input, shared),
            HandlerWrapper::Simple(inner) => inner.do_something(input, shared),
        }
    }
}

} // verus!
