//! Grammar-context parameters.
//!
//! The formal grammar parameterizes its productions over boolean flags
//! (written `[+In]`, `[?Await]` and so on). Each production receives these as
//! plain values, never as shared mutable state: a production may pass adjusted
//! flags to its own sub-calls, and no call can affect a sibling's view.

use vstd::prelude::*;

verus! {

/// Whether the `in` relational operator is permitted (`[+In]`).
#[derive(Debug, Clone, Copy, PartialEq, Eq, Structural)]
pub struct AllowIn(pub bool);

impl From<bool> for AllowIn {
    fn from(allow: bool) -> (r: Self) {
        AllowIn(allow)
    }
}

impl vstd::std_specs::convert::FromSpecImpl<bool> for AllowIn {
    open spec fn obeys_from_spec() -> bool {
        true
    }

    open spec fn from_spec(allow: bool) -> Self {
        AllowIn(allow)
    }
}

/// Whether `await` expressions are permitted (`[+Await]`).
#[derive(Debug, Clone, Copy, PartialEq, Eq, Structural)]
pub struct AllowAwait(pub bool);

impl From<bool> for AllowAwait {
    fn from(allow: bool) -> (r: Self) {
        AllowAwait(allow)
    }
}

impl vstd::std_specs::convert::FromSpecImpl<bool> for AllowAwait {
    open spec fn obeys_from_spec() -> bool {
        true
    }

    open spec fn from_spec(allow: bool) -> Self {
        AllowAwait(allow)
    }
}

/// Whether `yield` expressions are permitted (`[+Yield]`).
#[derive(Debug, Clone, Copy, PartialEq, Eq, Structural)]
pub struct AllowYield(pub bool);

impl From<bool> for AllowYield {
    fn from(allow: bool) -> (r: Self) {
        AllowYield(allow)
    }
}

impl vstd::std_specs::convert::FromSpecImpl<bool> for AllowYield {
    open spec fn obeys_from_spec() -> bool {
        true
    }

    open spec fn from_spec(allow: bool) -> Self {
        AllowYield(allow)
    }
}

} // verus!
