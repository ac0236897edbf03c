//! The value delivered for one successful reload.

use vstd::prelude::*;

verus! {

/// A freshly compiled artifact together with its reflected entry metadata.
///
/// Both parts are treated as data: `S` is whatever the compile step produces,
/// `N` whatever the reflect step derives from it.
#[derive(Debug, PartialEq, Eq)]
pub struct Message<S, N> {
    pub shaders: S,
    pub entry: N,
}

impl<S, N> Message<S, N> {
    /// Pairs an artifact with its entry metadata.
    pub fn new(shaders: S, entry: N) -> (msg: Self)
        ensures
            msg.shaders == shaders,
            msg.entry == entry,
    {
        Message { shaders, entry }
    }
}

/// What a reload delivers once the artifact is there and reflection has run.
pub open spec fn assembled<S, N, X>(shaders: S, parsed: Result<N, X>) -> Result<Message<S, N>, X> {
    match parsed {
        Ok(entry) => Ok(Message { shaders, entry }),
        Err(e) => Err(e),
    }
}

/// Combines an artifact with the outcome of reflecting it: the message when
/// reflection succeeded, the reflection error alone when it failed (the
/// artifact is then dropped, never delivered in part).
pub fn assemble<S, N, X>(shaders: S, parsed: Result<N, X>) -> (out: Result<Message<S, N>, X>)
    ensures
        out == assembled(shaders, parsed),
{
    match parsed {
        Ok(entry) => Ok(Message::new(shaders, entry)),
        Err(e) => Err(e),
    }
}

} // verus!
