//! The error type shared by construction and by reload results.

use vstd::prelude::*;

verus! {

/// `notify::Error`, the error of the native file-system monitor. Opaque
/// here: a value of it is carried through untouched.
#[verifier::external_type_specification]
#[verifier::external_body]
pub struct ExNotifyError(notify::Error);

/// Why a watch could not be set up, or why a reload produced no message.
#[derive(Debug)]
pub enum WatchError<E> {
    /// The native monitor could not be created, or a directory could not be
    /// subscribed. Fatal to construction.
    FileWatch(notify::Error),
    /// The compile or reflect step failed. Delivered as a reload result; the
    /// session keeps watching.
    Compile(E),
}

} // verus!
