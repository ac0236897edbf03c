//! What the background loop can be told: the answer to a shutdown poll, and
//! what ended a wait on the event stream.

use vstd::prelude::*;
use notify::DebouncedEvent;

verus! {

/// `notify::DebouncedEvent`, an event of the native monitor as it arrives on
/// the event stream. Opaque here.
#[verifier::external_type_specification]
#[verifier::external_body]
pub struct ExDebouncedEvent(notify::DebouncedEvent);

/// The kind of a monitor event, without the paths it carries.
#[derive(Debug, Clone, Copy, PartialEq, Eq, Structural)]
pub enum EventKind {
    /// A first write was seen; sent at once, before the debounce interval.
    NoticeWrite,
    /// A remove or rename was seen; sent at once.
    NoticeRemove,
    /// A file or directory was created and has been quiet since.
    Create,
    /// A file was written and has been quiet since.
    Write,
    /// Attributes were changed.
    Chmod,
    /// A file or directory was removed.
    Remove,
    /// A file or directory was moved within a watched directory.
    Rename,
    /// The watched directories have to be scanned again.
    Rescan,
    /// The monitor met an error.
    Error,
}

/// The answer to one non-blocking look at the shutdown channel.
#[derive(Debug, Clone, Copy, PartialEq, Eq, Structural)]
pub enum Signal {
    /// The owner has asked the loop to stop.
    Raised,
    /// Nothing was sent.
    Absent,
    /// The sending side is gone and nothing was sent.
    Disconnected,
}

/// What ended one wait on the event stream.
#[derive(Debug, Clone, Copy, PartialEq, Eq, Structural)]
pub enum Wake {
    /// An event arrived within the timeout.
    Event(EventKind),
    /// The timeout passed without an event.
    Timeout,
    /// The monitor's side of the stream is gone.
    Disconnected,
}

/// The kind that bears the name of the variant of `notify::DebouncedEvent`
/// that `event` is: which of the nine it is depends on the event alone, and
/// not on the paths or the error that it carries.
pub uninterp spec fn kind_named(event: DebouncedEvent) -> EventKind;

/// Tells the variants of `notify::DebouncedEvent` apart: each gives the kind
/// of the same name, and the paths or the error inside are left alone.
/// Trusted: the result is `kind_named` of the event. The event is opaque to
/// the verifier, so which variant gives which kind rests on the arms below.
#[verifier::external_body]
fn kind_of(event: &DebouncedEvent) -> (kind: EventKind)
    ensures
        kind == kind_named(*event),
{
    match event {
        DebouncedEvent::NoticeWrite(_) => EventKind::NoticeWrite,
        DebouncedEvent::NoticeRemove(_) => EventKind::NoticeRemove,
        DebouncedEvent::Create(_) => EventKind::Create,
        DebouncedEvent::Write(_) => EventKind::Write,
        DebouncedEvent::Chmod(_) => EventKind::Chmod,
        DebouncedEvent::Remove(_) => EventKind::Remove,
        DebouncedEvent::Rename(_, _) => EventKind::Rename,
        DebouncedEvent::Rescan => EventKind::Rescan,
        DebouncedEvent::Error(_, _) => EventKind::Error,
    }
}

impl EventKind {
    /// Only a debounced create or write asks for a reload.
    pub open spec fn spec_triggers_reload(self) -> bool {
        self is Create || self is Write
    }

    /// Whether an event of this kind asks for a reload.
    #[verifier::when_used_as_spec(spec_triggers_reload)]
    pub fn triggers_reload(self) -> (yes: bool)
        ensures
            yes == self.spec_triggers_reload(),
    {
        match self {
            EventKind::Create | EventKind::Write => true,
            _ => false,
        }
    }
}

impl Signal {
    /// Only a signal that was actually received stops the loop; a
    /// disconnected channel does not.
    pub open spec fn spec_stops(self) -> bool {
        self is Raised
    }

    /// Whether this answer stops the loop.
    #[verifier::when_used_as_spec(spec_stops)]
    pub fn stops(self) -> (yes: bool)
        ensures
            yes == self.spec_stops(),
    {
        match self {
            Signal::Raised => true,
            _ => false,
        }
    }
}

impl Wake {
    /// A wait that ended with the given monitor event: an `Event` of the
    /// kind that the event's variant names. It asks for a reload exactly
    /// when that kind does.
    pub fn observed(event: &DebouncedEvent) -> (wake: Wake)
        ensures
            wake == Wake::Event(kind_named(*event)),
            wake.triggers_reload() == kind_named(*event).triggers_reload(),
    {
        Wake::Event(kind_of(event))
    }

    /// A wait asks for a reload exactly when it ended with a create or a
    /// write; a timeout, a lost stream and every other event do not.
    pub open spec fn spec_triggers_reload(self) -> bool {
        self matches Wake::Event(kind) && kind.triggers_reload()
    }

    /// Whether this wake asks for a reload.
    #[verifier::when_used_as_spec(spec_triggers_reload)]
    pub fn triggers_reload(self) -> (yes: bool)
        ensures
            yes == self.spec_triggers_reload(),
    {
        match self {
            Wake::Event(kind) => kind.triggers_reload(),
            _ => false,
        }
    }
}

} // verus!
