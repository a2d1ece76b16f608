//! The kinds of metadata and what probing an object for one brings back.

use vstd::prelude::*;

verus! {

/// The metadata an object may offer, each kind behind a method of its own.
#[derive(Clone, Copy, Debug, PartialEq, Eq, Structural, Hash)]
pub enum Kind {
    Level,
    Message,
    DebugHint,
    Artifacts,
}

impl Kind {
    /// Name of the method that answers for this kind.
    pub open spec fn spec_behavior(self) -> Seq<char> {
        match self {
            Kind::Level => "level"@,
            Kind::Message => "message"@,
            Kind::DebugHint => "debug_hint"@,
            Kind::Artifacts => "artifacts"@,
        }
    }

    /// Name of the method that answers for this kind.
    pub fn behavior(self) -> (name: &'static str)
        ensures
            name@ == self.spec_behavior(),
    {
        match self {
            Kind::Level => "level",
            Kind::Message => "message",
            Kind::DebugHint => "debug_hint",
            Kind::Artifacts => "artifacts",
        }
    }
}

/// What came back from probing an object for one kind of metadata.
///
/// `T` is the answer as it was read: a code for a level, a text, the entries
/// of a mapping.
#[derive(Debug)]
pub enum Probed<T> {
    /// The object has no such method.
    Absent,
    /// The method is there and calling it failed; the text says how.
    Failed(String),
    /// The method answered with the interpreter's `None`.
    Blank,
    /// The method answered with something else.
    Answer(T),
}

impl<T> Probed<T> {
    /// Whether the object had nothing to say: no method, or `None` for an
    /// answer.
    pub open spec fn is_silent(self) -> bool {
        self is Absent || self is Blank
    }

    /// Whether `other` tells of the same probing as `self`, with the answer
    /// read in another way: the same case, and the same words for a failed
    /// call.
    pub open spec fn same_course<U>(self, other: Probed<U>) -> bool {
        match self {
            Probed::Absent => other is Absent,
            Probed::Failed(detail) => other == Probed::<U>::Failed(detail),
            Probed::Blank => other is Blank,
            Probed::Answer(_) => other is Answer,
        }
    }
}

/// No two kinds share a method.
pub proof fn behaviors_are_distinct(first: Kind, second: Kind)
    requires
        first != second,
    ensures
        first.spec_behavior() != second.spec_behavior(),
{
    reveal_strlit("level");
    reveal_strlit("message");
    reveal_strlit("debug_hint");
    reveal_strlit("artifacts");
    let a = first.spec_behavior();
    let b = second.spec_behavior();
    if a.len() == b.len() {
        assert(a[0] != b[0]);
    }
}

} // verus!
