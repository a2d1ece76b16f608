//! Deciding a level or a text from what probing an object brought back.

use crate::artifacts::{spec_artifacts_outcome, Entry, Extraction, Fault};
use crate::capability::Probed;
use crate::digest::Digest;
use crate::level::{is_level_code, level_of_code, Level};
use vstd::prelude::*;

verus! {

/// The level of an object whose `level` method was probed with the result
/// `probed`; `None` for an answer stands for one that carries no code.
pub open spec fn spec_level_outcome(probed: Probed<Option<u64>>) -> Option<Level> {
    match probed {
        Probed::Answer(Some(code)) => level_of_code(code),
        _ => None,
    }
}

/// The text of an object whose `message` or `debug_hint` method was probed
/// with the result `probed`; `None` for an answer stands for one that has no
/// text.
pub open spec fn spec_text_outcome(probed: Probed<Option<String>>) -> Option<String> {
    match probed {
        Probed::Answer(Some(text)) => Some(text),
        _ => None,
    }
}

/// Decides the level of an object from what probing it brought back.
///
/// Only an answer with a recognised code gives a level. A missing method, a
/// failed call, an answer of `None`, an answer without a code and a code
/// that stands for no level all give `None`.
pub fn level_outcome(probed: Probed<Option<u64>>) -> (level: Option<Level>)
    ensures
        level == spec_level_outcome(probed),
{
    match probed {
        Probed::Answer(Some(code)) => Level::from_code(code),
        _ => None,
    }
}

/// Decides the text of an object from what probing it brought back.
///
/// An answer with a text gives that text, unchanged. A missing method, a
/// failed call, an answer of `None` and an answer without text give `None`.
pub fn text_outcome(probed: Probed<Option<String>>) -> (text: Option<String>)
    ensures
        text == spec_text_outcome(probed),
{
    match probed {
        Probed::Answer(Some(text)) => Some(text),
        _ => None,
    }
}

/// An object without the method offers nothing, whatever the kind.
pub proof fn absent_method_offers_nothing()
    ensures
        spec_level_outcome(Probed::Absent) is None,
        spec_text_outcome(Probed::Absent) is None,
        spec_artifacts_outcome(Probed::Absent) == Extraction::<Seq<(String, Digest)>>::Nothing,
        spec_artifacts_outcome(Probed::Absent).spec_into_option() is None,
{
}

/// An object whose method answers `None` offers nothing, whatever the kind.
pub proof fn blank_answer_offers_nothing()
    ensures
        spec_level_outcome(Probed::Blank) is None,
        spec_text_outcome(Probed::Blank) is None,
        spec_artifacts_outcome(Probed::Blank) == Extraction::<Seq<(String, Digest)>>::Nothing,
        spec_artifacts_outcome(Probed::Blank).spec_into_option() is None,
{
}

/// An object whose method fails offers nothing, whatever the kind; for
/// artifacts the failure is kept as the fault.
pub proof fn failed_call_offers_nothing(detail: String)
    ensures
        spec_level_outcome(Probed::Failed(detail)) is None,
        spec_text_outcome(Probed::Failed(detail)) is None,
        spec_artifacts_outcome(Probed::Failed(detail)).spec_into_option() is None,
        spec_artifacts_outcome(Probed::Failed(detail)).spec_fault() == Some(
            Fault::Invocation { detail },
        ),
{
}

/// Only an answer offers anything: however the answer of a probing would
/// have been read, a probing that found no method, a failed call or `None`
/// offers nothing of any kind.
pub proof fn only_answers_offer<T>(
    probed: Probed<T>,
    level: Probed<Option<u64>>,
    text: Probed<Option<String>>,
    artifacts: Probed<Option<Vec<Entry>>>,
)
    requires
        !(probed is Answer),
        probed.same_course(level),
        probed.same_course(text),
        probed.same_course(artifacts),
    ensures
        spec_level_outcome(level) is None,
        spec_text_outcome(text) is None,
        spec_artifacts_outcome(artifacts).spec_into_option() is None,
        probed.is_silent() ==> spec_artifacts_outcome(artifacts) == Extraction::<
            Seq<(String, Digest)>,
        >::Nothing,
{
}

/// The text that an object answers comes back as it is.
pub proof fn answered_text_is_kept(text: String)
    ensures
        spec_text_outcome(Probed::Answer(Some(text))) == Some(text),
        spec_text_outcome(Probed::Answer(Some(text))).unwrap()@ == text@,
{
}

/// A level comes only from an answer with a recognised code, and is then the
/// level of that code.
pub proof fn level_needs_recognised_code(probed: Probed<Option<u64>>)
    ensures
        spec_level_outcome(probed) is Some <==> (probed matches Probed::Answer(Some(code))
            && is_level_code(code)),
        probed matches Probed::Answer(Some(code)) ==> spec_level_outcome(probed) == level_of_code(
            code,
        ),
{
}

/// An answer with a code outside the recognised ones gives no level.
pub proof fn unrecognised_code_gives_nothing(code: u64)
    requires
        !is_level_code(code),
    ensures
        spec_level_outcome(Probed::Answer(Some(code))) is None,
{
}

/// A text comes only from an answer that has one.
pub proof fn text_needs_answer(probed: Probed<Option<String>>)
    ensures
        spec_text_outcome(probed) is Some <==> probed matches Probed::Answer(Some(_)),
{
}

} // verus!
