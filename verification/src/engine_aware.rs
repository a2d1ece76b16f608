//! The four kinds of metadata that an engine-aware object may offer, and
//! how each is retrieved from an object.
//!
//! Retrieval has two halves. The first asks the object, through the
//! interpreter, and writes down what came back as plain values. The second
//! decides from those values alone. Nothing is known beforehand of what an
//! object answers, so a function that asks promises nothing of its result.
//! It hands what came back to a function that takes it as an argument, and
//! that function's contract says what it makes of each outcome, as far as
//! no further question decides. The promises on what is retrieved are those
//! of the second half: [`level_outcome`], [`text_outcome`] and
//! [`artifacts_outcome`].

use crate::artifacts::{artifacts_outcome, is_first_unresolved, Entry, Extraction};
use crate::capability::{Kind, Probed};
use crate::digest::{digest_from_parts, is_digest_of_parts, Digest, ResolveError};
use crate::level::Level;
use crate::outcome::{level_outcome, text_outcome};
use crate::python::{
    as_mapping, as_string, as_u64, call, describe, get_attribute, is_none, mapping_items,
    same_object, str_of, string_text, string_text_lossy, type_of, Value,
};
use cpython::{PyDict, PyErr, PyString};
use vstd::prelude::*;

verus! {

/// The types of the engine that decoding depends on.
pub struct Types {
    /// The type whose instances are digests.
    pub directory_digest: Value,
}

/// One kind of metadata, and how to get it from an object.
pub trait EngineAwareInformation {
    /// What this kind of metadata is made of.
    type MaybeOutput;

    /// The metadata of this kind that `value` offers, `None` when it offers
    /// none or what it offers does not decode.
    fn retrieve(types: &Types, value: &Value) -> Option<Self::MaybeOutput>;
}

/// The severity at which the work on an object is reported.
pub struct EngineAwareLevel {}

/// A text that says what the work on an object is.
pub struct Message {}

/// The named contents that the work on an object produced.
pub struct Artifacts {}

/// A text of lower rank than the message, for debugging.
pub struct DebugHint {}

/// Keeps what a call into the interpreter gave, and nothing of one that
/// failed.
fn kept<T>(outcome: Result<T, PyErr>) -> (kept: Option<T>)
    ensures
        kept == match outcome {
            Ok(value) => Some(value),
            Err(_) => None,
        },
{
    match outcome {
        Ok(value) => Some(value),
        Err(_) => None,
    }
}

/// Sorts an answer by whether it is the interpreter's `None`.
fn sort_answer(answer: Value, none: bool) -> (probed: Probed<Value>)
    ensures
        probed == if none {
            Probed::Blank
        } else {
            Probed::Answer(answer)
        },
{
    if none {
        Probed::Blank
    } else {
        Probed::Answer(answer)
    }
}

/// Sorts the outcome of calling a method: a failed call with the words of
/// its error, else the answer, blank where it is `None`.
fn sort_call(outcome: Result<Value, PyErr>) -> (probed: Probed<Value>)
    ensures
        outcome is Err <==> probed is Failed,
        outcome matches Ok(answer) ==> probed is Blank || probed == Probed::Answer(answer),
{
    match outcome {
        Err(error) => Probed::Failed(describe(&error)),
        Ok(answer) => {
            let none = is_none(&answer);
            sort_answer(answer, none)
        },
    }
}

/// Sorts the outcome of looking a method up: absent where the lookup
/// failed, else what calling the method gives.
fn sort_lookup(lookup: Result<Value, PyErr>) -> (probed: Probed<Value>)
    ensures
        lookup is Err <==> probed is Absent,
{
    match lookup {
        Err(_) => Probed::Absent,
        Ok(method) => sort_call(call(&method)),
    }
}

/// Calls the method of `value` that answers for `kind` and sorts what comes
/// back: no such method, a failed call, `None`, or an answer.
fn probe(value: &Value, kind: Kind) -> (probed: Probed<Value>) {
    sort_lookup(get_attribute(value, kind.behavior()))
}

/// The text of what `str` gave: none where `str` failed, else the
/// characters of the string where they are valid.
fn text_of_rendering(rendered: Result<PyString, PyErr>) -> (text: Option<String>)
    ensures
        rendered is Err ==> text is None,
{
    match rendered {
        Err(_) => None,
        Ok(string) => kept(string_text(&string)),
    }
}

/// The text of `object` as `str` gives it, `None` when it gives none.
fn text_of(object: &Value) -> (text: Option<String>) {
    text_of_rendering(str_of(object))
}

/// The unsigned integer that a looked-up attribute holds: none where the
/// lookup failed, else what reading the attribute as an integer gives.
fn integer_of_lookup(lookup: Result<Value, PyErr>) -> (number: Option<u64>)
    ensures
        lookup is Err ==> number is None,
{
    match lookup {
        Err(_) => None,
        Ok(attribute) => kept(as_u64(&attribute)),
    }
}

/// The unsigned integer under the attribute `name` of `object`.
fn integer_attribute(object: &Value, name: &str) -> (number: Option<u64>) {
    integer_of_lookup(get_attribute(object, name))
}

/// The characters of an object seen as a string: none where it is no
/// string.
fn text_of_string(string: Option<&PyString>) -> (text: Option<String>)
    ensures
        string is None <==> text is None,
{
    match string {
        None => None,
        Some(string) => Some(string_text_lossy(string)),
    }
}

/// The text that a looked-up attribute holds: none where the lookup
/// failed or the attribute is no string.
fn text_of_lookup(lookup: Result<Value, PyErr>) -> (text: Option<String>)
    ensures
        lookup is Err ==> text is None,
{
    match lookup {
        Err(_) => None,
        Ok(attribute) => text_of_string(as_string(&attribute)),
    }
}

/// The text under the attribute `name` of `object`, which must be a string.
fn text_attribute(object: &Value, name: &str) -> (text: Option<String>) {
    text_of_lookup(get_attribute(object, name))
}

/// Reads the answer of a probing as a level: its code, which the answer
/// keeps under `_level`. The other cases stay as they are.
fn read_level(probed: Probed<Value>) -> (observed: Probed<Option<u64>>)
    ensures
        probed.same_course(observed),
{
    match probed {
        Probed::Absent => Probed::Absent,
        Probed::Failed(detail) => Probed::Failed(detail),
        Probed::Blank => Probed::Blank,
        Probed::Answer(answer) => Probed::Answer(integer_attribute(&answer, "_level")),
    }
}

/// Probes `value` for its level and reads the code of the answer, which the
/// answer keeps under `_level`.
fn observe_level(value: &Value) -> (observed: Probed<Option<u64>>) {
    read_level(probe(value, Kind::Level))
}

/// Reads the answer of a probing as text. The other cases stay as they
/// are.
fn read_text(probed: Probed<Value>) -> (observed: Probed<Option<String>>)
    ensures
        probed.same_course(observed),
{
    match probed {
        Probed::Absent => Probed::Absent,
        Probed::Failed(detail) => Probed::Failed(detail),
        Probed::Blank => Probed::Blank,
        Probed::Answer(answer) => Probed::Answer(text_of(&answer)),
    }
}

/// Probes `value` for a text, its message or its debug hint, and reads the
/// answer as text.
fn observe_text(value: &Value, kind: Kind) -> (observed: Probed<Option<String>>) {
    read_text(probe(value, kind))
}

/// What a fingerprint and the outcome of reading a length resolve to: no
/// length where there is none, else the digest of the two.
fn digest_of_length(fingerprint: &str, length: Option<u64>) -> (resolved: Result<
    Digest,
    ResolveError,
>)
    ensures
        length is None ==> resolved == Err::<Digest, ResolveError>(ResolveError::NoLength),
        length matches Some(number) ==> is_digest_of_parts(fingerprint@, number, resolved),
{
    match length {
        None => Err(ResolveError::NoLength),
        Some(number) => digest_from_parts(fingerprint, number),
    }
}

/// What the outcome of reading the fingerprint of `value` resolves to: no
/// fingerprint where there is none, else what it resolves to with the
/// length that `value` keeps under `serialized_bytes_length`.
fn digest_of_fingerprint(value: &Value, fingerprint: Option<String>) -> (resolved: Result<
    Digest,
    ResolveError,
>)
    ensures
        fingerprint is None <==> resolved == Err::<Digest, ResolveError>(
            ResolveError::NoFingerprint,
        ),
        fingerprint matches Some(text) ==> resolved == Err::<Digest, ResolveError>(
            ResolveError::NoLength,
        ) || exists|number: u64| is_digest_of_parts(text@, number, resolved),
{
    match fingerprint {
        None => Err(ResolveError::NoFingerprint),
        Some(text) => digest_of_length(
            text.as_str(),
            integer_attribute(value, "serialized_bytes_length"),
        ),
    }
}

/// What `value` resolves to, given whether it is of the type of digests:
/// the wrong type where it is not, else what the fingerprint that it keeps
/// under `fingerprint` resolves to.
fn digest_if_typed(value: &Value, typed: bool) -> (resolved: Result<Digest, ResolveError>)
    ensures
        !typed <==> resolved == Err::<Digest, ResolveError>(ResolveError::WrongType),
{
    if !typed {
        return Err(ResolveError::WrongType);
    }
    digest_of_fingerprint(value, text_attribute(value, "fingerprint"))
}

/// Resolves `value` to the digest it stands for.
///
/// `value` must be of the type that `types` gives for digests, with its
/// fingerprint in hexadecimal under `fingerprint` and its length under
/// `serialized_bytes_length`.
fn lift_directory_digest(types: &Types, value: &Value) -> (resolved: Result<
    Digest,
    ResolveError,
>) {
    let class = type_of(value);
    let typed = same_object(&class, &types.directory_digest);
    digest_if_typed(value, typed)
}

/// The entry under `name` whose digest resolved as `resolved` says.
fn entry_of_digest(name: String, resolved: Result<Digest, ResolveError>) -> (entry: Entry)
    ensures
        entry == match resolved {
            Ok(digest) => Entry::Resolved { name, digest },
            Err(error) => Entry::DigestUnresolved { name, error },
        },
{
    match resolved {
        Ok(digest) => Entry::Resolved { name, digest },
        Err(error) => Entry::DigestUnresolved { name, error },
    }
}

/// The entry under `name`, given the outcome of looking up the `digest`
/// attribute of its value: one without digest where the lookup failed,
/// else as the attribute resolves.
fn entry_of_lookup(types: &Types, name: String, lookup: Result<Value, PyErr>) -> (entry: Entry)
    ensures
        lookup is Err <==> entry is DigestMissing,
        entry.spec_name() == Some(name),
{
    match lookup {
        Err(error) => Entry::DigestMissing { name, detail: describe(&error) },
        Ok(attribute) => entry_of_digest(name, lift_directory_digest(types, &attribute)),
    }
}

/// The entry with the value `value`, given its key seen as a string: one
/// whose key is not text where the key is no string, else an entry under
/// the characters of the key.
fn entry_of_key(types: &Types, value: &Value, key: Option<&PyString>) -> (entry: Entry)
    ensures
        key is None <==> entry is KeyNotText,
{
    match key {
        None => Entry::KeyNotText,
        Some(string) => entry_of_lookup(
            types,
            string_text_lossy(string),
            get_attribute(value, "digest"),
        ),
    }
}

/// Reads one entry of an artifacts mapping: the key as text, then the
/// `digest` attribute of the value, then the digest it resolves to. The
/// first step that fails ends the reading.
fn read_entry(types: &Types, key: &Value, value: &Value) -> (entry: Entry) {
    entry_of_key(types, value, as_string(key))
}

/// Whether a reading of entries went no further than the first entry that
/// is not resolved: every entry but the last is resolved.
spec fn stops_at_unresolved(entries: Seq<Entry>) -> bool {
    forall|i: int| 0 <= i < entries.len() - 1 ==> (#[trigger] entries[i]) is Resolved
}

/// Reads the entries of a mapping in its order, and stops after the first
/// that is not resolved: what follows it is not asked for anything.
fn read_entries(types: &Types, items: &Vec<(Value, Value)>) -> (entries: Vec<Entry>)
    ensures
        entries@.len() <= items@.len(),
        stops_at_unresolved(entries@),
        entries@.len() < items@.len() ==> is_first_unresolved(entries@, entries@.len() - 1),
{
    let mut entries: Vec<Entry> = Vec::new();
    let mut index: usize = 0;
    while index < items.len()
        invariant
            index <= items@.len(),
            entries@.len() == index,
            forall|i: int| 0 <= i < index ==> (#[trigger] entries@[i]) is Resolved,
        decreases items@.len() - index,
    {
        let entry = read_entry(types, &items[index].0, &items[index].1);
        let resolved = match &entry {
            Entry::Resolved { .. } => true,
            _ => false,
        };
        entries.push(entry);
        if !resolved {
            return entries;
        }
        index += 1;
    }
    entries
}

/// Reads an answer seen as a mapping: nothing where it is no mapping, else
/// its entries in its order, up to the first that is not resolved.
fn read_mapping(types: &Types, mapping: Option<&PyDict>) -> (entries: Option<Vec<Entry>>)
    ensures
        mapping is None <==> entries is None,
        entries matches Some(read) ==> stops_at_unresolved(read@),
{
    match mapping {
        None => None,
        Some(mapping) => {
            let items = mapping_items(mapping);
            Some(read_entries(types, &items))
        },
    }
}

/// Reads the answer of a probing as artifacts: the entries of the mapping
/// that it is, `None` where it is no mapping. The other cases stay as they
/// are.
fn read_artifacts(types: &Types, probed: Probed<Value>) -> (observed: Probed<Option<Vec<Entry>>>)
    ensures
        probed.same_course(observed),
        observed matches Probed::Answer(Some(entries)) ==> stops_at_unresolved(entries@),
{
    match probed {
        Probed::Absent => Probed::Absent,
        Probed::Failed(detail) => Probed::Failed(detail),
        Probed::Blank => Probed::Blank,
        Probed::Answer(answer) => Probed::Answer(read_mapping(types, as_mapping(&answer))),
    }
}

/// Probes `value` for its artifacts and reads the answer as a mapping,
/// entry by entry up to the first that is not resolved. `None` for an
/// answer stands for one that is no mapping.
fn observe_artifacts(types: &Types, value: &Value) -> (observed: Probed<Option<Vec<Entry>>>)
    ensures
        observed matches Probed::Answer(Some(entries)) ==> stops_at_unresolved(entries@),
{
    read_artifacts(types, probe(value, Kind::Artifacts))
}

impl Artifacts {
    /// The artifacts that `value` offers, with the reason where what it
    /// offers was discarded. Probes `value` for its artifacts and reads the
    /// mapping entry by entry; [`artifacts_outcome`] decides from what came
    /// back.
    pub fn examine(types: &Types, value: &Value) -> (outcome: Extraction<Vec<(String, Digest)>>) {
        artifacts_outcome(observe_artifacts(types, value))
    }
}

impl EngineAwareInformation for EngineAwareLevel {
    type MaybeOutput = Level;

    /// Probes `value` for its level; [`level_outcome`] decides from what
    /// came back.
    fn retrieve(_types: &Types, value: &Value) -> (level: Option<Level>) {
        level_outcome(observe_level(value))
    }
}

impl EngineAwareInformation for Message {
    type MaybeOutput = String;

    /// Probes `value` for its message; [`text_outcome`] decides from what
    /// came back.
    fn retrieve(_types: &Types, value: &Value) -> (text: Option<String>) {
        text_outcome(observe_text(value, Kind::Message))
    }
}

impl EngineAwareInformation for Artifacts {
    type MaybeOutput = Vec<(String, Digest)>;

    /// What [`Artifacts::examine`] finds, without the reason where it
    /// finds nothing.
    fn retrieve(types: &Types, value: &Value) -> (artifacts: Option<Vec<(String, Digest)>>) {
        Artifacts::examine(types, value).into_option()
    }
}

impl EngineAwareInformation for DebugHint {
    type MaybeOutput = String;

    /// Probes `value` for its debug hint; [`text_outcome`] decides from
    /// what came back.
    fn retrieve(_types: &Types, value: &Value) -> (text: Option<String>) {
        text_outcome(observe_text(value, Kind::DebugHint))
    }
}

} // verus!
