//! Decoding the artifacts of an object: all of its entries, or none.

use crate::capability::Probed;
use crate::digest::{Digest, ResolveError};
use vstd::prelude::*;

verus! {

/// What reading one entry of an artifacts mapping brought back.
#[derive(Debug, PartialEq, Eq)]
pub enum Entry {
    /// The key is not text.
    KeyNotText,
    /// The value under `name` has no `digest` attribute; `detail` says how
    /// the lookup failed.
    DigestMissing { name: String, detail: String },
    /// The `digest` attribute of the value under `name` is no digest.
    DigestUnresolved { name: String, error: ResolveError },
    /// The value under `name` holds `digest`.
    Resolved { name: String, digest: Digest },
}

/// Why an object's artifacts were discarded.
#[derive(Debug, PartialEq, Eq)]
pub enum Fault {
    /// Calling the method failed; `detail` says how.
    Invocation { detail: String },
    /// The method answered with something that is no mapping.
    NotAMapping,
    /// The key of the entry at `position` is not text.
    KeyNotText { position: usize },
    /// The value under `name`, at `position`, has no `digest` attribute.
    DigestMissing { position: usize, name: String, detail: String },
    /// The `digest` attribute of the value under `name`, at `position`, is
    /// no digest.
    DigestUnresolved { position: usize, name: String, error: ResolveError },
}

/// Outcome of an extraction that tells an object with nothing to say from
/// one that said something wrong.
#[derive(Debug, PartialEq, Eq)]
pub enum Extraction<T> {
    /// The object offered this.
    Found(T),
    /// The object offered nothing.
    Nothing,
    /// The object offered something that does not decode.
    Malformed(Fault),
}

impl<T: View> View for Extraction<T> {
    type V = Extraction<T::V>;

    open spec fn view(&self) -> Extraction<T::V> {
        match *self {
            Extraction::Found(found) => Extraction::Found(found@),
            Extraction::Nothing => Extraction::Nothing,
            Extraction::Malformed(fault) => Extraction::Malformed(fault),
        }
    }
}

impl<T> Extraction<T> {
    /// What the caller gets: the value, or nothing whatever the reason.
    pub open spec fn spec_into_option(self) -> Option<T> {
        match self {
            Extraction::Found(found) => Some(found),
            _ => None,
        }
    }

    /// The fault, where the object offered something that does not decode.
    pub open spec fn spec_fault(self) -> Option<Fault> {
        match self {
            Extraction::Malformed(fault) => Some(fault),
            _ => None,
        }
    }

    /// What the caller gets: the value, or nothing whatever the reason.
    pub fn into_option(self) -> (folded: Option<T>)
        ensures
            folded == self.spec_into_option(),
    {
        match self {
            Extraction::Found(found) => Some(found),
            _ => None,
        }
    }

    /// The fault, where the object offered something that does not decode.
    pub fn fault(&self) -> (fault: Option<&Fault>)
        ensures
            match fault {
                Some(fault) => self.spec_fault() == Some(*fault),
                None => self.spec_fault() is None,
            },
    {
        match self {
            Extraction::Malformed(fault) => Some(fault),
            _ => None,
        }
    }
}

impl Entry {
    /// The key of the entry as text, `None` where the key is not text.
    pub open spec fn spec_name(self) -> Option<String> {
        match self {
            Entry::KeyNotText => None,
            Entry::DigestMissing { name, .. } => Some(name),
            Entry::DigestUnresolved { name, .. } => Some(name),
            Entry::Resolved { name, .. } => Some(name),
        }
    }

    /// The pair that a resolved entry adds to the artifacts.
    pub open spec fn pair(self) -> (String, Digest) {
        (self->Resolved_name, self->digest)
    }

    /// The fault that this entry stands for at `position`, `None` for a
    /// resolved entry.
    pub open spec fn fault(self, position: usize) -> Option<Fault> {
        match self {
            Entry::KeyNotText => Some(Fault::KeyNotText { position }),
            Entry::DigestMissing { name, detail } => Some(
                Fault::DigestMissing { position, name, detail },
            ),
            Entry::DigestUnresolved { name, error } => Some(
                Fault::DigestUnresolved { position, name, error },
            ),
            Entry::Resolved { .. } => None,
        }
    }
}

/// Whether every entry is resolved.
pub open spec fn all_resolved(entries: Seq<Entry>) -> bool {
    forall|i: int| 0 <= i < entries.len() ==> (#[trigger] entries[i]) is Resolved
}

/// Whether the entry at `position` is the first that is not resolved.
pub open spec fn is_first_unresolved(entries: Seq<Entry>, position: int) -> bool {
    &&& 0 <= position < entries.len()
    &&& !(entries[position] is Resolved)
    &&& forall|j: int| 0 <= j < position ==> (#[trigger] entries[j]) is Resolved
}

/// The pairs of resolved entries, one for one and in their order.
pub open spec fn pairs_of(entries: Seq<Entry>) -> Seq<(String, Digest)> {
    Seq::new(entries.len(), |i: int| entries[i].pair())
}

/// Place of the first entry that is not resolved, where there is one.
pub open spec fn first_unresolved(entries: Seq<Entry>) -> int {
    choose|position: int| is_first_unresolved(entries, position)
}

/// The artifacts that a mapping's entries decode to: the pairs of all of
/// them when all are resolved, else the fault of the first that is not.
pub open spec fn collected(entries: Seq<Entry>) -> Result<Seq<(String, Digest)>, Fault> {
    if all_resolved(entries) {
        Ok(pairs_of(entries))
    } else {
        let position = first_unresolved(entries);
        Err(entries[position].fault(position as usize).unwrap())
    }
}

/// The outcome for an object whose `artifacts` method was probed with the
/// result `probed`; `None` for an answer stands for one that is no mapping.
pub open spec fn spec_artifacts_outcome(probed: Probed<Option<Vec<Entry>>>) -> Extraction<
    Seq<(String, Digest)>,
> {
    match probed {
        Probed::Absent => Extraction::Nothing,
        Probed::Blank => Extraction::Nothing,
        Probed::Failed(detail) => Extraction::Malformed(Fault::Invocation { detail }),
        Probed::Answer(None) => Extraction::Malformed(Fault::NotAMapping),
        Probed::Answer(Some(entries)) => match collected(entries@) {
            Ok(pairs) => Extraction::Found(pairs),
            Err(fault) => Extraction::Malformed(fault),
        },
    }
}

/// Among entries that are not all resolved, one is the first that is not.
pub proof fn unresolved_has_first(entries: Seq<Entry>, bound: int)
    requires
        0 <= bound <= entries.len(),
        exists|k: int| 0 <= k < bound && !((#[trigger] entries[k]) is Resolved),
    ensures
        exists|position: int| position < bound && is_first_unresolved(entries, position),
    decreases bound,
{
    if forall|j: int| 0 <= j < bound - 1 ==> (#[trigger] entries[j]) is Resolved {
        assert(is_first_unresolved(entries, bound - 1));
    } else {
        unresolved_has_first(entries, bound - 1);
    }
}

/// At most one entry is the first that is not resolved.
pub proof fn first_unresolved_is_unique(entries: Seq<Entry>, first: int, second: int)
    requires
        is_first_unresolved(entries, first),
        is_first_unresolved(entries, second),
    ensures
        first == second,
{
    if first < second {
        assert(entries[first] is Resolved);
    } else if second < first {
        assert(entries[second] is Resolved);
    }
}

/// Decodes the entries of a mapping: all of them, or none.
///
/// Gives the pairs of name and digest in the order of the entries when
/// every entry is resolved; else the fault of the first entry that is not,
/// with its position.
pub fn collect(entries: &Vec<Entry>) -> (outcome: Result<Vec<(String, Digest)>, Fault>)
    ensures
        match outcome {
            Ok(pairs) => collected(entries@) == Ok::<Seq<(String, Digest)>, Fault>(pairs@),
            Err(fault) => collected(entries@) == Err::<Seq<(String, Digest)>, Fault>(fault),
        },
{
    let mut pairs: Vec<(String, Digest)> = Vec::new();
    let mut index: usize = 0;
    while index < entries.len()
        invariant
            index <= entries.len(),
            pairs@.len() == index,
            forall|j: int| 0 <= j < index ==> (#[trigger] entries@[j]) is Resolved,
            forall|j: int| 0 <= j < index ==> #[trigger] pairs@[j] == entries@[j].pair(),
        decreases entries.len() - index,
    {
        let fault = match &entries[index] {
            Entry::Resolved { name, digest } => {
                pairs.push((name.clone(), *digest));
                None
            },
            Entry::KeyNotText => Some(Fault::KeyNotText { position: index }),
            Entry::DigestMissing { name, detail } => Some(
                Fault::DigestMissing {
                    position: index,
                    name: name.clone(),
                    detail: detail.clone(),
                },
            ),
            Entry::DigestUnresolved { name, error } => Some(
                Fault::DigestUnresolved { position: index, name: name.clone(), error: *error },
            ),
        };
        if let Some(fault) = fault {
            proof {
                assert(is_first_unresolved(entries@, index as int));
                first_unresolved_is_unique(entries@, index as int, first_unresolved(entries@));
            }
            return Err(fault);
        }
        index += 1;
    }
    assert(pairs@ =~= pairs_of(entries@));
    Ok(pairs)
}

/// Decides what an object's artifacts are from what probing it brought back.
///
/// An object without the method, or one that answers `None`, has nothing to
/// offer. A failed call, an answer that is no mapping (`None` in `probed`)
/// and an entry that is not resolved each discard the whole result.
pub fn artifacts_outcome(probed: Probed<Option<Vec<Entry>>>) -> (outcome: Extraction<
    Vec<(String, Digest)>,
>)
    ensures
        outcome@ == spec_artifacts_outcome(probed),
{
    match probed {
        Probed::Absent => Extraction::Nothing,
        Probed::Blank => Extraction::Nothing,
        Probed::Failed(detail) => Extraction::Malformed(Fault::Invocation { detail }),
        Probed::Answer(None) => Extraction::Malformed(Fault::NotAMapping),
        Probed::Answer(Some(entries)) => match collect(&entries) {
            Ok(pairs) => Extraction::Found(pairs),
            Err(fault) => Extraction::Malformed(fault),
        },
    }
}

/// Order is kept: where every entry is resolved, the artifacts are the names
/// and digests of the entries, one for one and in their order.
pub proof fn resolved_entries_keep_order(entries: Vec<Entry>)
    requires
        all_resolved(entries@),
    ensures
        spec_artifacts_outcome(Probed::Answer(Some(entries))) matches Extraction::Found(pairs)
            && pairs.len() == entries@.len() && forall|i: int|
            0 <= i < entries@.len() ==> (#[trigger] pairs[i]).0 == entries@[i]->Resolved_name
                && pairs[i].1 == entries@[i]->digest,
{
}

/// All or nothing: one entry that is not resolved discards the whole
/// result, whether its key is not text, its value has no `digest`
/// attribute or that attribute is no digest, and however many other entries
/// are resolved.
pub proof fn one_unresolved_discards_all(entries: Vec<Entry>, position: int)
    requires
        0 <= position < entries@.len(),
        !(entries@[position] is Resolved),
    ensures
        spec_artifacts_outcome(Probed::Answer(Some(entries))) is Malformed,
        spec_artifacts_outcome(Probed::Answer(Some(entries))).spec_into_option() is None,
{
}

/// The fault reported for entries that are not all resolved is that of the
/// first entry that is not, with its position.
pub proof fn fault_is_of_first_unresolved(entries: Vec<Entry>)
    requires
        !all_resolved(entries@),
    ensures
        is_first_unresolved(entries@, first_unresolved(entries@)),
        spec_artifacts_outcome(Probed::Answer(Some(entries))) == Extraction::<
            Seq<(String, Digest)>,
        >::Malformed(
            entries@[first_unresolved(entries@)].fault(
                first_unresolved(entries@) as usize,
            ).unwrap(),
        ),
        entries@[first_unresolved(entries@)].fault(first_unresolved(entries@) as usize) is Some,
{
    unresolved_has_first(entries@, entries@.len() as int);
}

/// Artifacts come only from an answer that is a mapping whose entries are
/// all resolved.
pub proof fn artifacts_need_resolved_mapping(probed: Probed<Option<Vec<Entry>>>)
    ensures
        spec_artifacts_outcome(probed) is Found <==> (probed matches Probed::Answer(Some(entries))
            && all_resolved(entries@)),
        spec_artifacts_outcome(probed) is Nothing <==> probed.is_silent(),
{
}

/// Whether no two pairs have the same name.
pub open spec fn names_distinct(pairs: Seq<(String, Digest)>) -> bool {
    forall|i: int, j: int|
        0 <= i < j < pairs.len() ==> (#[trigger] pairs[i]).0@ != (#[trigger] pairs[j]).0@
}

/// Entries with names of their own, as the keys of one mapping are, give
/// artifacts with names of their own.
pub proof fn distinct_names_stay_distinct(entries: Seq<Entry>)
    requires
        all_resolved(entries),
        forall|i: int, j: int|
            0 <= i < j < entries.len() ==> (#[trigger] entries[i])->Resolved_name@
                != (#[trigger] entries[j])->Resolved_name@,
    ensures
        names_distinct(pairs_of(entries)),
{
    let pairs = pairs_of(entries);
    assert forall|i: int, j: int| 0 <= i < j < pairs.len() implies (#[trigger] pairs[i]).0@
        != (#[trigger] pairs[j]).0@ by {
        assert(pairs[i].0 == entries[i]->Resolved_name);
        assert(pairs[j].0 == entries[j]->Resolved_name);
    }
}

} // verus!
