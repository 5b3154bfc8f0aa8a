//! The kernel catalog as a mathematical value, and what holds of recording
//! versions in it.

use crate::metadata::KernelEntry;
use vstd::prelude::*;

verus! {

/// What a version history stands for: the known versions, in the order in
/// which they were first recorded, and the version recorded last.
#[verifier::ext_equal]
pub struct Catalog {
    pub versions: Seq<KernelEntry>,
    pub latest: Seq<char>,
}

/// What `latest` reads while nothing has been recorded.
pub open spec fn no_version() -> Seq<char> {
    "none"@
}

/// The catalog before anything is recorded.
pub open spec fn empty_catalog() -> Catalog {
    Catalog { versions: Seq::empty(), latest: no_version() }
}

/// Whether some entry carries `version`.
pub open spec fn has_version(entries: Seq<KernelEntry>, version: Seq<char>) -> bool {
    exists|i: int| 0 <= i < entries.len() && (#[trigger] entries[i]).version == version
}

/// Whether `i` is the place of the first entry that carries `version`.
pub open spec fn is_first_match(entries: Seq<KernelEntry>, version: Seq<char>, i: int) -> bool {
    &&& 0 <= i < entries.len()
    &&& entries[i].version == version
    &&& forall|j: int| 0 <= j < i ==> (#[trigger] entries[j]).version != version
}

/// The place of the first entry that carries `version`, where there is one.
pub open spec fn first_match(entries: Seq<KernelEntry>, version: Seq<char>) -> int {
    choose|i: int| is_first_match(entries, version, i)
}

/// The entry found under `version`.
pub open spec fn lookup(entries: Seq<KernelEntry>, version: Seq<char>) -> Option<KernelEntry> {
    if has_version(entries, version) {
        Some(entries[first_match(entries, version)])
    } else {
        None
    }
}

/// The entries after `entry` is recorded: it takes the place of the entry
/// with its version, or goes to the end where there is none.
pub open spec fn upsert(entries: Seq<KernelEntry>, entry: KernelEntry) -> Seq<KernelEntry> {
    if has_version(entries, entry.version) {
        entries.update(first_match(entries, entry.version), entry)
    } else {
        entries.push(entry)
    }
}

/// The catalog after `entry` is recorded: the entry is in, and its version
/// is the latest.
pub open spec fn record(catalog: Catalog, entry: KernelEntry) -> Catalog {
    Catalog { versions: upsert(catalog.versions, entry), latest: entry.version }
}

/// No two entries carry the same version.
pub open spec fn versions_unique(entries: Seq<KernelEntry>) -> bool {
    forall|i: int, j: int|
        #![trigger entries[i], entries[j]]
        0 <= i < j < entries.len() ==> entries[i].version != entries[j].version
}

/// Exactly one entry carries `version`.
pub open spec fn occurs_once(entries: Seq<KernelEntry>, version: Seq<char>) -> bool {
    exists|i: int|
        {
            &&& 0 <= i < entries.len()
            &&& (#[trigger] entries[i]).version == version
            &&& forall|j: int|
                0 <= j < entries.len() && j != i ==> (#[trigger] entries[j]).version != version
        }
}

/// A catalog is consistent where no version occurs twice and `latest` names
/// an entry, or reads `none`.
pub open spec fn consistent(catalog: Catalog) -> bool {
    &&& versions_unique(catalog.versions)
    &&& catalog.latest == no_version() || has_version(catalog.versions, catalog.latest)
}

/// Where an entry carries `version` at `k`, a first such entry exists, at
/// `k` or before it.
pub proof fn lemma_first_match_before(entries: Seq<KernelEntry>, version: Seq<char>, k: int)
    requires
        0 <= k < entries.len(),
        entries[k].version == version,
    ensures
        is_first_match(entries, version, first_match(entries, version)),
        first_match(entries, version) <= k,
    decreases k,
{
    if forall|j: int| 0 <= j < k ==> (#[trigger] entries[j]).version != version {
        assert(is_first_match(entries, version, k));
    } else {
        let j = choose|j: int| 0 <= j < k && (#[trigger] entries[j]).version == version;
        lemma_first_match_before(entries, version, j);
    }
    let first = first_match(entries, version);
    assert(is_first_match(entries, version, first));
    if first > k {
        assert(entries[k].version != version);
    }
}

/// Where some entry carries `version`, `first_match` is the place of the
/// first one.
pub proof fn lemma_first_match_exists(entries: Seq<KernelEntry>, version: Seq<char>)
    requires
        has_version(entries, version),
    ensures
        is_first_match(entries, version, first_match(entries, version)),
{
    let k = choose|k: int| 0 <= k < entries.len() && (#[trigger] entries[k]).version == version;
    lemma_first_match_before(entries, version, k);
}

/// There is one first match only.
pub proof fn lemma_first_match_unique(entries: Seq<KernelEntry>, version: Seq<char>, i: int)
    requires
        is_first_match(entries, version, i),
    ensures
        first_match(entries, version) == i,
        has_version(entries, version),
{
    let first = first_match(entries, version);
    assert(is_first_match(entries, version, first));
    if first < i {
        assert(entries[first].version != version);
    }
    if i < first {
        assert(entries[i].version != version);
    }
}

/// Recording an entry changes one place or adds one: the length, and the
/// version found at every place, are as stated.
pub proof fn lemma_upsert_shape(entries: Seq<KernelEntry>, entry: KernelEntry)
    ensures
        has_version(entries, entry.version) ==> {
            &&& upsert(entries, entry).len() == entries.len()
            &&& is_first_match(entries, entry.version, first_match(entries, entry.version))
            &&& forall|i: int|
                0 <= i < entries.len() ==> (#[trigger] upsert(entries, entry)[i]).version
                    == entries[i].version
        },
        !has_version(entries, entry.version) ==> upsert(entries, entry) == entries.push(entry),
{
    if has_version(entries, entry.version) {
        lemma_first_match_exists(entries, entry.version);
    }
}

/// What was recorded is found under its version.
pub proof fn lemma_lookup_recorded(entries: Seq<KernelEntry>, entry: KernelEntry)
    ensures
        lookup(upsert(entries, entry), entry.version) == Some(entry),
{
    let after = upsert(entries, entry);
    if has_version(entries, entry.version) {
        lemma_first_match_exists(entries, entry.version);
        let at = first_match(entries, entry.version);
        assert(after[at] == entry);
        assert forall|j: int| 0 <= j < at implies (#[trigger] after[j]).version
            != entry.version by {
            assert(after[j] == entries[j]);
        }
        assert(is_first_match(after, entry.version, at));
        lemma_first_match_unique(after, entry.version, at);
    } else {
        let at = entries.len() as int;
        assert(after[at] == entry);
        assert forall|j: int| 0 <= j < at implies (#[trigger] after[j]).version
            != entry.version by {
            assert(after[j] == entries[j]);
        }
        assert(is_first_match(after, entry.version, at));
        lemma_first_match_unique(after, entry.version, at);
    }
}

/// Recording one version leaves what is found under every other version as
/// it was.
pub proof fn lemma_lookup_other(entries: Seq<KernelEntry>, entry: KernelEntry, version: Seq<char>)
    requires
        version != entry.version,
    ensures
        lookup(upsert(entries, entry), version) == lookup(entries, version),
{
    let after = upsert(entries, entry);
    lemma_upsert_shape(entries, entry);
    if has_version(entries, version) {
        lemma_first_match_exists(entries, version);
        let at = first_match(entries, version);
        assert(after[at] == entries[at]);
        assert forall|j: int| 0 <= j < at implies (#[trigger] after[j]).version != version by {
            if has_version(entries, entry.version) {
                assert(after[j].version == entries[j].version);
            } else {
                assert(after[j] == entries[j]);
            }
        }
        assert(is_first_match(after, version, at));
        lemma_first_match_unique(after, version, at);
    } else {
        if has_version(after, version) {
            let k = choose|k: int| 0 <= k < after.len() && (#[trigger] after[k]).version == version;
            if k < entries.len() {
                if has_version(entries, entry.version) {
                    assert(after[k].version == entries[k].version);
                } else {
                    assert(after[k] == entries[k]);
                }
                assert(entries[k].version == version);
            }
        }
    }
}

/// Recording keeps versions unique, and afterwards the recorded version
/// occurs once.
pub proof fn lemma_upsert_keeps_unique(entries: Seq<KernelEntry>, entry: KernelEntry)
    requires
        versions_unique(entries),
    ensures
        versions_unique(upsert(entries, entry)),
        occurs_once(upsert(entries, entry), entry.version),
{
    let after = upsert(entries, entry);
    lemma_upsert_shape(entries, entry);
    if has_version(entries, entry.version) {
        let at = first_match(entries, entry.version);
        assert forall|i: int, j: int| 0 <= i < j < after.len() implies (#[trigger] after[i]).version
            != (#[trigger] after[j]).version by {
            assert(after[i].version == entries[i].version);
            assert(after[j].version == entries[j].version);
        }
        assert(after[at].version == entry.version);
        assert forall|j: int| 0 <= j < after.len() && j != at implies (#[trigger] after[j]).version
            != entry.version by {
            assert(after[j].version == entries[j].version);
            if j < at {
                assert(entries[j].version != entries[at].version);
            } else {
                assert(entries[at].version != entries[j].version);
            }
        }
    } else {
        let at = entries.len() as int;
        assert forall|i: int, j: int| 0 <= i < j < after.len() implies (#[trigger] after[i]).version
            != (#[trigger] after[j]).version by {
            assert(after[i] == entries[i]);
            if j < at {
                assert(after[j] == entries[j]);
            } else {
                assert(after[j] == entry);
            }
        }
        assert(after[at].version == entry.version);
        assert forall|j: int| 0 <= j < after.len() && j != at implies (#[trigger] after[j]).version
            != entry.version by {
            assert(after[j] == entries[j]);
        }
    }
}

/// Recording an entry in a catalog without duplicates gives a consistent
/// catalog.
pub proof fn lemma_record_consistent(catalog: Catalog, entry: KernelEntry)
    requires
        versions_unique(catalog.versions),
    ensures
        consistent(record(catalog, entry)),
{
    lemma_upsert_keeps_unique(catalog.versions, entry);
    lemma_lookup_recorded(catalog.versions, entry);
}

/// Recording two different versions, one after the other, leaves both to be
/// found, and the second is the latest.
pub proof fn lemma_both_versions_kept(catalog: Catalog, first: KernelEntry, second: KernelEntry)
    requires
        first.version != second.version,
    ensures
        lookup(record(record(catalog, first), second).versions, first.version) == Some(first),
        lookup(record(record(catalog, first), second).versions, second.version) == Some(second),
        record(record(catalog, first), second).latest == second.version,
{
    let once = upsert(catalog.versions, first);
    lemma_lookup_recorded(catalog.versions, first);
    lemma_lookup_other(once, second, first.version);
    lemma_lookup_recorded(once, second);
}

/// Recording the same version twice leaves one entry for it, the second
/// one, and no entry more than after the first time.
pub proof fn lemma_same_version_replaced(catalog: Catalog, first: KernelEntry, second: KernelEntry)
    requires
        versions_unique(catalog.versions),
        first.version == second.version,
    ensures
        occurs_once(record(record(catalog, first), second).versions, second.version),
        lookup(record(record(catalog, first), second).versions, second.version) == Some(second),
        record(record(catalog, first), second).versions.len() == record(
            catalog,
            first,
        ).versions.len(),
        record(record(catalog, first), second).latest == second.version,
        consistent(record(record(catalog, first), second)),
{
    let once = upsert(catalog.versions, first);
    lemma_upsert_keeps_unique(catalog.versions, first);
    lemma_lookup_recorded(catalog.versions, first);
    lemma_upsert_keeps_unique(once, second);
    lemma_lookup_recorded(once, second);
    lemma_upsert_shape(once, second);
}

/// Recording in the empty catalog gives a catalog of that one entry.
pub proof fn lemma_record_in_empty(entry: KernelEntry)
    ensures
        record(empty_catalog(), entry) == (Catalog { versions: seq![entry], latest: entry.version }),
{
    assert(!has_version(Seq::<KernelEntry>::empty(), entry.version));
    assert(Seq::<KernelEntry>::empty().push(entry) =~= seq![entry]);
}

} // verus!
