use crate::document::{
    entries_view, has_key, key_position, lemma_has_key, lemma_key_position,
    lemma_key_position_is_first, lookup, Entries, Json, JsonView,
};
use vstd::prelude::*;

verus! {

/// The result of laying document `b` over document `a`.
///
/// Two objects are merged entry by entry; in every other case the overlay
/// replaces the base.
pub open spec fn merge_spec(a: JsonView, b: JsonView) -> JsonView
    decreases b, 0nat,
{
    match b {
        JsonView::Object(overlay) => match a {
            JsonView::Object(base) => JsonView::Object(merge_from(base, overlay, 0)),
            _ => b,
        },
        _ => b,
    }
}

/// The entries `base` after the overlay's entries from index `i` on were
/// applied to them, one after the other.
pub open spec fn merge_from(base: Entries, overlay: Entries, i: nat) -> Entries
    decreases overlay, overlay.len() - i,
{
    if i >= overlay.len() {
        base
    } else {
        merge_from(merge_entry(base, overlay[i as int]), overlay, i + 1)
    }
}

/// The entries `base` after one overlay entry was applied: a null value
/// removes the key, a key that `base` has is merged in place, and a new key
/// is added at the end.
pub open spec fn merge_entry(base: Entries, entry: (Seq<char>, JsonView)) -> Entries
    decreases entry, 0nat,
{
    let at = key_position(base, entry.0);
    if entry.1 is Null {
        if at < base.len() {
            base.remove(at)
        } else {
            base
        }
    } else if at < base.len() {
        base.update(at, (base[at].0, merge_spec(base[at].1, entry.1)))
    } else {
        base.push(entry)
    }
}

/// Whether no entry holds a null.
pub open spec fn no_null(entries: Entries) -> bool {
    forall|i: int| 0 <= i < entries.len() ==> !((#[trigger] entries[i]).1 is Null)
}

/// Whether an overlay only adds to a base: it holds no null, none of its keys
/// is in the base, and no key occurs in it twice.
pub open spec fn adds_to(base: Entries, overlay: Entries) -> bool {
    &&& no_null(overlay)
    &&& forall|j: int| 0 <= j < overlay.len() ==> !has_key(base, (#[trigger] overlay[j]).0)
    &&& forall|i: int, j: int|
        0 <= i < j < overlay.len() ==> (#[trigger] overlay[i]).0 != (#[trigger] overlay[j]).0
}

/// Laying an empty object over a document leaves the document as it was.
pub proof fn lemma_merge_empty_overlay(a: JsonView)
    requires
        a is Object,
    ensures
        merge_spec(a, JsonView::Object(Seq::empty())) == a,
{
}

/// Laying a document that is no object over any other gives that document.
pub proof fn lemma_merge_replaces(a: JsonView, b: JsonView)
    requires
        !(a is Object) || !(b is Object),
    ensures
        merge_spec(a, b) == b,
{
}

/// A merge never leaves a null among the entries of its result: where the
/// base holds none, the result holds none, whatever the overlay holds.
pub proof fn lemma_merge_no_null(base: Entries, overlay: Entries, i: nat)
    requires
        no_null(base),
    ensures
        no_null(merge_from(base, overlay, i)),
    decreases overlay.len() - i,
{
    if i < overlay.len() {
        lemma_key_position_is_first(base, overlay[i as int].0);
        lemma_merge_no_null(merge_entry(base, overlay[i as int]), overlay, i + 1);
    }
}

/// Every key of a merge's result is a key of the base or of the overlay.
pub proof fn lemma_merge_keys(base: Entries, overlay: Entries, i: nat, key: Seq<char>)
    requires
        !has_key(base, key),
        !has_key(overlay, key),
    ensures
        !has_key(merge_from(base, overlay, i), key),
    decreases overlay.len() - i,
{
    if i < overlay.len() {
        let entry = overlay[i as int];
        let next = merge_entry(base, entry);
        lemma_has_key(overlay, key);
        lemma_has_key(base, key);
        lemma_has_key(next, key);
        lemma_key_position_is_first(base, entry.0);
        lemma_merge_keys(next, overlay, i + 1, key);
    }
}

proof fn lemma_merge_adds_from(base: Entries, overlay: Entries, i: nat)
    requires
        adds_to(base, overlay),
        i <= overlay.len(),
    ensures
        merge_from(base + overlay.subrange(0, i as int), overlay, i) == base + overlay,
    decreases overlay.len() - i,
{
    let done = base + overlay.subrange(0, i as int);
    if i >= overlay.len() {
        assert(overlay.subrange(0, i as int) =~= overlay);
    } else {
        let entry = overlay[i as int];
        lemma_has_key(base, entry.0);
        assert forall|j: int| 0 <= j < done.len() implies (#[trigger] done[j]).0 != entry.0 by {
            if j < base.len() {
                assert(done[j] == base[j]);
            } else {
                assert(done[j] == overlay[j - base.len()]);
            }
        }
        lemma_key_position(done, entry.0, done.len() as int);
        assert(merge_entry(done, entry) =~= base + overlay.subrange(0, i as int + 1));
        lemma_merge_adds_from(base, overlay, i + 1);
    }
}

/// Where the overlay only adds to the base, the merge is the base followed
/// by the overlay.
pub proof fn lemma_merge_adds(base: Entries, overlay: Entries)
    requires
        adds_to(base, overlay),
    ensures
        merge_from(base, overlay, 0) == base + overlay,
        merge_spec(JsonView::Object(base), JsonView::Object(overlay)) == JsonView::Object(
            base + overlay,
        ),
{
    assert(base + overlay.subrange(0, 0) =~= base);
    lemma_merge_adds_from(base, overlay, 0);
}

/// Whether no key stands twice among the entries.
pub open spec fn distinct_keys(entries: Entries) -> bool {
    forall|i: int, j: int|
        0 <= i < j < entries.len() ==> (#[trigger] entries[i]).0 != (#[trigger] entries[j]).0
}

/// Whether a document is a mapping at every depth: no object in it has a key
/// twice.
pub open spec fn well_formed(d: JsonView) -> bool
    decreases d,
{
    match d {
        JsonView::List(items) => forall|i: int|
            0 <= i < items.len() ==> well_formed(#[trigger] items[i]),
        JsonView::Object(entries) => distinct_keys(entries) && forall|i: int|
            0 <= i < entries.len() ==> well_formed((#[trigger] entries[i]).1),
        _ => true,
    }
}

/// A merge of two mappings is a mapping.
pub proof fn lemma_merge_well_formed(a: JsonView, b: JsonView)
    requires
        well_formed(a),
        well_formed(b),
    ensures
        well_formed(merge_spec(a, b)),
    decreases b, 0nat,
{
    match b {
        JsonView::Object(overlay) => match a {
            JsonView::Object(base) => {
                lemma_merge_from_well_formed(base, overlay, 0);
            },
            _ => {},
        },
        _ => {},
    }
}

proof fn lemma_merge_from_well_formed(base: Entries, overlay: Entries, i: nat)
    requires
        well_formed(JsonView::Object(base)),
        well_formed(JsonView::Object(overlay)),
    ensures
        well_formed(JsonView::Object(merge_from(base, overlay, i))),
    decreases overlay, overlay.len() - i,
{
    if i < overlay.len() {
        let entry = overlay[i as int];
        let at = key_position(base, entry.0);
        let next = merge_entry(base, entry);
        lemma_key_position_is_first(base, entry.0);
        assert(well_formed(entry.1));
        if entry.1 is Null {
            if at < base.len() {
                assert forall|j: int| 0 <= j < next.len() implies well_formed(
                    (#[trigger] next[j]).1,
                ) by {
                    assert(next[j] == base[if j < at { j } else { j + 1 }]);
                }
                assert forall|j: int, k: int| 0 <= j < k < next.len() implies (#[trigger] next[j]).0
                    != (#[trigger] next[k]).0 by {
                    assert(next[j] == base[if j < at { j } else { j + 1 }]);
                    assert(next[k] == base[if k < at { k } else { k + 1 }]);
                }
            }
        } else if at < base.len() {
            assert(decreases_to!(overlay => overlay[i as int]));
            assert(decreases_to!(overlay[i as int] => overlay[i as int].1));
            assert(well_formed(base[at].1));
            lemma_merge_well_formed(base[at].1, entry.1);
            assert forall|j: int| 0 <= j < next.len() implies well_formed((#[trigger] next[j]).1) by {
                if j != at {
                    assert(next[j] == base[j]);
                }
            }
            assert forall|j: int, k: int| 0 <= j < k < next.len() implies (#[trigger] next[j]).0
                != (#[trigger] next[k]).0 by {
                assert(next[j].0 == base[j].0);
                assert(next[k].0 == base[k].0);
            }
        } else {
            assert forall|j: int| 0 <= j < next.len() implies well_formed((#[trigger] next[j]).1) by {
                if j < base.len() {
                    assert(next[j] == base[j]);
                }
            }
            assert forall|j: int, k: int| 0 <= j < k < next.len() implies (#[trigger] next[j]).0
                != (#[trigger] next[k]).0 by {
                assert(next[j] == base[j]);
                if k < base.len() {
                    assert(next[k] == base[k]);
                }
            }
        }
        assert(well_formed(JsonView::Object(next)));
        lemma_merge_from_well_formed(next, overlay, i + 1);
    }
}

/// The value under `key` after an overlay's value for it was laid over what
/// the base has: a null leaves none, and any other value is merged with the
/// base's, or stands alone where the base has none.
pub open spec fn merged_value(base: Option<JsonView>, overlay: Option<JsonView>) -> Option<
    JsonView,
> {
    match overlay {
        None => base,
        Some(JsonView::Null) => None,
        Some(value) => match base {
            Some(old) => Some(merge_spec(old, value)),
            None => Some(value),
        },
    }
}

/// What one overlay entry does to the value under each key: it changes the
/// value under its own key, and no other.
pub proof fn lemma_merge_entry_lookup(base: Entries, entry: (Seq<char>, JsonView), key: Seq<char>)
    requires
        distinct_keys(base),
    ensures
        distinct_keys(merge_entry(base, entry)),
        lookup(merge_entry(base, entry), key) == if key == entry.0 {
            merged_value(lookup(base, key), Some(entry.1))
        } else {
            lookup(base, key)
        },
{
    let next = merge_entry(base, entry);
    let at = key_position(base, entry.0);
    let here = key_position(base, key);
    lemma_key_position_is_first(base, entry.0);
    lemma_key_position_is_first(base, key);
    if entry.1 is Null {
        if at < base.len() {
            assert forall|j: int| 0 <= j < next.len() implies #[trigger] next[j] == base[if j
                < at {
                j
            } else {
                j + 1
            }] by {}
            if key == entry.0 {
                assert forall|j: int| 0 <= j < next.len() implies (#[trigger] next[j]).0
                    != key by {}
                lemma_key_position(next, key, next.len() as int);
            } else if here < base.len() {
                let there = if here < at {
                    here
                } else {
                    here - 1
                };
                assert(next[there] == base[here]);
                assert forall|j: int| 0 <= j < there implies (#[trigger] next[j]).0 != key by {}
                lemma_key_position(next, key, there);
            } else {
                assert forall|j: int| 0 <= j < next.len() implies (#[trigger] next[j]).0
                    != key by {}
                lemma_key_position(next, key, next.len() as int);
            }
        }
    } else if at < base.len() {
        assert forall|j: int| 0 <= j < next.len() implies (#[trigger] next[j]).0
            == base[j].0 by {}
        assert forall|j: int| 0 <= j < here implies (#[trigger] next[j]).0 != key by {}
        lemma_key_position(next, key, here);
    } else {
        assert forall|j: int| 0 <= j < base.len() implies #[trigger] next[j] == base[j] by {}
        if here < base.len() {
            assert forall|j: int| 0 <= j < here implies (#[trigger] next[j]).0 != key by {}
            lemma_key_position(next, key, here);
        } else if key == entry.0 {
            assert forall|j: int| 0 <= j < base.len() implies (#[trigger] next[j]).0 != key by {}
            lemma_key_position(next, key, base.len() as int);
        } else {
            assert forall|j: int| 0 <= j < next.len() implies (#[trigger] next[j]).0 != key by {}
            lemma_key_position(next, key, next.len() as int);
        }
    }
}

/// A merge of two objects, key by key: where no key stands twice in either,
/// the value under each key of the result is the base's value with the
/// overlay's laid over it.
pub proof fn lemma_merge_lookup(base: Entries, overlay: Entries, key: Seq<char>)
    requires
        distinct_keys(base),
        distinct_keys(overlay),
    ensures
        distinct_keys(merge_from(base, overlay, 0)),
        lookup(merge_from(base, overlay, 0), key) == merged_value(
            lookup(base, key),
            lookup(overlay, key),
        ),
{
    assert(overlay.subrange(0, overlay.len() as int) =~= overlay);
    lemma_merge_lookup_from(base, overlay, 0, key);
}

proof fn lemma_merge_lookup_from(base: Entries, overlay: Entries, i: nat, key: Seq<char>)
    requires
        distinct_keys(base),
        distinct_keys(overlay),
        i <= overlay.len(),
    ensures
        distinct_keys(merge_from(base, overlay, i)),
        lookup(merge_from(base, overlay, i), key) == merged_value(
            lookup(base, key),
            lookup(overlay.subrange(i as int, overlay.len() as int), key),
        ),
    decreases overlay.len() - i,
{
    let rest = overlay.subrange(i as int, overlay.len() as int);
    if i >= overlay.len() {
        assert(rest.len() == 0);
    } else {
        let entry = overlay[i as int];
        let next = merge_entry(base, entry);
        let later = overlay.subrange(i as int + 1, overlay.len() as int);
        lemma_merge_entry_lookup(base, entry, key);
        lemma_merge_lookup_from(next, overlay, i + 1, key);
        assert(rest[0] == entry);
        assert(rest.drop_first() =~= later);
        if key == entry.0 {
            assert forall|j: int| 0 <= j < later.len() implies (#[trigger] later[j]).0 != key by {
                assert(later[j] == overlay[i as int + 1 + j]);
            }
            lemma_key_position(later, key, later.len() as int);
            lemma_key_position(rest, key, 0);
        } else {
            lemma_key_position_is_first(later, key);
            lemma_key_position_is_first(rest, key);
        }
    }
}

/// Lays `b` over `a`, in place.
pub fn merge(a: &mut Json, b: Json)
    ensures
        final(a)@ == merge_spec(old(a)@, b@),
    decreases b, 0nat,
{
    match b {
        Json::Object(overlay) => {
            match a {
                Json::Object(base) => {
                    merge_entries(base, overlay);
                },
                _ => {
                    *a = Json::Object(overlay);
                },
            }
        },
        other => {
            *a = other;
        },
    }
}

/// Applies the entries of `overlay` to `base`, in order.
pub fn merge_entries(base: &mut Vec<(String, Json)>, overlay: Vec<(String, Json)>)
    ensures
        entries_view(final(base)@) == merge_from(
            entries_view(old(base)@),
            entries_view(overlay@),
            0,
        ),
    decreases overlay, 1nat,
{
    let ghost target = merge_from(entries_view(base@), entries_view(overlay@), 0);
    let ghost given = overlay;
    let mut rest = overlay;
    let mut i: usize = 0;
    while i < rest.len()
        invariant
            i <= rest.len(),
            given == overlay,
            rest@.len() == given@.len(),
            forall|j: int| i <= j < rest@.len() ==> rest@[j] == given@[j],
            merge_from(entries_view(base@), entries_view(given@), i as nat) == target,
        decreases rest.len() - i,
    {
        let mut entry = (String::new(), Json::Null);
        core::mem::swap(&mut rest[i], &mut entry);
        let (key, value) = entry;
        let ghost before = entries_view(base@);
        assert(entries_view(given@)[i as int] == (key@, value@));
        let found = Json::find_key(base, &key);
        match value {
            Json::Null => {
                if let Some(at) = found {
                    base.remove(at);
                    assert(entries_view(base@) =~= before.remove(at as int));
                }
            },
            other => {
                match found {
                    Some(at) => {
                        proof {
                            assert(other == given@[i as int].1);
                            assert(decreases_to!(given => given@));
                            assert(decreases_to!(given@ => given@[i as int]));
                            assert(decreases_to!(given@[i as int] => given@[i as int].1));
                        }
                        merge(&mut base[at].1, other);
                        assert(entries_view(base@) =~= before.update(
                            at as int,
                            (before[at as int].0, merge_spec(before[at as int].1, other@)),
                        ));
                    },
                    None => {
                        base.push((key, other));
                        assert(entries_view(base@) =~= before.push((key@, other@)));
                    },
                }
            },
        }
        assert(entries_view(base@) == merge_entry(before, entries_view(given@)[i as int]));
        i += 1;
    }
}

} // verus!
