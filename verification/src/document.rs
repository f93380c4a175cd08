use vstd::prelude::*;

verus! {

/// A value of a schema document, as the wallet's JSON-like structure holds it.
///
/// An object keeps its entries in order; a lookup by key finds the first entry
/// with that key.
#[derive(Debug, PartialEq, Eq)]
pub enum Json {
    Null,
    Bool(bool),
    Number(u64),
    /// A number that is no unsigned 64-bit integer, kept as its decimal text.
    Decimal(String),
    Text(String),
    List(Vec<Json>),
    Object(Vec<(String, Json)>),
}

/// The mathematical value of a [`Json`].
pub ghost enum JsonView {
    Null,
    Bool(bool),
    Number(u64),
    Decimal(Seq<char>),
    Text(Seq<char>),
    List(Seq<JsonView>),
    Object(Seq<(Seq<char>, JsonView)>),
}

/// The entries of an object, in order.
pub type Entries = Seq<(Seq<char>, JsonView)>;

impl View for Json {
    type V = JsonView;

    open spec fn view(&self) -> JsonView
        decreases self,
    {
        match self {
            Json::Null => JsonView::Null,
            Json::Bool(b) => JsonView::Bool(*b),
            Json::Number(n) => JsonView::Number(*n),
            Json::Decimal(s) => JsonView::Decimal(s@),
            Json::Text(s) => JsonView::Text(s@),
            Json::List(items) => JsonView::List(list_view(items@)),
            Json::Object(entries) => JsonView::Object(entries_view(entries@)),
        }
    }
}

/// The values of a list of documents, item by item.
pub open spec fn list_view(items: Seq<Json>) -> Seq<JsonView>
    decreases items,
{
    Seq::new(
        items.len(),
        |i: int|
            if 0 <= i < items.len() {
                items[i].view()
            } else {
                JsonView::Null
            },
    )
}

/// The values of an object's entries, entry by entry.
pub open spec fn entries_view(entries: Seq<(String, Json)>) -> Entries
    decreases entries,
{
    Seq::new(
        entries.len(),
        |i: int|
            if 0 <= i < entries.len() {
                (entries[i].0@, entries[i].1.view())
            } else {
                (Seq::empty(), JsonView::Null)
            },
    )
}

/// The position of the first entry with key `key`, or `entries.len()` if there is none.
pub open spec fn key_position(entries: Entries, key: Seq<char>) -> int
    decreases entries.len(),
{
    if entries.len() == 0 {
        0
    } else if entries[0].0 == key {
        0
    } else {
        1 + key_position(entries.drop_first(), key)
    }
}

/// Whether some entry has key `key`.
pub open spec fn has_key(entries: Entries, key: Seq<char>) -> bool {
    key_position(entries, key) < entries.len()
}

/// The value under `key`: that of the first entry with this key.
pub open spec fn lookup(entries: Entries, key: Seq<char>) -> Option<JsonView> {
    if has_key(entries, key) {
        Some(entries[key_position(entries, key)].1)
    } else {
        None
    }
}

/// `key_position` is the least index whose entry has the key, and the length
/// where no entry has it.
pub proof fn lemma_key_position(entries: Entries, key: Seq<char>, at: int)
    requires
        0 <= at <= entries.len(),
        forall|i: int| 0 <= i < at ==> (#[trigger] entries[i]).0 != key,
        at == entries.len() || entries[at].0 == key,
    ensures
        key_position(entries, key) == at,
    decreases entries.len(),
{
    if entries.len() != 0 && at != 0 {
        let rest = entries.drop_first();
        assert forall|i: int| 0 <= i < at - 1 implies (#[trigger] rest[i]).0 != key by {
            assert(rest[i] == entries[i + 1]);
        }
        assert(entries[0].0 != key);
        lemma_key_position(rest, key, at - 1);
    }
}

/// What `key_position` returns: an index within bounds or the length, with no
/// entry of that key before it.
pub proof fn lemma_key_position_is_first(entries: Entries, key: Seq<char>)
    ensures
        0 <= key_position(entries, key) <= entries.len(),
        forall|i: int| 0 <= i < key_position(entries, key) ==> (#[trigger] entries[i]).0 != key,
        key_position(entries, key) < entries.len() ==> entries[key_position(entries, key)].0
            == key,
    decreases entries.len(),
{
    if entries.len() != 0 && entries[0].0 != key {
        let rest = entries.drop_first();
        lemma_key_position_is_first(rest, key);
        assert forall|i: int| 0 <= i < key_position(entries, key) implies (
        #[trigger] entries[i]).0 != key by {
            if i > 0 {
                assert(rest[i - 1] == entries[i]);
            }
        }
    }
}

/// A few parts of a key: its length and, where it is long enough, its
/// first, fourth and sixth character. Keys that differ in one of them are
/// different keys.
pub open spec fn key_mark(key: Seq<char>) -> (nat, char, char, char) {
    (
        key.len(),
        if key.len() > 0 {
            key[0]
        } else {
            ' '
        },
        if key.len() > 3 {
            key[3]
        } else {
            ' '
        },
        if key.len() > 5 {
            key[5]
        } else {
            ' '
        },
    )
}

/// A key is found exactly when some entry has it.
pub proof fn lemma_has_key(entries: Entries, key: Seq<char>)
    ensures
        has_key(entries, key) <==> exists|i: int|
            0 <= i < entries.len() && (#[trigger] entries[i]).0 == key,
{
    lemma_key_position_is_first(entries, key);
    if has_key(entries, key) {
        assert(entries[key_position(entries, key)].0 == key);
    }
}

/// The keys of two runs of entries put together are the keys of either.
pub broadcast proof fn lemma_has_key_concat(first: Entries, second: Entries, key: Seq<char>)
    ensures
        #[trigger] has_key(first + second, key) == (has_key(first, key) || has_key(second, key)),
{
    let both = first + second;
    lemma_has_key(both, key);
    lemma_has_key(first, key);
    lemma_has_key(second, key);
    if has_key(first, key) {
        let i = choose|i: int| 0 <= i < first.len() && (#[trigger] first[i]).0 == key;
        assert(both[i] == first[i]);
    }
    if has_key(second, key) {
        let i = choose|i: int| 0 <= i < second.len() && (#[trigger] second[i]).0 == key;
        assert(both[first.len() + i] == second[i]);
    }
    if has_key(both, key) {
        let i = choose|i: int| 0 <= i < both.len() && (#[trigger] both[i]).0 == key;
        if i < first.len() {
            assert(both[i] == first[i]);
        } else {
            assert(both[i] == second[i - first.len()]);
        }
    }
}

/// The value under a key of two runs of entries put together is that of the
/// first run where it has the key, and else that of the second.
pub broadcast proof fn lemma_lookup_concat(first: Entries, second: Entries, key: Seq<char>)
    ensures
        #[trigger] lookup(first + second, key) == if has_key(first, key) {
            lookup(first, key)
        } else {
            lookup(second, key)
        },
{
    let both = first + second;
    lemma_has_key_concat(first, second, key);
    lemma_key_position_is_first(first, key);
    lemma_key_position_is_first(second, key);
    if has_key(first, key) {
        let at = key_position(first, key);
        assert forall|i: int| 0 <= i < at implies (#[trigger] both[i]).0 != key by {
            assert(both[i] == first[i]);
        }
        assert(both[at] == first[at]);
        lemma_key_position(both, key, at);
    } else if has_key(second, key) {
        let at = key_position(second, key);
        lemma_has_key(first, key);
        assert forall|i: int| 0 <= i < first.len() + at implies (#[trigger] both[i]).0 != key by {
            if i < first.len() {
                assert(both[i] == first[i]);
            } else {
                assert(both[i] == second[i - first.len()]);
            }
        }
        assert(both[first.len() + at] == second[at]);
        lemma_key_position(both, key, first.len() + at);
    }
}

impl Json {
    /// The index of the first entry of `entries` whose key is `key`.
    pub fn find_key(entries: &Vec<(String, Json)>, key: &String) -> (r: Option<usize>)
        ensures
            match r {
                Some(at) => at < entries.len() && at == key_position(
                    entries_view(entries@),
                    key@,
                ),
                None => !has_key(entries_view(entries@), key@),
            },
    {
        let mut i: usize = 0;
        while i < entries.len()
            invariant
                i <= entries.len(),
                forall|j: int| 0 <= j < i ==> (#[trigger] entries_view(entries@)[j]).0 != key@,
            decreases entries.len() - i,
        {
            if entries[i].0 == *key {
                proof {
                    lemma_key_position(entries_view(entries@), key@, i as int);
                }
                return Some(i);
            }
            i += 1;
        }
        proof {
            lemma_key_position(entries_view(entries@), key@, i as int);
        }
        None
    }

    /// The value under `key` if this is an object that has the key.
    pub fn get(&self, key: &String) -> (r: Option<&Json>)
        ensures
            match r {
                Some(v) => self@ is Object && lookup(self@->Object_0, key@) == Some(v@),
                None => !(self@ is Object) || lookup(self@->Object_0, key@) is None,
            },
    {
        match self {
            Json::Object(entries) => match Json::find_key(entries, key) {
                Some(at) => Some(&entries[at].1),
                None => None,
            },
            _ => None,
        }
    }
}

} // verus!
