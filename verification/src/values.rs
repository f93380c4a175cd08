use crate::document::{
    entries_view, has_key, key_mark, lemma_has_key, lemma_has_key_concat, lemma_key_position, lemma_lookup_concat, list_view, lookup, Entries,
    Json, JsonView,
};
use crate::encoding::{
    address_text, address_to_string, base32_encode, base32_text, base64_encode, base64_text,
};
use crate::merge::{adds_to, well_formed};
use crate::transaction::{
    address_option_view, addresses_view, arguments_view, key_option_view, text_option_view,
    Address,
};
use vstd::prelude::*;

verus! {

/// The entries `fields` with one more entry at the end.
pub open spec fn with(fields: Entries, key: Seq<char>, value: JsonView) -> Entries {
    fields.push((key, value))
}

/// The entries `fields` with one more entry at the end if there is a value,
/// and unchanged if there is none.
pub open spec fn with_optional(fields: Entries, key: Seq<char>, value: Option<JsonView>) -> Entries {
    match value {
        Some(v) => fields.push((key, v)),
        None => fields,
    }
}

/// The value of a document that may be missing.
pub open spec fn option_view(value: Option<Json>) -> Option<JsonView> {
    match value {
        Some(v) => Some(v@),
        None => None,
    }
}

/// An address as the schema writes it: its checksummed text.
pub open spec fn address_value(address: Seq<u8>) -> JsonView {
    JsonView::Text(address_text(address))
}

/// Bytes as the schema writes a hash or a program: their base64 text.
pub open spec fn base64_value(bytes: Seq<u8>) -> JsonView {
    JsonView::Text(base64_text(bytes))
}

/// Bytes as the schema writes a participation key: their base32 text.
pub open spec fn base32_value(bytes: Seq<u8>) -> JsonView {
    JsonView::Text(base32_text(bytes))
}

/// Bytes passed through: a list with one number for each byte.
pub open spec fn bytes_value(bytes: Seq<u8>) -> JsonView {
    JsonView::List(Seq::new(bytes.len(), |i: int| JsonView::Number(bytes[i] as u64)))
}

/// Numbers passed through: a list with each of them.
pub open spec fn numbers_value(numbers: Seq<u64>) -> JsonView {
    JsonView::List(Seq::new(numbers.len(), |i: int| JsonView::Number(numbers[i])))
}

/// Call arguments: a list with the base64 text of each.
pub open spec fn arguments_value(arguments: Seq<Seq<u8>>) -> JsonView {
    JsonView::List(Seq::new(arguments.len(), |i: int| base64_value(arguments[i])))
}

/// Accounts: a list with the address text of each.
pub open spec fn accounts_value(accounts: Seq<Seq<u8>>) -> JsonView {
    JsonView::List(Seq::new(accounts.len(), |i: int| address_value(accounts[i])))
}

/// A text that may be missing, as a value that may be missing.
pub open spec fn optional_text(value: Option<Seq<char>>) -> Option<JsonView> {
    match value {
        Some(s) => Some(JsonView::Text(s)),
        None => None,
    }
}

/// A number that may be missing, as a value that may be missing.
pub open spec fn optional_number(value: Option<u64>) -> Option<JsonView> {
    match value {
        Some(n) => Some(JsonView::Number(n)),
        None => None,
    }
}

/// An address that may be missing, as a value that may be missing.
pub open spec fn optional_address(value: Option<Seq<u8>>) -> Option<JsonView> {
    match value {
        Some(a) => Some(address_value(a)),
        None => None,
    }
}

/// Bytes that may be missing, as a base64 text that may be missing.
pub open spec fn optional_base64(value: Option<Seq<u8>>) -> Option<JsonView> {
    match value {
        Some(b) => Some(base64_value(b)),
        None => None,
    }
}

/// Bytes that may be missing, as a base32 text that may be missing.
pub open spec fn optional_base32(value: Option<Seq<u8>>) -> Option<JsonView> {
    match value {
        Some(b) => Some(base32_value(b)),
        None => None,
    }
}

/// No entries, no key.
pub broadcast proof fn lemma_empty_has_key(key: Seq<char>)
    ensures
        !(#[trigger] has_key(Seq::<(Seq<char>, JsonView)>::empty(), key)),
{
}

/// One more entry adds its key to those that are there.
pub broadcast proof fn lemma_with_has_key(
    fields: Entries,
    key: Seq<char>,
    value: JsonView,
    other: Seq<char>,
)
    ensures
        #![trigger has_key(with(fields, key, value), other)]
        #![trigger lookup(with(fields, key, value), other)]
        has_key(with(fields, key, value), other) == (has_key(fields, other) || other == key),
        key_mark(other) != key_mark(key) ==> other != key,
        lookup(with(fields, key, value), other) == if has_key(fields, other) {
            lookup(fields, other)
        } else if other == key {
            Some(value)
        } else {
            None
        },
{
    let one = Seq::<(Seq<char>, JsonView)>::empty().push((key, value));
    assert(with(fields, key, value) =~= fields + one);
    lemma_has_key_concat(fields, one, other);
    lemma_lookup_concat(fields, one, other);
    assert(one[0] == (key, value));
    lemma_key_position(one, other, if other == key { 0 } else { 1 });
}

/// An entry that may be missing adds its key only where it is there.
pub broadcast proof fn lemma_with_optional_has_key(
    fields: Entries,
    key: Seq<char>,
    value: Option<JsonView>,
    other: Seq<char>,
)
    ensures
        #![trigger has_key(with_optional(fields, key, value), other)]
        #![trigger lookup(with_optional(fields, key, value), other)]
        has_key(with_optional(fields, key, value), other) == (has_key(fields, other) || (value
            is Some && other == key)),
        key_mark(other) != key_mark(key) ==> other != key,
        lookup(with_optional(fields, key, value), other) == if has_key(fields, other) {
            lookup(fields, other)
        } else if value is Some && other == key {
            value
        } else {
            None
        },
{
    if value is Some {
        lemma_with_has_key(fields, key, value->0, other);
    }
}

/// No entries add to any base.
pub broadcast proof fn lemma_empty_adds_to(base: Entries)
    ensures
        #[trigger] adds_to(base, Seq::<(Seq<char>, JsonView)>::empty()),
{
}

/// Entries that add to a base still do so with one more entry whose value is
/// no null and whose key is new to both.
pub broadcast proof fn lemma_with_adds_to(
    base: Entries,
    fields: Entries,
    key: Seq<char>,
    value: JsonView,
)
    ensures
        (adds_to(base, fields) && !has_key(base, key) && !has_key(fields, key) && !(value
            is Null)) ==> #[trigger] adds_to(base, with(fields, key, value)),
{
    lemma_has_key(fields, key);
}

/// Entries that add to a base still do so with one more entry that may be
/// missing, if its value is no null and its key is new to both.
pub broadcast proof fn lemma_with_optional_adds_to(
    base: Entries,
    fields: Entries,
    key: Seq<char>,
    value: Option<JsonView>,
)
    ensures
        (adds_to(base, fields) && !has_key(base, key) && !has_key(fields, key) && !(value
            == Some(JsonView::Null))) ==> #[trigger] adds_to(
            base,
            with_optional(fields, key, value),
        ),
{
    if value is Some {
        lemma_with_adds_to(base, fields, key, value->0);
    }
}

/// Two runs of entries that each add to a base, the second of which adds to
/// the first, add to the base when put together.
pub proof fn lemma_concat_adds_to(base: Entries, first: Entries, second: Entries)
    requires
        adds_to(base, first),
        adds_to(base, second),
        adds_to(first, second),
    ensures
        adds_to(base, first + second),
        adds_to(base + first, second),
{
    let both = first + second;
    assert forall|i: int, j: int| 0 <= i < j < both.len() implies (#[trigger] both[i]).0 != (
    #[trigger] both[j]).0 by {
        if j >= first.len() && i < first.len() {
            lemma_has_key(first, second[j - first.len()].0);
        }
    }
    assert forall|j: int| 0 <= j < second.len() implies !has_key(
        base + first,
        (#[trigger] second[j]).0,
    ) by {
        lemma_has_key_concat(base, first, second[j].0);
    }
}

/// Whether every value among the entries is a mapping at every depth.
pub open spec fn values_well_formed(fields: Entries) -> bool {
    forall|i: int| 0 <= i < fields.len() ==> well_formed((#[trigger] fields[i]).1)
}

/// No entries hold no ill-formed value.
pub broadcast proof fn lemma_empty_values_well_formed()
    ensures
        #[trigger] values_well_formed(Seq::<(Seq<char>, JsonView)>::empty()),
{
}

/// One more entry with a well-formed value keeps the values well-formed.
pub broadcast proof fn lemma_with_values_well_formed(
    fields: Entries,
    key: Seq<char>,
    value: JsonView,
)
    ensures
        (values_well_formed(fields) && well_formed(value)) ==> #[trigger] values_well_formed(
            with(fields, key, value),
        ),
{
}

/// One more entry that may be missing keeps the values well-formed if its
/// value is.
pub broadcast proof fn lemma_with_optional_values_well_formed(
    fields: Entries,
    key: Seq<char>,
    value: Option<JsonView>,
)
    ensures
        (values_well_formed(fields) && (value is Some ==> well_formed(value->0)))
            ==> #[trigger] values_well_formed(with_optional(fields, key, value)),
{
}

/// A list of numbers, of texts or of addresses holds no object, so it is
/// well-formed.
pub broadcast proof fn lemma_bytes_value_well_formed(bytes: Seq<u8>)
    ensures
        #[trigger] well_formed(bytes_value(bytes)),
{
    reveal_with_fuel(well_formed, 2);
}

pub broadcast proof fn lemma_numbers_value_well_formed(numbers: Seq<u64>)
    ensures
        #[trigger] well_formed(numbers_value(numbers)),
{
    reveal_with_fuel(well_formed, 2);
}

pub broadcast proof fn lemma_arguments_value_well_formed(arguments: Seq<Seq<u8>>)
    ensures
        #[trigger] well_formed(arguments_value(arguments)),
{
    reveal_with_fuel(well_formed, 2);
}

pub broadcast proof fn lemma_accounts_value_well_formed(accounts: Seq<Seq<u8>>)
    ensures
        #[trigger] well_formed(accounts_value(accounts)),
{
    reveal_with_fuel(well_formed, 2);
}

/// Two runs of entries with well-formed values, put together, have
/// well-formed values.
pub proof fn lemma_concat_values_well_formed(first: Entries, second: Entries)
    requires
        values_well_formed(first),
        values_well_formed(second),
    ensures
        values_well_formed(first + second),
{
    let both = first + second;
    assert forall|i: int| 0 <= i < both.len() implies well_formed((#[trigger] both[i]).1) by {
        if i < first.len() {
            assert(both[i] == first[i]);
        } else {
            assert(both[i] == second[i - first.len()]);
        }
    }
}

/// Adds an entry at the end of `fields`.
pub fn put(fields: &mut Vec<(String, Json)>, key: &str, value: Json)
    ensures
        entries_view(final(fields)@) == with(entries_view(old(fields)@), key@, value@),
{
    fields.push((key.to_owned(), value));
    assert(entries_view(fields@) =~= with(entries_view(old(fields)@), key@, value@));
}

/// Adds an entry at the end of `fields` if there is a value.
pub fn put_optional(fields: &mut Vec<(String, Json)>, key: &str, value: Option<Json>)
    ensures
        entries_view(final(fields)@) == with_optional(
            entries_view(old(fields)@),
            key@,
            option_view(value),
        ),
{
    match value {
        Some(v) => {
            put(fields, key, v);
        },
        None => {},
    }
}

/// The checksummed text of an address.
pub fn address_json(address: &Address) -> (r: Json)
    ensures
        r@ == address_value(address@),
{
    Json::Text(address_to_string(&address.0))
}

/// The base64 text of some bytes.
pub fn base64_json(bytes: &[u8]) -> (r: Json)
    ensures
        r@ == base64_value(bytes@),
{
    Json::Text(base64_encode(bytes))
}

/// The list of numbers that passes bytes through.
pub fn bytes_json(bytes: &Vec<u8>) -> (r: Json)
    ensures
        r@ == bytes_value(bytes@),
{
    let mut items: Vec<Json> = Vec::new();
    let mut i: usize = 0;
    while i < bytes.len()
        invariant
            i <= bytes.len(),
            items@.len() == i,
            forall|j: int| 0 <= j < i ==> (#[trigger] items@[j])@ == JsonView::Number(bytes@[j] as u64),
        decreases bytes.len() - i,
    {
        items.push(Json::Number(bytes[i] as u64));
        i += 1;
    }
    assert(list_view(items@) =~= bytes_value(bytes@)->List_0);
    Json::List(items)
}

/// The list of some numbers.
pub fn numbers_json(numbers: &Vec<u64>) -> (r: Json)
    ensures
        r@ == numbers_value(numbers@),
{
    let mut items: Vec<Json> = Vec::new();
    let mut i: usize = 0;
    while i < numbers.len()
        invariant
            i <= numbers.len(),
            items@.len() == i,
            forall|j: int| 0 <= j < i ==> (#[trigger] items@[j])@ == JsonView::Number(numbers@[j]),
        decreases numbers.len() - i,
    {
        items.push(Json::Number(numbers[i]));
        i += 1;
    }
    assert(list_view(items@) =~= numbers_value(numbers@)->List_0);
    Json::List(items)
}

/// The list of the base64 texts of call arguments.
pub fn arguments_json(arguments: &Vec<Vec<u8>>) -> (r: Json)
    ensures
        r@ == arguments_value(arguments_view(arguments@)),
{
    let mut items: Vec<Json> = Vec::new();
    let mut i: usize = 0;
    while i < arguments.len()
        invariant
            i <= arguments.len(),
            items@.len() == i,
            forall|j: int| 0 <= j < i ==> (#[trigger] items@[j])@ == base64_value(arguments@[j]@),
        decreases arguments.len() - i,
    {
        items.push(base64_json(arguments[i].as_slice()));
        i += 1;
    }
    assert(list_view(items@) =~= arguments_value(arguments_view(arguments@))->List_0);
    Json::List(items)
}

/// The list of the address texts of accounts.
pub fn accounts_json(accounts: &Vec<Address>) -> (r: Json)
    ensures
        r@ == accounts_value(addresses_view(accounts@)),
{
    let mut items: Vec<Json> = Vec::new();
    let mut i: usize = 0;
    while i < accounts.len()
        invariant
            i <= accounts.len(),
            items@.len() == i,
            forall|j: int| 0 <= j < i ==> (#[trigger] items@[j])@ == address_value(accounts@[j]@),
        decreases accounts.len() - i,
    {
        items.push(address_json(&accounts[i]));
        i += 1;
    }
    assert(list_view(items@) =~= accounts_value(addresses_view(accounts@))->List_0);
    Json::List(items)
}

/// The text, where there is one.
pub fn optional_text_json(value: &Option<String>) -> (r: Option<Json>)
    ensures
        option_view(r) == optional_text(text_option_view(*value)),
{
    match value {
        Some(s) => Some(Json::Text(s.clone())),
        None => None,
    }
}

/// The number, where there is one.
pub fn optional_number_json(value: &Option<u64>) -> (r: Option<Json>)
    ensures
        option_view(r) == optional_number(*value),
{
    match value {
        Some(n) => Some(Json::Number(*n)),
        None => None,
    }
}

/// The address text, where there is an address.
pub fn optional_address_json(value: &Option<Address>) -> (r: Option<Json>)
    ensures
        option_view(r) == optional_address(address_option_view(*value)),
{
    match value {
        Some(a) => Some(address_json(a)),
        None => None,
    }
}

/// The base64 text, where there are bytes.
pub fn optional_base64_json(value: &Option<[u8; 32]>) -> (r: Option<Json>)
    ensures
        option_view(r) == optional_base64(key_option_view(*value)),
{
    match value {
        Some(b) => Some(base64_json(b.as_slice())),
        None => None,
    }
}

/// The base32 text, where there are bytes.
pub fn optional_base32_json(value: &Option<[u8; 32]>) -> (r: Option<Json>)
    ensures
        option_view(r) == optional_base32(key_option_view(*value)),
{
    match value {
        Some(b) => Some(Json::Text(base32_encode(b.as_slice()))),
        None => None,
    }
}

} // verus!
