//! Items of a key/value document store (DynamoDB's data model) as plain values,
//! and the requests that the services hand to the store.

use vstd::prelude::*;
use crate::text::str_eq;

verus! {

/// One attribute value. `Other` stands for every type that the services never
/// read or write (lists, sets, binary, null).
pub enum AttrValue {
    S(String),
    N(String),
    Bool(bool),
    M(Vec<Field>),
    Other,
}

/// A named attribute.
pub struct Field {
    pub name: String,
    pub value: AttrValue,
}

/// A stored item, or the key of one: its attributes, in any order. Items that
/// the services build hold no two attributes of one name (`distinct_names`).
pub struct Item {
    pub fields: Vec<Field>,
}

/// A call to the store that failed.
pub struct StoreError;

/// Write `item` into `table`.
pub struct PutItemRequest {
    pub table: String,
    pub item: Item,
}

/// Read or delete the item of `table` under `key`.
pub struct KeyRequest {
    pub table: String,
    pub key: Item,
}

/// The value of the first attribute called `name`.
pub open spec fn find_field(fields: Seq<Field>, name: Seq<char>) -> Option<AttrValue>
    decreases fields.len(),
{
    if fields.len() == 0 {
        None
    } else if fields[0].name@ == name {
        Some(fields[0].value)
    } else {
        find_field(fields.drop_first(), name)
    }
}

/// No two attributes share a name.
pub open spec fn distinct_names(fields: Seq<Field>) -> bool {
    forall|i: int, j: int|
        0 <= i < fields.len() && 0 <= j < fields.len() && i != j ==> #[trigger] fields[i].name@
            != #[trigger] fields[j].name@
}

/// Among distinctly named attributes, the one at `i` is what a lookup of its
/// name finds, wherever it stands.
pub proof fn lemma_find_distinct(fields: Seq<Field>, i: int)
    requires
        distinct_names(fields),
        0 <= i < fields.len(),
    ensures
        find_field(fields, fields[i].name@) == Some(fields[i].value),
    decreases fields.len(),
{
    if i > 0 {
        assert(fields[0].name@ != fields[i].name@);
        let rest = fields.drop_first();
        assert(rest[i - 1] == fields[i]);
        assert forall|a: int, b: int|
            0 <= a < rest.len() && 0 <= b < rest.len() && a != b implies #[trigger] rest[a].name@
                != #[trigger] rest[b].name@ by {
            assert(rest[a] == fields[a + 1] && rest[b] == fields[b + 1]);
        }
        lemma_find_distinct(rest, i - 1);
    }
}

/// The text of attribute `name` where it is a string.
pub open spec fn string_attr(fields: Seq<Field>, name: Seq<char>) -> Option<Seq<char>> {
    match find_field(fields, name) {
        Some(AttrValue::S(s)) => Some(s@),
        _ => None,
    }
}

/// The numeral of attribute `name` where it is a number.
pub open spec fn number_attr(fields: Seq<Field>, name: Seq<char>) -> Option<Seq<char>> {
    match find_field(fields, name) {
        Some(AttrValue::N(s)) => Some(s@),
        _ => None,
    }
}

/// Attribute `name` where it is a boolean.
pub open spec fn bool_attr(fields: Seq<Field>, name: Seq<char>) -> Option<bool> {
    match find_field(fields, name) {
        Some(AttrValue::Bool(b)) => Some(b),
        _ => None,
    }
}

/// The attributes of attribute `name` where it is a map.
pub open spec fn map_attr(fields: Seq<Field>, name: Seq<char>) -> Option<Seq<Field>> {
    match find_field(fields, name) {
        Some(AttrValue::M(m)) => Some(m@),
        _ => None,
    }
}

/// `f` is the string attribute `name` holding `text`.
pub open spec fn is_string_field(f: Field, name: Seq<char>, text: Seq<char>) -> bool {
    f.name@ == name && (f.value matches AttrValue::S(s) && s@ == text)
}

/// `f` is the number attribute `name` holding the numeral `text`.
pub open spec fn is_number_field(f: Field, name: Seq<char>, text: Seq<char>) -> bool {
    f.name@ == name && (f.value matches AttrValue::N(s) && s@ == text)
}

/// The first attribute called `name`.
pub fn get_field<'a>(fields: &'a Vec<Field>, name: &str) -> (r: Option<&'a AttrValue>)
    ensures
        r is None <==> find_field(fields@, name@) is None,
        r matches Some(v) ==> find_field(fields@, name@) == Some(*v),
{
    let mut i: usize = 0;
    assert(fields@.skip(0) =~= fields@);
    while i < fields.len()
        invariant
            i <= fields@.len(),
            find_field(fields@, name@) == find_field(fields@.skip(i as int), name@),
        decreases fields@.len() - i,
    {
        assert(fields@.skip(i as int)[0] == fields@[i as int]);
        if str_eq(fields[i].name.as_str(), name) {
            return Some(&fields[i].value);
        }
        assert(fields@.skip(i as int).drop_first() =~= fields@.skip(i + 1));
        i = i + 1;
    }
    None
}

/// The text of string attribute `name`.
pub fn get_string<'a>(fields: &'a Vec<Field>, name: &str) -> (r: Option<&'a String>)
    ensures
        r is None <==> string_attr(fields@, name@) is None,
        r matches Some(s) ==> string_attr(fields@, name@) == Some(s@),
{
    match get_field(fields, name) {
        Some(AttrValue::S(s)) => Some(s),
        _ => None,
    }
}

/// The numeral of number attribute `name`.
pub fn get_number<'a>(fields: &'a Vec<Field>, name: &str) -> (r: Option<&'a String>)
    ensures
        r is None <==> number_attr(fields@, name@) is None,
        r matches Some(s) ==> number_attr(fields@, name@) == Some(s@),
{
    match get_field(fields, name) {
        Some(AttrValue::N(s)) => Some(s),
        _ => None,
    }
}

/// Boolean attribute `name`.
pub fn get_bool(fields: &Vec<Field>, name: &str) -> (r: Option<bool>)
    ensures
        r == bool_attr(fields@, name@),
{
    match get_field(fields, name) {
        Some(AttrValue::Bool(b)) => Some(*b),
        _ => None,
    }
}

/// The attributes of map attribute `name`.
pub fn get_map<'a>(fields: &'a Vec<Field>, name: &str) -> (r: Option<&'a Vec<Field>>)
    ensures
        r is None <==> map_attr(fields@, name@) is None,
        r matches Some(m) ==> map_attr(fields@, name@) == Some(m@),
{
    match get_field(fields, name) {
        Some(AttrValue::M(m)) => Some(m),
        _ => None,
    }
}

/// A string attribute.
pub fn string_field(name: &str, text: String) -> (f: Field)
    ensures
        is_string_field(f, name@, text@),
{
    Field { name: String::from_str(name), value: AttrValue::S(text) }
}

/// A number attribute holding the numeral `text`.
pub fn number_field(name: &str, text: String) -> (f: Field)
    ensures
        is_number_field(f, name@, text@),
{
    Field { name: String::from_str(name), value: AttrValue::N(text) }
}

/// A key of one string attribute.
pub fn string_key(name: &str, text: String) -> (k: Item)
    ensures
        k.fields@.len() == 1,
        is_string_field(k.fields@[0], name@, text@),
{
    let mut fields: Vec<Field> = Vec::new();
    fields.push(string_field(name, text));
    Item { fields }
}

} // verus!
