//! A self-describing key-value document tree: the interchange form of the
//! records. Objects keep their entries in order; a lookup finds the first
//! entry with the wanted key.
use vstd::prelude::*;
use vstd::string::StringExecFns;

verus! {

/// The shape of a document node.
#[derive(Clone, Copy, PartialEq, Eq, Structural, Debug)]
pub enum Kind {
    Null,
    Bool,
    Number,
    Text,
    List,
    Object,
}

/// Abstract value of a document node.
pub enum Doc {
    Null,
    Bool(bool),
    Number(u64),
    Text(Seq<char>),
    List(Seq<Doc>),
    Object(Seq<(Seq<char>, Doc)>),
}

/// One node of a document.
#[derive(Debug, PartialEq)]
pub enum Value {
    Null,
    Bool(bool),
    Number(u64),
    Text(String),
    List(Vec<Value>),
    Object(Vec<Entry>),
}

/// One key-value entry of an object node.
#[derive(Debug, PartialEq)]
pub struct Entry {
    pub key: String,
    pub value: Value,
}

pub open spec fn value_view(v: Value) -> Doc
    decreases v,
{
    match v {
        Value::Null => Doc::Null,
        Value::Bool(b) => Doc::Bool(b),
        Value::Number(n) => Doc::Number(n),
        Value::Text(s) => Doc::Text(s@),
        Value::List(items) => Doc::List(
            Seq::new(
                items.len() as nat,
                |i: int|
                    if 0 <= i < items.len() {
                        value_view(items[i])
                    } else {
                        Doc::Null
                    },
            ),
        ),
        Value::Object(entries) => Doc::Object(
            Seq::new(
                entries.len() as nat,
                |i: int|
                    if 0 <= i < entries.len() {
                        (entries[i].key@, value_view(entries[i].value))
                    } else {
                        (Seq::empty(), Doc::Null)
                    },
            ),
        ),
    }
}

impl View for Value {
    type V = Doc;

    open spec fn view(&self) -> Doc {
        value_view(*self)
    }
}

pub open spec fn kind_of(d: Doc) -> Kind {
    match d {
        Doc::Null => Kind::Null,
        Doc::Bool(_) => Kind::Bool,
        Doc::Number(_) => Kind::Number,
        Doc::Text(_) => Kind::Text,
        Doc::List(_) => Kind::List,
        Doc::Object(_) => Kind::Object,
    }
}

/// The value of the first entry whose key is `key`.
pub open spec fn lookup(entries: Seq<(Seq<char>, Doc)>, key: Seq<char>) -> Option<Doc>
    decreases entries.len(),
{
    if entries.len() == 0 {
        None
    } else if entries[0].0 == key {
        Some(entries[0].1)
    } else {
        lookup(entries.drop_first(), key)
    }
}

/// A lookup in a single entry.
pub broadcast proof fn lemma_single_lookup(k: Seq<char>, d: Doc, key: Seq<char>)
    ensures
        #[trigger] lookup(seq![(k, d)], key) == (if k == key { Some(d) } else { None::<Doc> }),
        lookup(Seq::<(Seq<char>, Doc)>::empty(), key) is None,
{
    reveal_with_fuel(lookup, 2);
}

/// Abstract value of the entries of an object node.
pub open spec fn entries_view(entries: Seq<Entry>) -> Seq<(Seq<char>, Doc)> {
    Seq::new(entries.len(), |i: int| (entries[i].key@, entries[i].value@))
}

/// A lookup in two runs of entries searches the first run, then the second.
pub broadcast proof fn lemma_lookup_append(a: Seq<(Seq<char>, Doc)>, b: Seq<(Seq<char>, Doc)>, key: Seq<char>)
    ensures
        #[trigger] lookup(a + b, key) == (match lookup(a, key) {
            Some(d) => Some(d),
            None => lookup(b, key),
        }),
    decreases a.len(),
{
    if a.len() > 0 {
        assert((a + b).drop_first() =~= a.drop_first() + b);
        lemma_lookup_append(a.drop_first(), b, key);
    } else {
        assert(a + b =~= b);
    }
}

/// The value under `key`, where an explicit null counts as absent.
pub open spec fn present(entries: Seq<(Seq<char>, Doc)>, key: Seq<char>) -> Option<Doc> {
    match lookup(entries, key) {
        Some(Doc::Null) => None,
        other => other,
    }
}

pub proof fn lemma_object_view(entries: Vec<Entry>)
    ensures
        Value::Object(entries)@ == Doc::Object(entries_view(entries@)),
{
    assert(Value::Object(entries)@->Object_0 =~= entries_view(entries@));
}

pub proof fn lemma_list_view(items: Vec<Value>)
    ensures
        Value::List(items)@ == Doc::List(items@.map_values(|x: Value| x@)),
{
    assert(Value::List(items)@->List_0 =~= items@.map_values(|x: Value| x@));
}

/// The first entry of `entries` whose key is `key`.
pub fn find<'a>(entries: &'a Vec<Entry>, key: &str) -> (r: Option<&'a Value>)
    ensures
        match r {
            Some(v) => lookup(entries_view(entries@), key@) == Some(v@),
            None => lookup(entries_view(entries@), key@) is None,
        },
{
    let k = String::from_str(key);
    let ghost all = entries_view(entries@);
    let mut i: usize = 0;
    assert(all.subrange(0, all.len() as int) =~= all);
    while i < entries.len()
        invariant
            0 <= i <= entries.len(),
            k@ == key@,
            all == entries_view(entries@),
            lookup(all, key@) == lookup(all.subrange(i as int, all.len() as int), key@),
        decreases entries.len() - i,
    {
        let ghost rest = all.subrange(i as int, all.len() as int);
        assert(rest.drop_first() =~= all.subrange(i + 1, all.len() as int));
        if entries[i].key == k {
            return Some(&entries[i].value);
        }
        i = i + 1;
    }
    None
}

impl Value {
    pub fn kind(&self) -> (k: Kind)
        ensures
            k == kind_of(self@),
    {
        match self {
            Value::Null => Kind::Null,
            Value::Bool(_) => Kind::Bool,
            Value::Number(_) => Kind::Number,
            Value::Text(_) => Kind::Text,
            Value::List(_) => Kind::List,
            Value::Object(_) => Kind::Object,
        }
    }
}

} // verus!
