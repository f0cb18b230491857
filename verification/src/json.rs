//! JSON values as the command handlers read and build them.

use crate::text::{signed_decimal, signed_decimal_text, str_same};
use vstd::prelude::*;

verus! {

/// A JSON value.
///
/// Numbers come in two kinds: whole numbers, held as an integer, and every
/// other number, held as the text it was written with. The handlers only ever
/// compute with whole numbers.
#[derive(Debug, PartialEq, Eq)]
pub enum Json {
    Null,
    Bool(bool),
    Int(i128),
    Decimal(String),
    Text(String),
    Array(Vec<Json>),
    Object(Vec<(String, Json)>),
}

/// Mathematical form of a [`Json`] value.
pub enum JsonView {
    Null,
    Bool(bool),
    Int(int),
    Decimal(Seq<char>),
    Text(Seq<char>),
    Array(Seq<JsonView>),
    Object(Seq<(Seq<char>, JsonView)>),
}

/// The value stored under `key` in a list of object entries: that of the first
/// entry with this key.
pub open spec fn lookup(entries: Seq<(Seq<char>, JsonView)>, key: Seq<char>) -> Option<JsonView>
    decreases entries.len(),
{
    if entries.len() == 0 {
        None
    } else if entries[0].0 == key {
        Some(entries[0].1)
    } else {
        lookup(entries.skip(1), key)
    }
}

impl JsonView {
    /// The JSON text of a value that has nothing inside it: `null`, `true`,
    /// `false`, a whole number in decimal, any other number as it was written.
    /// A string, an array or an object has none here.
    pub open spec fn plain_text(self) -> Option<Seq<char>> {
        match self {
            JsonView::Null => Some("null"@),
            JsonView::Bool(b) => Some(
                if b {
                    "true"@
                } else {
                    "false"@
                },
            ),
            JsonView::Int(n) => Some(signed_decimal_text(n)),
            JsonView::Decimal(text) => Some(text),
            _ => None,
        }
    }

    /// The JSON text that a value is quoted with: its own where it has nothing
    /// inside it, else the text `handed` in with it.
    pub open spec fn quoted_text(self, handed: Seq<char>) -> Seq<char> {
        match self.plain_text() {
            Some(text) => text,
            None => handed,
        }
    }

    /// The member `key` of an object; `None` for a missing member and for a
    /// value that is no object.
    pub open spec fn field(self, key: Seq<char>) -> Option<JsonView> {
        match self {
            JsonView::Object(entries) => lookup(entries, key),
            _ => None,
        }
    }
}

/// Mathematical form of one member of an object.
pub open spec fn member_view(member: (String, Json)) -> (Seq<char>, JsonView)
    decreases member,
{
    (member.0@, member.1.view())
}

impl View for Json {
    type V = JsonView;

    open spec fn view(&self) -> JsonView
        decreases self,
    {
        match self {
            Json::Null => JsonView::Null,
            Json::Bool(b) => JsonView::Bool(*b),
            Json::Int(n) => JsonView::Int(*n as int),
            Json::Decimal(s) => JsonView::Decimal(s@),
            Json::Text(s) => JsonView::Text(s@),
            Json::Array(items) => JsonView::Array(
                Seq::new(
                    items@.len(),
                    |i: int|
                        if 0 <= i < items@.len() {
                            items@[i].view()
                        } else {
                            JsonView::Null
                        },
                ),
            ),
            Json::Object(entries) => JsonView::Object(
                Seq::new(
                    entries@.len(),
                    |i: int|
                        if 0 <= i < entries@.len() {
                            member_view(entries@[i])
                        } else {
                            (Seq::<char>::empty(), JsonView::Null)
                        },
                ),
            ),
        }
    }
}

/// The view of an object holds the views of its members, in their order.
pub proof fn lemma_object_view(entries: Vec<(String, Json)>)
    ensures
        Json::Object(entries)@ is Object,
        Json::Object(entries)@->Object_0.len() == entries@.len(),
        forall|i: int|
            0 <= i < entries@.len() ==> (#[trigger] Json::Object(entries)@->Object_0[i]) == (
                entries@[i].0@,
                entries@[i].1@,
            ),
{
    reveal_with_fuel(member_view, 2);
    let all = Json::Object(entries)@->Object_0;
    assert forall|i: int| 0 <= i < entries@.len() implies (#[trigger] all[i]) == (
        entries@[i].0@,
        entries@[i].1@,
    ) by {
        assert(all[i] == member_view(entries@[i]));
        assert(member_view(entries@[i]) == (entries@[i].0@, entries@[i].1@));
    }
}

/// The view of an array holds the views of its items, in their order.
pub proof fn lemma_array_view(items: Vec<Json>)
    ensures
        Json::Array(items)@ is Array,
        Json::Array(items)@->Array_0.len() == items@.len(),
        forall|i: int|
            0 <= i < items@.len() ==> (#[trigger] Json::Array(items)@->Array_0[i]) == items@[i]@,
{
}

/// The views of the members of an object, in their order.
pub open spec fn members_view(entries: Seq<(String, Json)>) -> Seq<(Seq<char>, JsonView)> {
    Seq::new(entries.len(), |i: int| (entries[i].0@, entries[i].1@))
}

/// The views of the items of an array, in their order.
pub open spec fn items_view(items: Seq<Json>) -> Seq<JsonView> {
    Seq::new(items.len(), |i: int| items[i]@)
}

impl Json {
    /// The object with the given members.
    pub fn object(entries: Vec<(String, Json)>) -> (r: Json)
        ensures
            r@ == JsonView::Object(members_view(entries@)),
    {
        proof {
            lemma_object_view(entries);
            assert(Json::Object(entries)@->Object_0 =~= members_view(entries@));
        }
        Json::Object(entries)
    }

    /// The array with the given items.
    pub fn array(items: Vec<Json>) -> (r: Json)
        ensures
            r@ == JsonView::Array(items_view(items@)),
    {
        proof {
            lemma_array_view(items);
            assert(Json::Array(items)@->Array_0 =~= items_view(items@));
        }
        Json::Array(items)
    }

    /// The string value with the given text.
    pub fn text(s: &str) -> (r: Json)
        ensures
            r@ == JsonView::Text(s@),
    {
        Json::Text(s.to_owned())
    }

    /// The string value with the given text, or `null` where there is none.
    pub fn text_or_null(s: &Option<String>) -> (r: Json)
        ensures
            r@ == match s {
                Some(t) => JsonView::Text(t@),
                None => JsonView::Null,
            },
    {
        match s {
            Some(t) => Json::Text(t.clone()),
            None => Json::Null,
        }
    }

    /// The JSON text of a value that has nothing inside it.
    pub fn plain_text(&self) -> (r: Option<String>)
        ensures
            match r {
                Some(text) => self@.plain_text() == Some(text@),
                None => self@.plain_text() is None,
            },
    {
        match self {
            Json::Null => Some("null".to_owned()),
            Json::Bool(b) => Some(
                if *b {
                    "true".to_owned()
                } else {
                    "false".to_owned()
                },
            ),
            Json::Int(n) => Some(signed_decimal(*n)),
            Json::Decimal(text) => Some(text.clone()),
            _ => None,
        }
    }

    /// The JSON text that a value is quoted with: its own where it has nothing
    /// inside it, else the text `handed` in with it.
    pub fn quoted_text(&self, handed: &str) -> (r: String)
        ensures
            r@ == self@.quoted_text(handed@),
    {
        match self.plain_text() {
            Some(text) => text,
            None => handed.to_owned(),
        }
    }

    /// The member `key` of an object.
    pub fn get(&self, key: &str) -> (r: Option<&Json>)
        ensures
            match r {
                Some(v) => self@.field(key@) == Some(v@),
                None => self@.field(key@) is None,
            },
    {
        match self {
            Json::Object(entries) => {
                let ghost all = self@->Object_0;
                let mut i: usize = 0;
                proof {
                    lemma_object_view(*entries);
                    assert(all.skip(0) =~= all);
                }
                while i < entries.len()
                    invariant
                        i <= entries.len(),
                        self@ == JsonView::Object(all),
                        all.len() == entries.len(),
                        forall|j: int|
                            0 <= j < entries.len() ==> (#[trigger] all[j]) == (
                                entries@[j].0@,
                                entries@[j].1@,
                            ),
                        lookup(all, key@) == lookup(all.skip(i as int), key@),
                    decreases entries.len() - i,
                {
                    let entry = &entries[i];
                    let ghost rest = all.skip(i as int);
                    assert(rest[0] == all[i as int]);
                    if str_same(entry.0.as_str(), key) {
                        return Some(&entry.1);
                    }
                    assert(rest.skip(1) =~= all.skip(i + 1));
                    i += 1;
                }
                None
            },
            _ => None,
        }
    }

    /// The text of a string value.
    pub fn as_text(&self) -> (r: Option<&String>)
        ensures
            match r {
                Some(s) => self@ == JsonView::Text(s@),
                None => !(self@ is Text),
            },
    {
        match self {
            Json::Text(s) => Some(s),
            _ => None,
        }
    }

    /// The value of a boolean.
    pub fn as_bool(&self) -> (r: Option<bool>)
        ensures
            match r {
                Some(b) => self@ == JsonView::Bool(b),
                None => !(self@ is Bool),
            },
    {
        match self {
            Json::Bool(b) => Some(*b),
            _ => None,
        }
    }

    /// The value of a whole number.
    pub fn as_int(&self) -> (r: Option<i128>)
        ensures
            match r {
                Some(n) => self@ == JsonView::Int(n as int),
                None => !(self@ is Int),
            },
    {
        match self {
            Json::Int(n) => Some(*n),
            _ => None,
        }
    }

    /// Whether the value is `null`.
    pub fn is_null(&self) -> (r: bool)
        ensures
            r == (self@ is Null),
    {
        match self {
            Json::Null => true,
            _ => false,
        }
    }

    /// Whether the value is an object.
    pub fn is_object(&self) -> (r: bool)
        ensures
            r == (self@ is Object),
    {
        match self {
            Json::Object(_) => true,
            _ => false,
        }
    }

    /// A copy of the value.
    pub fn duplicate(&self) -> (r: Json)
        ensures
            r@ == self@,
        decreases self,
    {
        match self {
            Json::Null => Json::Null,
            Json::Bool(b) => Json::Bool(*b),
            Json::Int(n) => Json::Int(*n),
            Json::Decimal(s) => Json::Decimal(s.clone()),
            Json::Text(s) => Json::Text(s.clone()),
            Json::Array(items) => {
                let mut out: Vec<Json> = Vec::new();
                let mut i: usize = 0;
                while i < items.len()
                    invariant
                        i <= items.len(),
                        out.len() == i,
                        *self == Json::Array(*items),
                        forall|j: int| 0 <= j < i ==> (#[trigger] out@[j])@ == items@[j]@,
                    decreases items.len() - i,
                {
                    proof {
                        assert(decreases_to!(*self => self->Array_0));
                        assert(decreases_to!(items => items[i as int]));
                    }
                    let copy = items[i].duplicate();
                    out.push(copy);
                    i += 1;
                }
                let r = Json::Array(out);
                proof {
                    lemma_array_view(out);
                    lemma_array_view(*items);
                    assert(r@->Array_0 =~= self@->Array_0);
                }
                r
            },
            Json::Object(entries) => {
                let mut out: Vec<(String, Json)> = Vec::new();
                let mut i: usize = 0;
                while i < entries.len()
                    invariant
                        i <= entries.len(),
                        out.len() == i,
                        *self == Json::Object(*entries),
                        forall|j: int|
                            0 <= j < i ==> (#[trigger] out@[j]).0@ == entries@[j].0@ && out@[j].1@
                                == entries@[j].1@,
                    decreases entries.len() - i,
                {
                    let key = entries[i].0.clone();
                    proof {
                        assert(decreases_to!(*self => self->Object_0));
                        assert(decreases_to!(entries => entries[i as int]));
                        assert(decreases_to!(entries[i as int] => entries[i as int].1));
                    }
                    let copy = entries[i].1.duplicate();
                    out.push((key, copy));
                    i += 1;
                }
                let r = Json::Object(out);
                proof {
                    lemma_object_view(out);
                    lemma_object_view(*entries);
                    assert(r@->Object_0 =~= self@->Object_0);
                }
                r
            },
        }
    }
}

impl Clone for Json {
    fn clone(&self) -> (r: Json)
        ensures
            r@ == self@,
    {
        self.duplicate()
    }
}

} // verus!
