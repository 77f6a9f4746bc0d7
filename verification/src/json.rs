//! A small model of JSON documents, and the reading and writing of them.

use crate::error::Error;
use crate::outside::{json_parse, json_text, json_to_value, parse_value, value_to_json, value_to_text};
use crate::text::str_eq;
use vstd::prelude::*;

verus! {

/// A JSON document as the library reads and writes it.
#[derive(Debug, PartialEq, Eq)]
pub enum Json {
    Null,
    Bool(bool),
    /// A number. `Some` holds a non-negative integer below 2^64; `None`
    /// stands for any other number, whose value is not kept.
    Number(Option<u64>),
    String(String),
    Array(Vec<Json>),
    /// The members of an object in the order they were written. Where a
    /// name occurs twice, the later member counts.
    Object(Vec<(String, Json)>),
}

/// The mathematical value of a [`Json`] document.
pub enum JsonView {
    Null,
    Bool(bool),
    Number(Option<u64>),
    String(Seq<char>),
    Array(Seq<JsonView>),
    Object(Map<Seq<char>, JsonView>),
}

/// The member called `name` in a list of members: the last one of that
/// name, if there is any.
pub open spec fn lookup(members: Seq<(Seq<char>, JsonView)>, name: Seq<char>) -> Option<JsonView>
    decreases members.len(),
{
    if members.len() == 0 {
        None
    } else if members.last().0 == name {
        Some(members.last().1)
    } else {
        lookup(members.drop_last(), name)
    }
}

/// The map that a list of members denotes: later members override earlier
/// ones of the same name.
pub open spec fn members_map(members: Seq<(Seq<char>, JsonView)>) -> Map<Seq<char>, JsonView>
    decreases members.len(),
{
    if members.len() == 0 {
        Map::empty()
    } else {
        members_map(members.drop_last()).insert(members.last().0, members.last().1)
    }
}

impl JsonView {
    /// Whether every number in the document is one whose value is kept.
    /// Only such a document can be written out as text.
    pub open spec fn writable(self) -> bool
        decreases self,
    {
        match self {
            JsonView::Number(n) => n is Some,
            JsonView::Array(items) => forall|i: int|
                0 <= i < items.len() ==> (#[trigger] items[i]).writable(),
            JsonView::Object(members) => members.dom().finite() && forall|name: Seq<char>|
                members.contains_key(name) ==> (#[trigger] members[name]).writable(),
            _ => true,
        }
    }

    /// The member called `name`, where the document is an object that has
    /// one.
    pub open spec fn member(self, name: Seq<char>) -> Option<JsonView> {
        match self {
            JsonView::Object(members) => if members.contains_key(name) {
                Some(members[name])
            } else {
                None
            },
            _ => None,
        }
    }

    /// The text, where the document is a string.
    pub open spec fn as_text(self) -> Option<Seq<char>> {
        match self {
            JsonView::String(text) => Some(text),
            _ => None,
        }
    }

    /// The truth value, where the document is one.
    pub open spec fn as_bool(self) -> Option<bool> {
        match self {
            JsonView::Bool(b) => Some(b),
            _ => None,
        }
    }

    /// The number, where the document is a non-negative integer below 2^64.
    pub open spec fn as_integer(self) -> Option<u64> {
        match self {
            JsonView::Number(n) => n,
            _ => None,
        }
    }

    /// The items, where the document is an array.
    pub open spec fn as_items(self) -> Option<Seq<JsonView>> {
        match self {
            JsonView::Array(items) => Some(items),
            _ => None,
        }
    }
}

/// The mathematical value of a document.
pub open spec fn json_view(document: Json) -> JsonView
    decreases document,
{
    match document {
        Json::Null => JsonView::Null,
        Json::Bool(b) => JsonView::Bool(b),
        Json::Number(n) => JsonView::Number(n),
        Json::String(s) => JsonView::String(s@),
        Json::Array(items) => JsonView::Array(items_view(items@)),
        Json::Object(members) => JsonView::Object(members_map(members_view(members@))),
    }
}

/// The views of a list of documents, one by one.
pub open spec fn items_view(items: Seq<Json>) -> Seq<JsonView>
    decreases items,
{
    if items.len() == 0 {
        Seq::empty()
    } else {
        items_view(items.drop_last()).push(json_view(items.last()))
    }
}

/// The views of a list of members, one by one.
pub open spec fn members_view(members: Seq<(String, Json)>) -> Seq<(Seq<char>, JsonView)>
    decreases members,
{
    if members.len() == 0 {
        Seq::empty()
    } else {
        members_view(members.drop_last()).push((members.last().0@, json_view(members.last().1)))
    }
}

impl View for Json {
    type V = JsonView;

    open spec fn view(&self) -> JsonView {
        json_view(*self)
    }
}

/// [`items_view`] goes item by item.
pub proof fn lemma_items_view(items: Seq<Json>)
    ensures
        items_view(items).len() == items.len(),
        forall|i: int| 0 <= i < items.len() ==> (#[trigger] items_view(items)[i]) == items[i]@,
    decreases items.len(),
{
    if items.len() > 0 {
        lemma_items_view(items.drop_last());
    }
}

/// [`members_view`] goes member by member.
pub proof fn lemma_members_view(members: Seq<(String, Json)>)
    ensures
        members_view(members).len() == members.len(),
        forall|i: int|
            0 <= i < members.len() ==> (#[trigger] members_view(members)[i]) == (
                members[i].0@,
                members[i].1@,
            ),
    decreases members.len(),
{
    if members.len() > 0 {
        lemma_members_view(members.drop_last());
    }
}

/// An object without members can be put into text.
pub proof fn lemma_writable_empty()
    ensures
        JsonView::Object(Map::empty()).writable(),
{
}

/// An object stays fit for text when a member that is fit for it is put in.
pub proof fn lemma_writable_insert(
    members: Map<Seq<char>, JsonView>,
    name: Seq<char>,
    member: JsonView,
)
    requires
        JsonView::Object(members).writable(),
        member.writable(),
    ensures
        JsonView::Object(members.insert(name, member)).writable(),
{
    let extended = members.insert(name, member);
    assert forall|other: Seq<char>| extended.contains_key(other) implies (#[trigger] extended[other]).writable() by {
        if other != name {
            assert(members.contains_key(other));
            assert(members[other].writable());
        }
    }
}

/// An array is fit for text when each of its items is.
pub proof fn lemma_writable_array(items: Seq<JsonView>)
    requires
        forall|i: int| 0 <= i < items.len() ==> (#[trigger] items[i]).writable(),
    ensures
        JsonView::Array(items).writable(),
{
}

/// Each item of an array that is fit for text is fit for it.
pub proof fn lemma_writable_item(items: Seq<JsonView>, at: int)
    requires
        JsonView::Array(items).writable(),
        0 <= at < items.len(),
    ensures
        items[at].writable(),
{
    let whole = JsonView::Array(items);
    assert(whole.writable());
    assert(whole->Array_0 == items);
    assert(forall|i: int| 0 <= i < items.len() ==> (#[trigger] items[i]).writable());
}

/// [`members_map`] and [`lookup`] agree: a name is in the map exactly when a
/// member has it, and the map then holds the last such member.
pub proof fn lemma_members_map_lookup(members: Seq<(Seq<char>, JsonView)>, name: Seq<char>)
    ensures
        members_map(members).dom().finite(),
        members_map(members).contains_key(name) <==> lookup(members, name) is Some,
        lookup(members, name) matches Some(found) ==> members_map(members)[name] == found,
    decreases members.len(),
{
    if members.len() > 0 {
        lemma_members_map_lookup(members.drop_last(), name);
    }
}

/// Whether no member after the one at `at` has its name, so that it is the
/// one that counts.
pub open spec fn last_of_name(members: Seq<(Seq<char>, JsonView)>, at: int) -> bool {
    forall|later: int| at < later < members.len() ==> (#[trigger] members[later]).0 != members[at].0
}

/// Where the last member called `name` stands, or -1 where there is none.
pub open spec fn last_index(members: Seq<(Seq<char>, JsonView)>, name: Seq<char>) -> int
    decreases members.len(),
{
    if members.len() == 0 {
        -1
    } else if members.last().0 == name {
        members.len() - 1
    } else {
        last_index(members.drop_last(), name)
    }
}

/// [`lookup`] finds the member at [`last_index`].
pub proof fn lemma_last_index(members: Seq<(Seq<char>, JsonView)>, name: Seq<char>)
    ensures
        -1 <= last_index(members, name) < members.len(),
        lookup(members, name) is Some <==> last_index(members, name) >= 0,
        last_index(members, name) >= 0 ==> {
            let at = last_index(members, name);
            &&& members[at].0 == name
            &&& lookup(members, name) == Some(members[at].1)
            &&& last_of_name(members, at)
        },
    decreases members.len(),
{
    if members.len() > 0 && members.last().0 != name {
        let shorter = members.drop_last();
        lemma_last_index(shorter, name);
        let at = last_index(shorter, name);
        if at >= 0 {
            assert(members[at] == shorter[at]);
            assert forall|later: int| at < later < members.len() implies (#[trigger] members[later]).0
                != members[at].0 by {
                if later < shorter.len() {
                    assert(shorter[later] == members[later]);
                }
            }
        }
    }
}

/// A member that no later one replaces is the one that [`lookup`] finds
/// under its name.
pub proof fn lemma_lookup_last_of_name(members: Seq<(Seq<char>, JsonView)>, at: int)
    requires
        0 <= at < members.len(),
        last_of_name(members, at),
    ensures
        lookup(members, members[at].0) == Some(members[at].1),
    decreases members.len(),
{
    if at < members.len() - 1 {
        let shorter = members.drop_last();
        assert(members[members.len() - 1].0 != members[at].0);
        assert(shorter[at] == members[at]);
        assert forall|later: int| at < later < shorter.len() implies (#[trigger] shorter[later]).0
            != shorter[at].0 by {
            assert(shorter[later] == members[later]);
        }
        lemma_lookup_last_of_name(shorter, at);
    }
}

/// An object is fit for text exactly when each of its members is that no
/// later one replaces.
pub proof fn lemma_object_writable(members: Seq<(Seq<char>, JsonView)>)
    ensures
        JsonView::Object(members_map(members)).writable() <==> forall|at: int|
            0 <= at < members.len() && last_of_name(members, at) ==> (#[trigger] members[at]).1.writable(),
{
    let map = members_map(members);
    lemma_members_map_lookup(members, Seq::empty());
    if JsonView::Object(map).writable() {
        assert forall|at: int| 0 <= at < members.len() && last_of_name(members, at) implies (
        #[trigger] members[at]).1.writable() by {
            lemma_lookup_last_of_name(members, at);
            lemma_members_map_lookup(members, members[at].0);
            assert(map.contains_key(members[at].0));
            assert(map[members[at].0].writable());
        }
    }
    if forall|at: int|
        0 <= at < members.len() && last_of_name(members, at) ==> (#[trigger] members[at]).1.writable() {
        assert forall|name: Seq<char>| map.contains_key(name) implies (#[trigger] map[name]).writable() by {
            lemma_members_map_lookup(members, name);
            lemma_last_index(members, name);
            let at = last_index(members, name);
            assert(members[at].1.writable());
        }
    }
}

/// Appending a member to a list puts it into the map.
pub proof fn lemma_members_map_push(
    members: Seq<(Seq<char>, JsonView)>,
    name: Seq<char>,
    member: JsonView,
)
    ensures
        members_map(members.push((name, member))) == members_map(members).insert(name, member),
{
    assert(members.push((name, member)).drop_last() =~= members);
}

/// Whether a later member has the name of the member at `at`.
fn replaced_later(members: &Vec<(String, Json)>, at: usize) -> (replaced: bool)
    requires
        at < members@.len(),
    ensures
        replaced == !last_of_name(members_view(members@), at as int),
{
    let ghost all = members_view(members@);
    proof {
        lemma_members_view(members@);
    }
    let count = members.len();
    let mut later = at + 1;
    while later < count
        invariant
            at < later <= members@.len(),
            count == members@.len(),
            all == members_view(members@),
            all.len() == members@.len(),
            forall|k: int|
                0 <= k < members@.len() ==> (#[trigger] all[k]) == (members@[k].0@, members@[k].1@),
            forall|k: int| at < k < later ==> (#[trigger] all[k]).0 != all[at as int].0,
        decreases members@.len() - later,
    {
        if str_eq(members[later].0.as_str(), members[at].0.as_str()) {
            assert(all[later as int].0 == all[at as int].0);
            return true;
        }
        later += 1;
    }
    false
}

impl Json {
    /// Whether the document can be written out as text: whether every
    /// number that counts in it is one whose value is kept.
    pub fn is_writable(&self) -> (fit: bool)
        ensures
            fit == self@.writable(),
        decreases self,
    {
        match self {
            Json::Number(n) => n.is_some(),
            Json::Array(items) => {
                proof {
                    lemma_items_view(items@);
                }
                let mut i: usize = 0;
                while i < items.len()
                    invariant
                        i <= items@.len(),
                        *self == Json::Array(*items),
                        items_view(items@).len() == items@.len(),
                        forall|k: int|
                            0 <= k < items@.len() ==> (#[trigger] items_view(items@)[k])
                                == items@[k]@,
                        forall|k: int| 0 <= k < i ==> (#[trigger] items@[k])@.writable(),
                    decreases items@.len() - i,
                {
                    proof {
                        assert(decreases_to!(*self => *items));
                        assert(decreases_to!(*items => items@[i as int]));
                    }
                    if !items[i].is_writable() {
                        proof {
                            let views = items_view(items@);
                            assert(self@ == JsonView::Array(views));
                            assert(!views[i as int].writable());
                            if JsonView::Array(views).writable() {
                                lemma_writable_item(views, i as int);
                            }
                        }
                        return false;
                    }
                    i += 1;
                }
                assert forall|k: int| 0 <= k < items@.len() implies (#[trigger] items_view(
                    items@,
                )[k]).writable() by {
                    assert(items@[k]@.writable());
                }
                true
            },
            Json::Object(members) => {
                let ghost all = members_view(members@);
                proof {
                    lemma_members_view(members@);
                    lemma_object_writable(all);
                }
                let mut i: usize = 0;
                while i < members.len()
                    invariant
                        i <= members@.len(),
                        *self == Json::Object(*members),
                        all == members_view(members@),
                        all.len() == members@.len(),
                        forall|k: int|
                            0 <= k < members@.len() ==> (#[trigger] all[k]) == (
                                members@[k].0@,
                                members@[k].1@,
                            ),
                        self@.writable() <==> forall|at: int|
                            0 <= at < all.len() && last_of_name(all, at) ==> (#[trigger] all[at]).1.writable(),
                        forall|k: int|
                            0 <= k < i && last_of_name(all, k) ==> (#[trigger] all[k]).1.writable(),
                    decreases members@.len() - i,
                {
                    proof {
                        assert(decreases_to!(*self => *members));
                        assert(decreases_to!(*members => members@[i as int]));
                        assert(decreases_to!(members@[i as int] => members@[i as int].1));
                    }
                    if !replaced_later(members, i) {
                        if !members[i].1.is_writable() {
                            assert(last_of_name(all, i as int) && !all[i as int].1.writable());
                            return false;
                        }
                    }
                    i += 1;
                }
                true
            },
            _ => true,
        }
    }

    /// The member called `name`, where the document is an object that has
    /// one.
    pub fn member(&self, name: &str) -> (found: Option<&Json>)
        ensures
            match found {
                Some(member) => self@.member(name@) == Some(member@),
                None => self@.member(name@) is None,
            },
    {
        match self {
            Json::Object(members) => {
                let ghost all = members_view(members@);
                proof {
                    lemma_members_view(members@);
                    lemma_members_map_lookup(all, name@);
                    assert(all.subrange(0, all.len() as int) == all);
                }
                let mut i = members.len();
                while i > 0
                    invariant
                        i <= members@.len(),
                        self@.member(name@) == lookup(all, name@),
                        all.len() == members@.len(),
                        forall|k: int|
                            0 <= k < members@.len() ==> (#[trigger] all[k]) == (
                                members@[k].0@,
                                members@[k].1@,
                            ),
                        lookup(all, name@) == lookup(all.subrange(0, i as int), name@),
                    decreases i,
                {
                    i -= 1;
                    proof {
                        let upto = all.subrange(0, i + 1);
                        assert(upto.last() == all[i as int]);
                        assert(upto.drop_last() == all.subrange(0, i as int));
                    }
                    if str_eq(members[i].0.as_str(), name) {
                        return Some(&members[i].1);
                    }
                }
                None
            },
            _ => None,
        }
    }

    /// The text, where the document is a string.
    pub fn as_text(&self) -> (text: Option<&str>)
        ensures
            match text {
                Some(text) => self@.as_text() == Some(text@),
                None => self@.as_text() is None,
            },
    {
        match self {
            Json::String(text) => Some(text.as_str()),
            _ => None,
        }
    }

    /// The truth value, where the document is one.
    pub fn as_bool(&self) -> (truth: Option<bool>)
        ensures
            truth == self@.as_bool(),
    {
        match self {
            Json::Bool(b) => Some(*b),
            _ => None,
        }
    }

    /// The number, where the document is a non-negative integer below 2^64.
    pub fn as_integer(&self) -> (number: Option<u64>)
        ensures
            number == self@.as_integer(),
    {
        match self {
            Json::Number(n) => *n,
            _ => None,
        }
    }

    /// The items, where the document is an array.
    pub fn as_items(&self) -> (items: Option<&Vec<Json>>)
        ensures
            match items {
                Some(items) => self@.as_items() == Some(items_view(items@)),
                None => self@.as_items() is None,
            },
    {
        match self {
            Json::Array(items) => Some(items),
            _ => None,
        }
    }

    /// Whether the document is an object.
    pub fn is_object(&self) -> (object: bool)
        ensures
            object == (self@ is Object),
    {
        match self {
            Json::Object(_) => true,
            _ => false,
        }
    }

    /// Whether the document is `null`.
    pub fn is_null(&self) -> (null: bool)
        ensures
            null == (self@ is Null),
    {
        match self {
            Json::Null => true,
            _ => false,
        }
    }

    /// What remains of the outcome of parsing once the outside value is
    /// copied into a document of this crate.
    pub fn parse(text: &str) -> (parsed: Result<Json, Error>)
        ensures
            match parsed {
                Ok(document) => json_parse(text@) == Some(document@),
                Err(error) => error is Serde && json_parse(text@) is None,
            },
    {
        match parse_value(text) {
            Ok(value) => Ok(value_to_json(&value)),
            Err(error) => Err(Error::Serde(error)),
        }
    }

    /// Writes the document out as JSON text, which succeeds for every
    /// document that [`Json::is_writable`] accepts.
    pub fn to_text(&self) -> (written: Result<String, Error>)
        requires
            self@.writable(),
        ensures
            written matches Ok(text) && text@ == json_text(self@),
    {
        let value = json_to_value(self);
        match value_to_text(&value) {
            Ok(text) => Ok(text),
            Err(error) => Err(Error::Serde(error)),
        }
    }
}

} // verus!
