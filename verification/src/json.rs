//! JSON documents as plain data.
//!
//! A document is read from bytes by `serde_json`; from there on it is a
//! [`Json`] tree, and every lookup in it is ordinary verified code.

use vstd::prelude::*;
use vstd::string::StringExecFns;

verus! {

/// One member of a JSON object.
#[derive(Debug, PartialEq, Eq)]
pub struct Member {
    pub name: String,
    pub value: Json,
}

/// A JSON value. A number is kept as its JSON text.
#[derive(Debug, PartialEq, Eq)]
pub enum Json {
    Null,
    Bool(bool),
    Number(String),
    Text(String),
    Array(Vec<Json>),
    Object(Vec<Member>),
}

/// The mathematical content of a [`Json`] value.
pub enum JsonView {
    Null,
    Bool(bool),
    Number(Seq<char>),
    Text(Seq<char>),
    Array(Seq<JsonView>),
    Object(Seq<(Seq<char>, JsonView)>),
}

/// The content of `value`.
pub open spec fn json_view(value: Json) -> JsonView
    decreases value, 0nat,
{
    match value {
        Json::Null => JsonView::Null,
        Json::Bool(b) => JsonView::Bool(b),
        Json::Number(n) => JsonView::Number(n@),
        Json::Text(s) => JsonView::Text(s@),
        Json::Array(items) => JsonView::Array(element_views(items@, items@.len())),
        Json::Object(members) => JsonView::Object(member_views(members@, members@.len())),
    }
}

/// The contents of the first `n` of `items`.
pub open spec fn element_views(items: Seq<Json>, n: nat) -> Seq<JsonView>
    decreases items, n,
{
    if n == 0 || n > items.len() {
        Seq::empty()
    } else {
        element_views(items, (n - 1) as nat).push(json_view(items[n - 1]))
    }
}

/// The names and contents of the first `n` of `members`.
pub open spec fn member_views(members: Seq<Member>, n: nat) -> Seq<(Seq<char>, JsonView)>
    decreases members, n,
{
    if n == 0 || n > members.len() {
        Seq::empty()
    } else {
        member_views(members, (n - 1) as nat).push(
            (members[n - 1].name@, json_view(members[n - 1].value)),
        )
    }
}

impl View for Json {
    type V = JsonView;

    open spec fn view(&self) -> JsonView {
        json_view(*self)
    }
}

impl View for Member {
    type V = (Seq<char>, JsonView);

    open spec fn view(&self) -> (Seq<char>, JsonView) {
        (self.name@, self.value@)
    }
}

/// The value of the first member called `key` among `members[start..]`.
pub open spec fn lookup_from(
    members: Seq<(Seq<char>, JsonView)>,
    key: Seq<char>,
    start: int,
) -> Option<JsonView>
    decreases members.len() - start,
{
    if start < 0 || start >= members.len() {
        None
    } else if members[start].0 == key {
        Some(members[start].1)
    } else {
        lookup_from(members, key, start + 1)
    }
}

/// The member of `value` called `key`: the first one of that name when
/// `value` is an object, and nothing otherwise.
pub open spec fn member_of(value: JsonView, key: Seq<char>) -> Option<JsonView> {
    match value {
        JsonView::Object(members) => lookup_from(members, key, 0),
        _ => None,
    }
}

/// The member of `value` called `key`, or null where there is none.
pub open spec fn member_or_null(value: JsonView, key: Seq<char>) -> JsonView {
    match member_of(value, key) {
        Some(found) => found,
        None => JsonView::Null,
    }
}

/// The text of `value` when it is a string.
pub open spec fn text_of(value: JsonView) -> Option<Seq<char>> {
    match value {
        JsonView::Text(s) => Some(s),
        _ => None,
    }
}

/// `element_views` goes through `items` one by one.
pub proof fn lemma_element_views(items: Seq<Json>, n: nat)
    requires
        n <= items.len(),
    ensures
        element_views(items, n).len() == n,
        forall|i: int| 0 <= i < n ==> (#[trigger] element_views(items, n)[i]) == items[i]@,
    decreases n,
{
    if n > 0 {
        lemma_element_views(items, (n - 1) as nat);
    }
}

/// `member_views` goes through `members` one by one.
pub proof fn lemma_member_views(members: Seq<Member>, n: nat)
    requires
        n <= members.len(),
    ensures
        member_views(members, n).len() == n,
        forall|i: int| 0 <= i < n ==> (#[trigger] member_views(members, n)[i]) == members[i]@,
    decreases n,
{
    if n > 0 {
        lemma_member_views(members, (n - 1) as nat);
    }
}

/// The view of an array is the views of its elements, in order.
pub proof fn lemma_array_view(items: Vec<Json>)
    ensures
        Json::Array(items)@ is Array,
        Json::Array(items)@->Array_0.len() == items@.len(),
        forall|i: int|
            0 <= i < items@.len() ==> (#[trigger] Json::Array(items)@->Array_0[i]) == items@[i]@,
{
    lemma_element_views(items@, items@.len());
}

/// The view of an object is the views of its members, in order.
pub proof fn lemma_object_view(members: Vec<Member>)
    ensures
        Json::Object(members)@ is Object,
        Json::Object(members)@->Object_0.len() == members@.len(),
        forall|i: int|
            0 <= i < members@.len() ==> (#[trigger] Json::Object(members)@->Object_0[i])
                == members@[i]@,
{
    lemma_member_views(members@, members@.len());
}

impl Json {
    /// Looks up the member called `key`.
    pub fn get(&self, key: &str) -> (r: Option<&Json>)
        ensures
            match r {
                Some(found) => member_of(self@, key@) == Some(found@),
                None => member_of(self@, key@) is None,
            },
    {
        match self {
            Json::Object(members) => {
                let wanted = String::from_str(key);
                let ghost all = self@->Object_0;
                proof {
                    lemma_object_view(*members);
                }
                let mut i: usize = 0;
                while i < members.len()
                    invariant
                        i <= members.len(),
                        wanted@ == key@,
                        self@ == JsonView::Object(all),
                        all.len() == members@.len(),
                        forall|j: int| 0 <= j < all.len() ==> all[j] == members@[j]@,
                        lookup_from(all, key@, 0) == lookup_from(all, key@, i as int),
                    decreases members.len() - i,
                {
                    assert(all[i as int] == members@[i as int]@);
                    if members[i].name == wanted {
                        return Some(&members[i].value);
                    }
                    i += 1;
                }
                None
            },
            _ => None,
        }
    }

    /// The elements, when this is an array.
    pub fn as_array(&self) -> (r: Option<&Vec<Json>>)
        ensures
            match r {
                Some(items) => *self == Json::Array(*items),
                None => !(self@ is Array),
            },
    {
        match self {
            Json::Array(items) => Some(items),
            _ => None,
        }
    }

    /// The text, when this is a string.
    pub fn as_str(&self) -> (r: Option<&str>)
        ensures
            match r {
                Some(s) => text_of(self@) == Some(s@),
                None => text_of(self@) is None,
            },
    {
        match self {
            Json::Text(s) => Some(s.as_str()),
            _ => None,
        }
    }
}

impl Clone for Member {
    fn clone(&self) -> (r: Member)
        ensures
            r@ == self@,
        decreases self,
    {
        Member { name: self.name.clone(), value: self.value.clone() }
    }
}

impl Clone for Json {
    fn clone(&self) -> (r: Json)
        ensures
            r@ == self@,
        decreases self,
    {
        match self {
            Json::Null => Json::Null,
            Json::Bool(b) => Json::Bool(*b),
            Json::Number(n) => Json::Number(n.clone()),
            Json::Text(s) => Json::Text(s.clone()),
            Json::Array(items) => {
                let mut copy: Vec<Json> = Vec::new();
                let mut i: usize = 0;
                while i < items.len()
                    invariant
                        i <= items.len(),
                        copy.len() == i,
                        self is Array && self->Array_0 == *items,
                        forall|j: int| 0 <= j < i ==> copy@[j]@ == items@[j]@,
                    decreases items.len() - i,
                {
                    copy.push(items[i].clone());
                    i += 1;
                }
                let r = Json::Array(copy);
                proof {
                    lemma_array_view(copy);
                    lemma_array_view(*items);
                    assert(r@->Array_0 =~= self@->Array_0);
                }
                r
            },
            Json::Object(members) => {
                let mut copy: Vec<Member> = Vec::new();
                let mut i: usize = 0;
                while i < members.len()
                    invariant
                        i <= members.len(),
                        copy.len() == i,
                        self is Object && self->Object_0 == *members,
                        forall|j: int| 0 <= j < i ==> copy@[j]@ == members@[j]@,
                    decreases members.len() - i,
                {
                    copy.push(members[i].clone());
                    i += 1;
                }
                let r = Json::Object(copy);
                proof {
                    lemma_object_view(copy);
                    lemma_object_view(*members);
                    assert(r@->Object_0 =~= self@->Object_0);
                }
                r
            },
        }
    }
}

/// `serde_json::Value`, carried from the parser to the conversion below.
#[verifier::external_type_specification]
#[verifier::external_body]
pub struct ExValue(serde_json::Value);

/// `serde_json::Error`, the parser's complaint.
#[verifier::external_type_specification]
#[verifier::external_body]
pub struct ExError(serde_json::Error);

/// The JSON value that `serde_json::from_slice` reads from `bytes`, and
/// nothing where it reports an error.
pub uninterp spec fn parsed_json(bytes: Seq<u8>) -> Option<JsonView>;

/// The content of a `serde_json::Value`: its variant, and what the variant
/// holds, with a number as the text that its `Display` writes and an
/// object's members in the order in which its map walks them.
pub uninterp spec fn value_view(value: serde_json::Value) -> JsonView;

/// Calls `serde_json::from_slice` for a `serde_json::Value`. The outcome
/// depends on the bytes alone: it is the value named by [`parsed_json`], or
/// an error where that names nothing.
#[verifier::external_body]
fn parse_value(bytes: &[u8]) -> (r: Result<serde_json::Value, serde_json::Error>)
    ensures
        match r {
            Ok(value) => parsed_json(bytes@) == Some(value_view(value)),
            Err(_) => parsed_json(bytes@) is None,
        },
{
    serde_json::from_slice::<serde_json::Value>(bytes)
}

/// Copies a `serde_json::Value` into a [`Json`], variant for variant. The
/// result has the content named by [`value_view`].
#[verifier::external_body]
fn json_of_value(value: &serde_json::Value) -> (r: Json)
    ensures
        r@ == value_view(*value),
{
    match value {
        serde_json::Value::Null => Json::Null,
        serde_json::Value::Bool(b) => Json::Bool(*b),
        serde_json::Value::Number(n) => Json::Number(n.to_string()),
        serde_json::Value::String(s) => Json::Text(s.clone()),
        serde_json::Value::Array(items) => Json::Array(items.iter().map(json_of_value).collect()),
        serde_json::Value::Object(map) => Json::Object(
            map.iter().map(|(k, v)| Member { name: k.clone(), value: json_of_value(v) }).collect(),
        ),
    }
}

/// Reads one JSON document from `bytes`.
pub fn parse(bytes: &[u8]) -> (r: Option<Json>)
    ensures
        match r {
            Some(doc) => parsed_json(bytes@) == Some(doc@),
            None => parsed_json(bytes@) is None,
        },
{
    match parse_value(bytes) {
        Ok(value) => Some(json_of_value(&value)),
        Err(_) => None,
    }
}

} // verus!
