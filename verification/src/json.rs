//! JSON values, as the frames of the agent and the commands to it are read
//! and built: an open tree that the rest of the library works on, and the way
//! from and to `serde_json`, which reads and writes the text.

use vstd::prelude::*;

use crate::text::text_eq;

verus! {

/// `serde_json::Value`, opaque here.
#[verifier::external_type_specification]
#[verifier::external_body]
pub struct ExValue(serde_json::Value);

/// `serde_json::Map`, the members of an object, opaque here.
#[verifier::external_type_specification]
#[verifier::external_body]
#[verifier::reject_recursive_types(K)]
#[verifier::reject_recursive_types(V)]
pub struct ExMap<K, V>(serde_json::Map<K, V>);

/// What a JSON value is.
pub enum JsonView {
    Null,
    Bool(bool),
    /// A number that is an integer within the range of `i64`.
    Int(i64),
    /// A number that is an integer above that range, within the range of `u64`.
    Uint(u64),
    /// Any other number, by its numeral.
    Real(Seq<char>),
    Str(Seq<char>),
    Array(Seq<JsonView>),
    Object(Map<Seq<char>, JsonView>),
}

impl JsonView {
    /// The member of an object under `key`.
    pub open spec fn get(self, key: Seq<char>) -> Option<JsonView> {
        match self {
            JsonView::Object(members) => if members.contains_key(key) {
                Some(members[key])
            } else {
                None
            },
            _ => None,
        }
    }

    /// The characters of a string.
    pub open spec fn as_str(self) -> Option<Seq<char>> {
        match self {
            JsonView::Str(text) => Some(text),
            _ => None,
        }
    }

    pub open spec fn as_bool(self) -> Option<bool> {
        match self {
            JsonView::Bool(b) => Some(b),
            _ => None,
        }
    }

    /// The value of an integer within the range of `i64`.
    pub open spec fn as_i64(self) -> Option<i64> {
        match self {
            JsonView::Int(i) => Some(i),
            _ => None,
        }
    }

    /// The value of an integer within the range of `u64`.
    pub open spec fn as_u64(self) -> Option<u64> {
        match self {
            JsonView::Int(i) => if i >= 0 {
                Some(i as u64)
            } else {
                None
            },
            JsonView::Uint(u) => Some(u),
            _ => None,
        }
    }

    pub open spec fn as_array(self) -> Option<Seq<JsonView>> {
        match self {
            JsonView::Array(items) => Some(items),
            _ => None,
        }
    }

    /// The characters of the string under `key`.
    pub open spec fn get_str(self, key: Seq<char>) -> Option<Seq<char>> {
        match self.get(key) {
            Some(member) => member.as_str(),
            None => None,
        }
    }

    pub open spec fn get_bool(self, key: Seq<char>) -> Option<bool> {
        match self.get(key) {
            Some(member) => member.as_bool(),
            None => None,
        }
    }

    pub open spec fn get_i64(self, key: Seq<char>) -> Option<i64> {
        match self.get(key) {
            Some(member) => member.as_i64(),
            None => None,
        }
    }

    pub open spec fn get_array(self, key: Seq<char>) -> Option<Seq<JsonView>> {
        match self.get(key) {
            Some(member) => member.as_array(),
            None => None,
        }
    }

    /// Whether every number in the value is an integer, and no more than
    /// `depth` arrays and objects lie in one another.
    pub open spec fn is_integral(self, depth: nat) -> bool
        decreases depth,
    {
        match self {
            JsonView::Real(_) => false,
            JsonView::Array(items) => {
                &&& depth > 0
                &&& forall|i: int|
                    0 <= i < items.len() ==> (#[trigger] items[i]).is_integral((depth - 1) as nat)
            },
            JsonView::Object(members) => {
                &&& depth > 0
                &&& forall|key: Seq<char>| #[trigger]
                    members.contains_key(key) ==> members[key].is_integral((depth - 1) as nat)
            },
            _ => true,
        }
    }
}

/// How many arrays and objects may lie in one another in a text that is read.
pub const READ_DEPTH: u64 = 127;

/// The number with this value.
pub open spec fn uint_json(u: u64) -> JsonView {
    if u <= i64::MAX {
        JsonView::Int(u as i64)
    } else {
        JsonView::Uint(u)
    }
}

/// What a `serde_json::Value` holds. A `Number` whose `as_i64` is `Some(i)` is
/// `Int(i)`; another whose `as_u64` is `Some(u)` is `Uint(u)`; any other is
/// `Real`, with the text that `serde_json` prints for it. An `Object` is the map
/// of its members.
pub uninterp spec fn value_json(value: serde_json::Value) -> JsonView;

/// What a `serde_json::Map` holds.
pub uninterp spec fn map_json(
    map: serde_json::Map<String, serde_json::Value>,
) -> Map<Seq<char>, JsonView>;

/// What `serde_json::from_str::<Value>` reads out of a text, `None` where it
/// gives an error.
pub uninterp spec fn parsed_json(text: Seq<char>) -> Option<JsonView>;

/// The text that `serde_json::to_string` writes for a value. A
/// `serde_json::Map` keeps its keys sorted (the feature that keeps them as they
/// came is off), so the text depends on what the value holds alone.
pub uninterp spec fn json_text(json: JsonView) -> Seq<char>;

/// One level of a `serde_json::Value`, opened.
pub enum JsonNode {
    Null,
    Bool(bool),
    /// A number, kept as it came.
    Number(serde_json::Value),
    Str(String),
    Array(Vec<serde_json::Value>),
    Object(Vec<(String, serde_json::Value)>),
}

/// The members that a list of pairs stands for: of two pairs with one key, the
/// later one counts.
pub open spec fn members_of_values(
    pairs: Seq<(String, serde_json::Value)>,
) -> Map<Seq<char>, JsonView>
    decreases pairs.len(),
{
    if pairs.len() == 0 {
        Map::empty()
    } else {
        members_of_values(pairs.drop_last()).insert(pairs.last().0@, value_json(pairs.last().1))
    }
}

/// No two of the pairs have one key.
pub open spec fn keys_differ(pairs: Seq<(String, serde_json::Value)>) -> bool {
    forall|i: int, j: int|
        0 <= i < j < pairs.len() ==> (#[trigger] pairs[i]).0@ != (#[trigger] pairs[j]).0@
}

impl View for JsonNode {
    type V = JsonView;

    open spec fn view(&self) -> JsonView {
        match *self {
            JsonNode::Null => JsonView::Null,
            JsonNode::Bool(b) => JsonView::Bool(b),
            JsonNode::Number(value) => value_json(value),
            JsonNode::Str(text) => JsonView::Str(text@),
            JsonNode::Array(items) => JsonView::Array(
                items@.map_values(|item: serde_json::Value| value_json(item)),
            ),
            JsonNode::Object(pairs) => JsonView::Object(members_of_values(pairs@)),
        }
    }
}

/// `serde_json::from_str::<Value>`: the value that `text` is the JSON of.
#[verifier::external_body]
fn parse_value(text: &str) -> (result: Option<serde_json::Value>)
    ensures
        (match result {
            Some(value) => Some(value_json(value)),
            None => None,
        }) == parsed_json(text@),
{
    serde_json::from_str::<serde_json::Value>(text).ok()
}

/// `serde_json::to_string` on a `Value`: its compact JSON text. Writing a
/// `Value` into memory cannot fail. The text is not empty and has no line break
/// in it, as line breaks within strings are escaped. Where all numbers are
/// integers, `serde_json::from_str` reads the value out of it again, unless the
/// value lies deeper than that function goes. Of what it reads where there are
/// other numbers, nothing is said.
#[verifier::external_body]
fn value_text(value: &serde_json::Value) -> (result: Option<String>)
    ensures
        result is Some,
        result->0@ == json_text(value_json(*value)),
        result->0@.len() > 0,
        !result->0@.contains('\n'),
        value_json(*value).is_integral(READ_DEPTH as nat) ==> parsed_json(result->0@) == Some(
            value_json(*value),
        ),
{
    serde_json::to_string(value).ok()
}

/// `Value::as_i64`: the value of a number that is an integer within the range
/// of `i64`, and `None` for all else.
#[verifier::external_body]
fn value_i64(value: &serde_json::Value) -> (result: Option<i64>)
    ensures
        result == value_json(*value).as_i64(),
{
    value.as_i64()
}

/// `Value::as_u64`: the value of a number that is an integer within the range
/// of `u64`, and `None` for all else.
#[verifier::external_body]
fn value_u64(value: &serde_json::Value) -> (result: Option<u64>)
    ensures
        result == value_json(*value).as_u64(),
{
    value.as_u64()
}

/// Tells the variants of a `serde_json::Value` apart and moves out what the
/// variant holds. No key comes twice out of a `Map`; and a number is taken by
/// its `as_u64` only where its `as_i64` is `None`.
#[verifier::external_body]
fn open_value(value: serde_json::Value) -> (node: JsonNode)
    ensures
        node@ == value_json(value),
        node is Number ==> node@ is Int || node@ is Uint || node@ is Real,
        node@ is Uint ==> node@->Uint_0 > i64::MAX,
        node matches JsonNode::Object(pairs) ==> keys_differ(pairs@),
{
    match value {
        serde_json::Value::Null => JsonNode::Null,
        serde_json::Value::Bool(b) => JsonNode::Bool(b),
        serde_json::Value::Number(n) => JsonNode::Number(serde_json::Value::Number(n)),
        serde_json::Value::String(text) => JsonNode::Str(text),
        serde_json::Value::Array(items) => JsonNode::Array(items),
        serde_json::Value::Object(map) => JsonNode::Object(map.into_iter().collect()),
    }
}

/// `Value::Null`: the null value.
#[verifier::external_body]
fn null_value() -> (value: serde_json::Value)
    ensures
        value_json(value) == JsonView::Null,
{
    serde_json::Value::Null
}

/// `Value::Bool`: the truth value.
#[verifier::external_body]
fn value_of_bool(b: bool) -> (value: serde_json::Value)
    ensures
        value_json(value) == JsonView::Bool(b),
{
    serde_json::Value::Bool(b)
}

/// `Value::from` on an `i64`: the number that has this value.
#[verifier::external_body]
fn value_of_i64(i: i64) -> (value: serde_json::Value)
    ensures
        value_json(value) == JsonView::Int(i),
{
    serde_json::Value::from(i)
}

/// `Value::from` on a `u64`: the number that has this value.
#[verifier::external_body]
fn value_of_u64(u: u64) -> (value: serde_json::Value)
    ensures
        value_json(value) == uint_json(u),
{
    serde_json::Value::from(u)
}

/// `Value::String`: the string with this text.
#[verifier::external_body]
fn value_of_text(text: String) -> (value: serde_json::Value)
    ensures
        value_json(value) == JsonView::Str(text@),
{
    serde_json::Value::String(text)
}

/// `Value::Array`: the array of these items.
#[verifier::external_body]
fn value_of_items(items: Vec<serde_json::Value>) -> (value: serde_json::Value)
    ensures
        value_json(value) == JsonView::Array(
            items@.map_values(|item: serde_json::Value| value_json(item)),
        ),
{
    serde_json::Value::Array(items)
}

/// `Map::new`: no members.
#[verifier::external_body]
fn empty_map() -> (map: serde_json::Map<String, serde_json::Value>)
    ensures
        (map_json(map) == Map::<Seq<char>, JsonView>::empty()),
{
    serde_json::Map::new()
}

/// `Map::insert`: the member under the key is set, or set anew where there was
/// one.
#[verifier::external_body]
fn insert_member(
    map: &mut serde_json::Map<String, serde_json::Value>,
    key: String,
    value: serde_json::Value,
)
    ensures
        (map_json(*final(map)) == map_json(*old(map)).insert(key@, value_json(value))),
{
    map.insert(key, value);
}

/// `Value::Object`: the object with these members.
#[verifier::external_body]
fn value_of_map(map: serde_json::Map<String, serde_json::Value>) -> (value: serde_json::Value)
    ensures
        value_json(value) == JsonView::Object(map_json(map)),
{
    serde_json::Value::Object(map)
}

/// `Value::clone`: a value that holds the same.
#[verifier::external_body]
fn clone_value(value: &serde_json::Value) -> (result: serde_json::Value)
    ensures
        value_json(result) == value_json(*value),
{
    value.clone()
}

/// A number that is no integer within the range of `i64` or `u64`. It is
/// carried along and written out again; nothing reads it.
#[derive(Debug)]
pub struct RealNumber {
    value: serde_json::Value,
}

impl RealNumber {
    #[verifier::type_invariant]
    spec fn is_real(self) -> bool {
        value_json(self.value) is Real
    }

    pub closed spec fn json(self) -> JsonView {
        value_json(self.value)
    }
}

/// A JSON value as an open tree. Of two members of an object with one key, the
/// later one counts.
#[derive(Debug)]
pub enum Json {
    Null,
    Bool(bool),
    Int(i64),
    Uint(u64),
    Real(RealNumber),
    Str(String),
    Array(Vec<Json>),
    Object(Vec<(String, Json)>),
}

/// The members that a list of pairs stands for.
pub open spec fn members_of(pairs: Seq<(String, Json)>) -> Map<Seq<char>, JsonView>
    decreases pairs,
{
    if pairs.len() == 0 {
        Map::empty()
    } else {
        members_of(pairs.drop_last()).insert(pairs.last().0@, json_view(pairs.last().1))
    }
}

pub open spec fn json_view(json: Json) -> JsonView
    decreases json,
{
    match json {
        Json::Null => JsonView::Null,
        Json::Bool(b) => JsonView::Bool(b),
        Json::Int(i) => JsonView::Int(i),
        Json::Uint(u) => uint_json(u),
        Json::Real(number) => number.json(),
        Json::Str(text) => JsonView::Str(text@),
        Json::Array(items) => JsonView::Array(
            Seq::new(
                items@.len(),
                |i: int|
                    if 0 <= i < items@.len() {
                        json_view(items@[i])
                    } else {
                        JsonView::Null
                    },
            ),
        ),
        Json::Object(pairs) => JsonView::Object(members_of(pairs@)),
    }
}

impl View for Json {
    type V = JsonView;

    open spec fn view(&self) -> JsonView {
        json_view(*self)
    }
}

/// What an optional reference points at.
pub open spec fn option_json(json: Option<&Json>) -> Option<JsonView> {
    match json {
        Some(json) => Some(json@),
        None => None,
    }
}

/// No pair stands for no member, and a pair behind the others sets one.
pub proof fn lemma_members_of(pairs: Seq<(String, Json)>, pair: (String, Json))
    ensures
        members_of(Seq::empty()) == Map::<Seq<char>, JsonView>::empty(),
        members_of(pairs.push(pair)) == members_of(pairs).insert(pair.0@, pair.1@),
{
    assert(pairs.push(pair).drop_last() =~= pairs);
}

proof fn lemma_members_of_values(pairs: Seq<(String, serde_json::Value)>)
    requires
        keys_differ(pairs),
    ensures
        members_of_values(pairs).dom().finite(),
        forall|i: int|
            0 <= i < pairs.len() ==> {
                &&& members_of_values(pairs).contains_key((#[trigger] pairs[i]).0@)
                &&& members_of_values(pairs)[pairs[i].0@] == value_json(pairs[i].1)
            },
    decreases pairs.len(),
{
    if pairs.len() > 0 {
        let front = pairs.drop_last();
        assert forall|i: int, j: int| 0 <= i < j < front.len() implies (#[trigger] front[i]).0@ != (
        #[trigger] front[j]).0@ by {
            assert(front[i] == pairs[i] && front[j] == pairs[j]);
        }
        lemma_members_of_values(front);
        assert forall|i: int| 0 <= i < pairs.len() implies {
            &&& members_of_values(pairs).contains_key((#[trigger] pairs[i]).0@)
            &&& members_of_values(pairs)[pairs[i].0@] == value_json(pairs[i].1)
        } by {
            if i < pairs.len() - 1 {
                assert(front[i] == pairs[i]);
                assert(pairs[i].0@ != pairs[pairs.len() - 1].0@);
            }
        }
    }
}

/// The open tree of a `serde_json::Value`.
pub fn json_of_value(value: serde_json::Value) -> (json: Json)
    ensures
        json@ == value_json(value),
    decreases value_json(value),
{
    let ghost whole = value_json(value);
    match open_value(value) {
        JsonNode::Null => Json::Null,
        JsonNode::Bool(b) => Json::Bool(b),
        JsonNode::Number(value) => match value_i64(&value) {
            Some(i) => Json::Int(i),
            None => match value_u64(&value) {
                Some(u) => Json::Uint(u),
                None => Json::Real(RealNumber { value }),
            },
        },
        JsonNode::Str(text) => Json::Str(text),
        JsonNode::Array(items) => {
            let ghost views = items@.map_values(|item: serde_json::Value| value_json(item));
            let mut out: Vec<Json> = Vec::new();
            for item in it: items
                invariant
                    whole == value_json(value),
                    whole == JsonView::Array(views),
                    views == it.seq().map_values(|item: serde_json::Value| value_json(item)),
                    out@.len() == it.index(),
                    forall|k: int| 0 <= k < out@.len() ==> json_view(#[trigger] out@[k]) == views[k],
            {
                proof {
                    assert(views[it.index() as int] == value_json(item));
                    assert(decreases_to!(whole => whole->Array_0));
                    assert(decreases_to!(views => views[it.index() as int]));
                }
                out.push(json_of_value(item));
            }
            let json = Json::Array(out);
            assert(json@->Array_0 =~= views);
            json
        },
        JsonNode::Object(pairs) => {
            let ghost all = pairs@;
            let ghost members = members_of_values(all);
            proof {
                lemma_members_of_values(all);
            }
            let mut out: Vec<(String, Json)> = Vec::new();
            for pair in it: pairs
                invariant
                    whole == value_json(value),
                    whole == JsonView::Object(members),
                    members.dom().finite(),
                    it.seq() == all,
                    forall|i: int|
                        0 <= i < all.len() ==> {
                            &&& members.contains_key((#[trigger] all[i]).0@)
                            &&& members[all[i].0@] == value_json(all[i].1)
                        },
                    members_of(out@) == members_of_values(all.take(it.index() as int)),
            {
                let ghost before = out@;
                proof {
                    assert(pair == all[it.index() as int]);
                }
                let (key, member) = pair;
                proof {
                    assert(decreases_to!(whole => whole->Object_0));
                    assert(decreases_to!(members => members[key@]));
                }
                out.push((key, json_of_value(member)));
                proof {
                    assert(out@.drop_last() =~= before);
                    assert(all.take(it.index() + 1).drop_last() =~= all.take(it.index() as int));
                }
            }
            assert(all.take(all.len() as int) =~= all);
            Json::Object(out)
        },
    }
}

impl Json {
    /// The `serde_json::Value` that holds what the tree does.
    pub fn to_value(&self) -> (value: serde_json::Value)
        ensures
            value_json(value) == self@,
        decreases self,
    {
        match self {
            Json::Null => null_value(),
            Json::Bool(b) => value_of_bool(*b),
            Json::Int(i) => value_of_i64(*i),
            Json::Uint(u) => value_of_u64(*u),
            Json::Real(number) => clone_value(&number.value),
            Json::Str(text) => value_of_text(text.clone()),
            Json::Array(items) => {
                let mut out: Vec<serde_json::Value> = Vec::new();
                let mut i: usize = 0;
                while i < items.len()
                    invariant
                        *self == Json::Array(*items),
                        i <= items.len(),
                        out@.len() == i,
                        forall|k: int|
                            0 <= k < i ==> value_json(#[trigger] out@[k]) == json_view(items@[k]),
                    decreases items.len() - i,
                {
                    proof {
                        assert(decreases_to!(self => self->Array_0));
                        assert(decreases_to!(items => items[i as int]));
                    }
                    out.push(items[i].to_value());
                    i = i + 1;
                }
                assert(out@.map_values(|item: serde_json::Value| value_json(item))
                    =~= self@->Array_0);
                value_of_items(out)
            },
            Json::Object(pairs) => {
                let mut map = empty_map();
                let mut i: usize = 0;
                while i < pairs.len()
                    invariant
                        *self == Json::Object(*pairs),
                        i <= pairs.len(),
                        map_json(map) == members_of(pairs@.take(i as int)),
                    decreases pairs.len() - i,
                {
                    let pair = &pairs[i];
                    proof {
                        assert(decreases_to!(self => self->Object_0));
                        assert(decreases_to!(pairs => pairs[i as int]));
                        assert(decreases_to!(pairs[i as int] => pairs[i as int].1));
                        assert(pairs@.take(i + 1).drop_last() =~= pairs@.take(i as int));
                    }
                    insert_member(&mut map, pair.0.clone(), pair.1.to_value());
                    i = i + 1;
                }
                assert(pairs@.take(pairs@.len() as int) =~= pairs@);
                value_of_map(map)
            },
        }
    }

    /// A second tree that holds the same.
    pub fn copy(&self) -> (json: Json)
        ensures
            json@ == self@,
        decreases self,
    {
        match self {
            Json::Null => Json::Null,
            Json::Bool(b) => Json::Bool(*b),
            Json::Int(i) => Json::Int(*i),
            Json::Uint(u) => Json::Uint(*u),
            Json::Real(number) => {
                proof {
                    use_type_invariant(number);
                }
                Json::Real(RealNumber { value: clone_value(&number.value) })
            },
            Json::Str(text) => Json::Str(text.clone()),
            Json::Array(items) => {
                let mut out: Vec<Json> = Vec::new();
                let mut i: usize = 0;
                while i < items.len()
                    invariant
                        *self == Json::Array(*items),
                        i <= items.len(),
                        out@.len() == i,
                        forall|k: int|
                            0 <= k < i ==> json_view(#[trigger] out@[k]) == json_view(items@[k]),
                    decreases items.len() - i,
                {
                    proof {
                        assert(decreases_to!(self => self->Array_0));
                        assert(decreases_to!(items => items[i as int]));
                    }
                    out.push(items[i].copy());
                    i = i + 1;
                }
                let json = Json::Array(out);
                assert(json@->Array_0 =~= self@->Array_0);
                json
            },
            Json::Object(pairs) => {
                let mut out: Vec<(String, Json)> = Vec::new();
                let mut i: usize = 0;
                while i < pairs.len()
                    invariant
                        *self == Json::Object(*pairs),
                        i <= pairs.len(),
                        members_of(out@) == members_of(pairs@.take(i as int)),
                    decreases pairs.len() - i,
                {
                    let ghost before = out@;
                    let pair = &pairs[i];
                    proof {
                        assert(decreases_to!(self => self->Object_0));
                        assert(decreases_to!(pairs => pairs[i as int]));
                        assert(decreases_to!(pairs[i as int] => pairs[i as int].1));
                    }
                    out.push((pair.0.clone(), pair.1.copy()));
                    proof {
                        assert(out@.drop_last() =~= before);
                        assert(pairs@.take(i + 1).drop_last() =~= pairs@.take(i as int));
                    }
                    i = i + 1;
                }
                assert(pairs@.take(pairs@.len() as int) =~= pairs@);
                Json::Object(out)
            },
        }
    }

    /// The member of an object under `key`; `None` where there is none, or
    /// where the value is no object.
    pub fn get(&self, key: &str) -> (member: Option<&Json>)
        ensures
            option_json(member) == self@.get(key@),
    {
        match self {
            Json::Object(pairs) => {
                let mut found: Option<&Json> = None;
                let mut i: usize = 0;
                while i < pairs.len()
                    invariant
                        i <= pairs.len(),
                        option_json(found) == JsonView::Object(
                            members_of(pairs@.take(i as int)),
                        ).get(key@),
                    decreases pairs.len() - i,
                {
                    proof {
                        assert(pairs@.take(i + 1).drop_last() =~= pairs@.take(i as int));
                    }
                    let pair = &pairs[i];
                    if text_eq(pair.0.as_str(), key) {
                        found = Some(&pair.1);
                    }
                    i = i + 1;
                }
                assert(pairs@.take(pairs@.len() as int) =~= pairs@);
                found
            },
            Json::Real(number) => {
                proof {
                    use_type_invariant(number);
                }
                None
            },
            _ => None,
        }
    }

    /// The text of a string.
    pub fn as_str(&self) -> (text: Option<&str>)
        ensures
            (match text {
                Some(text) => Some(text@),
                None => None,
            }) == self@.as_str(),
    {
        match self {
            Json::Str(text) => Some(text.as_str()),
            Json::Real(number) => {
                proof {
                    use_type_invariant(number);
                }
                None
            },
            _ => None,
        }
    }

    pub fn as_bool(&self) -> (result: Option<bool>)
        ensures
            result == self@.as_bool(),
    {
        match self {
            Json::Bool(b) => Some(*b),
            Json::Real(number) => {
                proof {
                    use_type_invariant(number);
                }
                None
            },
            _ => None,
        }
    }

    /// The value of an integer within the range of `i64`.
    pub fn as_i64(&self) -> (result: Option<i64>)
        ensures
            result == self@.as_i64(),
    {
        match self {
            Json::Int(i) => Some(*i),
            Json::Uint(u) => {
                if *u <= i64::MAX as u64 {
                    Some(*u as i64)
                } else {
                    None
                }
            },
            Json::Real(number) => {
                proof {
                    use_type_invariant(number);
                }
                None
            },
            _ => None,
        }
    }

    /// The items of an array.
    pub fn as_array(&self) -> (items: Option<&Vec<Json>>)
        ensures
            items is Some <==> self@ is Array,
            items matches Some(items) ==> {
                &&& self@->Array_0.len() == items@.len()
                &&& forall|i: int|
                    0 <= i < items@.len() ==> self@->Array_0[i] == (#[trigger] items@[i])@
            },
    {
        match self {
            Json::Array(items) => Some(items),
            Json::Real(number) => {
                proof {
                    use_type_invariant(number);
                }
                None
            },
            _ => None,
        }
    }

    pub fn is_null(&self) -> (result: bool)
        ensures
            result == (self@ is Null),
    {
        match self {
            Json::Null => true,
            Json::Real(number) => {
                proof {
                    use_type_invariant(number);
                }
                false
            },
            _ => false,
        }
    }

    /// The text of the string under `key`.
    pub fn get_str(&self, key: &str) -> (text: Option<&str>)
        ensures
            (match text {
                Some(text) => Some(text@),
                None => None,
            }) == self@.get_str(key@),
    {
        match self.get(key) {
            Some(member) => member.as_str(),
            None => None,
        }
    }

    pub fn get_bool(&self, key: &str) -> (result: Option<bool>)
        ensures
            result == self@.get_bool(key@),
    {
        match self.get(key) {
            Some(member) => member.as_bool(),
            None => None,
        }
    }

    pub fn get_i64(&self, key: &str) -> (result: Option<i64>)
        ensures
            result == self@.get_i64(key@),
    {
        match self.get(key) {
            Some(member) => member.as_i64(),
            None => None,
        }
    }

    /// The compact JSON text of the tree, on one line. Where all numbers are
    /// integers, reading the text gives the tree back.
    pub fn to_text(&self) -> (text: String)
        ensures
            text@ == json_text(self@),
            text@.len() > 0,
            !text@.contains('\n'),
            self@.is_integral(READ_DEPTH as nat) ==> parsed_json(text@) == Some(self@),
    {
        match value_text(&self.to_value()) {
            Some(text) => text,
            None => String::new(),
        }
    }
}

/// Reads a JSON text; `None` where the text is no JSON.
pub fn parse_json(text: &str) -> (json: Option<Json>)
    ensures
        (match json {
            Some(json) => Some(json@),
            None => None,
        }) == parsed_json(text@),
{
    match parse_value(text) {
        Some(value) => Some(json_of_value(value)),
        None => None,
    }
}

} // verus!
