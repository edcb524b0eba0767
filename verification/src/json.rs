//! JSON values as plain data, read and written by `serde_json`.

use vstd::prelude::*;
use vstd::string::*;

use crate::text::{lemma_text_transitive, precedes, same_text, text_before};

verus! {

/// A JSON value. Of a number only its value as an unsigned integer is kept, where it has one.
#[derive(Debug, PartialEq, Eq)]
pub enum Json {
    Null,
    Bool(bool),
    Number(Option<u64>),
    Text(String),
    Array(Vec<Json>),
    Object(Vec<(String, Json)>),
}

/// The mathematical content of [`Json`].
pub enum JsonView {
    Null,
    Bool(bool),
    Number(Option<u64>),
    Text(Seq<char>),
    Array(Seq<JsonView>),
    Object(Seq<(Seq<char>, JsonView)>),
}

impl Json {
    /// The content of the value.
    pub open spec fn content(self) -> JsonView
        decreases self,
    {
        match self {
            Json::Null => JsonView::Null,
            Json::Bool(value) => JsonView::Bool(value),
            Json::Number(value) => JsonView::Number(value),
            Json::Text(value) => JsonView::Text(value@),
            Json::Array(items) => JsonView::Array(
                Seq::new(
                    items@.len(),
                    |i: int|
                        if 0 <= i < items@.len() {
                            items@[i].content()
                        } else {
                            JsonView::Null
                        },
                ),
            ),
            Json::Object(members) => JsonView::Object(
                Seq::new(
                    members@.len(),
                    |i: int|
                        if 0 <= i < members@.len() {
                            (members@[i].0@, members@[i].1.content())
                        } else {
                            (Seq::empty(), JsonView::Null)
                        },
                ),
            ),
        }
    }
}

impl View for Json {
    type V = JsonView;

    open spec fn view(&self) -> JsonView {
        self.content()
    }
}

/// The value of the first member of a name.
pub open spec fn first_member(members: Seq<(Seq<char>, JsonView)>, name: Seq<char>) -> Option<
    JsonView,
>
    decreases members.len(),
{
    if members.len() == 0 {
        None
    } else if members[0].0 == name {
        Some(members[0].1)
    } else {
        first_member(members.drop_first(), name)
    }
}

impl JsonView {
    /// The member of an object, if the value is an object that has it.
    pub open spec fn member(self, name: Seq<char>) -> Option<JsonView> {
        match self {
            JsonView::Object(members) => first_member(members, name),
            _ => None,
        }
    }

    /// The text of a member, if it is a text.
    pub open spec fn text_of(self, name: Seq<char>) -> Option<Seq<char>> {
        match self.member(name) {
            Some(JsonView::Text(text)) => Some(text),
            _ => None,
        }
    }

    /// The truth value of a member, if it is one.
    pub open spec fn bool_of(self, name: Seq<char>) -> Option<bool> {
        match self.member(name) {
            Some(JsonView::Bool(value)) => Some(value),
            _ => None,
        }
    }

    /// The unsigned value of a member, if it is a number that has one.
    pub open spec fn unsigned_of(self, name: Seq<char>) -> Option<u64> {
        match self.member(name) {
            Some(JsonView::Number(value)) => value,
            _ => None,
        }
    }

    /// A member that is itself an object.
    pub open spec fn object_of(self, name: Seq<char>) -> Option<JsonView> {
        match self.member(name) {
            Some(JsonView::Object(members)) => Some(JsonView::Object(members)),
            _ => None,
        }
    }

    /// The items of a member that is an array.
    pub open spec fn items_of(self, name: Seq<char>) -> Option<Seq<JsonView>> {
        match self.member(name) {
            Some(JsonView::Array(items)) => Some(items),
            _ => None,
        }
    }
}

proof fn lemma_skip_member(members: Seq<(Seq<char>, JsonView)>, index: int, name: Seq<char>)
    requires
        0 <= index <= members.len(),
        forall|i: int| 0 <= i < index ==> (#[trigger] members[i]).0 != name,
    ensures
        first_member(members, name) == first_member(members.skip(index), name),
    decreases index,
{
    if index == 0 {
        assert(members.skip(0) =~= members);
    } else {
        assert(members[0].0 != name);
        lemma_skip_member(members.drop_first(), index - 1, name);
        assert(members.drop_first().skip(index - 1) =~= members.skip(index));
    }
}

impl Json {
    /// The member of an object, if the value is an object that has it.
    pub fn get(&self, name: &str) -> (found: Option<&Json>)
        ensures
            crate::text::optional(found) == self@.member(name@),
    {
        match self {
            Json::Object(members) => {
                let ghost all = self@->Object_0;
                let mut index: usize = 0;
                while index < members.len()
                    invariant
                        index <= members@.len(),
                        all.len() == members@.len(),
                        forall|i: int|
                            0 <= i < members@.len() ==> #[trigger] all[i] == (
                                members@[i].0@,
                                members@[i].1@,
                            ),
                        forall|i: int| 0 <= i < index ==> (#[trigger] all[i]).0 != name@,
                        self@ == JsonView::Object(all),
                    decreases members@.len() - index,
                {
                    if same_text(members[index].0.as_str(), name) {
                        proof {
                            lemma_skip_member(all, index as int, name@);
                            assert(all.skip(index as int)[0] == all[index as int]);
                        }
                        return Some(&members[index].1);
                    }
                    index = index + 1;
                }
                proof {
                    lemma_skip_member(all, index as int, name@);
                    assert(all.skip(index as int).len() == 0);
                }
                None
            },
            _ => None,
        }
    }

    /// The text of a member, if it is a text.
    pub fn text_of(&self, name: &str) -> (found: Option<String>)
        ensures
            crate::text::optional(found) == self@.text_of(name@),
    {
        match self.get(name) {
            Some(Json::Text(text)) => Some(text.clone()),
            _ => None,
        }
    }

    /// Whether a member is exactly the given text.
    pub fn text_is(&self, name: &str, expected: &str) -> (same: bool)
        ensures
            same == (self@.text_of(name@) == Some(expected@)),
    {
        match self.get(name) {
            Some(Json::Text(text)) => same_text(text.as_str(), expected),
            _ => false,
        }
    }

    /// The truth value of a member, if it is one.
    pub fn bool_of(&self, name: &str) -> (found: Option<bool>)
        ensures
            found == self@.bool_of(name@),
    {
        match self.get(name) {
            Some(Json::Bool(value)) => Some(*value),
            _ => None,
        }
    }

    /// The unsigned value of a member, if it is a number that has one.
    pub fn unsigned_of(&self, name: &str) -> (found: Option<u64>)
        ensures
            found == self@.unsigned_of(name@),
    {
        match self.get(name) {
            Some(Json::Number(value)) => *value,
            _ => None,
        }
    }

    /// A member that is itself an object.
    pub fn object_of(&self, name: &str) -> (found: Option<&Json>)
        ensures
            crate::text::optional(found) == self@.object_of(name@),
    {
        match self.get(name) {
            Some(value) => match value {
                Json::Object(_) => Some(value),
                _ => None,
            },
            None => None,
        }
    }

    /// The items of a member that is an array.
    pub fn items_of(&self, name: &str) -> (found: Option<&Vec<Json>>)
        ensures
            match found {
                Some(items) => self@.items_of(name@) == Some(crate::text::views(items@)),
                None => self@.items_of(name@) is None,
            },
    {
        match self.get(name) {
            Some(Json::Array(items)) => {
                proof {
                    let held = self@.items_of(name@)->Some_0;
                    assert(held =~= crate::text::views(items@));
                }
                Some(items)
            },
            _ => None,
        }
    }

    /// Whether the value is an object.
    pub fn is_object(&self) -> (object: bool)
        ensures
            object == (self@ is Object),
    {
        matches!(self, Json::Object(_))
    }
}

impl JsonView {
    /// An object without members.
    pub open spec fn object() -> JsonView {
        JsonView::Object(Seq::empty())
    }

    /// An object with one member more.
    pub open spec fn with(self, name: Seq<char>, value: JsonView) -> JsonView {
        match self {
            JsonView::Object(members) => JsonView::Object(members.push((name, value))),
            other => other,
        }
    }

    /// An object with a text more.
    pub open spec fn with_text(self, name: Seq<char>, value: Seq<char>) -> JsonView {
        self.with(name, JsonView::Text(value))
    }

    /// An array of one item.
    pub open spec fn one(item: JsonView) -> JsonView {
        JsonView::Array(seq![item])
    }
}

impl Json {
    /// An object without members.
    pub fn object() -> (json: Json)
        ensures
            json@ == JsonView::object(),
    {
        let json = Json::Object(Vec::new());
        proof {
            assert(json@->Object_0 =~= Seq::empty());
        }
        json
    }

    /// Adds a member to an object; any other value stays as it is.
    pub fn with(self, name: &str, value: Json) -> (json: Json)
        ensures
            json@ == self@.with(name@, value@),
    {
        let ghost before = self@;
        match self {
            Json::Object(members) => {
                let mut members = members;
                members.push((name.to_owned(), value));
                let json = Json::Object(members);
                proof {
                    assert(json@->Object_0 =~= before->Object_0.push((name@, value@)));
                }
                json
            },
            other => other,
        }
    }

    /// Adds a text to an object; any other value stays as it is.
    pub fn with_text(self, name: &str, value: &str) -> (json: Json)
        ensures
            json@ == self@.with_text(name@, value@),
    {
        self.with(name, Json::Text(value.to_owned()))
    }

    /// An array of one item.
    pub fn one(item: Json) -> (json: Json)
        ensures
            json@ == JsonView::one(item@),
    {
        let mut items: Vec<Json> = Vec::new();
        items.push(item);
        let json = Json::Array(items);
        proof {
            assert(json@->Array_0 =~= seq![item@]);
        }
        json
    }
}

/// Appends one member of an object.
pub(crate) fn member(members: &mut Vec<(String, Json)>, name: &str, value: Json)
    ensures
        final(members)@.len() == old(members)@.len() + 1,
        forall|i: int|
            0 <= i < old(members)@.len() ==> #[trigger] final(members)@[i] == old(members)@[i],
        final(members)@.last().0@ == name@,
        final(members)@.last().1@ == value@,
{
    members.push((name.to_owned(), value));
}

/// What reading a text as JSON yields: its value, or the message of the refusal.
pub uninterp spec fn json_parsed(text: Seq<char>) -> Result<JsonView, Seq<char>>;

/// What a value of `serde_json` holds.
pub uninterp spec fn json_held(value: serde_json::Value) -> JsonView;

/// The compact text of a JSON value.
pub uninterp spec fn json_written(value: JsonView) -> Seq<char>;

/// The JSON value of the outside crate.
#[verifier::external_type_specification]
#[verifier::external_body]
pub struct ExJsonValue(serde_json::Value);

/// Calls `serde_json::from_str`. The result is a function of the text alone and is named
/// [`json_parsed`]; a refusal is carried as its displayed message.
#[verifier::external_body]
fn decode(text: &str) -> (decoded: Result<serde_json::Value, String>)
    ensures
        match decoded {
            Ok(value) => json_parsed(text@) == Ok::<JsonView, Seq<char>>(json_held(value)),
            Err(message) => json_parsed(text@) == Err::<JsonView, Seq<char>>(message@),
        },
{
    match serde_json::from_str::<serde_json::Value>(text) {
        Ok(value) => Ok(value),
        Err(error) => Err(error.to_string()),
    }
}

/// Takes a `serde_json::Value` apart, one arm for each of its variants; of a number,
/// `serde_json::Number::as_u64`. What it holds is named [`json_held`].
#[verifier::external_body]
fn plain(value: serde_json::Value) -> (json: Json)
    ensures
        json@ == json_held(value),
{
    match value {
        serde_json::Value::Null => Json::Null,
        serde_json::Value::Bool(value) => Json::Bool(value),
        serde_json::Value::Number(value) => Json::Number(value.as_u64()),
        serde_json::Value::String(value) => Json::Text(value),
        serde_json::Value::Array(items) => Json::Array(items.into_iter().map(plain).collect()),
        serde_json::Value::Object(members) => Json::Object(
            members.into_iter().map(|(name, value)| (name, plain(value))).collect(),
        ),
    }
}

/// Reads a text as JSON.
pub fn parse_json(text: &str) -> (parsed: Result<Json, String>)
    ensures
        match parsed {
            Ok(json) => json_parsed(text@) == Ok::<JsonView, Seq<char>>(json@),
            Err(message) => json_parsed(text@) == Err::<JsonView, Seq<char>>(message@),
        },
{
    match decode(text) {
        Ok(value) => Ok(plain(value)),
        Err(message) => Err(message),
    }
}

impl JsonView {
    /// Whether the value determines its own text: every number is an unsigned integer, and the
    /// members of every object are in the order of their names, each name once.
    pub open spec fn writable(self) -> bool
        decreases self,
    {
        match self {
            JsonView::Number(value) => value is Some,
            JsonView::Array(items) => forall|i: int|
                0 <= i < items.len() ==> (#[trigger] items[i]).writable(),
            JsonView::Object(members) => {
                &&& forall|i: int| 0 <= i < members.len() ==> (#[trigger] members[i]).1.writable()
                &&& forall|i: int, j: int|
                    #![trigger members[i], members[j]]
                    0 <= i < j < members.len() ==> text_before(members[i].0, members[j].0)
            },
            _ => true,
        }
    }

    /// Whether arrays and objects nest at most so deep.
    pub open spec fn nests_within(self, depth: nat) -> bool
        decreases depth,
    {
        match self {
            JsonView::Array(items) => depth > 0 && forall|i: int|
                0 <= i < items.len() ==> (#[trigger] items[i]).nests_within((depth - 1) as nat),
            JsonView::Object(members) => depth > 0 && forall|i: int|
                0 <= i < members.len() ==> (#[trigger] members[i]).1.nests_within(
                    (depth - 1) as nat,
                ),
            _ => true,
        }
    }
}

/// Builds a `serde_json::Value`, one arm for each variant of the library's own; a number by
/// `serde_json::Value::from`. The outside value holds the same content.
#[verifier::external_body]
fn outside(json: &Json) -> (value: serde_json::Value)
    requires
        json@.writable(),
    ensures
        json_held(value) == json@,
{
    match json {
        Json::Null => serde_json::Value::Null,
        Json::Bool(value) => serde_json::Value::Bool(*value),
        Json::Number(value) => serde_json::Value::from(*value),
        Json::Text(text) => serde_json::Value::String(text.clone()),
        Json::Array(items) => serde_json::Value::Array(items.iter().map(outside).collect()),
        Json::Object(members) => serde_json::Value::Object(
            members.iter().map(|member| (member.0.clone(), outside(&member.1))).collect(),
        ),
    }
}

/// Calls the `Display` of `serde_json::Value`, which writes compact JSON. The text is a function of
/// the content and is named [`json_written`]; below the depth at which `serde_json::from_str`
/// refuses to descend, that function reads the same content back.
#[verifier::external_body]
fn encode(value: &serde_json::Value) -> (text: String)
    requires
        json_held(*value).writable(),
    ensures
        text@ == json_written(json_held(*value)),
        (json_held(*value).nests_within(100) ==> json_parsed(text@) == Ok::<JsonView, Seq<char>>(
            json_held(*value),
        )),
{
    value.to_string()
}

proof fn lemma_unwritable_item(items: Seq<JsonView>, index: int)
    requires
        0 <= index < items.len(),
        !items[index].writable(),
    ensures
        !JsonView::Array(items).writable(),
{
    reveal_with_fuel(JsonView::writable, 2);
    if JsonView::Array(items).writable() {
        assert(JsonView::Array(items)->Array_0 == items);
        assert(items[index].writable());
    }
}

proof fn lemma_unwritable_member(members: Seq<(Seq<char>, JsonView)>, index: int)
    requires
        0 <= index < members.len(),
        !members[index].1.writable(),
    ensures
        !JsonView::Object(members).writable(),
{
    reveal_with_fuel(JsonView::writable, 2);
    if JsonView::Object(members).writable() {
        assert(JsonView::Object(members)->Object_0 == members);
        assert(members[index].1.writable());
    }
}

proof fn lemma_unordered_members(members: Seq<(Seq<char>, JsonView)>, index: int)
    requires
        0 < index < members.len(),
        !text_before(members[index - 1].0, members[index].0),
    ensures
        !JsonView::Object(members).writable(),
{
    reveal_with_fuel(JsonView::writable, 2);
    assert(JsonView::Object(members)->Object_0 == members);
    let first = members[index - 1];
    let second = members[index];
    assert(!text_before(first.0, second.0));
}

impl Json {
    /// Whether the value determines its own text.
    pub fn is_writable(&self) -> (writable: bool)
        ensures
            writable == self@.writable(),
        decreases self,
    {
        match self {
            Json::Number(value) => value.is_some(),
            Json::Array(items) => {
                let ghost all = self@->Array_0;
                let mut index: usize = 0;
                while index < items.len()
                    invariant
                        index <= items@.len(),
                        *self == Json::Array(*items),
                        self@ == JsonView::Array(all),
                        all.len() == items@.len(),
                        forall|i: int| 0 <= i < items@.len() ==> #[trigger] all[i] == items@[i]@,
                        forall|i: int| 0 <= i < index ==> (#[trigger] all[i]).writable(),
                    decreases items@.len() - index,
                {
                    proof {
                        assert(decreases_to!(self => items@[index as int]));
                    }
                    if !items[index].is_writable() {
                        proof {
                            lemma_unwritable_item(all, index as int);
                        }
                        return false;
                    }
                    index = index + 1;
                }
                true
            },
            Json::Object(members) => {
                let ghost all = self@->Object_0;
                let mut index: usize = 0;
                while index < members.len()
                    invariant
                        index <= members@.len(),
                        *self == Json::Object(*members),
                        self@ == JsonView::Object(all),
                        all.len() == members@.len(),
                        forall|i: int|
                            0 <= i < members@.len() ==> #[trigger] all[i] == (
                                members@[i].0@,
                                members@[i].1@,
                            ),
                        forall|i: int| 0 <= i < index ==> (#[trigger] all[i]).1.writable(),
                        forall|i: int, j: int|
                            #![trigger all[i], all[j]]
                            0 <= i < j < index ==> text_before(all[i].0, all[j].0),
                    decreases members@.len() - index,
                {
                    proof {
                        assert(decreases_to!(self => members@[index as int]));
                        assert(decreases_to!(self => members@[index as int].1));
                    }
                    if !members[index].1.is_writable() {
                        proof {
                            lemma_unwritable_member(all, index as int);
                        }
                        return false;
                    }
                    if index > 0 && !precedes(
                        members[index - 1].0.as_str(),
                        members[index].0.as_str(),
                    ) {
                        proof {
                            lemma_unordered_members(all, index as int);
                        }
                        return false;
                    }
                    proof {
                        assert forall|i: int| 0 <= i < index implies text_before(
                            (#[trigger] all[i]).0,
                            all[index as int].0,
                        ) by {
                            if i < index - 1 {
                                lemma_text_transitive(
                                    all[i].0,
                                    all[index - 1].0,
                                    all[index as int].0,
                                );
                            }
                        }
                    }
                    index = index + 1;
                }
                true
            },
            _ => true,
        }
    }
}

/// Writes a JSON value as compact text where the value determines it.
pub fn try_write_json(json: &Json) -> (text: Option<String>)
    ensures
        match text {
            Some(text) => json@.writable() && text@ == json_written(json@) && (
            json@.nests_within(100) ==> json_parsed(text@) == Ok::<JsonView, Seq<char>>(json@)),
            None => !json@.writable(),
        },
{
    if json.is_writable() {
        Some(write_json(json))
    } else {
        None
    }
}

/// Writes a JSON value as compact text, which reads back to the same value.
pub fn write_json(json: &Json) -> (text: String)
    requires
        json@.writable(),
    ensures
        text@ == json_written(json@),
        json@.nests_within(100) ==> json_parsed(text@) == Ok::<JsonView, Seq<char>>(json@),
{
    encode(&outside(json))
}

} // verus!
