//! JSON documents as plain values.

use vstd::prelude::*;
use vstd::string::*;

verus! {

/// A JSON value. A number that is no integer is kept as its text. The members of an
/// object are kept as a list; a parsed object names each member once.
#[derive(Debug, PartialEq, Eq)]
pub enum Json {
    Null,
    Bool(bool),
    Unsigned(u64),
    Negative(i64),
    Float(String),
    Text(String),
    Array(Vec<Json>),
    Object(Vec<(String, Json)>),
}

/// What a [`Json`] holds.
pub enum JsonView {
    Null,
    Bool(bool),
    Unsigned(u64),
    Negative(i64),
    Float(Seq<char>),
    Text(Seq<char>),
    Array(Seq<JsonView>),
    Object(Seq<(Seq<char>, JsonView)>),
}

impl Json {
    /// What this value holds.
    pub open spec fn tree(self) -> JsonView
        decreases self,
    {
        match self {
            Json::Null => JsonView::Null,
            Json::Bool(value) => JsonView::Bool(value),
            Json::Unsigned(value) => JsonView::Unsigned(value),
            Json::Negative(value) => JsonView::Negative(value),
            Json::Float(text) => JsonView::Float(text@),
            Json::Text(text) => JsonView::Text(text@),
            Json::Array(items) => JsonView::Array(
                Seq::new(
                    items@.len(),
                    |i: int|
                        if 0 <= i < items@.len() {
                            items@[i].tree()
                        } else {
                            JsonView::Null
                        },
                ),
            ),
            Json::Object(members) => JsonView::Object(
                Seq::new(
                    members@.len(),
                    |i: int|
                        if 0 <= i < members@.len() {
                            (members@[i].0@, members@[i].1.tree())
                        } else {
                            (Seq::empty(), JsonView::Null)
                        },
                ),
            ),
        }
    }
}

/// The members of an object.
pub open spec fn member_trees(members: Seq<(String, Json)>) -> Seq<(Seq<char>, JsonView)> {
    Seq::new(members.len(), |i: int| (members[i].0@, members[i].1.tree()))
}

/// The first member from `from` on that has the given name, or their number.
pub open spec fn member_index(
    members: Seq<(Seq<char>, JsonView)>,
    key: Seq<char>,
    from: nat,
) -> nat
    decreases members.len() - from,
{
    if from < members.len() && members[from as int].0 != key {
        member_index(members, key, from + 1)
    } else {
        from
    }
}

impl JsonView {
    /// The member of an object that has the given name.
    pub open spec fn get(self, key: Seq<char>) -> Option<JsonView> {
        match self {
            JsonView::Object(members) => {
                let index = member_index(members, key, 0);
                if index < members.len() {
                    Some(members[index as int].1)
                } else {
                    None
                }
            },
            _ => None,
        }
    }

    /// The text of a member, where it is a text.
    pub open spec fn text_member(self, key: Seq<char>) -> Option<Seq<char>> {
        match self.get(key) {
            Some(JsonView::Text(text)) => Some(text),
            _ => None,
        }
    }

    /// The truth value of a member, where it is one.
    pub open spec fn bool_member(self, key: Seq<char>) -> Option<bool> {
        match self.get(key) {
            Some(JsonView::Bool(value)) => Some(value),
            _ => None,
        }
    }

    /// An object with a member set: replaced where there is one of that name, else
    /// added at the end. A value that is no object becomes one with that member.
    pub open spec fn with(self, key: Seq<char>, value: JsonView) -> JsonView {
        match self {
            JsonView::Object(members) => {
                let index = member_index(members, key, 0);
                if index < members.len() {
                    JsonView::Object(members.update(index as int, (key, value)))
                } else {
                    JsonView::Object(members.push((key, value)))
                }
            },
            _ => JsonView::Object(seq![(key, value)]),
        }
    }
}

proof fn lemma_member_index(members: Seq<(Seq<char>, JsonView)>, key: Seq<char>, from: nat)
    requires
        from <= members.len(),
    ensures
        from <= member_index(members, key, from) <= members.len(),
        forall|i: int| from <= i < member_index(members, key, from) ==> members[i].0 != key,
        member_index(members, key, from) < members.len() ==> members[member_index(
            members,
            key,
            from,
        ) as int].0 == key,
    decreases members.len() - from,
{
    if from < members.len() && members[from as int].0 != key {
        lemma_member_index(members, key, from + 1);
    }
}

proof fn lemma_member_index_is(members: Seq<(Seq<char>, JsonView)>, key: Seq<char>, from: nat, index: nat)
    requires
        from <= index <= members.len(),
        forall|i: int| from <= i < index ==> members[i].0 != key,
        index == members.len() || members[index as int].0 == key,
    ensures
        member_index(members, key, from) == index,
    decreases index - from,
{
    if from < index {
        lemma_member_index_is(members, key, from + 1, index);
    }
}

/// An object's member is the first of that name.
pub proof fn first_member_is_read(members: Seq<(Seq<char>, JsonView)>, at: nat)
    requires
        at < members.len(),
        forall|i: int| 0 <= i < at ==> (#[trigger] members[i]).0 != members[at as int].0,
    ensures
        JsonView::Object(members).get(members[at as int].0) == Some(members[at as int].1),
{
    lemma_member_index_is(members, members[at as int].0, 0, at);
}

/// An object has no member of a name that none of its members bears.
pub proof fn missing_member_is_not_read(members: Seq<(Seq<char>, JsonView)>, key: Seq<char>)
    requires
        forall|i: int| 0 <= i < members.len() ==> (#[trigger] members[i]).0 != key,
    ensures
        JsonView::Object(members).get(key) is None,
{
    lemma_member_index_is(members, key, 0, members.len());
}

/// A member that was set is read back.
pub proof fn set_member_is_read_back(object: JsonView, key: Seq<char>, value: JsonView)
    ensures
        object.with(key, value).get(key) == Some(value),
{
    match object {
        JsonView::Object(members) => {
            lemma_member_index(members, key, 0);
            let index = member_index(members, key, 0);
            if index < members.len() {
                lemma_member_index_is(members.update(index as int, (key, value)), key, 0, index);
            } else {
                lemma_member_index_is(members.push((key, value)), key, 0, members.len());
            }
        },
        _ => {
            lemma_member_index_is(seq![(key, value)], key, 0, 0);
        },
    }
}

/// Setting a member leaves the other members of an object alone.
pub proof fn set_member_keeps_the_others(
    object: JsonView,
    key: Seq<char>,
    value: JsonView,
    other: Seq<char>,
)
    requires
        object is Object,
        other != key,
    ensures
        object.with(key, value).get(other) == object.get(other),
{
    let members = object->Object_0;
    lemma_member_index(members, key, 0);
    lemma_member_index(members, other, 0);
    let index = member_index(members, key, 0);
    let at = member_index(members, other, 0);
    if index < members.len() {
        let updated = members.update(index as int, (key, value));
        assert forall|i: int| 0 <= i < at implies updated[i].0 != other by {
            if i != index {
                assert(updated[i] == members[i]);
            }
        }
        if at < members.len() {
            assert(at != index);
            assert(updated[at as int] == members[at as int]);
        }
        lemma_member_index_is(updated, other, 0, at);
    } else {
        let pushed = members.push((key, value));
        assert forall|i: int| 0 <= i < at implies pushed[i].0 != other by {
            assert(pushed[i] == members[i]);
        }
        if at < members.len() {
            assert(pushed[at as int] == members[at as int]);
            lemma_member_index_is(pushed, other, 0, at);
        } else {
            assert forall|i: int| 0 <= i < pushed.len() implies pushed[i].0 != other by {
                if i < members.len() {
                    assert(pushed[i] == members[i]);
                }
            }
            lemma_member_index_is(pushed, other, 0, pushed.len());
        }
    }
}

/// A value of the JSON parser.
#[verifier::external_type_specification]
#[verifier::external_body]
pub struct ExJsonValue(serde_json::Value);

/// What a `serde_json::Value` holds.
pub uninterp spec fn value_tree(value: serde_json::Value) -> JsonView;

/// The document that `serde_json::from_slice` reads from bytes, where they hold one.
pub uninterp spec fn parsed_json(bytes: Seq<u8>) -> Option<JsonView>;

/// One level of a parser value.
enum JsonParts {
    Null,
    Bool(bool),
    Unsigned(u64),
    Negative(i64),
    Float(String),
    Text(String),
    Array(Vec<serde_json::Value>),
    Object(Vec<(String, serde_json::Value)>),
}

/// What one level of a parser value and the values below it hold.
spec fn parts_tree(parts: JsonParts) -> JsonView {
    match parts {
        JsonParts::Null => JsonView::Null,
        JsonParts::Bool(value) => JsonView::Bool(value),
        JsonParts::Unsigned(value) => JsonView::Unsigned(value),
        JsonParts::Negative(value) => JsonView::Negative(value),
        JsonParts::Float(text) => JsonView::Float(text@),
        JsonParts::Text(text) => JsonView::Text(text@),
        JsonParts::Array(items) => JsonView::Array(
            Seq::new(items@.len(), |i: int| value_tree(items@[i])),
        ),
        JsonParts::Object(members) => JsonView::Object(
            Seq::new(members@.len(), |i: int| (members@[i].0@, value_tree(members@[i].1))),
        ),
    }
}

/// `serde_json::from_slice` reads a whole document, or fails.
#[verifier::external_body]
fn parse_value(bytes: &[u8]) -> (result: Option<serde_json::Value>)
    ensures
        match result {
            Some(value) => parsed_json(bytes@) == Some(value_tree(value)),
            None => parsed_json(bytes@) is None,
        },
{
    serde_json::from_slice(bytes).ok()
}

/// The variants of `serde_json::Value` with their contents: an integer as such,
/// another number as the text that `Number` displays, an object as its members in
/// the order of the parser's map.
#[verifier::external_body]
fn take_apart(value: serde_json::Value) -> (parts: JsonParts)
    ensures
        parts_tree(parts) == value_tree(value),
{
    match value {
        serde_json::Value::Null => JsonParts::Null,
        serde_json::Value::Bool(value) => JsonParts::Bool(value),
        serde_json::Value::Number(number) => match (number.as_u64(), number.as_i64()) {
            (Some(value), _) => JsonParts::Unsigned(value),
            (None, Some(value)) => JsonParts::Negative(value),
            (None, None) => JsonParts::Float(number.to_string()),
        },
        serde_json::Value::String(text) => JsonParts::Text(text),
        serde_json::Value::Array(items) => JsonParts::Array(items),
        serde_json::Value::Object(members) => JsonParts::Object(members.into_iter().collect()),
    }
}

fn plain(value: serde_json::Value) -> (result: Json)
    ensures
        result.tree() == value_tree(value),
    decreases value_tree(value),
{
    match take_apart(value) {
        JsonParts::Null => Json::Null,
        JsonParts::Bool(value) => Json::Bool(value),
        JsonParts::Unsigned(value) => Json::Unsigned(value),
        JsonParts::Negative(value) => Json::Negative(value),
        JsonParts::Float(text) => Json::Float(text),
        JsonParts::Text(text) => Json::Text(text),
        JsonParts::Array(items) => {
            let ghost trees = value_tree(value)->Array_0;
            let ghost all = items@;
            let mut items = items;
            let mut reversed: Vec<Json> = Vec::new();
            while items.len() > 0
                invariant
                    items@.len() + reversed@.len() == all.len(),
                    items@ == all.take(items@.len() as int),
                    all.len() == trees.len(),
                    value_tree(value) is Array,
                    trees == value_tree(value)->Array_0,
                    forall|i: int| 0 <= i < all.len() ==> value_tree(all[i]) == trees[i],
                    forall|i: int|
                        0 <= i < reversed@.len() ==> (#[trigger] reversed@[i]).tree() == trees[
                        all.len() - 1 - i],
                decreases items@.len(),
            {
                let ghost last = items@.len() - 1;
                let item = items.pop();
                if let Some(item) = item {
                    assert(item == all[last]);
                    assert(value_tree(item) == trees[last]);
                    assert(decreases_to!(value_tree(value) => value_tree(value)->Array_0));
                    assert(decreases_to!(trees => trees[last]));
                    reversed.push(plain(item));
                }
                assert(items@ =~= all.take(items@.len() as int));
            }
            let items = in_order(reversed);
            let result = Json::Array(items);
            assert(result.tree()->Array_0 =~= trees);
            result
        },
        JsonParts::Object(members) => {
            let ghost trees = value_tree(value)->Object_0;
            let ghost all = members@;
            let mut members = members;
            let mut reversed: Vec<(String, Json)> = Vec::new();
            while members.len() > 0
                invariant
                    members@.len() + reversed@.len() == all.len(),
                    members@ == all.take(members@.len() as int),
                    all.len() == trees.len(),
                    value_tree(value) is Object,
                    trees == value_tree(value)->Object_0,
                    forall|i: int|
                        0 <= i < all.len() ==> (all[i].0@, value_tree(all[i].1)) == trees[i],
                    forall|i: int|
                        0 <= i < reversed@.len() ==> ((#[trigger] reversed@[i]).0@, reversed@[i].1.tree())
                            == trees[all.len() - 1 - i],
                decreases members@.len(),
            {
                let ghost last = members@.len() - 1;
                let member = members.pop();
                if let Some((name, item)) = member {
                    assert((name, item) == all[last]);
                    assert((name@, value_tree(item)) == trees[last]);
                    assert(decreases_to!(value_tree(value) => value_tree(value)->Object_0));
                    assert(decreases_to!(trees => trees[last]));
                    assert(decreases_to!(trees[last] => trees[last].1));
                    reversed.push((name, plain(item)));
                }
                assert(members@ =~= all.take(members@.len() as int));
            }
            let members = in_order(reversed);
            let result = Json::Object(members);
            assert(result.tree()->Object_0 =~= trees);
            result
        },
    }
}

/// The items of a list, last first.
fn in_order<T>(reversed: Vec<T>) -> (result: Vec<T>)
    ensures
        result@ == reversed@.reverse(),
{
    let ghost all = reversed@;
    let mut reversed = reversed;
    let mut result: Vec<T> = Vec::new();
    while reversed.len() > 0
        invariant
            reversed@.len() + result@.len() == all.len(),
            reversed@ == all.take(reversed@.len() as int),
            forall|i: int| 0 <= i < result@.len() ==> result@[i] == all[all.len() - 1 - i],
        decreases reversed@.len(),
    {
        if let Some(item) = reversed.pop() {
            result.push(item);
        }
        assert(reversed@ =~= all.take(reversed@.len() as int));
    }
    assert(result@ =~= all.reverse());
    result
}

/// Read a whole document.
pub fn parse_json(bytes: &[u8]) -> (result: Option<Json>)
    ensures
        match result {
            Some(json) => parsed_json(bytes@) == Some(json.tree()),
            None => parsed_json(bytes@) is None,
        },
{
    match parse_value(bytes) {
        Some(value) => Some(plain(value)),
        None => None,
    }
}

impl Json {
    /// A text value.
    pub fn text(text: &str) -> (result: Json)
        ensures
            result.tree() == JsonView::Text(text@),
    {
        Json::Text(text.to_owned())
    }

    /// An object without members.
    pub fn object() -> (result: Json)
        ensures
            result.tree() == JsonView::Object(Seq::empty()),
    {
        let result = Json::Object(Vec::new());
        assert(result.tree()->Object_0 =~= Seq::empty());
        result
    }

    /// Whether this is an object.
    pub fn is_object(&self) -> (result: bool)
        ensures
            result == (self.tree() is Object),
    {
        matches!(self, Json::Object(_))
    }

    /// This value's text, where it is a text.
    pub fn as_text(&self) -> (result: Option<&String>)
        ensures
            match result {
                Some(text) => self.tree() == JsonView::Text(text@),
                None => !(self.tree() is Text),
            },
    {
        match self {
            Json::Text(text) => Some(text),
            _ => None,
        }
    }

    /// This value's truth value, where it is one.
    pub fn as_bool(&self) -> (result: Option<bool>)
        ensures
            match result {
                Some(value) => self.tree() == JsonView::Bool(value),
                None => !(self.tree() is Bool),
            },
    {
        match self {
            Json::Bool(value) => Some(*value),
            _ => None,
        }
    }

    /// This value's number, where it is an integer that is not negative.
    pub fn as_unsigned(&self) -> (result: Option<u64>)
        ensures
            match result {
                Some(value) => self.tree() == JsonView::Unsigned(value),
                None => !(self.tree() is Unsigned),
            },
    {
        match self {
            Json::Unsigned(value) => Some(*value),
            _ => None,
        }
    }

    /// The member of an object that has the given name.
    pub fn get(&self, key: &str) -> (result: Option<&Json>)
        ensures
            match result {
                Some(value) => self.tree().get(key@) == Some(value.tree()),
                None => self.tree().get(key@) is None,
            },
    {
        let Json::Object(members) = self else {
            return None;
        };
        let name = key.to_owned();
        let ghost trees = self.tree()->Object_0;
        let mut index: usize = 0;
        while index < members.len()
            invariant
                index <= members@.len() == trees.len(),
                *self == Json::Object(*members),
                trees == self.tree()->Object_0,
                name@ == key@,
                member_index(trees, key@, 0) == member_index(trees, key@, index as nat),
            decreases members@.len() - index,
        {
            assert(trees[index as int] == (
                members@[index as int].0@,
                members@[index as int].1.tree(),
            ));
            if members[index].0 == name {
                return Some(&members[index].1);
            }
            index += 1;
        }
        None
    }

    /// A member's text, where it is a text.
    pub fn text_member(&self, key: &str) -> (result: Option<&String>)
        ensures
            match result {
                Some(text) => self.tree().text_member(key@) == Some(text@),
                None => self.tree().text_member(key@) is None,
            },
    {
        match self.get(key) {
            Some(value) => value.as_text(),
            None => None,
        }
    }

    /// A member's truth value, where it is one.
    pub fn bool_member(&self, key: &str) -> (result: Option<bool>)
        ensures
            result == self.tree().bool_member(key@),
    {
        match self.get(key) {
            Some(value) => value.as_bool(),
            None => None,
        }
    }

    /// Set a member of an object.
    pub fn set(&mut self, key: &str, value: Json)
        ensures
            final(self).tree() == old(self).tree().with(key@, value.tree()),
    {
        let name = key.to_owned();
        let ghost before = self.tree();
        let mut members: Vec<(String, Json)> = Vec::new();
        if let Json::Object(present) = self {
            members.append(present);
        }
        let ghost trees = member_trees(members@);
        proof {
            if before is Object {
                assert(trees =~= before->Object_0);
            }
        }
        let mut index: usize = 0;
        while index < members.len() && !(members[index].0 == name)
            invariant
                index <= members@.len() == trees.len(),
                trees == member_trees(members@),
                member_index(trees, name@, 0) == member_index(trees, name@, index as nat),
            decreases members@.len() - index,
        {
            assert(trees[index as int].0 == members@[index as int].0@);
            index += 1;
        }
        proof {
            if index < members@.len() {
                assert(trees[index as int].0 == members@[index as int].0@);
            }
        }
        if index < members.len() {
            members[index] = (name, value);
            assert(member_trees(members@) =~= trees.update(index as int, (name@, value.tree())));
        } else {
            members.push((name, value));
            assert(member_trees(members@) =~= trees.push((name@, value.tree())));
        }
        let ghost result = member_trees(members@);
        *self = Json::Object(members);
        assert(self.tree()->Object_0 =~= result);
        assert(result =~= before.with(name@, value.tree())->Object_0);
    }

    /// A copy of this value.
    pub fn copy(&self) -> (result: Json)
        ensures
            result.tree() == self.tree(),
        decreases *self,
    {
        match self {
            Json::Null => Json::Null,
            Json::Bool(value) => Json::Bool(*value),
            Json::Unsigned(value) => Json::Unsigned(*value),
            Json::Negative(value) => Json::Negative(*value),
            Json::Float(text) => Json::Float(text.clone()),
            Json::Text(text) => Json::Text(text.clone()),
            Json::Array(items) => {
                let mut copies: Vec<Json> = Vec::new();
                let mut index: usize = 0;
                while index < items.len()
                    invariant
                        index <= items@.len(),
                        *self == Json::Array(*items),
                        copies@.len() == index,
                        forall|i: int|
                            0 <= i < index ==> (#[trigger] copies@[i]).tree() == items@[i].tree(),
                    decreases items@.len() - index,
                {
                    assert(decreases_to!(*self => self->Array_0));
                    copies.push(items[index].copy());
                    index += 1;
                }
                let result = Json::Array(copies);
                assert(result.tree()->Array_0 =~= self.tree()->Array_0);
                result
            },
            Json::Object(members) => {
                let mut copies: Vec<(String, Json)> = Vec::new();
                let mut index: usize = 0;
                while index < members.len()
                    invariant
                        index <= members@.len(),
                        *self == Json::Object(*members),
                        copies@.len() == index,
                        forall|i: int|
                            0 <= i < index ==> (#[trigger] copies@[i]).0@ == members@[i].0@
                                && copies@[i].1.tree() == members@[i].1.tree(),
                    decreases members@.len() - index,
                {
                    assert(decreases_to!(*self => self->Object_0));
                    let name = members[index].0.clone();
                    copies.push((name, members[index].1.copy()));
                    index += 1;
                }
                let result = Json::Object(copies);
                assert(result.tree()->Object_0 =~= self.tree()->Object_0);
                result
            },
        }
    }
}

} // verus!
