//! JSON documents, as far as claims are read from them.

use crate::text::same_text;
use vstd::prelude::*;

verus! {

/// What a JSON value holds. Null, truth values and numbers are one case: no claim is read from
/// them.
pub enum JsonTree {
    Scalar,
    Text(Seq<char>),
    List(Seq<JsonTree>),
    Record(Map<Seq<char>, JsonTree>),
}

impl JsonTree {
    /// The member of a record with this name.
    pub open spec fn member(self, name: Seq<char>) -> Option<JsonTree> {
        match self {
            JsonTree::Record(members) => if members.dom().contains(name) {
                Some(members[name])
            } else {
                None
            },
            _ => None,
        }
    }

    /// The first item of a list.
    pub open spec fn first(self) -> Option<JsonTree> {
        match self {
            JsonTree::List(items) => if items.len() > 0 {
                Some(items[0])
            } else {
                None
            },
            _ => None,
        }
    }

    /// The characters of a text.
    pub open spec fn text(self) -> Option<Seq<char>> {
        match self {
            JsonTree::Text(text) => Some(text),
            _ => None,
        }
    }
}

/// A JSON value. Of two members of a record with one name the later counts.
pub enum Json {
    Scalar,
    Text(String),
    List(Vec<Json>),
    Record(Vec<(String, Json)>),
}

/// What the items of a list hold.
pub open spec fn item_trees(items: Seq<Json>) -> Seq<JsonTree>
    decreases items,
{
    if items.len() == 0 {
        Seq::empty()
    } else {
        item_trees(items.drop_last()).push(items.last().tree())
    }
}

/// What the members of a record hold, by name.
pub open spec fn member_trees(members: Seq<(String, Json)>) -> Map<Seq<char>, JsonTree>
    decreases members,
{
    if members.len() == 0 {
        Map::empty()
    } else {
        member_trees(members.drop_last()).insert(members.last().0@, members.last().1.tree())
    }
}

impl Json {
    /// What the value holds.
    pub open spec fn tree(self) -> JsonTree
        decreases self,
    {
        match self {
            Json::Scalar => JsonTree::Scalar,
            Json::Text(text) => JsonTree::Text(text@),
            Json::List(items) => JsonTree::List(item_trees(items@)),
            Json::Record(members) => JsonTree::Record(member_trees(members@)),
        }
    }
}

impl Json {
    /// Gives the member of a record with this name.
    pub fn member(&self, name: &str) -> (r: Option<&Json>)
        ensures
            match r {
                Some(json) => self@.member(name@) == Some(json@),
                None => self@.member(name@) is None,
            },
    {
        match self {
            Json::Record(members) => {
                let mut left: usize = members.len();
                assert(members@.take(left as int) == members@);
                while left > 0
                    invariant
                        left <= members@.len(),
                        self@ == JsonTree::Record(member_trees(members@)),
                        ({
                            let all = member_trees(members@);
                            let rest = member_trees(members@.take(left as int));
                            &&& all.dom().contains(name@) <==> rest.dom().contains(name@)
                            &&& all.dom().contains(name@) ==> all[name@] == rest[name@]
                        }),
                    decreases left,
                {
                    let ghost rest = members@.take(left as int);
                    assert(rest.drop_last() == members@.take(left - 1));
                    assert(rest.last() == members@[left - 1]);
                    if same_text(members[left - 1].0.as_str(), name) {
                        return Some(&members[left - 1].1);
                    }
                    left = left - 1;
                }
                None
            },
            _ => None,
        }
    }

    /// Gives the first item of a list.
    pub fn first(&self) -> (r: Option<&Json>)
        ensures
            match r {
                Some(json) => self@.first() == Some(json@),
                None => self@.first() is None,
            },
    {
        match self {
            Json::List(items) => if items.len() > 0 {
                proof {
                    lemma_item_held(items@, 0);
                }
                Some(&items[0])
            } else {
                None
            },
            _ => None,
        }
    }

    /// Gives the characters of a text.
    pub fn text(&self) -> (r: Option<&str>)
        ensures
            match r {
                Some(text) => self@.text() == Some(text@),
                None => self@.text() is None,
            },
    {
        match self {
            Json::Text(text) => Some(text.as_str()),
            _ => None,
        }
    }
}

/// A list holds each of its items at its place.
proof fn lemma_item_held(items: Seq<Json>, i: int)
    requires
        0 <= i < items.len(),
    ensures
        item_trees(items).len() == items.len(),
        item_trees(items)[i] == items[i]@,
    decreases items.len(),
{
    let rest = items.drop_last();
    if i < rest.len() {
        lemma_item_held(rest, i);
    } else if rest.len() > 0 {
        lemma_item_held(rest, 0);
    } else {
        assert(item_trees(rest) == Seq::<JsonTree>::empty());
    }
}

impl View for Json {
    type V = JsonTree;

    open spec fn view(&self) -> JsonTree {
        self.tree()
    }
}

/// `serde_json::Value`, opaque here: `value_tree` names what it holds.
#[verifier::external_type_specification]
#[verifier::external_body]
pub struct ExValue(serde_json::Value);

/// What a value of `serde_json` holds.
pub uninterp spec fn value_tree(value: serde_json::Value) -> JsonTree;

/// What the JSON document in these bytes holds, where they are one.
pub uninterp spec fn json_document(bytes: Seq<u8>) -> Option<JsonTree>;

/// One layer of a JSON value: the values inside a list or a record are not taken apart.
pub enum JsonLayer {
    Scalar,
    Text(String),
    List(Vec<serde_json::Value>),
    Record(Vec<(String, serde_json::Value)>),
}

/// What the values of a list hold.
pub open spec fn value_items(values: Seq<serde_json::Value>) -> Seq<JsonTree> {
    values.map_values(|value: serde_json::Value| value_tree(value))
}

/// What the named values of a record hold, by name.
pub open spec fn value_members(members: Seq<(String, serde_json::Value)>) -> Map<
    Seq<char>,
    JsonTree,
>
    decreases members.len(),
{
    if members.len() == 0 {
        Map::empty()
    } else {
        value_members(members.drop_last()).insert(
            members.last().0@,
            value_tree(members.last().1),
        )
    }
}

/// No two members have one name.
pub open spec fn names_differ(members: Seq<(String, serde_json::Value)>) -> bool {
    forall|i: int, j: int|
        0 <= i < j < members.len() ==> (#[trigger] members[i]).0@ != (#[trigger] members[j]).0@
}

/// Parses bytes by `serde_json::from_slice`: the contract names what the document holds.
#[verifier::external_body]
fn parse_value(bytes: &[u8]) -> (r: Option<serde_json::Value>)
    ensures
        match r {
            Some(value) => json_document(bytes@) == Some(value_tree(value)),
            None => json_document(bytes@) is None,
        },
{
    serde_json::from_slice::<serde_json::Value>(bytes).ok()
}

/// Takes one layer off a `serde_json::Value`: the contract says that the layer holds what the
/// value holds, and that the names of a record differ.
#[verifier::external_body]
fn value_layer(value: serde_json::Value) -> (r: JsonLayer)
    ensures
        match r {
            JsonLayer::Scalar => value_tree(value) == JsonTree::Scalar,
            JsonLayer::Text(text) => value_tree(value) == JsonTree::Text(text@),
            JsonLayer::List(items) => value_tree(value) == JsonTree::List(value_items(items@)),
            JsonLayer::Record(members) => {
                &&& value_tree(value) == JsonTree::Record(value_members(members@))
                &&& names_differ(members@)
            },
        },
{
    match value {
        serde_json::Value::Null => JsonLayer::Scalar,
        serde_json::Value::Bool(_) => JsonLayer::Scalar,
        serde_json::Value::Number(_) => JsonLayer::Scalar,
        serde_json::Value::String(text) => JsonLayer::Text(text),
        serde_json::Value::Array(items) => JsonLayer::List(items),
        serde_json::Value::Object(members) => JsonLayer::Record(members.into_iter().collect()),
    }
}

/// A record holds each of its members.
proof fn lemma_member_held(members: Seq<(String, serde_json::Value)>, i: int)
    requires
        names_differ(members),
        0 <= i < members.len(),
    ensures
        value_members(members).dom().finite(),
        value_members(members).dom().contains(members[i].0@),
        value_members(members)[members[i].0@] == value_tree(members[i].1),
    decreases members.len(),
{
    let rest = members.drop_last();
    assert(names_differ(rest)) by {
        assert forall|a: int, b: int| 0 <= a < b < rest.len() implies (#[trigger] rest[a]).0@ != (
        #[trigger] rest[b]).0@ by {
            assert(members[a].0@ != members[b].0@);
        }
    }
    if i < rest.len() {
        lemma_member_held(rest, i);
        assert(rest[i] == members[i]);
        assert(members[i].0@ != members[members.len() - 1].0@);
    } else if rest.len() > 0 {
        lemma_member_held(rest, 0);
    } else {
        assert(value_members(rest) == Map::<Seq<char>, JsonTree>::empty());
    }
}

/// Takes a value of `serde_json` apart.
fn json_from_value(value: serde_json::Value) -> (r: Json)
    ensures
        r@ == value_tree(value),
    decreases value_tree(value),
{
    let ghost whole = value_tree(value);
    match value_layer(value) {
        JsonLayer::Scalar => Json::Scalar,
        JsonLayer::Text(text) => Json::Text(text),
        JsonLayer::List(values) => {
            let mut items: Vec<Json> = Vec::new();
            let ghost all = values@;
            for inner in iter: values
                invariant
                    iter.seq() == all,
                    whole == value_tree(value),
                    whole == JsonTree::List(value_items(all)),
                    item_trees(items@) == value_items(all).take(iter.index()),
            {
                let ghost k = iter.index();
                let ghost before = items@;
                proof {
                    assert(whole->List_0[k] == value_tree(inner));
                    assert(decreases_to!(whole => whole->List_0));
                    assert(decreases_to!(whole->List_0 => whole->List_0[k]));
                }
                let item = json_from_value(inner);
                items.push(item);
                proof {
                    assert(items@.drop_last() == before);
                    assert(value_items(all).take(k + 1) == value_items(all).take(k).push(item@));
                }
            }
            assert(value_items(all).take(all.len() as int) == value_items(all));
            Json::List(items)
        },
        JsonLayer::Record(values) => {
            let mut members: Vec<(String, Json)> = Vec::new();
            let ghost all = values@;
            for named in iter: values
                invariant
                    iter.seq() == all,
                    whole == value_tree(value),
                    whole == JsonTree::Record(value_members(all)),
                    names_differ(all),
                    member_trees(members@) == value_members(all.take(iter.index())),
            {
                let ghost k = iter.index();
                let ghost before = members@;
                let (name, inner) = named;
                proof {
                    lemma_member_held(all, k);
                    assert(whole->Record_0[name@] == value_tree(inner));
                    assert(decreases_to!(whole => whole->Record_0));
                    assert(decreases_to!(whole->Record_0 => whole->Record_0[name@]));
                }
                let member = json_from_value(inner);
                members.push((name, member));
                proof {
                    assert(members@.drop_last() == before);
                    assert(all.take(k + 1).drop_last() == all.take(k));
                }
            }
            assert(all.take(all.len() as int) == all);
            Json::Record(members)
        },
    }
}

/// Parses a JSON document, where the bytes are one.
pub fn parse_json(bytes: &[u8]) -> (r: Option<Json>)
    ensures
        match r {
            Some(json) => json_document(bytes@) == Some(json@),
            None => json_document(bytes@) is None,
        },
{
    match parse_value(bytes) {
        Some(value) => Some(json_from_value(value)),
        None => None,
    }
}

} // verus!
