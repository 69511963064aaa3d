//! JSON object bodies made of the members that a request sets.
use vstd::prelude::*;
use vstd::string::StringExecFns;

use crate::query::{bool_string, bool_text};

verus! {

/// The JSON string literal for `s`: quoted, with the characters that JSON
/// requires escaped.
pub uninterp spec fn json_string_of(s: Seq<char>) -> Seq<char>;

/// Relies on `serde_json::to_string` applied to a `str`: the JSON string
/// literal of its argument. Its error, which a `str` does not produce, is
/// passed on as `None`.
#[verifier::external_body]
fn encode_str(s: &str) -> (r: Option<String>)
    ensures
        r matches Some(t) ==> t@ == json_string_of(s@),
{
    serde_json::to_string(s).ok()
}

/// The value of one member of a body.
#[derive(Debug)]
pub enum JsonValue {
    /// `true` or `false`.
    Bool(bool),
    /// A string, escaped when rendered.
    Str(String),
    /// A JSON value that the caller already encoded; shipped as it is.
    Raw(String),
}

/// What a member's value holds.
pub enum JsonModel {
    Bool(bool),
    Str(Seq<char>),
    Raw(Seq<char>),
}

/// One `"key": value` member of a JSON object.
pub type Member = (String, JsonValue);

pub open spec fn value_model(v: JsonValue) -> JsonModel {
    match v {
        JsonValue::Bool(b) => JsonModel::Bool(b),
        JsonValue::Str(s) => JsonModel::Str(s@),
        JsonValue::Raw(t) => JsonModel::Raw(t@),
    }
}

/// What a list of members holds: each key with the model of its value.
pub open spec fn members_view(ms: Seq<Member>) -> Seq<(Seq<char>, JsonModel)> {
    ms.map_values(|m: Member| (m.0@, value_model(m.1)))
}

/// The JSON text of a value.
pub open spec fn value_text(v: JsonModel) -> Seq<char> {
    match v {
        JsonModel::Bool(b) => bool_text(b),
        JsonModel::Str(s) => json_string_of(s),
        JsonModel::Raw(t) => t,
    }
}

/// `"key":value`, without spaces.
pub open spec fn member_text(m: (Seq<char>, JsonModel)) -> Seq<char> {
    seq!['"'] + m.0 + seq!['"', ':'] + value_text(m.1)
}

/// The members in order, separated by commas.
pub open spec fn members_text(ms: Seq<(Seq<char>, JsonModel)>) -> Seq<char>
    decreases ms.len(),
{
    if ms.len() == 0 {
        Seq::empty()
    } else if ms.len() == 1 {
        member_text(ms[0])
    } else {
        members_text(ms.drop_last()) + seq![','] + member_text(ms.last())
    }
}

/// The JSON object made of the members in order.
pub open spec fn object_text(ms: Seq<(Seq<char>, JsonModel)>) -> Seq<char> {
    seq!['{'] + members_text(ms) + seq!['}']
}

/// Whether some member holds a string, whose encoding is left to serde_json.
pub open spec fn has_string(ms: Seq<(Seq<char>, JsonModel)>) -> bool {
    exists|i: int| 0 <= i < ms.len() && ms[i].1 is Str
}

fn value_string(v: &JsonValue) -> (r: Option<String>)
    ensures
        !(v is Str) ==> r is Some,
        r matches Some(t) ==> t@ == value_text(value_model(*v)),
{
    match v {
        JsonValue::Bool(b) => Some(bool_string(*b)),
        JsonValue::Str(s) => encode_str(s.as_str()),
        JsonValue::Raw(t) => Some(t.clone()),
    }
}

/// Renders the members as one JSON object, keys in the order given. Keys are
/// written as they are and must need no escaping. The result is `None` only
/// where encoding a string member failed.
pub fn render_object(ms: &Vec<Member>) -> (r: Option<String>)
    ensures
        !has_string(members_view(ms@)) ==> r is Some,
        r matches Some(t) ==> t@ == object_text(members_view(ms@)),
{
    let ghost view = members_view(ms@);
    proof {
        reveal_strlit("{");
        assert("{"@ =~= seq!['{']);
    }
    let mut s = String::from_str("{");
    let mut i: usize = 0;
    while i < ms.len()
        invariant
            i <= ms@.len(),
            view == members_view(ms@),
            s@ == seq!['{'] + members_text(view.subrange(0, i as int)),
            !has_string(view) ==> forall|j: int| 0 <= j < view.len() ==> !(view[j].1 is Str),
        decreases ms@.len() - i,
    {
        let ghost prefix = view.subrange(0, i as int);
        let ghost next = view.subrange(0, i as int + 1);
        assert(next.drop_last() =~= prefix);
        assert(next.last() == view[i as int]);
        let text = match value_string(&ms[i].1) {
            Some(t) => t,
            None => {
                assert(view[i as int].1 is Str);
                return None;
            },
        };
        proof {
            reveal_strlit(",");
            reveal_strlit("\"");
            reveal_strlit("\":");
            assert(","@ =~= seq![',']);
            assert("\""@ =~= seq!['"']);
            assert("\":"@ =~= seq!['"', ':']);
        }
        let ghost s0 = s@;
        if i > 0 {
            s.append(",");
        }
        let ghost s1 = s@;
        assert(s1 == if i > 0 { s0 + seq![','] } else { s0 });
        s.append("\"");
        assert(s@ == s1 + seq!['"']);
        s.append(ms[i].0.as_str());
        assert(s@ == s1 + seq!['"'] + ms@[i as int].0@);
        s.append("\":");
        assert(s@ == s1 + seq!['"'] + ms@[i as int].0@ + seq!['"', ':']);
        s.append(text.as_str());
        proof {
            assert(view[i as int] == (ms@[i as int].0@, value_model(ms@[i as int].1)));
            assert(text@ == value_text(view[i as int].1));
            if i == 0 {
                assert(members_text(next) == member_text(view[0]));
            } else {
                assert(members_text(next) == members_text(prefix) + seq![','] + member_text(
                    view[i as int],
                ));
            }
            assert(s@ =~= seq!['{'] + members_text(next));
        }
        i = i + 1;
    }
    assert(view.subrange(0, ms@.len() as int) =~= view);
    proof {
        reveal_strlit("}");
        assert("}"@ =~= seq!['}']);
    }
    s.append("}");
    assert(s@ =~= object_text(view));
    Some(s)
}

} // verus!

verus! {

/// The value of the first member with key `key`, if there is one: what a
/// reader of the object finds under that key.
pub open spec fn member_value(ms: Seq<(Seq<char>, JsonModel)>, key: Seq<char>) -> Option<JsonModel>
    decreases ms.len(),
{
    if ms.len() == 0 {
        None
    } else if ms[0].0 == key {
        Some(ms[0].1)
    } else {
        member_value(ms.drop_first(), key)
    }
}

/// Looking a key up in two lists of members one after the other finds it in
/// the first list if it is there, else in the second.
pub broadcast proof fn lemma_member_value_concat(
    a: Seq<(Seq<char>, JsonModel)>,
    b: Seq<(Seq<char>, JsonModel)>,
    key: Seq<char>,
)
    ensures
        #[trigger] member_value(a + b, key) == match member_value(a, key) {
            Some(v) => Some(v),
            None => member_value(b, key),
        },
    decreases a.len(),
{
    if a.len() == 0 {
        assert(a + b =~= b);
    } else {
        assert((a + b).drop_first() =~= a.drop_first() + b);
        lemma_member_value_concat(a.drop_first(), b, key);
    }
}

/// A single member answers for its own key and no other.
pub broadcast proof fn lemma_member_value_single(k: Seq<char>, v: JsonModel, key: Seq<char>)
    ensures
        #[trigger] member_value(seq![(k, v)], key) == if k == key { Some(v) } else { None },
{
    reveal_with_fuel(member_value, 2);
    assert(seq![(k, v)].drop_first() =~= Seq::<(Seq<char>, JsonModel)>::empty());
}

} // verus!
