//! YAML documents as the language server reads them: parsed by `serde_yaml`
//! into a value of the library's own, then looked into.
use vstd::prelude::*;
use crate::text::chars::text_is;

verus! {

/// A YAML value.
#[derive(Debug)]
pub enum YamlValue {
    Null,
    Bool(bool),
    /// A number, as `serde_yaml` prints it
    Number(String),
    Str(String),
    Sequence(Vec<YamlValue>),
    /// The entries of a mapping, in document order, each key once
    Mapping(Vec<(YamlValue, YamlValue)>),
    /// A tagged value; the tag itself is not kept
    Tagged(Box<YamlValue>),
}

/// What `serde_yaml::from_str` gives for a document: the value, or the
/// message of the error.
pub uninterp spec fn yaml_document(text: Seq<char>) -> Result<YamlValue, Seq<char>>;

/// `serde_yaml::Value`, a parsed YAML value.
#[verifier::external_type_specification]
#[verifier::external_body]
pub struct ExYamlValue(serde_yaml::Value);

/// `serde_yaml::Value`, one for one, into the library's value.
#[verifier::external_body]
fn yaml_value_of(v: &serde_yaml::Value) -> YamlValue {
    match v {
        serde_yaml::Value::Null => YamlValue::Null,
        serde_yaml::Value::Bool(b) => YamlValue::Bool(*b),
        serde_yaml::Value::Number(n) => YamlValue::Number(n.to_string()),
        serde_yaml::Value::String(s) => YamlValue::Str(s.clone()),
        serde_yaml::Value::Sequence(s) => YamlValue::Sequence(s.iter().map(yaml_value_of).collect()),
        serde_yaml::Value::Mapping(m) => YamlValue::Mapping(
            m.iter().map(|(k, v)| (yaml_value_of(k), yaml_value_of(v))).collect(),
        ),
        serde_yaml::Value::Tagged(t) => YamlValue::Tagged(Box::new(yaml_value_of(&t.value))),
    }
}

/// `serde_yaml::from_str::<serde_yaml::Value>`: the document's value, or
/// the error's message (its `Display` text).
#[verifier::external_body]
pub fn parse_yaml(text: &str) -> (r: Result<YamlValue, String>)
    ensures
        match r {
            Ok(v) => yaml_document(text@) == Ok::<YamlValue, Seq<char>>(v),
            Err(e) => yaml_document(text@) == Err::<YamlValue, Seq<char>>(e@),
        },
{
    match serde_yaml::from_str::<serde_yaml::Value>(text) {
        Ok(v) => Ok(yaml_value_of(&v)),
        Err(e) => Err(e.to_string()),
    }
}

/// The value under its tags.
pub open spec fn untag(v: YamlValue) -> YamlValue
    decreases v,
{
    match v {
        YamlValue::Tagged(b) => untag(*b),
        _ => v,
    }
}

/// Whether a value is the string `key`.
pub open spec fn is_key(k: YamlValue, key: Seq<char>) -> bool {
    k matches YamlValue::Str(s) && s@ == key
}

/// The index of the first entry whose key is the string `key`, or -1.
pub open spec fn entry_index(es: Seq<(YamlValue, YamlValue)>, key: Seq<char>) -> int
    decreases es.len(),
{
    if es.len() == 0 {
        -1
    } else if is_key(es[0].0, key) {
        0
    } else {
        let k = entry_index(es.drop_first(), key);
        if k < 0 {
            -1
        } else {
            k + 1
        }
    }
}

/// `Value::get` with a string: the value under the key in a mapping
/// (through tags); nothing for other values or a missing key.
pub open spec fn yaml_get(v: YamlValue, key: Seq<char>) -> Option<YamlValue> {
    match untag(v) {
        YamlValue::Mapping(es) => {
            let i = entry_index(es@, key);
            if i >= 0 {
                Some(es@[i].1)
            } else {
                None
            }
        },
        _ => None,
    }
}

/// `Value::as_str`: the text of a string value (through tags).
pub open spec fn yaml_str(v: YamlValue) -> Option<Seq<char>> {
    match untag(v) {
        YamlValue::Str(s) => Some(s@),
        _ => None,
    }
}

proof fn lemma_entry_index_bound(es: Seq<(YamlValue, YamlValue)>, key: Seq<char>)
    ensures
        -1 <= entry_index(es, key) < es.len(),
        entry_index(es, key) >= 0 ==> is_key(es[entry_index(es, key)].0, key),
        entry_index(es, key) < 0 ==> forall|j: int| 0 <= j < es.len() ==> !is_key(#[trigger] es[j].0, key),
    decreases es.len(),
{
    if es.len() > 0 && !is_key(es[0].0, key) {
        lemma_entry_index_bound(es.drop_first(), key);
        if entry_index(es.drop_first(), key) < 0 {
            assert forall|j: int| 0 <= j < es.len() implies !is_key(#[trigger] es[j].0, key) by {
                if j > 0 {
                    assert(es[j] == es.drop_first()[j - 1]);
                }
            }
        }
    }
}

/// The value under its tags.
pub fn untagged(v: &YamlValue) -> (r: &YamlValue)
    ensures
        *r == untag(*v),
    decreases v,
{
    match v {
        YamlValue::Tagged(b) => untagged(&**b),
        _ => v,
    }
}

fn key_matches(k: &YamlValue, key: &str) -> (b: bool)
    ensures
        b == is_key(*k, key@),
{
    match k {
        YamlValue::Str(s) => text_is(s.as_str(), key),
        _ => false,
    }
}

/// `Value::get` with a string key.
pub fn get<'a>(v: &'a YamlValue, key: &str) -> (r: Option<&'a YamlValue>)
    ensures
        match r {
            Some(x) => yaml_get(*v, key@) == Some(*x),
            None => yaml_get(*v, key@) is None,
        },
{
    let u = untagged(v);
    match u {
        YamlValue::Mapping(es) => {
            let ghost s = es@;
            assert(s.skip(0) =~= s);
            assert(*u == YamlValue::Mapping(*es));
            let mut i: usize = 0;
            while i < es.len()
                invariant
                    s == es@,
                    *u == YamlValue::Mapping(*es),
                    *u == untag(*v),
                    i <= s.len(),
                    entry_index(s, key@) == if entry_index(s.skip(i as int), key@) < 0 {
                        -1
                    } else {
                        entry_index(s.skip(i as int), key@) + i
                    },
                decreases s.len() - i,
            {
                proof {
                    let t = s.skip(i as int);
                    assert(t[0] == s[i as int]);
                    assert(t.drop_first() =~= s.skip(i + 1));
                }
                if key_matches(&es[i].0, key) {
                    assert(entry_index(s.skip(i as int), key@) == 0);
                    assert(entry_index(s, key@) == i);
                    assert(*u == YamlValue::Mapping(*es));
                    assert(yaml_get(*v, key@) == Some(s[i as int].1));
                    return Some(&es[i].1);
                }
                i = i + 1;
            }
            assert(s.skip(i as int).len() == 0);
            assert(*u == YamlValue::Mapping(*es));
            None
        },
        _ => None,
    }
}

/// `Value::as_str`.
pub fn as_str(v: &YamlValue) -> (r: Option<&str>)
    ensures
        match r {
            Some(s) => yaml_str(*v) == Some(s@),
            None => yaml_str(*v) is None,
        },
{
    match untagged(v) {
        YamlValue::Str(s) => Some(s.as_str()),
        _ => None,
    }
}

} // verus!
