//! JSON documents as the library edits them, and linking a vendored module
//! into a TypeScript host's `package.json`.

use vstd::prelude::*;
use crate::text::{chars_of, push_str, same_chars, string_from_chars};

verus! {

#[verifier::external_type_specification]
#[verifier::external_body]
pub struct ExJsonNumber(serde_json::Number);

#[verifier::external_type_specification]
#[verifier::external_body]
pub struct ExJsonValue(serde_json::Value);

/// A JSON value; an object keeps its members in the order they are listed.
#[derive(Debug)]
pub enum JsonValue {
    Null,
    Bool(bool),
    Number(serde_json::Number),
    Str(String),
    Array(Vec<JsonValue>),
    Object(Vec<(String, JsonValue)>),
}

/// Why `package.json` could not be linked to a vendored module.
#[derive(Debug, Clone, Copy, PartialEq, Eq, Structural)]
pub enum LinkError {
    /// The file is not JSON.
    Parse,
    /// The file is JSON but not an object.
    NotObject,
    /// Its `dependencies` is not an object.
    DependenciesNotObject,
    /// The edited document could not be written out as JSON.
    Serialize,
}

// ---------------------------------------------------------------------------
// Reading and writing JSON text
// ---------------------------------------------------------------------------

/// The JSON document that `serde_json` reads from `content`, when it is
/// JSON.
pub uninterp spec fn json_parsed(content: Seq<char>) -> Option<JsonValue>;

/// The text `serde_json` pretty-prints for `value`, when it can.
pub uninterp spec fn json_printed(value: JsonValue) -> Option<Seq<char>>;

/// `serde_json::Value` as a [`JsonValue`], variant for variant; an object's
/// members come in the order `serde_json::Map` lists them.
#[verifier::external_body]
fn from_serde(value: serde_json::Value) -> JsonValue {
    match value {
        serde_json::Value::Null => JsonValue::Null,
        serde_json::Value::Bool(b) => JsonValue::Bool(b),
        serde_json::Value::Number(n) => JsonValue::Number(n),
        serde_json::Value::String(s) => JsonValue::Str(s),
        serde_json::Value::Array(a) => JsonValue::Array(a.into_iter().map(from_serde).collect()),
        serde_json::Value::Object(m) => JsonValue::Object(m.into_iter().map(|(k, v)| (k, from_serde(v))).collect()),
    }
}

/// A [`JsonValue`] as a `serde_json::Value`, variant for variant.
#[verifier::external_body]
fn to_serde(value: &JsonValue) -> serde_json::Value {
    match value {
        JsonValue::Null => serde_json::Value::Null,
        JsonValue::Bool(b) => serde_json::Value::Bool(*b),
        JsonValue::Number(n) => serde_json::Value::Number(n.clone()),
        JsonValue::Str(s) => serde_json::Value::String(s.clone()),
        JsonValue::Array(a) => serde_json::Value::Array(a.iter().map(to_serde).collect()),
        JsonValue::Object(m) => serde_json::Value::Object(m.iter().map(|(k, v)| (k.clone(), to_serde(v))).collect()),
    }
}

/// Reads JSON text (`serde_json::from_str` into a `serde_json::Value`). The
/// document is named by `json_parsed`; JSON's grammar is not restated.
#[verifier::external_body]
fn parse_json(content: &str) -> (r: Result<JsonValue, LinkError>)
    ensures
        match r {
            Ok(v) => json_parsed(content@) == Some(v),
            Err(e) => json_parsed(content@) is None && e == LinkError::Parse,
        },
{
    serde_json::from_str::<serde_json::Value>(content).map(from_serde).map_err(|_| LinkError::Parse)
}

/// Pretty-prints a JSON document (`serde_json::to_string_pretty`). The text
/// is named by `json_printed`; JSON's layout is not restated.
#[verifier::external_body]
fn json_text(value: &JsonValue) -> (r: Result<String, LinkError>)
    ensures
        match r {
            Ok(t) => json_printed(*value) == Some(t@),
            Err(e) => json_printed(*value) is None && e == LinkError::Serialize,
        },
{
    serde_json::to_string_pretty(&to_serde(value)).map_err(|_| LinkError::Serialize)
}

// ---------------------------------------------------------------------------
// Object members
// ---------------------------------------------------------------------------

/// Position of the first member named `key`, or `members.len()`.
pub open spec fn key_at(members: Seq<(String, JsonValue)>, key: Seq<char>) -> nat
    decreases members.len(),
{
    if members.len() == 0 {
        0
    } else if members[0].0@ == key {
        0
    } else {
        1 + key_at(members.drop_first(), key)
    }
}

proof fn lemma_key_at_bound(members: Seq<(String, JsonValue)>, key: Seq<char>)
    ensures
        key_at(members, key) <= members.len(),
        key_at(members, key) < members.len() ==> members[key_at(members, key) as int].0@ == key,
    decreases members.len(),
{
    if members.len() > 0 && members[0].0@ != key {
        lemma_key_at_bound(members.drop_first(), key);
        assert(members.drop_first().len() == members.len() - 1);
        if key_at(members, key) < members.len() {
            assert(members[key_at(members, key) as int] == members.drop_first()[key_at(members.drop_first(), key) as int]);
        }
    }
}

proof fn lemma_key_at(members: Seq<(String, JsonValue)>, key: Seq<char>, i: int)
    requires
        0 <= i <= members.len(),
        i == members.len() || members[i].0@ == key,
        forall|j: int| 0 <= j < i ==> (#[trigger] members[j]).0@ != key,
    ensures
        key_at(members, key) == i,
    decreases i,
{
    if i > 0 {
        assert forall|j: int| 0 <= j < i - 1 implies (#[trigger] members.drop_first()[j]).0@ != key by {
            assert(members.drop_first()[j] == members[j + 1]);
        }
        lemma_key_at(members.drop_first(), key, i - 1);
    }
}

/// `after` is `before` with the member `key` set to the string `text`: the
/// first member of that name takes the new value in place, or a member is
/// added at the end; every other member is unchanged.
pub open spec fn sets_text(
    before: Seq<(String, JsonValue)>,
    after: Seq<(String, JsonValue)>,
    key: Seq<char>,
    text: Seq<char>,
) -> bool {
    let k = key_at(before, key);
    &&& k < before.len() ==> after.len() == before.len()
    &&& k == before.len() ==> after.len() == before.len() + 1
    &&& forall|i: int| 0 <= i < before.len() && i != k ==> after[i] == before[i]
    &&& after[k as int].0@ == key
    &&& after[k as int].1 matches JsonValue::Str(s) && s@ == text
}

fn find_key(members: &Vec<(String, JsonValue)>, key: &str) -> (r: usize)
    ensures
        r == key_at(members@, key@),
{
    let wanted = chars_of(key);
    let mut i: usize = 0;
    while i < members.len()
        invariant
            i <= members.len(),
            wanted@ == key@,
            forall|j: int| 0 <= j < i ==> (#[trigger] members@[j]).0@ != key@,
        decreases members.len() - i,
    {
        if same_chars(&chars_of(members[i].0.as_str()), &wanted) {
            proof {
                lemma_key_at(members@, key@, i as int);
            }
            return i;
        }
        i = i + 1;
    }
    proof {
        lemma_key_at(members@, key@, members@.len() as int);
    }
    i
}

fn text(s: &str) -> (r: String)
    ensures
        r@ == s@,
{
    string_from_chars(&chars_of(s))
}

/// Sets the member `key` of an object's members to the string `value`.
pub fn set_text(members: &mut Vec<(String, JsonValue)>, key: &str, value: &str)
    ensures
        sets_text(old(members)@, final(members)@, key@, value@),
{
    let k = find_key(members, key);
    let v = text(value);
    let ghost value_view = v@;
    let member = (text(key), JsonValue::Str(v));
    let ghost m = member;
    let ghost before = members@;
    proof {
        lemma_key_at_bound(before, key@);
    }
    assert(m.1 matches JsonValue::Str(s) && s@ == value@);
    if k < members.len() {
        members.set(k, member);
        assert(members@ == before.update(k as int, m));
    } else {
        members.push(member);
        assert(members@ == before.push(m));
    }
    assert(members@[k as int] == m);
}

// ---------------------------------------------------------------------------
// Linking a TypeScript host's package.json
// ---------------------------------------------------------------------------

/// What linking `package` to `dependency` makes of a `package.json`
/// document: refused when the document is not an object or its
/// `dependencies` is not one; otherwise the document with
/// `dependencies.<package>` set to `dependency` (`dependencies` added at
/// the end when missing) and every other member unchanged.
pub open spec fn links_dependency(doc: JsonValue, r: Result<JsonValue, LinkError>, package: Seq<char>, dependency: Seq<char>) -> bool {
    match doc {
        JsonValue::Object(members) => {
            let d = key_at(members@, "dependencies"@);
            if d < members@.len() {
                match members@[d as int].1 {
                    JsonValue::Object(deps) => r matches Ok(JsonValue::Object(out)) && {
                        &&& out@.len() == members@.len()
                        &&& forall|i: int| 0 <= i < members@.len() && i != d ==> out@[i] == members@[i]
                        &&& out@[d as int].0@ == "dependencies"@
                        &&& out@[d as int].1 matches JsonValue::Object(new_deps) && sets_text(
                            deps@,
                            new_deps@,
                            package,
                            dependency,
                        )
                    },
                    _ => r == Err::<JsonValue, LinkError>(LinkError::DependenciesNotObject),
                }
            } else {
                r matches Ok(JsonValue::Object(out)) && {
                    &&& out@.len() == members@.len() + 1
                    &&& forall|i: int| 0 <= i < members@.len() ==> out@[i] == members@[i]
                    &&& out@[d as int].0@ == "dependencies"@
                    &&& out@[d as int].1 matches JsonValue::Object(new_deps) && sets_text(
                        Seq::empty(),
                        new_deps@,
                        package,
                        dependency,
                    )
                }
            }
        },
        _ => r == Err::<JsonValue, LinkError>(LinkError::NotObject),
    }
}

/// Links `package` to `dependency` in a `package.json` document (see
/// [`links_dependency`]).
pub fn link_dependency(doc: JsonValue, package: &str, dependency: &str) -> (r: Result<JsonValue, LinkError>)
    ensures
        links_dependency(doc, r, package@, dependency@),
{
    let mut members = match doc {
        JsonValue::Object(members) => members,
        _ => {
            return Err(LinkError::NotObject);
        },
    };
    let ghost before = members@;
    let d = find_key(&members, "dependencies");
    proof {
        lemma_key_at_bound(before, "dependencies"@);
    }
    if d < members.len() {
        let (name, value) = members.remove(d);
        let ghost old_value = value;
        assert(old_value == before[d as int].1);
        let mut deps = match value {
            JsonValue::Object(deps) => deps,
            _ => {
                return Err(LinkError::DependenciesNotObject);
            },
        };
        let ghost old_deps = deps@;
        set_text(&mut deps, package, dependency);
        let ghost entry = (name, JsonValue::Object(deps));
        members.insert(d, (name, JsonValue::Object(deps)));
        assert(members@ =~= before.update(d as int, entry));
        proof {
            assert(old_value matches JsonValue::Object(od) && od@ == old_deps);
        }
        Ok(JsonValue::Object(members))
    } else {
        let mut deps: Vec<(String, JsonValue)> = Vec::new();
        assert(deps@ =~= Seq::<(String, JsonValue)>::empty());
        set_text(&mut deps, package, dependency);
        let name = text("dependencies");
        let ghost entry = (name, JsonValue::Object(deps));
        members.push((name, JsonValue::Object(deps)));
        assert(members@ =~= before.push(entry));
        Ok(JsonValue::Object(members))
    }
}

/// The `package.json` a TypeScript host starts from when it has none:
/// `{"name": "fusion-app", "version": "0.0.0", "private": true}`.
pub open spec fn is_fresh_package_json(doc: JsonValue) -> bool {
    doc matches JsonValue::Object(members) && {
        &&& members@.len() == 3
        &&& members@[0].0@ == "name"@
        &&& members@[0].1 matches JsonValue::Str(n) && n@ == "fusion-app"@
        &&& members@[1].0@ == "version"@
        &&& members@[1].1 matches JsonValue::Str(v) && v@ == "0.0.0"@
        &&& members@[2].0@ == "private"@
        &&& members@[2].1 == JsonValue::Bool(true)
    }
}

/// The `package.json` document of a host that has none (see
/// [`is_fresh_package_json`]).
pub fn fresh_package_json() -> (doc: JsonValue)
    ensures
        is_fresh_package_json(doc),
{
    let mut members: Vec<(String, JsonValue)> = Vec::new();
    members.push((text("name"), JsonValue::Str(text("fusion-app"))));
    members.push((text("version"), JsonValue::Str(text("0.0.0"))));
    members.push((text("private"), JsonValue::Bool(true)));
    JsonValue::Object(members)
}

/// The text written back to `package.json`: the printed document and a
/// final newline.
pub fn package_json_text(printed: Result<String, LinkError>) -> (r: Result<String, LinkError>)
    ensures
        match printed {
            Ok(t) => r matches Ok(s) && s@ == t@ + "\n"@,
            Err(e) => r == Err::<String, LinkError>(e),
        },
{
    match printed {
        Ok(t) => {
            let mut v = chars_of(t.as_str());
            push_str(&mut v, "\n");
            Ok(string_from_chars(&v))
        },
        Err(e) => Err(e),
    }
}

/// What becomes of a `package.json` document `doc` when `package` is
/// linked to `dependency`: the link's refusal, or the linked document
/// printed with a final newline (`Serialize` when it cannot be printed).
pub open spec fn link_outcome(doc: JsonValue, r: Result<String, LinkError>, package: Seq<char>, dependency: Seq<char>) -> bool {
    exists|l: Result<JsonValue, LinkError>|
        #[trigger] links_dependency(doc, l, package, dependency) && match l {
            Err(e) => r == Err::<String, LinkError>(e),
            Ok(linked) => match json_printed(linked) {
                None => r == Err::<String, LinkError>(LinkError::Serialize),
                Some(t) => r matches Ok(s) && s@ == t + "\n"@,
            },
        }
}

/// The new `package.json` text of a TypeScript host that links `package`
/// to `dependency`: the existing text (`Parse` when it is not JSON) or the
/// fresh document, linked and printed (see [`link_outcome`]).
pub fn linked_package_json(existing: Option<&str>, package: &str, dependency: &str) -> (r: Result<
    String,
    LinkError,
>)
    ensures
        match existing {
            Some(c) => match json_parsed(c@) {
                None => r == Err::<String, LinkError>(LinkError::Parse),
                Some(doc) => link_outcome(doc, r, package@, dependency@),
            },
            None => exists|doc: JsonValue|
                #[trigger] is_fresh_package_json(doc) && link_outcome(doc, r, package@, dependency@),
        },
{
    let doc = match existing {
        Some(c) => parse_json(c)?,
        None => fresh_package_json(),
    };
    let ghost g_doc = doc;
    let l = link_dependency(doc, package, dependency);
    let ghost g_l = l;
    let r = match l {
        Err(e) => Err(e),
        Ok(linked) => package_json_text(json_text(&linked)),
    };
    assert(links_dependency(g_doc, g_l, package@, dependency@));
    assert(link_outcome(g_doc, r, package@, dependency@));
    proof {
        if existing is None {
            assert(is_fresh_package_json(g_doc));
        }
    }
    r
}

} // verus!
