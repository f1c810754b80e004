//! The compile-time define table: a side map from dotted identifier paths
//! to literal substitution values, built once per environment mapping, plus
//! the free-variable references derived from it.

use vstd::prelude::*;
use crate::util::clone_strings;

verus! {

/// A literal substitution value: a boolean, a string, or the original text
/// kept as an opaque JSON literal.
#[derive(Debug, PartialEq, Eq)]
pub enum DefineValue {
    Bool(bool),
    Str(String),
    JSON(String),
}

impl Clone for DefineValue {
    fn clone(&self) -> (r: Self)
        ensures
            r == *self,
    {
        match self {
            DefineValue::Bool(b) => DefineValue::Bool(*b),
            DefineValue::Str(s) => DefineValue::Str(s.clone()),
            DefineValue::JSON(s) => DefineValue::JSON(s.clone()),
        }
    }
}

/// The content of a define value, with strings taken as character
/// sequences.
pub enum DefineValueView {
    Bool(bool),
    Str(Seq<char>),
    JSON(Seq<char>),
}

/// What a define value holds.
pub open spec fn value_view(v: DefineValue) -> DefineValueView {
    match v {
        DefineValue::Bool(b) => DefineValueView::Bool(b),
        DefineValue::Str(s) => DefineValueView::Str(s@),
        DefineValue::JSON(s) => DefineValueView::JSON(s@),
    }
}

/// How a JSON literal parse classifies a text: a boolean literal, a string
/// literal (with its decoded content), or anything else, kept as opaque
/// text. The classification depends on the characters alone.
pub uninterp spec fn json_class_of(s: Seq<char>) -> DefineValueView;

/// Relies on `serde_json::from_str::<serde_json::Value>`: a valid JSON
/// boolean literal classifies as a boolean, a valid JSON string literal as
/// a string with its decoded content, and anything else — numbers, arrays,
/// objects, null, unparsable text — is retained as the original text,
/// unchanged. A malformed literal is not an error; it falls back to the
/// opaque class.
#[verifier::external_body]
fn classify_literal(v: &str) -> (r: DefineValue)
    ensures
        value_view(r) == json_class_of(v@),
        r matches DefineValue::JSON(t) ==> t@ == v@,
{
    match serde_json::from_str::<serde_json::Value>(v) {
        Ok(serde_json::Value::Bool(b)) => DefineValue::Bool(b),
        Ok(serde_json::Value::String(s)) => DefineValue::Str(s),
        Ok(serde_json::Value::Null) => DefineValue::JSON(v.to_owned()),
        Ok(serde_json::Value::Number(_)) => DefineValue::JSON(v.to_owned()),
        Ok(serde_json::Value::Array(_)) => DefineValue::JSON(v.to_owned()),
        Ok(serde_json::Value::Object(_)) => DefineValue::JSON(v.to_owned()),
        Err(_) => DefineValue::JSON(v.to_owned()),
    }
}

/// The position of the first `.` in `s`, or `s.len()` when there is none.
pub open spec fn first_dot(s: Seq<char>) -> int
    decreases s.len(),
{
    if s.len() == 0 {
        0
    } else if s[0] == '.' {
        0
    } else {
        1 + first_dot(s.subrange(1, s.len() as int))
    }
}

/// Characterization of `first_dot` by its defining properties.
pub proof fn lemma_first_dot_char(s: Seq<char>, k: int)
    requires
        0 <= k <= s.len(),
        k < s.len() ==> s[k] == '.',
        forall|j: int| 0 <= j < k ==> s[j] != '.',
        k == s.len() ==> forall|j: int| 0 <= j < s.len() ==> s[j] != '.',
    ensures
        first_dot(s) == k,
    decreases s.len(),
{
    if s.len() == 0 {
    } else if s[0] == '.' {
        assert(k == 0);
    } else {
        let rest = s.subrange(1, s.len() as int);
        assert(forall|j: int| 1 <= j < s.len() ==> s[j] == rest[j - 1]);
        assert(k >= 1);
        lemma_first_dot_char(rest, k - 1);
    }
}

/// `s` split on `.` into its segment path; an empty text is one empty
/// segment.
pub open spec fn split_dots(s: Seq<char>) -> Seq<Seq<char>>
    decreases s.len(),
{
    let i = first_dot(s);
    if 0 <= i < s.len() {
        seq![s.subrange(0, i)] + split_dots(s.subrange(i + 1, s.len() as int))
    } else {
        seq![s]
    }
}

/// Finds the first `.`, returning the length when there is none.
fn find_dot(s: &str) -> (k: usize)
    ensures
        k as int == first_dot(s@),
        k <= s@.len(),
{
    let len = s.unicode_len();
    let mut i: usize = 0;
    while i < len
        invariant
            i <= len,
            len == s@.len(),
            forall|j: int| 0 <= j < i ==> s@[j] != '.',
        decreases len - i,
    {
        if s.get_char(i) == '.' {
            proof {
                lemma_first_dot_char(s@, i as int);
            }
            return i;
        }
        i += 1;
    }
    proof {
        lemma_first_dot_char(s@, len as int);
    }
    len
}

/// Splits a dotted identifier key into its segment path.
#[verifier::loop_isolation(false)]
pub fn split_key(s: &str) -> (r: Vec<String>)
    ensures
        r.deep_view() == split_dots(s@),
{
    let mut segs: Vec<String> = Vec::new();
    let mut rem: &str = s;
    loop
        invariant
            segs.deep_view() + split_dots(rem@) =~= split_dots(s@),
        decreases rem@.len(),
    {
        let k = find_dot(rem);
        let len = rem.unicode_len();
        if k == len {
            let ghost before = segs.deep_view();
            segs.push(rem.to_owned());
            proof {
                assert(split_dots(rem@) =~= seq![rem@]);
                assert(segs.deep_view() =~~= before.push(rem@));
                assert(segs.deep_view() =~~= split_dots(s@));
            }
            return segs;
        }
        let head = rem.substring_char(0, k);
        let ghost before = segs.deep_view();
        let ghost old_rem = rem@;
        segs.push(head.to_owned());
        rem = rem.substring_char(k + 1, len);
        proof {
            assert(segs.deep_view() =~~= before.push(old_rem.subrange(0, k as int)));
            assert(split_dots(old_rem) =~= seq![old_rem.subrange(0, k as int)] + split_dots(
                rem@,
            ));
            assert(segs.deep_view() + split_dots(rem@) =~~= before + split_dots(old_rem));
        }
    }
}

#[verifier::external_type_specification]
#[verifier::external_body]
#[verifier::reject_recursive_types(K)]
#[verifier::reject_recursive_types(V)]
#[verifier::reject_recursive_types(S)]
pub struct ExIndexMap<K, V, S>(indexmap::IndexMap<K, V, S>);

/// What a define map holds: its pairs in insertion order, keys as segment
/// paths of character sequences, values by their content.
pub uninterp spec fn define_entries(m: indexmap::IndexMap<Vec<String>, DefineValue>) -> Seq<
    (Seq<Seq<char>>, DefineValueView),
>;

/// Whether a key is present among the entries.
pub open spec fn has_define_key(
    entries: Seq<(Seq<Seq<char>>, DefineValueView)>,
    k: Seq<Seq<char>>,
) -> bool {
    exists|i: int| 0 <= i < entries.len() && entries[i].0 == k
}

/// Relies on `IndexMap::new`: the new map is empty.
#[verifier::external_body]
fn map_new() -> (r: indexmap::IndexMap<Vec<String>, DefineValue>)
    ensures
        define_entries(r) == Seq::<(Seq<Seq<char>>, DefineValueView)>::empty(),
{
    indexmap::IndexMap::new()
}

/// Relies on `IndexMap::len`: the number of stored pairs.
#[verifier::external_body]
fn map_len(m: &indexmap::IndexMap<Vec<String>, DefineValue>) -> (r: usize)
    ensures
        r as int == define_entries(*m).len(),
{
    m.len()
}

/// Relies on `IndexMap::contains_key`: whether an equal key is stored.
/// Equality on `Vec<String>` keys is element-wise string equality — the
/// equality of the keys' deep views.
#[verifier::external_body]
fn map_contains(m: &indexmap::IndexMap<Vec<String>, DefineValue>, k: &Vec<String>) -> (r: bool)
    ensures
        r == has_define_key(define_entries(*m), k.deep_view()),
{
    m.contains_key(k)
}

/// Relies on `IndexMap::insert`: a pair with a fresh key is appended, last
/// in insertion order, and the existing pairs keep their places.
#[verifier::external_body]
fn map_insert(m: &mut indexmap::IndexMap<Vec<String>, DefineValue>, k: Vec<String>, v: DefineValue)
    requires
        !has_define_key(define_entries(*old(m)), k.deep_view()),
    ensures
        define_entries(*final(m)) == define_entries(*old(m)).push((k.deep_view(), value_view(v))),
{
    m.insert(k, v);
}

/// Relies on `IndexMap::get`: the value stored for an equal key, if any.
#[verifier::external_body]
fn map_get<'a>(m: &'a indexmap::IndexMap<Vec<String>, DefineValue>, k: &Vec<String>) -> (r: Option<
    &'a DefineValue,
>)
    ensures
        match r {
            Some(v) => exists|i: int|
                0 <= i < define_entries(*m).len() && define_entries(*m)[i] == (
                    k.deep_view(),
                    value_view(*v),
                ),
            None => !has_define_key(define_entries(*m), k.deep_view()),
        },
{
    m.get(k)
}

/// Relies on `IndexMap::get_index`: the pair at a position in insertion
/// order.
#[verifier::external_body]
fn map_get_index<'a>(m: &'a indexmap::IndexMap<Vec<String>, DefineValue>, i: usize) -> (r: Option<
    (&'a Vec<String>, &'a DefineValue),
>)
    ensures
        match r {
            Some(kv) => (i as int) < define_entries(*m).len() && kv.0.deep_view()
                == define_entries(*m)[i as int].0 && value_view(*kv.1) == define_entries(
                *m,
            )[i as int].1,
            None => (i as int) >= define_entries(*m).len(),
        },
{
    m.get_index(i)
}

/// The define table: dotted identifier paths mapped to literal substitution
/// values, in insertion order, the first occurrence of a path winning.
/// Immutable after construction.
pub struct DefineTable {
    map: indexmap::IndexMap<Vec<String>, DefineValue>,
}

impl View for DefineTable {
    type V = Seq<(Seq<Seq<char>>, DefineValueView)>;

    closed spec fn view(&self) -> Self::V {
        define_entries(self.map)
    }
}

impl DefineTable {
    /// The number of entries.
    pub fn len(&self) -> (r: usize)
        ensures
            r as int == self@.len(),
    {
        map_len(&self.map)
    }

    /// The value stored for a segment path, if any.
    pub fn get(&self, k: &Vec<String>) -> (r: Option<&DefineValue>)
        ensures
            match r {
                Some(v) => exists|i: int|
                    0 <= i < self@.len() && self@[i] == (k.deep_view(), value_view(*v)),
                None => !has_define_key(self@, k.deep_view()),
            },
    {
        let r = map_get(&self.map, k);
        proof {
            match r {
                Some(v) => {
                    let i = choose|i: int|
                        0 <= i < define_entries(self.map).len() && define_entries(self.map)[i]
                            == (k.deep_view(), value_view(*v));
                    assert(0 <= i < self@.len() && self@[i] == (k.deep_view(), value_view(*v)));
                },
                None => {},
            }
        }
        r
    }

    /// The pair at a position in insertion order.
    pub fn entry_at(&self, i: usize) -> (r: Option<(&Vec<String>, &DefineValue)>)
        ensures
            (i as int) < self@.len() ==> (r matches Some(kv)
                && kv.0.deep_view() == self@[i as int].0
                && value_view(*kv.1) == self@[i as int].1),
            (i as int) >= self@.len() ==> r is None,
    {
        map_get_index(&self.map, i)
    }
}

/// An environment mapping taken by its text content.
pub open spec fn env_pairs(env: Seq<(String, String)>) -> Seq<(Seq<char>, Seq<char>)> {
    Seq::new(env.len(), |i: int| (env[i].0@, env[i].1@))
}

/// The define table an environment mapping denotes: keys split on `.` in
/// order of first occurrence, each mapped to the classification of the
/// value of its first occurrence; later occurrences of a key are ignored.
pub open spec fn spec_defines(env: Seq<(Seq<char>, Seq<char>)>) -> Seq<
    (Seq<Seq<char>>, DefineValueView),
>
    decreases env.len(),
{
    if env.len() == 0 {
        Seq::empty()
    } else {
        let prev = spec_defines(env.drop_last());
        let k = split_dots(env.last().0);
        if has_define_key(prev, k) {
            prev
        } else {
            prev.push((k, json_class_of(env.last().1)))
        }
    }
}

/// Builds the define table from the environment mapping. Each key is split
/// on `.` into a segment path; on the first occurrence of a path the value
/// is classified by a JSON literal parse — boolean and string literals
/// become tagged entries, anything else is retained as opaque text — and
/// later occurrences of the same path are ignored: first write wins.
/// Classification failures never fail the build.
#[verifier::loop_isolation(false)]
pub fn defines(define_env: &Vec<(String, String)>) -> (t: DefineTable)
    ensures
        t@ == spec_defines(env_pairs(define_env@)),
{
    let mut map = map_new();
    let n = define_env.len();
    let mut i: usize = 0;
    while i < n
        invariant
            i <= n,
            define_entries(map) == spec_defines(env_pairs(define_env@).take(i as int)),
        decreases n - i,
    {
        proof {
            let e = env_pairs(define_env@);
            assert(e.take(i + 1).drop_last() =~= e.take(i as int));
            assert(e.take(i + 1).last() == e[i as int]);
        }
        let pair = &define_env[i];
        let k = split_key(pair.0.as_str());
        if !map_contains(&map, &k) {
            let v = classify_literal(pair.1.as_str());
            map_insert(&mut map, k, v);
        }
        i += 1;
    }
    proof {
        assert(env_pairs(define_env@).take(n as int) =~= env_pairs(define_env@));
    }
    DefineTable { map }
}

/// First-write-wins invariant: the define table never holds two entries
/// with the same segment path — a collision keeps the earlier entry and its
/// value, it does not add a second one.
pub proof fn lemma_defines_keys_distinct(env: Seq<(Seq<char>, Seq<char>)>)
    ensures
        forall|i: int, j: int|
            0 <= i < j < spec_defines(env).len() ==> spec_defines(env)[i].0 != spec_defines(
                env,
            )[j].0,
    decreases env.len(),
{
    if env.len() > 0 {
        lemma_defines_keys_distinct(env.drop_last());
        let prev = spec_defines(env.drop_last());
        let k = split_dots(env.last().0);
        if !has_define_key(prev, k) {
            assert(forall|i: int| 0 <= i < prev.len() ==> prev[i].0 != k);
            assert(forall|i: int|
                0 <= i < prev.len() ==> spec_defines(env)[i] == prev[i]);
        }
    }
}

/// Determinism law: the define table is a function of the environment
/// sequence alone; building twice from the same mapping yields equal
/// tables, with no hidden ordering dependency beyond the mapping's own
/// iteration order for collision resolution.
pub proof fn lemma_defines_deterministic(
    e1: Seq<(Seq<char>, Seq<char>)>,
    e2: Seq<(Seq<char>, Seq<char>)>,
)
    requires
        e1 == e2,
    ensures
        spec_defines(e1) == spec_defines(e2),
{
}

/// A compile-time free-variable substitution: a literal from the define
/// table, or a reference to an export of a module.
#[derive(Debug, PartialEq, Eq)]
pub enum FreeVarReference {
    Value(DefineValue),
    EcmaScriptModule { request: String, lookup_path: Option<String>, export: Option<String> },
}

/// The free-variable table an environment denotes: the define entries in
/// table order, then the two fixed global bindings — `Buffer` to the
/// `Buffer` export of `node:buffer` and `process` to the default export of
/// `node:process`.
pub open spec fn free_vars_ok(
    r: Seq<(Vec<String>, FreeVarReference)>,
    env: Seq<(Seq<char>, Seq<char>)>,
) -> bool {
    let d = spec_defines(env);
    &&& r.len() == d.len() + 2
    &&& forall|i: int|
        0 <= i < d.len() ==> (#[trigger] r[i]).0.deep_view() == d[i].0 && (r[i].1 matches
        FreeVarReference::Value(v) && value_view(v) == d[i].1)
    &&& r[d.len() as int].0.deep_view() == seq!["Buffer"@]
    &&& (r[d.len() as int].1 matches FreeVarReference::EcmaScriptModule {
        request,
        lookup_path,
        export,
    } && request@ == "node:buffer"@ && lookup_path is None && (export matches Some(e) && e@
        == "Buffer"@))
    &&& r[d.len() as int + 1].0.deep_view() == seq!["process"@]
    &&& (r[d.len() as int + 1].1 matches FreeVarReference::EcmaScriptModule {
        request,
        lookup_path,
        export,
    } && request@ == "node:process"@ && lookup_path is None && (export matches Some(e) && e@
        == "default"@))
}

/// Builds the free-variable table for a client target: the define table's
/// entries in order, then the two fixed module-export bindings for the
/// `Buffer` and `process` globals.
#[verifier::loop_isolation(false)]
pub fn next_client_free_vars(define_env: &Vec<(String, String)>) -> (r: Vec<
    (Vec<String>, FreeVarReference),
>)
    ensures
        free_vars_ok(r@, env_pairs(define_env@)),
{
    let ghost d = spec_defines(env_pairs(define_env@));
    let t = defines(define_env);
    let mut r: Vec<(Vec<String>, FreeVarReference)> = Vec::new();
    let n = t.len();
    let mut i: usize = 0;
    while i < n
        invariant
            i <= n,
            n as int == d.len(),
            t@ == d,
            r@.len() == i,
            forall|j: int|
                0 <= j < i ==> (#[trigger] r@[j]).0.deep_view() == d[j].0 && (r@[j].1 matches
                FreeVarReference::Value(v) && value_view(v) == d[j].1),
        decreases n - i,
    {
        match t.entry_at(i) {
            Some((k, v)) => {
                r.push((clone_strings(k), FreeVarReference::Value(v.clone())));
            },
            None => {
                proof {
                    assert(false);
                }
            },
        }
        i += 1;
    }
    r.push(
        (
            vec!["Buffer".to_owned()],
            FreeVarReference::EcmaScriptModule {
                request: "node:buffer".to_owned(),
                lookup_path: None,
                export: Some("Buffer".to_owned()),
            },
        ),
    );
    r.push(
        (
            vec!["process".to_owned()],
            FreeVarReference::EcmaScriptModule {
                request: "node:process".to_owned(),
                lookup_path: None,
                export: Some("default".to_owned()),
            },
        ),
    );
    proof {
        assert(r@[d.len() as int].0.deep_view() =~~= seq!["Buffer"@]);
        assert(r@[d.len() as int + 1].0.deep_view() =~~= seq!["process"@]);
    }
    r
}

} // verus!
