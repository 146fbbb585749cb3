//! What a script answers, as plain values: a dictionary's entries, each value held by the
//! readings the library makes of it.
use vstd::prelude::*;
use crate::text::str_eq;

verus! {

/// A value in a script's answer, by each reading the library makes of it: as an integer
/// (`int`), as a string (`text`), as a list of strings (`texts`) and as a dictionary
/// (`entries`, its string keys with their values, in the dictionary's order). A reading
/// is `None` where the value does not allow it.
pub struct ScriptValue {
    pub int: Option<i32>,
    pub text: Option<String>,
    pub texts: Option<Vec<String>>,
    pub entries: Option<Vec<(String, ScriptValue)>>,
}

/// The value under `key` in the entries `d`: that of the first entry with this key.
pub open spec fn lookup(d: Seq<(String, ScriptValue)>, key: Seq<char>) -> Option<ScriptValue>
    decreases d.len(),
{
    if d.len() == 0 {
        None
    } else if d[0].0@ == key {
        Some(d[0].1)
    } else {
        lookup(d.drop_first(), key)
    }
}

/// The integer under `key`, when there is one.
pub open spec fn int_entry(d: Seq<(String, ScriptValue)>, key: Seq<char>) -> Option<i32> {
    match lookup(d, key) {
        Some(v) => v.int,
        None => None,
    }
}

/// The string under `key`, when there is one.
pub open spec fn text_entry(d: Seq<(String, ScriptValue)>, key: Seq<char>) -> Option<String> {
    match lookup(d, key) {
        Some(v) => v.text,
        None => None,
    }
}

/// The list of strings under `key`, when there is one.
pub open spec fn texts_entry(d: Seq<(String, ScriptValue)>, key: Seq<char>) -> Option<Seq<String>> {
    match lookup(d, key) {
        Some(v) => match v.texts {
            Some(t) => Some(t@),
            None => None,
        },
        None => None,
    }
}

/// The entries of the dictionary under `key`, when there is one.
pub open spec fn dict_entry(d: Seq<(String, ScriptValue)>, key: Seq<char>) -> Option<
    Seq<(String, ScriptValue)>,
> {
    match lookup(d, key) {
        Some(v) => match v.entries {
            Some(e) => Some(e@),
            None => None,
        },
        None => None,
    }
}

/// The entries whose value is a string, as pairs of key and string, in order.
pub open spec fn text_pairs(d: Seq<(String, ScriptValue)>) -> Seq<(String, String)>
    decreases d.len(),
{
    if d.len() == 0 {
        seq![]
    } else {
        let rest = text_pairs(d.drop_last());
        match d.last().1.text {
            Some(t) => rest.push((d.last().0, t)),
            None => rest,
        }
    }
}

/// The string the last entry with key `key` holds, when that entry's value is a string
/// (an entry whose value is no string gives none and hides no earlier one).
pub open spec fn last_text(d: Seq<(String, ScriptValue)>, key: Seq<char>) -> Option<String>
    decreases d.len(),
{
    if d.len() == 0 {
        None
    } else if d.last().0@ == key && d.last().1.text is Some {
        d.last().1.text
    } else {
        last_text(d.drop_last(), key)
    }
}

/// An optional list by its items.
pub open spec fn opt_seq<T>(o: Option<Vec<T>>) -> Option<Seq<T>> {
    match o {
        Some(v) => Some(v@),
        None => None,
    }
}

proof fn lemma_lookup_step(d: Seq<(String, ScriptValue)>, i: int, key: Seq<char>)
    requires
        0 <= i < d.len(),
        d[i].0@ != key,
    ensures
        lookup(d.subrange(i, d.len() as int), key) == lookup(d.subrange(i + 1, d.len() as int), key),
{
    assert(d.subrange(i, d.len() as int).drop_first() =~= d.subrange(i + 1, d.len() as int));
}

/// The index of the entry `lookup` finds for `key`.
fn find(d: &Vec<(String, ScriptValue)>, key: &str) -> (r: Option<usize>)
    ensures
        match r {
            Some(i) => i < d@.len() && lookup(d@, key@) == Some(d@[i as int].1),
            None => lookup(d@, key@) is None,
        },
{
    let n = d.len();
    let mut i: usize = 0;
    assert(d@.subrange(0, n as int) =~= d@);
    while i < n
        invariant
            n == d@.len(),
            i <= n,
            lookup(d@, key@) == lookup(d@.subrange(i as int, n as int), key@),
        decreases n - i,
    {
        if str_eq(d[i].0.as_str(), key) {
            return Some(i);
        }
        proof {
            lemma_lookup_step(d@, i as int, key@);
        }
        i = i + 1;
    }
    None
}

/// The integer under `key`, when there is one.
pub fn int_value(d: &Vec<(String, ScriptValue)>, key: &str) -> (r: Option<i32>)
    ensures
        r == int_entry(d@, key@),
{
    match find(d, key) {
        Some(i) => d[i].1.int,
        None => None,
    }
}

/// The string under `key`, when there is one.
pub fn text_value(d: &Vec<(String, ScriptValue)>, key: &str) -> (r: Option<String>)
    ensures
        r == text_entry(d@, key@),
{
    match find(d, key) {
        Some(i) => match &d[i].1.text {
            Some(t) => Some(t.clone()),
            None => None,
        },
        None => None,
    }
}

/// A copy of a list of strings.
fn copy_strings(v: &Vec<String>) -> (r: Vec<String>)
    ensures
        r@ == v@,
{
    let mut r: Vec<String> = Vec::new();
    let n = v.len();
    let mut i: usize = 0;
    while i < n
        invariant
            n == v@.len(),
            i <= n,
            r@ == v@.subrange(0, i as int),
        decreases n - i,
    {
        r.push(v[i].clone());
        assert(r@ =~= v@.subrange(0, i + 1));
        i = i + 1;
    }
    assert(v@.subrange(0, n as int) =~= v@);
    r
}

/// The list of strings under `key`, when there is one.
pub fn texts_value(d: &Vec<(String, ScriptValue)>, key: &str) -> (r: Option<Vec<String>>)
    ensures
        opt_seq(r) == texts_entry(d@, key@),
{
    match find(d, key) {
        Some(i) => match &d[i].1.texts {
            Some(t) => Some(copy_strings(t)),
            None => None,
        },
        None => None,
    }
}

/// The entries of the dictionary under `key`, when there is one.
pub fn dict_value<'a>(d: &'a Vec<(String, ScriptValue)>, key: &str) -> (r: Option<&'a Vec<(String, ScriptValue)>>)
    ensures
        match r {
            Some(e) => dict_entry(d@, key@) == Some(e@),
            None => dict_entry(d@, key@) is None,
        },
{
    match find(d, key) {
        Some(i) => match &d[i].1.entries {
            Some(e) => Some(e),
            None => None,
        },
        None => None,
    }
}

/// The entries whose value is a string, as pairs of key and string, in order.
pub fn text_pairs_value(d: &Vec<(String, ScriptValue)>) -> (r: Vec<(String, String)>)
    ensures
        r@ == text_pairs(d@),
{
    let mut r: Vec<(String, String)> = Vec::new();
    let n = d.len();
    let mut i: usize = 0;
    while i < n
        invariant
            n == d@.len(),
            i <= n,
            r@ == text_pairs(d@.subrange(0, i as int)),
        decreases n - i,
    {
        assert(d@.subrange(0, i + 1).drop_last() =~= d@.subrange(0, i as int));
        if let Some(t) = &d[i].1.text {
            r.push((d[i].0.clone(), t.clone()));
        }
        i = i + 1;
    }
    assert(d@.subrange(0, n as int) =~= d@);
    r
}

} // verus!
