//! Text helpers: comparison of strings and the joining of path components.
//!
//! Paths are held as text with `/` as the separator between components.

use vstd::prelude::*;
use vstd::string::*;

verus! {

/// Whether two strings hold the same characters.
pub fn same_text(a: &str, b: &str) -> (r: bool)
    ensures
        r == (a@ == b@),
{
    let x = a.to_owned();
    let y = b.to_owned();
    x.eq(&y)
}

/// `name` adjoined to `base`: an absolute `name` replaces `base`; otherwise the
/// two are put together, with one separator between them unless `base` is empty
/// or already ends in one.
pub open spec fn spec_join(base: Seq<char>, name: Seq<char>) -> Seq<char> {
    if name.len() > 0 && name[0] == '/' {
        name
    } else if base.len() == 0 || base.last() == '/' {
        base + name
    } else {
        base + seq!['/'] + name
    }
}

/// Adjoins `name` to `base`.
pub fn join(base: &str, name: &str) -> (r: String)
    ensures
        r@ == spec_join(base@, name@),
{
    let base_len: usize = base.unicode_len();
    let name_len: usize = name.unicode_len();
    if name_len > 0 && name.get_char(0) == '/' {
        name.to_owned()
    } else if base_len == 0 || base.get_char(base_len - 1) == '/' {
        let mut path = base.to_owned();
        path.append(name);
        path
    } else {
        let mut path = base.to_owned();
        path.append("/");
        path.append(name);
        proof {
            reveal_strlit("/");
            assert("/"@ =~= seq!['/']);
        }
        path
    }
}

/// Joining under a base never loses the base: a relative `name` leaves `base`
/// as a prefix of the result.
pub proof fn join_keeps_base(base: Seq<char>, name: Seq<char>)
    requires
        name.len() == 0 || name[0] != '/',
    ensures
        base.is_prefix_of(spec_join(base, name)),
        spec_join(base, name).len() >= base.len() + name.len(),
{
    if base.len() == 0 || base.last() == '/' {
        assert((base + name).subrange(0, base.len() as int) =~= base);
    } else {
        assert((base + seq!['/'] + name).subrange(0, base.len() as int) =~= base);
    }
}

/// The characters of an optional text.
pub open spec fn text_of(value: Option<String>) -> Option<Seq<char>> {
    match value {
        Some(v) => Some(v@),
        None => None,
    }
}

/// A copy of an optional text.
pub fn copy_text(value: &Option<String>) -> (r: Option<String>)
    ensures
        text_of(r) == text_of(*value),
{
    match value {
        Some(v) => Some(v.clone()),
        None => None,
    }
}

/// The characters of each pair of texts in a list.
pub open spec fn text_pairs(v: Seq<(String, String)>) -> Seq<(Seq<char>, Seq<char>)> {
    Seq::new(v.len(), |i: int| (v[i].0@, v[i].1@))
}

/// The pairs of a list with one more pair at its end.
pub proof fn text_pairs_push(v: Seq<(String, String)>, p: (String, String))
    ensures
        text_pairs(v.push(p)) == text_pairs(v).push((p.0@, p.1@)),
{
    assert(text_pairs(v.push(p)) =~= text_pairs(v).push((p.0@, p.1@)));
}

/// The pairs of two lists put together.
pub proof fn text_pairs_concat(a: Seq<(String, String)>, b: Seq<(String, String)>)
    ensures
        text_pairs(a + b) == text_pairs(a) + text_pairs(b),
{
    assert(text_pairs(a + b) =~= text_pairs(a) + text_pairs(b));
}

/// A copy of a list of pairs of texts.
pub fn copy_pairs(v: &Vec<(String, String)>) -> (r: Vec<(String, String)>)
    ensures
        text_pairs(r@) == text_pairs(v@),
{
    let mut out: Vec<(String, String)> = Vec::new();
    let mut i: usize = 0;
    while i < v.len()
        invariant
            i <= v.len(),
            out.len() == i,
            forall|k: int| 0 <= k < i ==> out[k].0@ == v[k].0@ && out[k].1@ == v[k].1@,
        decreases v.len() - i,
    {
        let pair = (v[i].0.clone(), v[i].1.clone());
        out.push(pair);
        i = i + 1;
    }
    assert(text_pairs(out@) =~= text_pairs(v@));
    out
}

} // verus!
