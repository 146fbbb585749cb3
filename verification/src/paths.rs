//! Paths compared by their components, as `Path::components` reads them on Unix: repeated
//! separators and `.` components are ignored (a `.` at the start stays), and so is a
//! trailing separator. Two paths with the same components are the same path.
use vstd::prelude::*;
use crate::scripts::strings_view;
use crate::text::{concat, owned, str_eq};

verus! {

/// The pieces of `s` between its `/` separators, empty pieces included.
pub open spec fn pieces(s: Seq<char>) -> Seq<Seq<char>>
    decreases s.len(),
{
    if s.len() == 0 {
        seq![Seq::<char>::empty()]
    } else {
        let p = pieces(s.drop_last());
        if s.last() == '/' {
            p.push(Seq::<char>::empty())
        } else {
            p.update(p.len() - 1, p.last().push(s.last()))
        }
    }
}

/// The pieces that name something: neither empty nor `.`.
pub open spec fn named(ps: Seq<Seq<char>>) -> Seq<Seq<char>>
    decreases ps.len(),
{
    if ps.len() == 0 {
        seq![]
    } else {
        let rest = named(ps.drop_last());
        if ps.last().len() == 0 || ps.last() == seq!['.'] {
            rest
        } else {
            rest.push(ps.last())
        }
    }
}

/// The names joined with `/` between them.
pub open spec fn joined(ns: Seq<Seq<char>>) -> Seq<char>
    decreases ns.len(),
{
    if ns.len() == 0 {
        seq![]
    } else if ns.len() == 1 {
        ns[0]
    } else {
        joined(ns.drop_last()) + seq!['/'] + ns.last()
    }
}

/// Whether `s` starts at the root.
pub open spec fn has_root(s: Seq<char>) -> bool {
    s.len() > 0 && s[0] == '/'
}

/// Whether `s` starts with a `.` component.
pub open spec fn starts_here(s: Seq<char>) -> bool {
    !has_root(s) && pieces(s)[0] == seq!['.']
}

/// The components of `s` written out once: the root or a leading `.`, then the named
/// components joined with `/`. Two paths are the same path exactly when these agree.
pub open spec fn path_key(s: Seq<char>) -> Seq<char> {
    let ns = named(pieces(s));
    if has_root(s) {
        seq!['/'] + joined(ns)
    } else if starts_here(s) {
        if ns.len() == 0 {
            seq!['.']
        } else {
            seq!['.', '/'] + joined(ns)
        }
    } else {
        joined(ns)
    }
}

proof fn lemma_pieces_len(s: Seq<char>)
    ensures
        pieces(s).len() >= 1,
    decreases s.len(),
{
    if s.len() > 0 {
        lemma_pieces_len(s.drop_last());
    }
}

/// `p` with its components written out once (`path_key`).
pub fn normalize_path(p: &str) -> (r: String)
    ensures
        r@ == path_key(p@),
{
    let ghost s = p@;
    let n = p.unicode_len();
    let root = n > 0 && p.get_char(0) == '/';
    let mut names: Vec<String> = Vec::new();
    let mut completed: usize = 0;
    let mut first_is_dot = false;
    let mut start: usize = 0;
    let mut i: usize = 0;
    let ghost mut done: Seq<Seq<char>> = seq![];
    proof {
        reveal_strlit(".");
        assert(s.take(0) =~= Seq::<char>::empty());
        assert(pieces(s.take(0)) =~= done.push(s.subrange(0, 0)));
    }
    while i < n
        invariant
            n == s.len(),
            s == p@,
            0 <= start <= i <= n,
            completed == done.len(),
            completed <= i,
            pieces(s.take(i as int)) == done.push(s.subrange(start as int, i as int)),
            strings_view(names@) == named(done),
            completed > 0 ==> first_is_dot == (done[0] == seq!['.']),
            "."@ == seq!['.'],
        decreases n - i,
    {
        let c = p.get_char(i);
        assert(s.take(i + 1).drop_last() =~= s.take(i as int));
        assert(s.take(i + 1).last() == c);
        if c == '/' {
            let piece = p.substring_char(start, i);
            let ghost pv = piece@;
            proof {
                assert(pieces(s.take(i + 1)) == done.push(pv).push(Seq::<char>::empty()));
                assert(named(done.push(pv)) == if pv.len() == 0 || pv == seq!['.'] {
                    named(done)
                } else {
                    named(done).push(pv)
                }) by {
                    assert(done.push(pv).drop_last() =~= done);
                }
            }
            let is_dot = str_eq(piece, ".");
            if completed == 0 {
                first_is_dot = is_dot;
            }
            if piece.unicode_len() > 0 && !is_dot {
                let ghost before = strings_view(names@);
                names.push(owned(piece));
                assert(strings_view(names@) =~= before.push(pv));
            }
            proof {
                done = done.push(pv);
                assert(s.subrange(i + 1, i + 1) =~= Seq::<char>::empty());
            }
            completed = completed + 1;
            start = i + 1;
        } else {
            proof {
                lemma_pieces_len(s.take(i as int));
                assert(c == s[i as int]);
                assert(s.subrange(start as int, i as int).push(c) =~= s.subrange(start as int, i + 1));
                assert(done.push(s.subrange(start as int, i as int)).update(
                    done.len() as int,
                    s.subrange(start as int, i as int).push(c),
                ) =~= done.push(s.subrange(start as int, i + 1)));
            }
        }
        i = i + 1;
    }
    assert(s.take(n as int) =~= s);
    let last = p.substring_char(start, n);
    let ghost lv = last@;
    let ghost all = done.push(lv);
    proof {
        assert(pieces(s) == all);
        assert(all.drop_last() =~= done);
    }
    let last_is_dot = str_eq(last, ".");
    if last.unicode_len() > 0 && !last_is_dot {
        let ghost before = strings_view(names@);
        names.push(owned(last));
        assert(strings_view(names@) =~= before.push(lv));
    }
    assert(strings_view(names@) == named(pieces(s)));
    let here = !root && if completed == 0 {
        last_is_dot
    } else {
        first_is_dot
    };
    proof {
        if completed == 0 {
            assert(all[0] == lv);
        } else {
            assert(all[0] == done[0]);
        }
        assert(root == has_root(s));
        assert(here == starts_here(s));
        reveal_strlit("/");
        reveal_strlit("./");
        reveal_strlit(".");
    }
    let body = join_names(&names);
    if root {
        concat("/", body.as_str())
    } else if here {
        if names.len() == 0 {
            owned(".")
        } else {
            concat("./", body.as_str())
        }
    } else {
        body
    }
}

/// The names joined with `/` between them.
fn join_names(names: &Vec<String>) -> (r: String)
    ensures
        r@ == joined(strings_view(names@)),
{
    let ghost v = strings_view(names@);
    let n = names.len();
    if n == 0 {
        return String::new();
    }
    let mut r = names[0].clone();
    let mut k: usize = 1;
    assert(v.take(1).drop_last() =~= Seq::<Seq<char>>::empty());
    assert(joined(v.take(1)) == v[0]);
    while k < n
        invariant
            n == names@.len(),
            v == strings_view(names@),
            1 <= k <= n,
            r@ == joined(v.take(k as int)),
        decreases n - k,
    {
        proof {
            reveal_strlit("/");
            assert(v.take(k + 1).drop_last() =~= v.take(k as int));
            assert(v.take(k + 1).last() == names@[k as int]@);
        }
        r.append("/");
        r.append(names[k].as_str());
        k = k + 1;
    }
    assert(v.take(n as int) =~= v);
    r
}

} // verus!
