//! Unix paths as text: joining a relative path onto a directory as
//! `Path::join` does, and comparing two paths component by component as
//! `Path`'s `==` does.
use vstd::prelude::*;
use vstd::string::*;
use crate::text::{str_concat, first_of, lemma_first_of, push_char, str_eq, views};

verus! {

/// `rel` joined onto `base` as `Path::join` does on Unix: an absolute
/// `rel` replaces `base`; otherwise a `'/'` is put between them unless
/// `base` is empty or already ends with one.
pub open spec fn join_path(base: Seq<char>, rel: Seq<char>) -> Seq<char> {
    if rel.len() > 0 && rel[0] == '/' {
        rel
    } else if base.len() > 0 && base.last() != '/' {
        base + seq!['/'] + rel
    } else {
        base + rel
    }
}

pub fn join(base: &str, rel: &str) -> (r: String)
    ensures
        r@ == join_path(base@, rel@),
{
    let n = base.unicode_len();
    let m = rel.unicode_len();
    if m > 0 && rel.get_char(0) == '/' {
        rel.to_string()
    } else if n > 0 && base.get_char(n - 1) != '/' {
        let mut r = base.to_string();
        push_char(&mut r, '/');
        r.append(rel);
        r
    } else {
        str_concat(base, rel)
    }
}

/// The named components of a path: the pieces between `'/'`, leaving
/// out empty pieces and `"."`.
pub open spec fn path_parts(s: Seq<char>) -> Seq<Seq<char>>
    decreases s.len(),
{
    if s.len() == 0 {
        seq![]
    } else {
        let n = first_of(s, '/');
        let seg = s.take(n as int);
        let rest = if n < s.len() {
            path_parts(s.skip(n as int + 1))
        } else {
            seq![]
        };
        if seg.len() > 0 && seg != seq!['.'] {
            seq![seg] + rest
        } else {
            rest
        }
    }
}

/// What starts a path before its named components: the root (`2`), a
/// leading `"."` component (`1`), or nothing (`0`).
pub open spec fn path_head(s: Seq<char>) -> int {
    if s.len() > 0 && s[0] == '/' {
        2
    } else if s.len() > 0 && s[0] == '.' && (s.len() == 1 || s[1] == '/') {
        1
    } else {
        0
    }
}

/// Two paths have the same components, which is what `==` on `Path`
/// compares.
pub open spec fn same_path(a: Seq<char>, b: Seq<char>) -> bool {
    path_head(a) == path_head(b) && path_parts(a) == path_parts(b)
}

fn head_of(s: &str) -> (h: u8)
    ensures
        h as int == path_head(s@),
{
    let n = s.unicode_len();
    if n > 0 && s.get_char(0) == '/' {
        2
    } else if n > 0 && s.get_char(0) == '.' && (n == 1 || s.get_char(1) == '/') {
        1
    } else {
        0
    }
}

/// The named components of `s`.
pub fn parts_of(s: &str) -> (out: Vec<String>)
    ensures
        views(out@) == path_parts(s@),
{
    let n = s.unicode_len();
    let mut out: Vec<String> = Vec::new();
    let mut start: usize = 0;
    let mut i: usize = 0;
    proof {
        assert(s@.skip(0) =~= s@);
        assert(views(out@) + path_parts(s@) =~= path_parts(s@));
    }
    while i < n
        invariant
            n == s@.len(),
            start <= i <= n,
            forall|m: int| start <= m < i ==> #[trigger] s@[m] != '/',
            path_parts(s@) == views(out@) + path_parts(s@.skip(start as int)),
        decreases n - i,
    {
        if s.get_char(i) == '/' {
            let ghost rest = s@.skip(start as int);
            proof {
                assert forall|m: int| 0 <= m < i - start implies #[trigger] rest[m] != '/' by {
                    assert(rest[m] == s@[m + start]);
                }
                lemma_first_of(rest, '/', i - start);
                assert(rest.skip(i - start + 1) =~= s@.skip(i + 1));
                assert(rest.take(i - start) =~= s@.subrange(start as int, i as int));
            }
            let seg = s.substring_char(start, i);
            let keep = i > start && !(i == start + 1 && seg.get_char(0) == '.');
            proof {
                if i == start + 1 && seg@[0] == '.' {
                    assert(seg@ =~= seq!['.']);
                }
                if i > start + 1 {
                    assert(seg@.len() != 1);
                }
            }
            if keep {
                let ghost before = out@;
                out.push(seg.to_string());
                proof {
                    assert(views(out@) =~= views(before) + seq![seg@]);
                    assert(views(out@) + path_parts(s@.skip(i + 1)) =~= views(before) + (seq![
                        seg@,
                    ] + path_parts(s@.skip(i + 1))));
                }
            }
            start = i + 1;
        }
        i = i + 1;
    }
    let ghost rest = s@.skip(start as int);
    proof {
        assert forall|m: int| 0 <= m < rest.len() implies #[trigger] rest[m] != '/' by {
            assert(rest[m] == s@[m + start]);
        }
        lemma_first_of(rest, '/', rest.len() as int);
        assert(rest.take(rest.len() as int) =~= rest);
        assert(rest =~= s@.subrange(start as int, n as int));
    }
    if start < n {
        let seg = s.substring_char(start, n);
        let keep = !(n == start + 1 && seg.get_char(0) == '.');
        proof {
            if n == start + 1 && seg@[0] == '.' {
                assert(seg@ =~= seq!['.']);
            }
            if n > start + 1 {
                assert(seg@.len() != 1);
            }
        }
        if keep {
            let ghost before = out@;
            out.push(seg.to_string());
            proof {
                assert(views(out@) =~= views(before) + seq![seg@]);
                assert(views(before) + (seq![seg@] + Seq::<Seq<char>>::empty()) =~= views(out@));
            }
        } else {
            proof {
                assert(views(out@) + Seq::<Seq<char>>::empty() =~= views(out@));
            }
        }
    } else {
        proof {
            assert(views(out@) + Seq::<Seq<char>>::empty() =~= views(out@));
        }
    }
    out
}

/// Whether `a` and `b` name the same path component by component.
pub fn paths_equal(a: &str, b: &str) -> (r: bool)
    ensures
        r == same_path(a@, b@),
{
    if head_of(a) != head_of(b) {
        return false;
    }
    let pa = parts_of(a);
    let pb = parts_of(b);
    if pa.len() != pb.len() {
        proof {
            assert(views(pa@).len() != views(pb@).len());
        }
        return false;
    }
    let mut i: usize = 0;
    while i < pa.len()
        invariant
            pa.len() == pb.len(),
            views(pa@) == path_parts(a@),
            views(pb@) == path_parts(b@),
            i <= pa.len(),
            forall|k: int| 0 <= k < i ==> views(pa@)[k] == views(pb@)[k],
        decreases pa.len() - i,
    {
        if !str_eq(pa[i].as_str(), pb[i].as_str()) {
            proof {
                assert(views(pa@)[i as int] == pa@[i as int]@);
                assert(views(pb@)[i as int] == pb@[i as int]@);
                assert(path_parts(a@)[i as int] != path_parts(b@)[i as int]);
            }
            return false;
        }
        i = i + 1;
    }
    proof {
        assert(views(pa@) =~= views(pb@));
    }
    true
}

proof fn lemma_first_of_bounds(s: Seq<char>, c: char)
    ensures
        first_of(s, c) <= s.len(),
        forall|m: int| 0 <= m < first_of(s, c) ==> #[trigger] s[m] != c,
        first_of(s, c) < s.len() ==> s[first_of(s, c) as int] == c,
    decreases s.len(),
{
    if s.len() > 0 && s[0] != c {
        lemma_first_of_bounds(s.drop_first(), c);
        assert forall|m: int| 0 <= m < first_of(s, c) implies #[trigger] s[m] != c by {
            if m > 0 {
                assert(s[m] == s.drop_first()[m - 1]);
            }
        }
    }
}

proof fn lemma_parts_trailing_slash(a: Seq<char>)
    ensures
        path_parts(a + seq!['/']) == path_parts(a),
    decreases a.len(),
{
    let s = a + seq!['/'];
    let k = first_of(a, '/');
    lemma_first_of_bounds(a, '/');
    if k < a.len() {
        lemma_first_of(s, '/', k as int);
        assert(s.take(k as int) =~= a.take(k as int));
        let t = a.skip(k as int + 1);
        assert(s.skip(k as int + 1) =~= t + seq!['/']);
        lemma_parts_trailing_slash(t);
        assert(path_parts(s.skip(k as int + 1)) == path_parts(t));
    } else {
        lemma_first_of(s, '/', a.len() as int);
        assert(s.take(a.len() as int) =~= a);
        assert(a.take(a.len() as int) =~= a);
        assert(s.skip(a.len() as int + 1) =~= Seq::<char>::empty());
        assert(path_parts(Seq::<char>::empty()) == Seq::<Seq<char>>::empty());
    }
}

/// A trailing `'/'` changes nothing: `a/` names the same path as `a`, as
/// `Path`'s `==` has it.
pub proof fn lemma_same_path_trailing_slash(a: Seq<char>)
    requires
        a.len() > 0,
    ensures
        same_path(a + "/"@, a),
{
    reveal_strlit("/");
    assert("/"@ =~= seq!['/']);
    lemma_parts_trailing_slash(a);
    let s = a + "/"@;
    assert(s[0] == a[0]);
    if a.len() > 1 {
        assert(s[1] == a[1]);
    }
}

} // verus!
