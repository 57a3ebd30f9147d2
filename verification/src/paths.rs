//! Paths as text. A path is a string whose components are separated by `/`;
//! the functions here compose and take apart such strings and never touch
//! the file system.

use crate::text::{chars_of, concat2, concat3, ends_with, seq_ends_with, seq_starts_with, starts_with, string_of};
use vstd::prelude::*;
use vstd::string::*;

verus! {

/// The separator, as a one-character sequence.
pub open spec fn slash() -> Seq<char> {
    seq!['/']
}

/// `name` below `base`: a rooted `name` stands alone; otherwise the two are put
/// together with exactly one separator between them.
pub open spec fn join_spec(base: Seq<char>, name: Seq<char>) -> Seq<char> {
    if seq_starts_with(name, slash()) {
        name
    } else if base.len() == 0 || seq_ends_with(base, slash()) {
        base + name
    } else {
        base + slash() + name
    }
}

/// Joins `name` onto `base`.
pub fn join(base: &str, name: &str) -> (r: String)
    ensures
        r@ == join_spec(base@, name@),
{
    proof {
        reveal_strlit("/");
        assert("/"@ == slash());
    }
    if starts_with(name, "/") {
        String::from_str(name)
    } else if base.is_empty() || ends_with(base, "/") {
        concat2(base, name)
    } else {
        concat3(base, "/", name)
    }
}

/// The index of the last separator in `s`, or -1 where it has none.
pub open spec fn last_slash(s: Seq<char>) -> int
    decreases s.len(),
{
    if s.len() == 0 {
        -1
    } else if s.last() == '/' {
        s.len() - 1
    } else {
        last_slash(s.drop_last())
    }
}

/// `last_slash` is -1 or the index of a separator after which none follows.
pub proof fn lemma_last_slash(s: Seq<char>)
    ensures
        -1 <= last_slash(s) < s.len(),
        last_slash(s) >= 0 ==> s[last_slash(s)] == '/',
        forall|k: int| last_slash(s) < k < s.len() ==> s[k] != '/',
    decreases s.len(),
{
    if s.len() > 0 && s.last() != '/' {
        lemma_last_slash(s.drop_last());
        assert forall|k: int| last_slash(s) < k < s.len() implies s[k] != '/' by {
            if k < s.len() - 1 {
                assert(s.drop_last()[k] == s[k]);
            }
        }
    }
}

fn find_last_slash(v: &Vec<char>, end: usize) -> (r: Option<usize>)
    requires
        end <= v.len(),
    ensures
        match r {
            Some(i) => i == last_slash(v@.subrange(0, end as int)),
            None => last_slash(v@.subrange(0, end as int)) == -1,
        },
{
    let ghost whole = v@.subrange(0, end as int);
    let mut i: usize = end;
    while i > 0
        invariant
            i <= end <= v.len(),
            whole == v@.subrange(0, end as int),
            last_slash(whole) == last_slash(v@.subrange(0, i as int)),
        decreases i,
    {
        let ghost head = v@.subrange(0, i as int);
        if v[i - 1] == '/' {
            assert(head.last() == '/');
            return Some(i - 1);
        }
        assert(head.drop_last() == v@.subrange(0, i - 1));
        i = i - 1;
    }
    assert(v@.subrange(0, 0).len() == 0);
    None
}

/// The directory part of a path: the text before its last separator. A path
/// without separator has the empty parent; the empty path and the bare root
/// have none; a path directly below the root has the root.
pub open spec fn parent_spec(s: Seq<char>) -> Option<Seq<char>> {
    let i = last_slash(s);
    if i < 0 {
        if s.len() == 0 {
            None
        } else {
            Some(Seq::empty())
        }
    } else if i == 0 {
        if s.len() == 1 {
            None
        } else {
            Some(slash())
        }
    } else {
        Some(s.subrange(0, i))
    }
}

/// The directory part of `path`.
pub fn parent(path: &str) -> (r: Option<String>)
    ensures
        r.deep_view() == parent_spec(path@),
{
    let v = chars_of(path);
    proof {
        lemma_last_slash(v@);
        assert(v@.subrange(0, v.len() as int) == v@);
    }
    match find_last_slash(&v, v.len()) {
        None => {
            if v.len() == 0 {
                None
            } else {
                Some(String::new())
            }
        },
        Some(i) => {
            if i == 0 {
                if v.len() == 1 {
                    None
                } else {
                    proof {
                        reveal_strlit("/");
                    }
                    Some(String::from_str("/"))
                }
            } else {
                Some(string_of(&v, 0, i))
            }
        },
    }
}

/// The last component of a path: the text after its last separator, unless
/// that text is empty, `.` or `..`.
pub open spec fn leaf_spec(s: Seq<char>) -> Option<Seq<char>> {
    let t = s.subrange(last_slash(s) + 1, s.len() as int);
    if t.len() == 0 || t == seq!['.'] || t == seq!['.', '.'] {
        None
    } else {
        Some(t)
    }
}

/// The last component of `path`.
pub fn leaf(path: &str) -> (r: Option<String>)
    ensures
        r.deep_view() == leaf_spec(path@),
{
    let v = chars_of(path);
    proof {
        lemma_last_slash(v@);
        assert(v@.subrange(0, v.len() as int) == v@);
    }
    let found = find_last_slash(&v, v.len());
    let start: usize = match found {
        None => 0,
        Some(i) => {
            assert(i < v.len());
            i + 1
        },
    };
    let n = v.len();
    let ghost t = v@.subrange(start as int, n as int);
    let dots = (n - start == 1 && v[start] == '.') || (n - start == 2 && v[start] == '.' && v[start
        + 1] == '.');
    proof {
        if n - start == 1 {
            assert((t == seq!['.']) <==> v@[start as int] == '.') by {
                if v@[start as int] == '.' {
                    assert(t =~= seq!['.']);
                } else {
                    assert(t[0] != '.');
                }
            }
        }
        if n - start == 2 {
            assert((t == seq!['.', '.']) <==> (v@[start as int] == '.' && v@[start + 1] == '.')) by {
                if v@[start as int] == '.' && v@[start + 1] == '.' {
                    assert(t =~= seq!['.', '.']);
                } else {
                    assert(t[0] != '.' || t[1] != '.');
                }
            }
        }
        assert(seq!['.'].len() == 1);
        assert(seq!['.', '.'].len() == 2);
    }
    if start == n || dots {
        None
    } else {
        Some(string_of(&v, start, n))
    }
}

/// The components of a path that count: the texts between its separators,
/// without the empty ones and without `.` and `..`.
pub open spec fn components(s: Seq<char>) -> Seq<Seq<char>>
    decreases s.len(),
{
    if s.len() == 0 {
        Seq::empty()
    } else {
        let i = last_slash(s);
        let rest = if 0 <= i < s.len() {
            components(s.subrange(0, i))
        } else {
            Seq::empty()
        };
        match leaf_spec(s) {
            Some(piece) => rest.push(piece),
            None => rest,
        }
    }
}

/// The components with one separator between each two.
pub open spec fn joined(cs: Seq<Seq<char>>) -> Seq<char>
    decreases cs.len(),
{
    if cs.len() == 0 {
        Seq::empty()
    } else if cs.len() == 1 {
        cs[0]
    } else {
        joined(cs.drop_last()) + slash() + cs.last()
    }
}

/// A path as it is shown: its root, where it has one, and its components
/// with single separators. A path of which nothing would be left is shown as
/// it is.
pub open spec fn display_text(s: Seq<char>) -> Seq<char> {
    let root = if seq_starts_with(s, slash()) {
        slash()
    } else {
        Seq::empty()
    };
    let body = root + joined(components(s));
    if body.len() == 0 {
        s
    } else {
        body
    }
}

/// Normalizes a path for display: repeated separators and the components
/// `.` and `..` are left out.
pub fn normalize_path_for_display(path: &str) -> (r: String)
    ensures
        r@ == display_text(path@),
{
    let v = chars_of(path);
    // The components, last first.
    let mut rev: Vec<String> = Vec::new();
    let mut end: usize = v.len();
    assert(v@.subrange(0, end as int) == v@);
    assert(components(v@) =~= components(v@.subrange(0, end as int)) + Seq::new(
        rev.len() as nat,
        |k: int| rev@[rev.len() - 1 - k]@,
    ));
    while end > 0
        invariant
            end <= v.len(),
            components(v@) == components(v@.subrange(0, end as int)) + Seq::new(
                rev.len() as nat,
                |k: int| rev@[rev.len() - 1 - k]@,
            ),
        decreases end,
    {
        let ghost s = v@.subrange(0, end as int);
        let ghost tail = Seq::new(rev.len() as nat, |k: int| rev@[rev.len() - 1 - k]@);
        proof {
            lemma_last_slash(s);
        }
        let found = find_last_slash(&v, end);
        let start: usize = match found {
            None => 0,
            Some(i) => i + 1,
        };
        let next: usize = match found {
            None => 0,
            Some(i) => i,
        };
        let ghost t = s.subrange(start as int, end as int);
        assert(t == v@.subrange(start as int, end as int));
        let dots = (end - start == 1 && v[start] == '.') || (end - start == 2 && v[start] == '.'
            && v[start + 1] == '.');
        proof {
            if end - start == 1 {
                assert((t == seq!['.']) <==> v@[start as int] == '.') by {
                    if v@[start as int] == '.' {
                        assert(t =~= seq!['.']);
                    } else {
                        assert(t[0] != '.');
                    }
                }
            }
            if end - start == 2 {
                assert((t == seq!['.', '.']) <==> (v@[start as int] == '.' && v@[start + 1]
                    == '.')) by {
                    if v@[start as int] == '.' && v@[start + 1] == '.' {
                        assert(t =~= seq!['.', '.']);
                    } else {
                        assert(t[0] != '.' || t[1] != '.');
                    }
                }
            }
            assert(seq!['.'].len() == 1);
            assert(seq!['.', '.'].len() == 2);
            assert(s.subrange(0, next as int) == v@.subrange(0, next as int));
            if found is None {
                assert(components(v@.subrange(0, 0)) == Seq::<Seq<char>>::empty());
            }
        }
        if start < end && !dots {
            let piece = string_of(&v, start, end);
            rev.push(piece);
            proof {
                let new_tail = Seq::new(rev.len() as nat, |k: int| rev@[rev.len() - 1 - k]@);
                assert(new_tail =~= seq![t] + tail);
                assert(components(s) == components(v@.subrange(0, next as int)).push(t));
                assert(components(v@.subrange(0, next as int)).push(t) + tail =~= components(
                    v@.subrange(0, next as int),
                ) + new_tail);
            }
        } else {
            assert(components(s) == components(v@.subrange(0, next as int)));
        }
        end = next;
    }
    let ghost cs = Seq::new(rev.len() as nat, |k: int| rev@[rev.len() - 1 - k]@);
    assert(components(v@) =~= cs) by {
        assert(components(v@.subrange(0, 0)) == Seq::<Seq<char>>::empty());
    }
    proof {
        reveal_strlit("/");
        assert("/"@ == slash());
    }
    let rooted = starts_with(path, "/");
    let mut out = if rooted {
        String::from_str("/")
    } else {
        String::new()
    };
    let ghost root = out@;
    let mut k: usize = rev.len();
    assert(cs.take(0) =~= Seq::<Seq<char>>::empty());
    while k > 0
        invariant
            k <= rev.len(),
            cs == Seq::new(rev.len() as nat, |k: int| rev@[rev.len() - 1 - k]@),
            out@ == root + joined(cs.take(rev.len() - k)),
            "/"@ == slash(),
        decreases k,
    {
        let ghost m = rev.len() - k;
        if k < rev.len() {
            out.append("/");
        }
        k = k - 1;
        out.append(rev[k].as_str());
        proof {
            let now = cs.take(m + 1);
            assert(now.drop_last() =~= cs.take(m));
            assert(now.last() == rev@[k as int]@);
            if m == 0 {
                assert(joined(cs.take(0)) =~= Seq::<char>::empty());
                assert(out@ =~= root + joined(now));
            } else {
                assert(out@ =~= root + joined(now));
            }
        }
    }
    assert(cs.take(rev.len() as int) == cs);
    if out.as_str().is_empty() {
        String::from_str(path)
    } else {
        out
    }
}

} // verus!
