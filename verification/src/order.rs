//! Stable ordering of records by a rank that each kind of record defines.

use crate::text::chars_of;
use vstd::prelude::*;

verus! {

/// A record that knows when it must come before another of its kind. The
/// relation is stated over views, so that it speaks of what the records
/// hold.
pub trait Ranked: DeepView + Sized {
    /// Whether `a` must come before `b`.
    spec fn ahead(a: Self::V, b: Self::V) -> bool;

    /// Whether `self` must come before `other`.
    fn is_ahead(&self, other: &Self) -> (r: bool)
        ensures
            r == Self::ahead(self.deep_view(), other.deep_view()),
    ;
}

/// `s` with `x` put in: behind every record that it need not come before,
/// and so behind its equals.
pub open spec fn place<T: Ranked>(s: Seq<T::V>, x: T::V) -> Seq<T::V>
    decreases s.len(),
{
    if s.len() == 0 {
        seq![x]
    } else if T::ahead(x, s.last()) {
        place::<T>(s.drop_last(), x).push(s.last())
    } else {
        s.push(x)
    }
}

/// The records of `s` in rank order; records of equal rank keep the order
/// they had in `s`.
pub open spec fn ranked<T: Ranked>(s: Seq<T::V>) -> Seq<T::V>
    decreases s.len(),
{
    if s.len() == 0 {
        Seq::empty()
    } else {
        place::<T>(ranked::<T>(s.drop_last()), s.last())
    }
}

/// Whether no record of `s` must come before one that stands earlier.
pub open spec fn in_rank_order<T: Ranked>(s: Seq<T::V>) -> bool {
    forall|i: int, j: int| 0 <= i < j < s.len() ==> !T::ahead(#[trigger] s[j], #[trigger] s[i])
}

/// Whether `ahead` of `T` is a strict weak order on the records of `s` and
/// `x`: no record comes before itself or before one that comes before it, and
/// where `a` need not come before `b`, nor `b` before `c`, `a` need not come
/// before `c`.
pub open spec fn orderly<T: Ranked>() -> bool {
    &&& forall|a: T::V, b: T::V| #[trigger] T::ahead(a, b) ==> !T::ahead(b, a)
    &&& forall|a: T::V, b: T::V, c: T::V|
        !#[trigger] T::ahead(a, b) && !#[trigger] T::ahead(b, c) ==> !T::ahead(a, c)
}

/// Putting a record in adds it once and keeps all others.
pub proof fn lemma_place_multiset<T: Ranked>(s: Seq<T::V>, x: T::V)
    ensures
        place::<T>(s, x).len() == s.len() + 1,
        place::<T>(s, x).to_multiset() == s.to_multiset().insert(x),
    decreases s.len(),
{
    broadcast use vstd::seq_lib::group_to_multiset_ensures;

    if s.len() == 0 {
        assert(seq![x] == Seq::<T::V>::empty().push(x));
    } else if T::ahead(x, s.last()) {
        lemma_place_multiset::<T>(s.drop_last(), x);
        assert(s.drop_last().push(s.last()) == s);
        assert(place::<T>(s, x).to_multiset() =~= s.to_multiset().insert(x));
    }
}

/// Ordering keeps every record, as often as it occurs.
pub proof fn lemma_ranked_multiset<T: Ranked>(s: Seq<T::V>)
    ensures
        ranked::<T>(s).len() == s.len(),
        ranked::<T>(s).to_multiset() == s.to_multiset(),
    decreases s.len(),
{
    broadcast use vstd::seq_lib::group_to_multiset_ensures;

    if s.len() > 0 {
        lemma_ranked_multiset::<T>(s.drop_last());
        lemma_place_multiset::<T>(ranked::<T>(s.drop_last()), s.last());
        assert(s.drop_last().push(s.last()) == s);
    }
}

/// Putting a record into records in rank order leaves them in rank order.
pub proof fn lemma_place_in_order<T: Ranked>(s: Seq<T::V>, x: T::V)
    requires
        orderly::<T>(),
        in_rank_order::<T>(s),
    ensures
        in_rank_order::<T>(place::<T>(s, x)),
        forall|k: int|
            0 <= k < place::<T>(s, x).len() ==> #[trigger] place::<T>(s, x)[k] == x || s.contains(
                place::<T>(s, x)[k],
            ),
    decreases s.len(),
{
    let r = place::<T>(s, x);
    lemma_place_multiset::<T>(s, x);
    if s.len() == 0 {
    } else if T::ahead(x, s.last()) {
        let head = s.drop_last();
        let p = place::<T>(head, x);
        lemma_place_multiset::<T>(head, x);
        assert(in_rank_order::<T>(head)) by {
            assert forall|i: int, j: int| 0 <= i < j < head.len() implies !T::ahead(
                #[trigger] head[j],
                #[trigger] head[i],
            ) by {
                assert(head[i] == s[i] && head[j] == s[j]);
            }
        }
        lemma_place_in_order::<T>(head, x);
        assert forall|i: int, j: int| 0 <= i < j < r.len() implies !T::ahead(
            #[trigger] r[j],
            #[trigger] r[i],
        ) by {
            if j < p.len() {
                assert(r[i] == p[i] && r[j] == p[j]);
            } else {
                assert(r[j] == s.last());
                assert(r[i] == p[i]);
                if p[i] == x {
                } else {
                    assert(head.contains(p[i]));
                    let k = choose|k: int| 0 <= k < head.len() && head[k] == p[i];
                    assert(s[k] == head[k]);
                    assert(!T::ahead(s[s.len() - 1], s[k]));
                }
            }
        }
        assert forall|k: int| 0 <= k < r.len() implies #[trigger] r[k] == x || s.contains(
            r[k],
        ) by {
            if k < p.len() {
                assert(r[k] == p[k]);
                if p[k] != x {
                    assert(head.contains(p[k]));
                    let m = choose|m: int| 0 <= m < head.len() && head[m] == p[k];
                    assert(s[m] == head[m]);
                }
            } else {
                assert(r[k] == s[s.len() - 1]);
            }
        }
    } else {
        assert forall|i: int, j: int| 0 <= i < j < r.len() implies !T::ahead(
            #[trigger] r[j],
            #[trigger] r[i],
        ) by {
            if j < s.len() {
                assert(r[i] == s[i] && r[j] == s[j]);
            } else {
                assert(r[j] == x);
                assert(r[i] == s[i]);
                if i < s.len() - 1 {
                    assert(!T::ahead(s[s.len() - 1], s[i]));
                }
                assert(!T::ahead(x, s[i]));
            }
        }
        assert forall|k: int| 0 <= k < r.len() implies #[trigger] r[k] == x || s.contains(
            r[k],
        ) by {
            if k < s.len() {
                assert(r[k] == s[k]);
            }
        }
    }
}

/// Ordered records are in rank order, whatever order they came in.
pub proof fn lemma_ranked_in_order<T: Ranked>(s: Seq<T::V>)
    requires
        orderly::<T>(),
    ensures
        in_rank_order::<T>(ranked::<T>(s)),
    decreases s.len(),
{
    if s.len() > 0 {
        lemma_ranked_in_order::<T>(s.drop_last());
        lemma_place_in_order::<T>(ranked::<T>(s.drop_last()), s.last());
    }
}

/// Puts the records into rank order, keeping records of equal rank in the
/// order they came in.
pub fn sort_ranked<T: Ranked>(items: Vec<T>) -> (out: Vec<T>)
    ensures
        out.deep_view() == ranked::<T>(items.deep_view()),
{
    let mut items = items;
    let ghost all = items.deep_view();
    let mut out: Vec<T> = Vec::new();
    let n = items.len();
    let mut rest: Vec<T> = Vec::new();
    // Taken from the back, so `rest` holds the records in reverse.
    while items.len() > 0
        invariant
            items.len() + rest.len() == n,
            n == all.len(),
            forall|k: int| 0 <= k < items.len() ==> (#[trigger] items@[k]).deep_view() == all[k],
            forall|k: int|
                0 <= k < rest.len() ==> (#[trigger] rest@[k]).deep_view() == all[n - 1 - k],
        decreases items.len(),
    {
        let x = items.pop().unwrap();
        rest.push(x);
    }
    let mut done: usize = 0;
    assert(out.deep_view() =~= ranked::<T>(all.take(0)));
    while rest.len() > 0
        invariant
            done + rest.len() == n,
            n == all.len(),
            forall|k: int|
                0 <= k < rest.len() ==> (#[trigger] rest@[k]).deep_view() == all[n - 1 - k],
            out.deep_view() == ranked::<T>(all.take(done as int)),
        decreases rest.len(),
    {
        let x = rest.pop().unwrap();
        assert(x.deep_view() == all[done as int]);
        let ghost sorted = out.deep_view();
        let mut j: usize = out.len();
        assert(sorted.take(j as int) == sorted);
        while j > 0 && x.is_ahead(&out[j - 1])
            invariant
                j <= out.len(),
                sorted == out.deep_view(),
                place::<T>(sorted, x.deep_view()) == place::<T>(
                    sorted.take(j as int),
                    x.deep_view(),
                ) + sorted.skip(j as int),
            decreases j,
        {
            let ghost head = sorted.take(j as int);
            assert(head.last() == out@[j - 1].deep_view());
            assert(head.drop_last() == sorted.take(j - 1));
            assert(place::<T>(head, x.deep_view()) == place::<T>(
                sorted.take(j - 1),
                x.deep_view(),
            ).push(head.last()));
            assert(place::<T>(sorted.take(j - 1), x.deep_view()).push(head.last()) + sorted.skip(
                j as int,
            ) =~= place::<T>(sorted.take(j - 1), x.deep_view()) + sorted.skip(j - 1));
            j = j - 1;
        }
        proof {
            let head = sorted.take(j as int);
            if j > 0 {
                assert(head.last() == out@[j - 1].deep_view());
            }
            assert(place::<T>(head, x.deep_view()) == head.push(x.deep_view()));
        }
        let ghost before = out@;
        out.insert(j, x);
        assert(out.deep_view() =~= sorted.take(j as int).push(x.deep_view()) + sorted.skip(
            j as int,
        )) by {
            assert(out@ == before.insert(j as int, x));
            assert forall|k: int| 0 <= k < out@.len() implies out.deep_view()[k] == (sorted.take(
                j as int,
            ).push(x.deep_view()) + sorted.skip(j as int))[k] by {
                if k < j {
                    assert(out@[k] == before[k]);
                } else if k == j {
                } else {
                    assert(out@[k] == before[k - 1]);
                }
            }
        }
        proof {
            assert(all.take(done + 1).drop_last() == all.take(done as int));
            assert(all.take(done + 1).last() == all[done as int]);
        }
        done = done + 1;
    }
    assert(all.take(n as int) == all);
    out
}

/// Whether `a` stands before `b` in the dictionary: character by character,
/// by code point, a proper prefix first.
pub open spec fn lex_less(a: Seq<char>, b: Seq<char>) -> bool
    decreases a.len(),
{
    if b.len() == 0 {
        false
    } else if a.len() == 0 {
        true
    } else if a[0] != b[0] {
        a[0] < b[0]
    } else {
        lex_less(a.drop_first(), b.drop_first())
    }
}

/// Of two texts at most one stands before the other.
pub proof fn lemma_lex_less_asymmetric(a: Seq<char>, b: Seq<char>)
    ensures
        lex_less(a, b) ==> !lex_less(b, a),
    decreases a.len(),
{
    if a.len() > 0 && b.len() > 0 && a[0] == b[0] {
        lemma_lex_less_asymmetric(a.drop_first(), b.drop_first());
    }
}

/// Where `a` does not stand before `b`, nor `b` before `c`, `a` does not
/// stand before `c`.
pub proof fn lemma_lex_less_chain(a: Seq<char>, b: Seq<char>, c: Seq<char>)
    ensures
        !lex_less(a, b) && !lex_less(b, c) ==> !lex_less(a, c),
    decreases a.len(),
{
    if a.len() > 0 && b.len() > 0 && c.len() > 0 && a[0] == b[0] && b[0] == c[0] {
        lemma_lex_less_chain(a.drop_first(), b.drop_first(), c.drop_first());
    }
}

/// Of two different texts one stands before the other.
pub proof fn lemma_lex_less_total(a: Seq<char>, b: Seq<char>)
    ensures
        a != b ==> lex_less(a, b) || lex_less(b, a),
    decreases a.len(),
{
    if a.len() > 0 && b.len() > 0 && a[0] == b[0] {
        lemma_lex_less_total(a.drop_first(), b.drop_first());
        if a.drop_first() == b.drop_first() {
            assert(a =~= seq![a[0]] + a.drop_first());
            assert(b =~= seq![b[0]] + b.drop_first());
        }
    } else if a.len() == 0 && b.len() == 0 {
        assert(a =~= b);
    }
}

/// The dictionary order is an order that ranking can go by.
pub proof fn lemma_texts_orderly()
    ensures
        orderly::<String>(),
{
    assert forall|a: Seq<char>, b: Seq<char>| #[trigger]
        <String as Ranked>::ahead(a, b) implies !<String as Ranked>::ahead(b, a) by {
        lemma_lex_less_asymmetric(a, b);
    }
    assert forall|a: Seq<char>, b: Seq<char>, c: Seq<char>|
        !#[trigger] <String as Ranked>::ahead(a, b) && !#[trigger] <String as Ranked>::ahead(
            b,
            c,
        ) implies !<String as Ranked>::ahead(a, c) by {
        lemma_lex_less_chain(a, b, c);
    }
}

/// Whether `a` stands before `b` in the dictionary.
pub fn text_less(a: &str, b: &str) -> (r: bool)
    ensures
        r == lex_less(a@, b@),
{
    let x = chars_of(a);
    let y = chars_of(b);
    let mut i: usize = 0;
    assert(x@.skip(0) == x@ && y@.skip(0) == y@);
    while i < x.len() && i < y.len()
        invariant
            i <= x.len(),
            i <= y.len(),
            x@ == a@,
            y@ == b@,
            lex_less(x@, y@) == lex_less(x@.skip(i as int), y@.skip(i as int)),
        decreases x.len() - i,
    {
        let ghost xs = x@.skip(i as int);
        let ghost ys = y@.skip(i as int);
        assert(xs[0] == x@[i as int] && ys[0] == y@[i as int]);
        if x[i] != y[i] {
            return x[i] < y[i];
        }
        assert(xs.drop_first() == x@.skip(i + 1));
        assert(ys.drop_first() == y@.skip(i + 1));
        i = i + 1;
    }
    i < y.len()
}

/// Texts are ranked as in the dictionary.
impl Ranked for String {
    open spec fn ahead(a: Seq<char>, b: Seq<char>) -> bool {
        lex_less(a, b)
    }

    fn is_ahead(&self, other: &Self) -> (r: bool) {
        text_less(self.as_str(), other.as_str())
    }
}

} // verus!
