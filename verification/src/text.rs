//! Text helpers shared by the rest of the crate: tests on prefixes and
//! suffixes, concatenation, and decimal rendering of integers.

use vstd::prelude::*;
use vstd::string::*;

verus! {

/// Whether `s` ends with `suffix`, as sequences of characters.
pub open spec fn seq_ends_with(s: Seq<char>, suffix: Seq<char>) -> bool {
    suffix.len() <= s.len() && s.subrange(s.len() - suffix.len(), s.len() as int) == suffix
}

/// Whether `s` starts with `prefix`, as sequences of characters.
pub open spec fn seq_starts_with(s: Seq<char>, prefix: Seq<char>) -> bool {
    prefix.len() <= s.len() && s.subrange(0, prefix.len() as int) == prefix
}

/// Whether `s` ends with `suffix`.
pub fn ends_with(s: &str, suffix: &str) -> (b: bool)
    ensures
        b == seq_ends_with(s@, suffix@),
{
    let text = chars_of(s);
    let tail = chars_of(suffix);
    if tail.len() > text.len() {
        return false;
    }
    let shift = text.len() - tail.len();
    let ghost end = s@.subrange(s@.len() - suffix@.len(), s@.len() as int);
    let mut i: usize = 0;
    while i < tail.len()
        invariant
            i <= tail.len(),
            text@ == s@,
            tail@ == suffix@,
            shift + tail.len() == text.len(),
            end == s@.subrange(s@.len() - suffix@.len(), s@.len() as int),
            forall|k: int| 0 <= k < i ==> end[k] == suffix@[k],
        decreases tail.len() - i,
    {
        assert(end[i as int] == text@[shift + i]);
        if text[shift + i] != tail[i] {
            return false;
        }
        i = i + 1;
    }
    assert(end =~= suffix@);
    true
}

/// Whether `s` starts with `prefix`.
pub fn starts_with(s: &str, prefix: &str) -> (b: bool)
    ensures
        b == seq_starts_with(s@, prefix@),
{
    let text = chars_of(s);
    let head = chars_of(prefix);
    if head.len() > text.len() {
        return false;
    }
    let ghost begin = s@.subrange(0, prefix@.len() as int);
    let mut i: usize = 0;
    while i < head.len()
        invariant
            i <= head.len(),
            head.len() <= text.len(),
            text@ == s@,
            head@ == prefix@,
            begin == s@.subrange(0, prefix@.len() as int),
            forall|k: int| 0 <= k < i ==> begin[k] == prefix@[k],
        decreases head.len() - i,
    {
        assert(begin[i as int] == text@[i as int]);
        if text[i] != head[i] {
            return false;
        }
        i = i + 1;
    }
    assert(begin =~= prefix@);
    true
}

/// Whether both texts hold the same characters.
pub fn same_text(a: &str, b: &str) -> (r: bool)
    ensures
        r == (a@ == b@),
{
    let x = chars_of(a);
    let y = chars_of(b);
    if x.len() != y.len() {
        return false;
    }
    let mut i: usize = 0;
    while i < x.len()
        invariant
            i <= x.len(),
            x.len() == y.len(),
            x@ == a@,
            y@ == b@,
            forall|k: int| 0 <= k < i ==> x@[k] == y@[k],
        decreases x.len() - i,
    {
        if x[i] != y[i] {
            return false;
        }
        i = i + 1;
    }
    assert(x@ =~= y@);
    true
}

/// `String::push` of the standard library: appends one character.
#[verifier::external_body]
pub(crate) fn push_char(s: &mut String, c: char)
    ensures
        final(s)@ == old(s)@.push(c),
{
    s.push(c)
}

/// The characters of `s`, in order.
pub fn chars_of(s: &str) -> (v: Vec<char>)
    ensures
        v@ == s@,
{
    let n = s.unicode_len();
    let mut v: Vec<char> = Vec::new();
    let mut i: usize = 0;
    while i < n
        invariant
            n == s@.len(),
            i <= n,
            v@ == s@.subrange(0, i as int),
        decreases n - i,
    {
        let c = s.get_char(i);
        v.push(c);
        i = i + 1;
        assert(v@ == s@.subrange(0, i as int));
    }
    assert(s@.subrange(0, n as int) == s@);
    v
}

/// The text made of the characters `v[from..to]`.
pub fn string_of(v: &Vec<char>, from: usize, to: usize) -> (s: String)
    requires
        from <= to <= v.len(),
    ensures
        s@ == v@.subrange(from as int, to as int),
{
    let mut s = String::new();
    let mut i: usize = from;
    while i < to
        invariant
            from <= i <= to <= v.len(),
            s@ == v@.subrange(from as int, i as int),
        decreases to - i,
    {
        push_char(&mut s, v[i]);
        i = i + 1;
        assert(s@ == v@.subrange(from as int, i as int));
    }
    s
}

/// The two texts one after the other.
pub fn concat2(a: &str, b: &str) -> (r: String)
    ensures
        r@ == a@ + b@,
{
    let mut r = String::from_str(a);
    r.append(b);
    r
}

/// The three texts one after another.
pub fn concat3(a: &str, b: &str, c: &str) -> (r: String)
    ensures
        r@ == a@ + b@ + c@,
{
    let mut r = String::from_str(a);
    r.append(b);
    r.append(c);
    r
}

/// The character of the decimal digit `d`.
pub open spec fn digit_char(d: nat) -> char
    recommends
        d < 10,
{
    if d == 0 {
        '0'
    } else if d == 1 {
        '1'
    } else if d == 2 {
        '2'
    } else if d == 3 {
        '3'
    } else if d == 4 {
        '4'
    } else if d == 5 {
        '5'
    } else if d == 6 {
        '6'
    } else if d == 7 {
        '7'
    } else if d == 8 {
        '8'
    } else {
        '9'
    }
}

/// The decimal numeral of `n`, without sign or leading zeros.
pub open spec fn decimal_text(n: nat) -> Seq<char>
    decreases n,
{
    if n < 10 {
        seq![digit_char(n)]
    } else {
        decimal_text(n / 10).push(digit_char(n % 10))
    }
}

/// The character of the decimal digit `d`.
pub fn digit(d: u8) -> (c: char)
    requires
        d < 10,
    ensures
        c == digit_char(d as nat),
{
    if d == 0 {
        '0'
    } else if d == 1 {
        '1'
    } else if d == 2 {
        '2'
    } else if d == 3 {
        '3'
    } else if d == 4 {
        '4'
    } else if d == 5 {
        '5'
    } else if d == 6 {
        '6'
    } else if d == 7 {
        '7'
    } else if d == 8 {
        '8'
    } else {
        '9'
    }
}

/// Renders `n` in decimal.
pub fn decimal(n: u128) -> (s: String)
    ensures
        s@ == decimal_text(n as nat),
{
    // Digits come out lowest first; they are collected and then written in
    // reverse.
    let mut rev: Vec<char> = Vec::new();
    let mut rest: u128 = n;
    let ghost mut tail: Seq<char> = Seq::empty();
    while rest >= 10
        invariant
            rev@.len() == tail.len(),
            forall|i: int| 0 <= i < tail.len() ==> rev@[i] == tail[tail.len() - 1 - i],
            decimal_text(n as nat) == decimal_text(rest as nat) + tail,
        decreases rest,
    {
        let d = (rest % 10) as u8;
        let c = digit(d);
        proof {
            let old_tail = tail;
            tail = seq![c] + old_tail;
            assert(decimal_text(rest as nat) == decimal_text((rest / 10) as nat).push(c));
            assert(decimal_text((rest / 10) as nat).push(c) + old_tail == decimal_text(
                (rest / 10) as nat,
            ) + tail);
        }
        rev.push(c);
        rest = rest / 10;
    }
    let first = digit(rest as u8);
    let mut s = String::new();
    push_char(&mut s, first);
    let mut i: usize = rev.len();
    while i > 0
        invariant
            i <= rev.len(),
            rev@.len() == tail.len(),
            forall|k: int| 0 <= k < tail.len() ==> rev@[k] == tail[tail.len() - 1 - k],
            s@ == seq![first] + tail.subrange(0, tail.len() - i),
        decreases i,
    {
        i = i - 1;
        push_char(&mut s, rev[i]);
        assert(s@ == seq![first] + tail.subrange(0, tail.len() - i));
    }
    assert(tail.subrange(0, tail.len() as int) == tail);
    assert(decimal_text(rest as nat) == seq![first]);
    s
}

} // verus!
