//! Text helpers shared by the library: decimal rendering of integers,
//! Unicode white-space trimming and a few predicates on character sequences.

use vstd::prelude::*;

verus! {

/// The ASCII digit for `d`, where `d < 10`.
pub open spec fn digit_char(d: nat) -> char {
    if d == 0 { '0' }
    else if d == 1 { '1' }
    else if d == 2 { '2' }
    else if d == 3 { '3' }
    else if d == 4 { '4' }
    else if d == 5 { '5' }
    else if d == 6 { '6' }
    else if d == 7 { '7' }
    else if d == 8 { '8' }
    else { '9' }
}

/// The decimal representation of `n`, most significant digit first,
/// without leading zeros (the number zero is the single digit `0`).
pub open spec fn decimal(n: nat) -> Seq<char>
    decreases n,
{
    if n < 10 {
        seq![digit_char(n)]
    } else {
        decimal(n / 10).push(digit_char(n % 10))
    }
}

/// `c` has the Unicode `White_Space` property, which is what
/// `char::is_whitespace` and `str::trim` test.
pub open spec fn is_white_space(c: char) -> bool {
    let u = c as u32;
    ||| (0x9 <= u && u <= 0xD)
    ||| u == 0x20
    ||| u == 0x85
    ||| u == 0xA0
    ||| u == 0x1680
    ||| (0x2000 <= u && u <= 0x200A)
    ||| u == 0x2028
    ||| u == 0x2029
    ||| u == 0x202F
    ||| u == 0x205F
    ||| u == 0x3000
}

/// `s` without its leading white space.
pub open spec fn trim_start(s: Seq<char>) -> Seq<char>
    decreases s.len(),
{
    if s.len() > 0 && is_white_space(s[0]) {
        trim_start(s.drop_first())
    } else {
        s
    }
}

/// `s` without its trailing white space.
pub open spec fn trim_end(s: Seq<char>) -> Seq<char>
    decreases s.len(),
{
    if s.len() > 0 && is_white_space(s.last()) {
        trim_end(s.drop_last())
    } else {
        s
    }
}

/// `s` without leading and trailing white space, as `str::trim` returns it.
pub open spec fn trim(s: Seq<char>) -> Seq<char> {
    trim_end(trim_start(s))
}

/// `prefix` is a prefix of `s`.
pub open spec fn has_prefix(s: Seq<char>, prefix: Seq<char>) -> bool {
    prefix.len() <= s.len() && s.subrange(0, prefix.len() as int) == prefix
}

/// Appends one character to a string.
/// Calls `String::push`, which the standard library documents as appending
/// the given char to the end of the string.
#[verifier::external_body]
pub fn push_char(s: &mut String, c: char)
    ensures
        final(s)@ == old(s)@.push(c),
{
    s.push(c);
}

/// Tests one character for white space.
/// Calls `char::is_whitespace`, documented by the standard library as true
/// exactly for the characters with the Unicode `White_Space` property.
#[verifier::external_body]
fn char_is_whitespace(c: char) -> (res: bool)
    ensures
        res == is_white_space(c),
{
    c.is_whitespace()
}

/// The ASCII digit for a value below ten.
fn digit_of(d: u128) -> (c: char)
    requires
        d < 10,
    ensures
        c == digit_char(d as nat),
{
    if d == 0 { '0' }
    else if d == 1 { '1' }
    else if d == 2 { '2' }
    else if d == 3 { '3' }
    else if d == 4 { '4' }
    else if d == 5 { '5' }
    else if d == 6 { '6' }
    else if d == 7 { '7' }
    else if d == 8 { '8' }
    else { '9' }
}

/// Renders `n` in decimal, as `format!("{}", n)` does.
pub fn decimal_string(n: u128) -> (res: String)
    ensures
        res@ == decimal(n as nat),
    decreases n,
{
    if n < 10 {
        let mut s = String::new();
        push_char(&mut s, digit_of(n));
        s
    } else {
        let mut s = decimal_string(n / 10);
        push_char(&mut s, digit_of(n % 10));
        s
    }
}

/// Renders a `usize` in decimal.
pub fn usize_string(n: usize) -> (res: String)
    ensures
        res@ == decimal(n as nat),
{
    decimal_string(n as u128)
}

/// Appends the decimal rendering of `n` to `s`.
pub fn append_usize(s: &mut String, n: usize)
    ensures
        final(s)@ == old(s)@ + decimal(n as nat),
{
    let d = usize_string(n);
    s.append(d.as_str());
}

proof fn lemma_trim_start_skip(s: Seq<char>, i: int)
    requires
        0 <= i <= s.len(),
        forall|k: int| 0 <= k < i ==> is_white_space(#[trigger] s[k]),
    ensures
        trim_start(s) == trim_start(s.subrange(i, s.len() as int)),
    decreases i,
{
    if i > 0 {
        assert(s.len() > 0 && is_white_space(s[0]));
        let t = s.drop_first();
        assert forall|k: int| 0 <= k < i - 1 implies is_white_space(#[trigger] t[k]) by {
            assert(t[k] == s[k + 1]);
        }
        lemma_trim_start_skip(t, i - 1);
        assert(t.subrange(i - 1, t.len() as int) =~= s.subrange(i, s.len() as int));
    } else {
        assert(s.subrange(0, s.len() as int) =~= s);
    }
}

proof fn lemma_trim_end_cut(s: Seq<char>, j: int)
    requires
        0 <= j <= s.len(),
        forall|k: int| j <= k < s.len() ==> is_white_space(#[trigger] s[k]),
    ensures
        trim_end(s) == trim_end(s.subrange(0, j)),
    decreases s.len() - j,
{
    if j < s.len() {
        assert(is_white_space(s.last()));
        let t = s.drop_last();
        assert forall|k: int| j <= k < t.len() implies is_white_space(#[trigger] t[k]) by {
            assert(t[k] == s[k]);
        }
        lemma_trim_end_cut(t, j);
        assert(t.subrange(0, j) =~= s.subrange(0, j));
    } else {
        assert(s.subrange(0, j) =~= s);
    }
}

/// Where the leading white space of `s` ends: `trim_start` drops exactly the
/// white characters before that position, and the character there, if any,
/// is not white.
pub proof fn lemma_trim_start_index(s: Seq<char>) -> (a: int)
    ensures
        0 <= a <= s.len(),
        trim_start(s) == s.skip(a),
        forall|j: int| 0 <= j < a ==> is_white_space(#[trigger] s[j]),
        a < s.len() ==> !is_white_space(s[a]),
    decreases s.len(),
{
    if s.len() > 0 && is_white_space(s[0]) {
        let t = s.drop_first();
        let a0 = lemma_trim_start_index(t);
        assert(t.skip(a0) =~= s.skip(a0 + 1));
        assert forall|j: int| 0 <= j < a0 + 1 implies is_white_space(#[trigger] s[j]) by {
            if j > 0 {
                assert(s[j] == t[j - 1]);
            }
        }
        if a0 + 1 < s.len() {
            assert(s[a0 + 1] == t[a0]);
        }
        a0 + 1
    } else {
        assert(s.skip(0) =~= s);
        0
    }
}

/// Where the trailing white space of `s` starts: `trim_end` drops exactly
/// the white characters from that position on, and the character before it,
/// if any, is not white.
pub proof fn lemma_trim_end_index(s: Seq<char>) -> (b: int)
    ensures
        0 <= b <= s.len(),
        trim_end(s) == s.take(b),
        forall|j: int| b <= j < s.len() ==> is_white_space(#[trigger] s[j]),
        b > 0 ==> !is_white_space(s[b - 1]),
    decreases s.len(),
{
    if s.len() > 0 && is_white_space(s.last()) {
        let t = s.drop_last();
        let b0 = lemma_trim_end_index(t);
        assert(t.take(b0) =~= s.take(b0));
        assert forall|j: int| b0 <= j < s.len() implies is_white_space(#[trigger] s[j]) by {
            if j < s.len() - 1 {
                assert(s[j] == t[j]);
            }
        }
        if b0 > 0 {
            assert(s[b0 - 1] == t[b0 - 1]);
        }
        b0
    } else {
        assert(s.take(s.len() as int) =~= s);
        s.len() as int
    }
}

/// Trimming law: `trim(s)` is the part of `s` between its leading and its
/// trailing white space.  Everything before position `a` and from position
/// `b` on is white space, and when something is left it starts and ends
/// with characters that are not white.
pub proof fn lemma_trim_bounds(s: Seq<char>) -> (ab: (int, int))
    ensures
        0 <= ab.0 <= ab.1 <= s.len(),
        trim(s) == s.subrange(ab.0, ab.1),
        forall|j: int| 0 <= j < ab.0 ==> is_white_space(#[trigger] s[j]),
        forall|j: int| ab.1 <= j < s.len() ==> is_white_space(#[trigger] s[j]),
        ab.0 < ab.1 ==> !is_white_space(s[ab.0]) && !is_white_space(s[ab.1 - 1]),
        ab.0 == ab.1 ==> ab.0 == s.len(),
{
    let a = lemma_trim_start_index(s);
    let u = s.skip(a);
    let b0 = lemma_trim_end_index(u);
    assert(u.take(b0) =~= s.subrange(a, a + b0));
    assert forall|j: int| a + b0 <= j < s.len() implies is_white_space(#[trigger] s[j]) by {
        assert(s[j] == u[j - a]);
    }
    if b0 > 0 {
        assert(u[b0 - 1] == s[a + b0 - 1]);
        assert(u[0] == s[a]);
    }
    if b0 == 0 && a < s.len() {
        assert(u[0] == s[a]);
        assert(!is_white_space(u[0]));
        assert(is_white_space(u[0]));
    }
    (a, a + b0)
}

/// Blank law: `s` trims to nothing exactly when every character of `s` is
/// white space.
pub proof fn lemma_trim_empty(s: Seq<char>)
    ensures
        (trim(s).len() == 0) <==> (forall|j: int| 0 <= j < s.len() ==> is_white_space(#[trigger] s[j])),
{
    let ab = lemma_trim_bounds(s);
    if trim(s).len() != 0 {
        assert(!is_white_space(s[ab.0]));
    } else {
        assert forall|j: int| 0 <= j < s.len() implies is_white_space(#[trigger] s[j]) by {
            assert(ab.0 == ab.1);
        }
    }
}

/// Removes leading and trailing white space, as `str::trim` does.
pub fn trim_str(s: &str) -> (res: String)
    ensures
        res@ == trim(s@),
{
    let n = s.unicode_len();
    let mut i: usize = 0;
    while i < n && char_is_whitespace(s.get_char(i))
        invariant
            n == s@.len(),
            i <= n,
            forall|k: int| 0 <= k < i ==> is_white_space(#[trigger] s@[k]),
        decreases n - i,
    {
        i = i + 1;
    }
    let ghost rest = s@.subrange(i as int, n as int);
    proof {
        lemma_trim_start_skip(s@, i as int);
        if i < n {
            assert(rest[0] == s@[i as int]);
        }
        assert(trim_start(rest) == rest);
    }
    let mut j: usize = n;
    while j > i && char_is_whitespace(s.get_char(j - 1))
        invariant
            n == s@.len(),
            i <= j <= n,
            forall|k: int| j <= k < n ==> is_white_space(#[trigger] s@[k]),
        decreases j,
    {
        j = j - 1;
    }
    proof {
        let r = rest;
        let m = j - i;
        assert forall|k: int| m <= k < r.len() implies is_white_space(#[trigger] r[k]) by {
            assert(r[k] == s@[k + i]);
        }
        lemma_trim_end_cut(r, m as int);
        let u = r.subrange(0, m as int);
        assert(u =~= s@.subrange(i as int, j as int));
        if m > 0 {
            assert(u.last() == s@[j - 1]);
        }
        assert(trim_end(u) == u);
    }
    let t = s.substring_char(i, j);
    String::from_str(t)
}

} // verus!
