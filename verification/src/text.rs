//! Text helpers over `Seq<char>`: decimal rendering, prefix and substring tests.

use vstd::prelude::*;

verus! {

/// The character of a decimal digit `d` (0..=9).
pub open spec fn digit_char(d: int) -> char {
    (48 + d) as char
}

/// The decimal rendering of a natural number, without leading zeros.
pub open spec fn decimal(n: nat) -> Seq<char>
    decreases n,
{
    if n < 10 {
        seq![digit_char(n as int)]
    } else {
        decimal(n / 10) + seq![digit_char((n % 10) as int)]
    }
}

/// The number that a sequence of decimal digits denotes.
pub open spec fn digits_value(s: Seq<char>) -> int
    decreases s.len(),
{
    if s.len() == 0 {
        0
    } else {
        digits_value(s.drop_last()) * 10 + ((s.last() as int) - 48)
    }
}

/// Reading the decimal rendering of `n` gives `n` back, and the rendering is
/// never empty; so distinct numbers have distinct renderings.
pub proof fn lemma_decimal_roundtrip(n: nat)
    ensures
        digits_value(decimal(n)) == n,
        decimal(n).len() > 0,
    decreases n,
{
    if n < 10 {
        assert(decimal(n).drop_last() =~= Seq::<char>::empty());
        assert(digits_value(Seq::<char>::empty()) == 0);
        assert((digit_char(n as int) as int) == 48 + n);
    } else {
        lemma_decimal_roundtrip(n / 10);
        let d = decimal(n);
        assert(d.drop_last() =~= decimal(n / 10));
        assert(d.last() == digit_char((n % 10) as int));
        assert((digit_char((n % 10) as int) as int) == 48 + n % 10);
        assert(digits_value(d) == digits_value(decimal(n / 10)) * 10 + n % 10);
        assert(n == (n / 10) * 10 + n % 10);
    }
}

/// Distinct numbers have distinct decimal renderings.
pub proof fn lemma_decimal_injective(a: nat, b: nat)
    requires
        decimal(a) == decimal(b),
    ensures
        a == b,
{
    lemma_decimal_roundtrip(a);
    lemma_decimal_roundtrip(b);
}

/// `p` is a prefix of `s`.
pub open spec fn has_prefix(s: Seq<char>, p: Seq<char>) -> bool {
    p.len() <= s.len() && s.subrange(0, p.len() as int) == p
}

/// `p` occurs in `s` at position `i`.
pub open spec fn occurs_at(s: Seq<char>, p: Seq<char>, i: int) -> bool {
    0 <= i && i + p.len() <= s.len() && s.subrange(i, i + p.len()) == p
}

/// `p` occurs somewhere in `s` (the empty sequence occurs in every sequence).
pub open spec fn has_substring(s: Seq<char>, p: Seq<char>) -> bool {
    exists|i: int| occurs_at(s, p, i)
}

fn digit_str(d: u8) -> (s: &'static str)
    requires
        d < 10,
    ensures
        s@ == seq![digit_char(d as int)],
{
    if d == 0 {
        proof { reveal_strlit("0"); }
        "0"
    } else if d == 1 {
        proof { reveal_strlit("1"); }
        "1"
    } else if d == 2 {
        proof { reveal_strlit("2"); }
        "2"
    } else if d == 3 {
        proof { reveal_strlit("3"); }
        "3"
    } else if d == 4 {
        proof { reveal_strlit("4"); }
        "4"
    } else if d == 5 {
        proof { reveal_strlit("5"); }
        "5"
    } else if d == 6 {
        proof { reveal_strlit("6"); }
        "6"
    } else if d == 7 {
        proof { reveal_strlit("7"); }
        "7"
    } else if d == 8 {
        proof { reveal_strlit("8"); }
        "8"
    } else {
        proof { reveal_strlit("9"); }
        "9"
    }
}

/// Appends the decimal rendering of `n` to `s`.
pub fn push_decimal(s: &mut String, n: u8)
    ensures
        final(s)@ == old(s)@ + decimal(n as nat),
{
    proof { reveal_with_fuel(decimal, 3); }
    if n >= 100 {
        s.append(digit_str(n / 100));
        s.append(digit_str((n / 10) % 10));
        s.append(digit_str(n % 10));
        assert(decimal(n as nat) =~= seq![digit_char((n / 100) as int), digit_char(((n / 10) % 10) as int), digit_char((n % 10) as int)]);
    } else if n >= 10 {
        s.append(digit_str(n / 10));
        s.append(digit_str(n % 10));
        assert(decimal(n as nat) =~= seq![digit_char((n / 10) as int), digit_char((n % 10) as int)]);
    } else {
        s.append(digit_str(n));
    }
    assert(final(s)@ =~= old(s)@ + decimal(n as nat));
}

/// The characters of `s`, one by one.
pub fn chars_of(s: &str) -> (v: Vec<char>)
    ensures
        v@ == s@,
{
    let n = s.unicode_len();
    let mut v: Vec<char> = Vec::new();
    let mut i: usize = 0;
    while i < n
        invariant
            n == s@.len(),
            i <= n,
            v@ == s@.subrange(0, i as int),
        decreases n - i,
    {
        v.push(s.get_char(i));
        i = i + 1;
    }
    assert(v@ =~= s@);
    v
}

/// Whether `p` is a prefix of `s`.
pub fn starts_with(s: &str, p: &str) -> (b: bool)
    ensures
        b == has_prefix(s@, p@),
{
    let sv = chars_of(s);
    let pv = chars_of(p);
    if pv.len() > sv.len() {
        return false;
    }
    let mut i: usize = 0;
    while i < pv.len()
        invariant
            pv.len() <= sv.len(),
            sv@ == s@,
            pv@ == p@,
            i <= pv.len(),
            forall|j: int| 0 <= j < i ==> sv@[j] == pv@[j],
        decreases pv.len() - i,
    {
        if sv[i] != pv[i] {
            assert(sv@.subrange(0, pv@.len() as int)[i as int] != pv@[i as int]);
            return false;
        }
        i = i + 1;
    }
    assert(sv@.subrange(0, pv@.len() as int) =~= pv@);
    true
}

fn occurs_at_exec(s: &Vec<char>, p: &Vec<char>, i: usize) -> (b: bool)
    requires
        i + p.len() <= s.len(),
    ensures
        b == occurs_at(s@, p@, i as int),
{
    let mut j: usize = 0;
    while j < p.len()
        invariant
            i + p.len() <= s.len(),
            j <= p.len(),
            forall|k: int| 0 <= k < j ==> s@[i + k] == p@[k],
        decreases p.len() - j,
    {
        if s[i + j] != p[j] {
            assert(s@.subrange(i as int, i + p@.len())[j as int] != p@[j as int]);
            return false;
        }
        j = j + 1;
    }
    assert(s@.subrange(i as int, i + p@.len()) =~= p@);
    true
}

/// Whether `p` occurs in `s`.
pub fn contains_str(s: &str, p: &str) -> (b: bool)
    ensures
        b == has_substring(s@, p@),
{
    let sv = chars_of(s);
    let pv = chars_of(p);
    if pv.len() > sv.len() {
        return false;
    }
    let last = sv.len() - pv.len();
    let mut i: usize = 0;
    loop
        invariant
            last == sv.len() - pv.len(),
            pv.len() <= sv.len(),
            i <= last,
            sv@ == s@,
            pv@ == p@,
            forall|k: int| 0 <= k < i ==> !occurs_at(s@, p@, k),
        decreases last - i,
    {
        if occurs_at_exec(&sv, &pv, i) {
            return true;
        }
        if i == last {
            assert forall|k: int| !occurs_at(s@, p@, k) by {
                if 0 <= k <= i {
                }
            }
            return false;
        }
        i = i + 1;
    }
}

/// Unicode lower-casing of a character sequence, as the standard library's
/// `str::to_lowercase` computes it.
pub uninterp spec fn lowercase(s: Seq<char>) -> Seq<char>;

/// Every character is ASCII.
pub open spec fn is_ascii_text(s: Seq<char>) -> bool {
    forall|i: int| 0 <= i < s.len() ==> (#[trigger] s[i] as u32) < 128
}

/// `c` with `A`..=`Z` mapped to `a`..=`z`, as `char::to_ascii_lowercase` does.
pub open spec fn ascii_lower_char(c: char) -> char {
    if 'A' <= c && c <= 'Z' {
        ((c as u32) + 32) as char
    } else {
        c
    }
}

/// `s` with `A`..=`Z` mapped to `a`..=`z`.
pub open spec fn ascii_lowercase(s: Seq<char>) -> Seq<char> {
    s.map_values(|c: char| ascii_lower_char(c))
}

/// Calls `str::to_lowercase`. Its result is named [`lowercase`] of the input's
/// characters. On ASCII text it lower-cases `A`..=`Z` and keeps every other
/// character, as `char::to_ascii_lowercase` does (the standard library
/// documents `to_lowercase` as lower-casing ASCII letters along with the
/// rest); which other characters the Unicode tables map, and to what, is not
/// stated here.
#[verifier::external_body]
pub(crate) fn to_lowercase(s: &str) -> (r: String)
    ensures
        r@ == lowercase(s@),
        is_ascii_text(s@) ==> r@ == ascii_lowercase(s@),
{
    s.to_lowercase()
}

/// A character of the Unicode `White_Space` property: tab, line feed, line
/// tabulation, form feed, carriage return, space, next line, no-break space,
/// ogham space mark, the spaces U+2000..=U+200A, line and paragraph
/// separators, narrow no-break space, medium mathematical space and
/// ideographic space.
pub open spec fn is_white_space(c: char) -> bool {
    let x = c as u32;
    (9 <= x <= 13) || x == 32 || x == 0x85 || x == 0xA0 || x == 0x1680 || (0x2000 <= x <= 0x200A)
        || x == 0x2028 || x == 0x2029 || x == 0x202F || x == 0x205F || x == 0x3000
}

/// `s[i..j]` is `s` without its leading and trailing white space: everything
/// before `i` and from `j` on is white space, and the part kept neither starts
/// nor ends with white space.
pub open spec fn trim_bounds(s: Seq<char>, i: int, j: int) -> bool {
    &&& 0 <= i <= j <= s.len()
    &&& forall|k: int| 0 <= k < i ==> is_white_space(#[trigger] s[k])
    &&& forall|k: int| j <= k < s.len() ==> is_white_space(#[trigger] s[k])
    &&& i < j ==> !is_white_space(s[i]) && !is_white_space(s[j - 1])
}

/// `r` is `s` without its leading and trailing white space.
pub open spec fn is_trim_of(r: Seq<char>, s: Seq<char>) -> bool {
    exists|i: int, j: int| trim_bounds(s, i, j) && r == s.subrange(i, j)
}

/// There is one way to trim a sequence: the bounds are unique.
pub proof fn lemma_trim_unique(s: Seq<char>, i1: int, j1: int, i2: int, j2: int)
    requires
        trim_bounds(s, i1, j1),
        trim_bounds(s, i2, j2),
    ensures
        i1 < j1 ==> i1 == i2 && j1 == j2,
        s.subrange(i1, j1) == s.subrange(i2, j2),
{
    if i1 < j1 {
        if i2 < i1 {
            assert(is_white_space(s[i2]));
        }
        if i1 < i2 {
            assert(is_white_space(s[i1]));
        }
        if j2 < j1 {
            assert(is_white_space(s[j1 - 1]));
        }
        if j1 < j2 {
            assert(i2 == i1);
            assert(is_white_space(s[j2 - 1]));
        }
    } else {
        if i2 < j2 {
            if i2 < i1 {
                assert(is_white_space(s[i2]));
            } else {
                assert(j1 <= i2);
                assert(is_white_space(s[i2]));
            }
        }
        assert(s.subrange(i1, j1) =~= s.subrange(i2, j2));
    }
}

/// Whether `c` is Unicode white space; see [`is_white_space`].
pub fn white_space(c: char) -> (b: bool)
    ensures
        b == is_white_space(c),
{
    let x = c as u32;
    (9 <= x && x <= 13) || x == 32 || x == 0x85 || x == 0xA0 || x == 0x1680 || (0x2000 <= x && x <= 0x200A)
        || x == 0x2028 || x == 0x2029 || x == 0x202F || x == 0x205F || x == 0x3000
}

/// `s` without its leading and trailing white space.
pub fn trim(s: &str) -> (r: String)
    ensures
        is_trim_of(r@, s@),
{
    let v = chars_of(s);
    let n = v.len();
    let mut i: usize = 0;
    while i < n && white_space(v[i])
        invariant
            n == v@.len(),
            i <= n,
            forall|k: int| 0 <= k < i ==> is_white_space(#[trigger] v@[k]),
        decreases n - i,
    {
        i = i + 1;
    }
    let mut j: usize = n;
    while j > i && white_space(v[j - 1])
        invariant
            n == v@.len(),
            i <= j <= n,
            forall|k: int| j <= k < n ==> is_white_space(#[trigger] v@[k]),
        decreases j - i,
    {
        j = j - 1;
    }
    assert(trim_bounds(s@, i as int, j as int));
    let r = String::from_str(s.substring_char(i, j));
    r
}

} // verus!
