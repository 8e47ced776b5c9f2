//! Character-level text handling with specifications: Unicode white space,
//! trimming, searching, and decimal and hexadecimal rendering. Strings are
//! specified by their character sequences (`s@`).

use vstd::prelude::*;
use vstd::string::*;

verus! {

/// The characters with the Unicode `White_Space` property (PropList.txt), the
/// set that `char::is_whitespace` and `str::trim` use.
pub open spec fn white_space(c: char) -> bool {
    let u = c as u32;
    ||| 0x9 <= u <= 0xd
    ||| u == 0x20
    ||| u == 0x85
    ||| u == 0xa0
    ||| u == 0x1680
    ||| 0x2000 <= u <= 0x200a
    ||| u == 0x2028
    ||| u == 0x2029
    ||| u == 0x202f
    ||| u == 0x205f
    ||| u == 0x3000
}

/// A set of characters that a strip removes.
#[derive(Clone, Copy, Debug, PartialEq, Eq)]
pub enum CharSet {
    /// Unicode white space.
    WhiteSpace,
    /// The character '/'.
    Slash,
    /// The characters ' ' and '\0'.
    SpaceOrNul,
    /// The character '"'.
    Quote,
}

/// Whether `c` belongs to `set`.
pub open spec fn in_set(set: CharSet, c: char) -> bool {
    match set {
        CharSet::WhiteSpace => white_space(c),
        CharSet::Slash => c == '/',
        CharSet::SpaceOrNul => c == ' ' || c == '\0',
        CharSet::Quote => c == '"',
    }
}

/// `s` without its leading characters from `set`.
pub open spec fn strip_start(s: Seq<char>, set: CharSet) -> Seq<char>
    decreases s.len(),
{
    if s.len() > 0 && in_set(set, s[0]) {
        strip_start(s.drop_first(), set)
    } else {
        s
    }
}

/// `s` without its trailing characters from `set`.
pub open spec fn strip_end(s: Seq<char>, set: CharSet) -> Seq<char>
    decreases s.len(),
{
    if s.len() > 0 && in_set(set, s.last()) {
        strip_end(s.drop_last(), set)
    } else {
        s
    }
}

/// `s` without leading and trailing characters from `set`.
pub open spec fn strip(s: Seq<char>, set: CharSet) -> Seq<char> {
    strip_end(strip_start(s, set), set)
}

/// `s` with leading and trailing white space removed, as `str::trim` does.
pub open spec fn trimmed(s: Seq<char>) -> Seq<char> {
    strip(s, CharSet::WhiteSpace)
}

/// The first index at or after `i` where `s` holds `c`, or `s.len()`.
pub open spec fn index_from(s: Seq<char>, c: char, i: int) -> int
    decreases s.len() - i,
{
    if i >= s.len() {
        s.len() as int
    } else if s[i] == c {
        i
    } else {
        index_from(s, c, i + 1)
    }
}

/// Whether `pat` occurs in `s` starting at `i`.
pub open spec fn occurs_at(s: Seq<char>, pat: Seq<char>, i: int) -> bool {
    0 <= i && i + pat.len() <= s.len() && s.subrange(i, i + pat.len()) == pat
}

/// The first index at or after `i` where `pat` occurs in `s`, or `s.len()`
/// when it occurs nowhere from there.
pub open spec fn find_from(s: Seq<char>, pat: Seq<char>, i: int) -> int
    decreases s.len() - i,
{
    if i >= s.len() || i < 0 {
        s.len() as int
    } else if occurs_at(s, pat, i) {
        i
    } else {
        find_from(s, pat, i + 1)
    }
}

/// The decimal digit character for `d < 10`.
pub open spec fn digit_char(d: nat) -> char {
    (('0' as u32) + d) as char
}

/// The decimal rendering of `n`, without leading zeros.
pub open spec fn decimal(n: nat) -> Seq<char>
    decreases n,
{
    if n < 10 {
        seq![digit_char(n)]
    } else {
        decimal(n / 10) + seq![digit_char(n % 10)]
    }
}

/// The upper-case hexadecimal digit for `d < 16`.
pub open spec fn hex_char(d: nat) -> char {
    if d < 10 {
        (('0' as u32) + d) as char
    } else {
        (('A' as u32) + (d - 10)) as char
    }
}

/// The `width` lowest hexadecimal digits of `n`, most significant first.
pub open spec fn hex_digits(n: nat, width: nat) -> Seq<char>
    decreases width,
{
    if width == 0 {
        Seq::empty()
    } else {
        hex_digits(n / 16, (width - 1) as nat) + seq![hex_char(n % 16)]
    }
}

/// `index_from` stays within `[i, s.len()]`.
pub proof fn lemma_index_from_bounds(s: Seq<char>, c: char, i: int)
    requires
        0 <= i <= s.len(),
    ensures
        i <= index_from(s, c, i) <= s.len(),
    decreases s.len() - i,
{
    if i < s.len() && s[i] != c {
        lemma_index_from_bounds(s, c, i + 1);
    }
}

/// `find_from` stays within `[i, s.len()]`, and a found occurrence fits in `s`.
pub proof fn lemma_find_from_bounds(s: Seq<char>, pat: Seq<char>, i: int)
    requires
        0 <= i <= s.len(),
    ensures
        i <= find_from(s, pat, i) <= s.len(),
        find_from(s, pat, i) < s.len() ==> find_from(s, pat, i) + pat.len() <= s.len(),
    decreases s.len() - i,
{
    if i < s.len() && !occurs_at(s, pat, i) {
        lemma_find_from_bounds(s, pat, i + 1);
    }
}

proof fn lemma_strip_start_step(s: Seq<char>, i: int, set: CharSet)
    requires
        0 <= i < s.len(),
        in_set(set, s[i]),
    ensures
        strip_start(s.subrange(i, s.len() as int), set) == strip_start(s.subrange(i + 1, s.len() as int), set),
{
    assert(s.subrange(i, s.len() as int).drop_first() =~= s.subrange(i + 1, s.len() as int));
}

proof fn lemma_strip_end_step(s: Seq<char>, lo: int, j: int, set: CharSet)
    requires
        0 <= lo < j <= s.len(),
        in_set(set, s[j - 1]),
    ensures
        strip_end(s.subrange(lo, j), set) == strip_end(s.subrange(lo, j - 1), set),
{
    assert(s.subrange(lo, j).drop_last() =~= s.subrange(lo, j - 1));
}

/// Whether `c` belongs to `set`.
pub fn set_contains(set: CharSet, c: char) -> (b: bool)
    ensures
        b == in_set(set, c),
{
    match set {
        CharSet::WhiteSpace => is_white_space(c),
        CharSet::Slash => c == '/',
        CharSet::SpaceOrNul => c == ' ' || c == '\0',
        CharSet::Quote => c == '"',
    }
}

/// Whether `c` has the Unicode `White_Space` property.
pub fn is_white_space(c: char) -> (b: bool)
    ensures
        b == white_space(c),
{
    let u = c as u32;
    (0x9 <= u && u <= 0xd) || u == 0x20 || u == 0x85 || u == 0xa0 || u == 0x1680 || (0x2000 <= u
        && u <= 0x200a) || u == 0x2028 || u == 0x2029 || u == 0x202f || u == 0x205f || u == 0x3000
}

/// The characters of `s`, in order.
pub fn chars_of(s: &str) -> (v: Vec<char>)
    ensures
        v@ == s@,
{
    let mut v: Vec<char> = Vec::new();
    for c in it: s.chars()
        invariant
            v@ == it.seq().subrange(0, it.index() as int),
    {
        v.push(c);
    }
    v
}

/// The characters of `s` from `from` up to (not including) `to`.
pub fn substring(s: &str, from: usize, to: usize) -> (r: String)
    requires
        from <= to <= s@.len(),
    ensures
        r@ == s@.subrange(from as int, to as int),
{
    s.substring_char(from, to).to_owned()
}

/// The bounds `(i, j)` such that `v[i..j]` is `v[lo..hi]` stripped of `set`
/// at the start (when `front`) and at the end (when `back`).
fn strip_bounds(v: &Vec<char>, lo: usize, hi: usize, set: CharSet, front: bool, back: bool) -> (b: (usize, usize))
    requires
        lo <= hi <= v@.len(),
    ensures
        lo <= b.0 <= b.1 <= hi,
        front && back ==> v@.subrange(b.0 as int, b.1 as int) == strip(v@.subrange(lo as int, hi as int), set),
        front && !back ==> v@.subrange(b.0 as int, b.1 as int) == strip_start(v@.subrange(lo as int, hi as int), set),
        !front && back ==> v@.subrange(b.0 as int, b.1 as int) == strip_end(v@.subrange(lo as int, hi as int), set),
        !front && !back ==> b.0 == lo && b.1 == hi,
{
    let ghost s = v@.subrange(lo as int, hi as int);
    let mut i = lo;
    if front {
        while i < hi && set_contains(set, v[i])
            invariant
                lo <= i <= hi,
                hi <= v@.len(),
                s == v@.subrange(lo as int, hi as int),
                strip_start(s, set) == strip_start(v@.subrange(i as int, hi as int), set),
            decreases hi - i,
        {
            proof {
                lemma_strip_start_step(v@.subrange(0, hi as int), i as int, set);
                assert(v@.subrange(0, hi as int).subrange(i as int, hi as int) =~= v@.subrange(i as int, hi as int));
                assert(v@.subrange(0, hi as int).subrange(i + 1, hi as int) =~= v@.subrange(i + 1, hi as int));
            }
            i = i + 1;
        }
        proof {
            let t = v@.subrange(i as int, hi as int);
            if t.len() > 0 {
                assert(t[0] == v@[i as int]);
            }
            assert(strip_start(t, set) == t);
        }
    }
    let mut j = hi;
    if back {
        while j > i && set_contains(set, v[j - 1])
            invariant
                lo <= i <= j <= hi,
                hi <= v@.len(),
                strip_end(v@.subrange(i as int, hi as int), set) == strip_end(v@.subrange(i as int, j as int), set),
            decreases j - i,
        {
            proof {
                lemma_strip_end_step(v@, i as int, j as int, set);
            }
            j = j - 1;
        }
        proof {
            let t = v@.subrange(i as int, j as int);
            if t.len() > 0 {
                assert(t.last() == v@[j - 1]);
            }
            assert(strip_end(t, set) == t);
        }
    }
    (i, j)
}

/// `s` with leading and trailing white space removed (`str::trim`).
pub fn trim(s: &str) -> (r: String)
    ensures
        r@ == trimmed(s@),
{
    let v = chars_of(s);
    let (i, j) = strip_bounds(&v, 0, v.len(), CharSet::WhiteSpace, true, true);
    assert(v@.subrange(0, v@.len() as int) =~= v@);
    substring(s, i, j)
}

/// `s` with every trailing character from `set` removed (`str::trim_end_matches`).
pub fn trim_end_matching(s: &str, set: CharSet) -> (r: String)
    ensures
        r@ == strip_end(s@, set),
{
    let v = chars_of(s);
    let (i, j) = strip_bounds(&v, 0, v.len(), set, false, true);
    assert(v@.subrange(0, v@.len() as int) =~= v@);
    substring(s, i, j)
}

/// `s` with every leading and trailing character from `set` removed
/// (`str::trim_matches`).
pub fn trim_matching(s: &str, set: CharSet) -> (r: String)
    ensures
        r@ == strip(s@, set),
{
    let v = chars_of(s);
    let (i, j) = strip_bounds(&v, 0, v.len(), set, true, true);
    assert(v@.subrange(0, v@.len() as int) =~= v@);
    substring(s, i, j)
}

/// The first index at or after `from` where `v` holds `c`, or `v.len()`.
pub fn index_of(v: &Vec<char>, c: char, from: usize) -> (i: usize)
    requires
        from <= v@.len(),
    ensures
        i as int == index_from(v@, c, from as int),
{
    let mut i = from;
    while i < v.len() && v[i] != c
        invariant
            from <= i <= v@.len(),
            index_from(v@, c, from as int) == index_from(v@, c, i as int),
        decreases v@.len() - i,
    {
        i = i + 1;
    }
    i
}

/// Whether `pat` occurs in `v` at `i`.
pub fn occurs_in_at(v: &Vec<char>, pat: &Vec<char>, i: usize) -> (b: bool)
    ensures
        b == occurs_at(v@, pat@, i as int),
{
    if i > v.len() || pat.len() > v.len() - i {
        return false;
    }
    let mut k: usize = 0;
    while k < pat.len()
        invariant
            k <= pat@.len(),
            i + pat@.len() <= v@.len(),
            v@.len() == v.len(),
            forall|m: int| 0 <= m < k ==> v@[i + m] == pat@[m],
        decreases pat@.len() - k,
    {
        assert(i + k < v@.len());
        if v[i + k] != pat[k] {
            assert(v@.subrange(i as int, i + pat@.len())[k as int] != pat@[k as int]);
            return false;
        }
        k = k + 1;
    }
    assert(v@.subrange(i as int, i + pat@.len()) =~= pat@);
    true
}

/// The first index at or after `from` where `pat` occurs in `v`, or `v.len()`.
pub fn find_in(v: &Vec<char>, pat: &Vec<char>, from: usize) -> (i: usize)
    requires
        from <= v@.len(),
    ensures
        i as int == find_from(v@, pat@, from as int),
{
    let mut i = from;
    while i < v.len() && !occurs_in_at(v, pat, i)
        invariant
            from <= i <= v@.len(),
            find_from(v@, pat@, from as int) == find_from(v@, pat@, i as int),
        decreases v@.len() - i,
    {
        i = i + 1;
    }
    i
}

/// The one-character text of the decimal digit `d`.
fn digit_text(d: usize) -> (t: &'static str)
    requires
        d < 10,
    ensures
        t@ == seq![digit_char(d as nat)],
{
    proof {
        reveal_strlit("0");
        reveal_strlit("1");
        reveal_strlit("2");
        reveal_strlit("3");
        reveal_strlit("4");
        reveal_strlit("5");
        reveal_strlit("6");
        reveal_strlit("7");
        reveal_strlit("8");
        reveal_strlit("9");
    }
    match d {
        0 => "0",
        1 => "1",
        2 => "2",
        3 => "3",
        4 => "4",
        5 => "5",
        6 => "6",
        7 => "7",
        8 => "8",
        _ => "9",
    }
}

/// The decimal rendering of `n` (`usize`'s `Display`).
pub fn decimal_text(n: usize) -> (t: String)
    ensures
        t@ == decimal(n as nat),
    decreases n,
{
    if n < 10 {
        digit_text(n).to_owned()
    } else {
        let mut t = decimal_text(n / 10);
        t.append(digit_text(n % 10));
        t
    }
}

/// The one-character text of the upper-case hexadecimal digit `d`.
fn hex_text(d: u32) -> (t: &'static str)
    requires
        d < 16,
    ensures
        t@ == seq![hex_char(d as nat)],
{
    if d < 10 {
        digit_text(d as usize)
    } else {
        proof {
            reveal_strlit("A");
            reveal_strlit("B");
            reveal_strlit("C");
            reveal_strlit("D");
            reveal_strlit("E");
            reveal_strlit("F");
        }
        match d {
            10 => "A",
            11 => "B",
            12 => "C",
            13 => "D",
            14 => "E",
            _ => "F",
        }
    }
}

/// The `width` lowest hexadecimal digits of `n`, upper case, most significant first.
pub fn hex_text_width(n: u32, width: u32) -> (t: String)
    ensures
        t@ == hex_digits(n as nat, width as nat),
    decreases width,
{
    if width == 0 {
        String::new()
    } else {
        let mut t = hex_text_width(n / 16, width - 1);
        t.append(hex_text(n % 16));
        t
    }
}

} // verus!
