//! Character-level text operations with exact specifications: searching,
//! trimming and splitting into lines, as `str` does them, over the
//! characters of a string.

use vstd::prelude::*;
use vstd::string::*;

verus! {

broadcast use vstd::string::group_string_axioms;

/// `Some(i)` as an integer, for results that are indices.
pub open spec fn opt_int(o: Option<usize>) -> Option<int> {
    match o {
        Some(i) => Some(i as int),
        None => None,
    }
}

/// `n` occurs in `h` starting at position `i`.
pub open spec fn matches_at(h: Seq<char>, n: Seq<char>, i: int) -> bool {
    0 <= i && i + n.len() <= h.len() && h.subrange(i, i + n.len()) == n
}

/// The first position `>= i` at which `n` occurs in `h`.
pub open spec fn find_from(h: Seq<char>, n: Seq<char>, i: int) -> Option<int>
    decreases h.len() + 1 - i,
{
    if i < 0 || i + n.len() > h.len() {
        None
    } else if matches_at(h, n, i) {
        Some(i)
    } else {
        find_from(h, n, i + 1)
    }
}

/// The first position at which `n` occurs in `h` (what `str::find` returns).
pub open spec fn spec_find(h: Seq<char>, n: Seq<char>) -> Option<int> {
    find_from(h, n, 0)
}

/// The last position `<= i` at which `n` occurs in `h`.
pub open spec fn rfind_from(h: Seq<char>, n: Seq<char>, i: int) -> Option<int>
    decreases i + 1,
{
    if i < 0 {
        None
    } else if matches_at(h, n, i) {
        Some(i)
    } else {
        rfind_from(h, n, i - 1)
    }
}

/// The last position at which `n` occurs in `h` (what `str::rfind` returns).
pub open spec fn spec_rfind(h: Seq<char>, n: Seq<char>) -> Option<int> {
    rfind_from(h, n, h.len() - n.len())
}

/// `h` begins with `p`.
pub open spec fn starts_with(h: Seq<char>, p: Seq<char>) -> bool {
    matches_at(h, p, 0)
}

/// `h` ends with `p`.
pub open spec fn ends_with(h: Seq<char>, p: Seq<char>) -> bool {
    matches_at(h, p, h.len() - p.len())
}

/// `n` occurs somewhere in `h`.
pub open spec fn contains(h: Seq<char>, n: Seq<char>) -> bool {
    spec_find(h, n) is Some
}

/// What `find_from` returns is a first occurrence.
pub proof fn lemma_find_from(h: Seq<char>, n: Seq<char>, i: int)
    requires
        0 <= i,
    ensures
        match find_from(h, n, i) {
            Some(j) => i <= j && matches_at(h, n, j) && forall|k: int|
                i <= k < j ==> !#[trigger] matches_at(h, n, k),
            None => forall|k: int| i <= k ==> !#[trigger] matches_at(h, n, k),
        },
    decreases h.len() + 1 - i,
{
    if i + n.len() > h.len() {
    } else if matches_at(h, n, i) {
    } else {
        lemma_find_from(h, n, i + 1);
    }
}

/// What `rfind_from` returns is a last occurrence.
pub proof fn lemma_rfind_from(h: Seq<char>, n: Seq<char>, i: int)
    ensures
        match rfind_from(h, n, i) {
            Some(j) => 0 <= j <= i && matches_at(h, n, j) && forall|k: int|
                j < k <= i ==> !#[trigger] matches_at(h, n, k),
            None => forall|k: int| k <= i ==> !#[trigger] matches_at(h, n, k),
        },
    decreases i + 1,
{
    if i < 0 {
    } else if matches_at(h, n, i) {
    } else {
        lemma_rfind_from(h, n, i - 1);
    }
}

/// The characters of `s`, in order.
pub fn chars_of(s: &str) -> (v: Vec<char>)
    ensures
        v@ == s@,
{
    let mut v: Vec<char> = Vec::new();
    for c in it: s.chars()
        invariant
            v@ == it.seq().take(it.index()),
            it.seq() == s@,
    {
        v.push(c);
    }
    v
}

/// Whether `n` occurs in `h` at position `i`.
pub fn matches_at_exec(h: &Vec<char>, n: &Vec<char>, i: usize) -> (r: bool)
    ensures
        r == matches_at(h@, n@, i as int),
{
    if i > h.len() || n.len() > h.len() - i {
        return false;
    }
    let mut k: usize = 0;
    while k < n.len()
        invariant
            0 <= k <= n.len(),
            i + n.len() <= h.len(),
            forall|j: int| 0 <= j < k ==> h@[i + j] == n@[j],
        decreases n.len() - k,
    {
        if h[i + k] != n[k] {
            assert(h@.subrange(i as int, i + n.len())[k as int] != n@[k as int]);
            return false;
        }
        k += 1;
    }
    assert(h@.subrange(i as int, i + n.len()) =~= n@);
    true
}

/// The first position `>= from` at which `n` occurs in `h`.
pub fn find_from_exec(h: &Vec<char>, n: &Vec<char>, from: usize) -> (r: Option<usize>)
    ensures
        opt_int(r) == find_from(h@, n@, from as int),
{
    if n.len() > h.len() || from > h.len() - n.len() {
        return None;
    }
    let mut i = from;
    while i <= h.len() - n.len()
        invariant
            from <= i,
            n.len() <= h.len(),
            find_from(h@, n@, from as int) == find_from(h@, n@, i as int),
        decreases h.len() - i,
    {
        if matches_at_exec(h, n, i) {
            return Some(i);
        }
        if i == h.len() - n.len() {
            assert(find_from(h@, n@, i + 1) == None::<int>);
            return None;
        }
        i += 1;
    }
    None
}

/// The first position at which `n` occurs in `h`.
pub fn find_exec(h: &Vec<char>, n: &Vec<char>) -> (r: Option<usize>)
    ensures
        opt_int(r) == spec_find(h@, n@),
{
    find_from_exec(h, n, 0)
}

/// The last position at which `n` occurs in `h`.
pub fn rfind_exec(h: &Vec<char>, n: &Vec<char>) -> (r: Option<usize>)
    ensures
        opt_int(r) == spec_rfind(h@, n@),
{
    if n.len() > h.len() {
        return None;
    }
    let mut i: usize = h.len() - n.len();
    loop
        invariant
            i <= h.len() - n.len(),
            n.len() <= h.len(),
            spec_rfind(h@, n@) == rfind_from(h@, n@, i as int),
        decreases i,
    {
        if matches_at_exec(h, n, i) {
            return Some(i);
        }
        if i == 0 {
            assert(rfind_from(h@, n@, -1) == None::<int>);
            return None;
        }
        i -= 1;
    }
}

/// Whether `n` occurs in `h`.
pub fn contains_exec(h: &Vec<char>, n: &Vec<char>) -> (r: bool)
    ensures
        r == contains(h@, n@),
{
    find_exec(h, n).is_some()
}

/// Whether `h` begins with `p`.
pub fn starts_with_exec(h: &Vec<char>, p: &Vec<char>) -> (r: bool)
    ensures
        r == starts_with(h@, p@),
{
    matches_at_exec(h, p, 0)
}

/// Whether `h` ends with `p`.
pub fn ends_with_exec(h: &Vec<char>, p: &Vec<char>) -> (r: bool)
    ensures
        r == ends_with(h@, p@),
{
    if p.len() > h.len() {
        return false;
    }
    matches_at_exec(h, p, h.len() - p.len())
}


/// `find_from` from `i` is `j` when `j` is the first match at or after `i`.
pub proof fn lemma_find_from_is(h: Seq<char>, n: Seq<char>, i: int, j: int)
    requires
        0 <= i <= j,
        matches_at(h, n, j),
        forall|k: int| i <= k < j ==> !#[trigger] matches_at(h, n, k),
    ensures
        find_from(h, n, i) == Some(j),
    decreases j - i,
{
    if i < j {
        assert(!matches_at(h, n, i));
        lemma_find_from_is(h, n, i + 1, j);
    }
}

/// `find_from` from `i` is `None` when nothing matches at or after `i`.
pub proof fn lemma_find_from_none(h: Seq<char>, n: Seq<char>, i: int)
    requires
        0 <= i,
        forall|k: int| i <= k ==> !#[trigger] matches_at(h, n, k),
    ensures
        find_from(h, n, i) == None::<int>,
    decreases h.len() + 1 - i,
{
    if i + n.len() <= h.len() {
        assert(!matches_at(h, n, i));
        lemma_find_from_none(h, n, i + 1);
    }
}

/// A one-character pattern matches exactly where that character stands.
pub proof fn lemma_matches_single(h: Seq<char>, c: char, j: int)
    ensures
        matches_at(h, seq![c], j) <==> (0 <= j < h.len() && h[j] == c),
{
    if 0 <= j < h.len() && h[j] == c {
        assert(h.subrange(j, j + 1) =~= seq![c]);
    }
    if matches_at(h, seq![c], j) {
        assert(h.subrange(j, j + 1)[0] == h[j]);
    }
}

/// The characters that `char::is_whitespace` accepts (Unicode White_Space).
pub open spec fn is_unicode_whitespace(c: char) -> bool {
    ||| c == '\u{9}'
    ||| c == '\u{A}'
    ||| c == '\u{B}'
    ||| c == '\u{C}'
    ||| c == '\u{D}'
    ||| c == '\u{20}'
    ||| c == '\u{85}'
    ||| c == '\u{A0}'
    ||| c == '\u{1680}'
    ||| c == '\u{2000}'
    ||| c == '\u{2001}'
    ||| c == '\u{2002}'
    ||| c == '\u{2003}'
    ||| c == '\u{2004}'
    ||| c == '\u{2005}'
    ||| c == '\u{2006}'
    ||| c == '\u{2007}'
    ||| c == '\u{2008}'
    ||| c == '\u{2009}'
    ||| c == '\u{200A}'
    ||| c == '\u{2028}'
    ||| c == '\u{2029}'
    ||| c == '\u{202F}'
    ||| c == '\u{205F}'
    ||| c == '\u{3000}'
}

/// Whether `c` is Unicode whitespace.
pub fn is_whitespace_exec(c: char) -> (r: bool)
    ensures
        r == is_unicode_whitespace(c),
{
    c == '\u{9}' || c == '\u{A}' || c == '\u{B}' || c == '\u{C}' || c == '\u{D}'
        || c == '\u{20}' || c == '\u{85}' || c == '\u{A0}' || c == '\u{1680}'
        || c == '\u{2000}' || c == '\u{2001}' || c == '\u{2002}' || c == '\u{2003}'
        || c == '\u{2004}' || c == '\u{2005}' || c == '\u{2006}' || c == '\u{2007}'
        || c == '\u{2008}' || c == '\u{2009}' || c == '\u{200A}' || c == '\u{2028}'
        || c == '\u{2029}' || c == '\u{202F}' || c == '\u{205F}' || c == '\u{3000}'
}

/// The characters a trim removes: whitespace (`trim`) or one given character
/// (`trim_matches(c)`).
#[derive(Clone, Copy)]
pub enum TrimSet {
    Whitespace,
    Char(char),
}

/// `c` belongs to the set `t`.
pub open spec fn in_trim_set(t: TrimSet, c: char) -> bool {
    match t {
        TrimSet::Whitespace => is_unicode_whitespace(c),
        TrimSet::Char(x) => c == x,
    }
}

/// `s` without its leading characters of `t`.
pub open spec fn trim_start_by(s: Seq<char>, t: TrimSet) -> Seq<char>
    decreases s.len(),
{
    if s.len() > 0 && in_trim_set(t, s[0]) {
        trim_start_by(s.drop_first(), t)
    } else {
        s
    }
}

/// `s` without its trailing characters of `t`.
pub open spec fn trim_end_by(s: Seq<char>, t: TrimSet) -> Seq<char>
    decreases s.len(),
{
    if s.len() > 0 && in_trim_set(t, s.last()) {
        trim_end_by(s.drop_last(), t)
    } else {
        s
    }
}

/// `s` without leading and trailing characters of `t`.
pub open spec fn trim_by(s: Seq<char>, t: TrimSet) -> Seq<char> {
    trim_end_by(trim_start_by(s, t), t)
}

/// `s` without leading and trailing whitespace (what `str::trim` returns).
pub open spec fn spec_trim(s: Seq<char>) -> Seq<char> {
    trim_by(s, TrimSet::Whitespace)
}

/// Whether `c` belongs to `t`.
pub fn in_trim_set_exec(t: TrimSet, c: char) -> (r: bool)
    ensures
        r == in_trim_set(t, c),
{
    match t {
        TrimSet::Whitespace => is_whitespace_exec(c),
        TrimSet::Char(x) => c == x,
    }
}

/// The start of `v[lo..hi]` once its leading characters of `t` are gone.
pub fn trim_start_index(v: &Vec<char>, lo: usize, hi: usize, t: TrimSet) -> (a: usize)
    requires
        lo <= hi <= v.len(),
    ensures
        lo <= a <= hi,
        v@.subrange(a as int, hi as int) == trim_start_by(v@.subrange(lo as int, hi as int), t),
{
    let mut a = lo;
    while a < hi && in_trim_set_exec(t, v[a])
        invariant
            lo <= a <= hi,
            hi <= v.len(),
            trim_start_by(v@.subrange(lo as int, hi as int), t) == trim_start_by(
                v@.subrange(a as int, hi as int),
                t,
            ),
        decreases hi - a,
    {
        assert(v@.subrange(a as int, hi as int).drop_first() =~= v@.subrange(
            a + 1,
            hi as int,
        ));
        a += 1;
    }
    a
}

/// The bounds of `v[lo..hi]` once leading and trailing characters of `t` are gone.
pub fn trim_range(v: &Vec<char>, lo: usize, hi: usize, t: TrimSet) -> (r: (usize, usize))
    requires
        lo <= hi <= v.len(),
    ensures
        lo <= r.0 <= r.1 <= hi,
        v@.subrange(r.0 as int, r.1 as int) == trim_by(v@.subrange(lo as int, hi as int), t),
{
    let a = trim_start_index(v, lo, hi, t);
    let mut b = hi;
    while b > a && in_trim_set_exec(t, v[b - 1])
        invariant
            lo <= a <= b <= hi,
            hi <= v.len(),
            trim_end_by(v@.subrange(a as int, hi as int), t) == trim_end_by(
                v@.subrange(a as int, b as int),
                t,
            ),
        decreases b - a,
    {
        assert(v@.subrange(a as int, b as int).drop_last() =~= v@.subrange(
            a as int,
            b - 1,
        ));
        b -= 1;
    }
    (a, b)
}

/// `s` without one trailing carriage return.
pub open spec fn strip_cr(s: Seq<char>) -> Seq<char> {
    if s.len() > 0 && s.last() == '\r' {
        s.drop_last()
    } else {
        s
    }
}

/// The lines of `s`, as `str::lines` gives them: split at `\n`, a `\r` before
/// the `\n` removed, and no empty line after a final line break.
pub open spec fn spec_lines(s: Seq<char>) -> Seq<Seq<char>>
    decreases s.len(),
{
    if s.len() == 0 {
        Seq::empty()
    } else {
        match spec_find(s, seq!['\n']) {
            Some(k) => if 0 <= k < s.len() {
                seq![strip_cr(s.subrange(0, k))] + spec_lines(s.subrange(k + 1, s.len() as int))
            } else {
                seq![s]
            },
            None => seq![s],
        }
    }
}

/// Where the line that starts at `pos` ends, and where the next one starts.
/// Returns (start, end, next): the line is `v[start..end]`.
pub fn next_line(v: &Vec<char>, pos: usize) -> (r: (usize, usize, usize))
    requires
        pos < v.len(),
    ensures
        pos <= r.0 <= r.1 <= r.2 <= v.len(),
        pos < r.2,
        spec_lines(v@.subrange(pos as int, v.len() as int)) == seq![
            v@.subrange(r.0 as int, r.1 as int),
        ] + spec_lines(v@.subrange(r.2 as int, v.len() as int)),
{
    let ghost s = v@.subrange(pos as int, v.len() as int);
    let ghost nl = seq!['\n'];
    let mut k = pos;
    while k < v.len() && v[k] != '\n'
        invariant
            pos <= k <= v.len(),
            s == v@.subrange(pos as int, v.len() as int),
            forall|j: int| pos <= j < k ==> v@[j] != '\n',
        decreases v.len() - k,
    {
        k += 1;
    }
    proof {
        assert forall|j: int| 0 <= j < k - pos implies !#[trigger] matches_at(s, nl, j) by {
            lemma_matches_single(s, '\n', j);
        }
    }
    if k < v.len() {
        proof {
            lemma_matches_single(s, '\n', (k - pos) as int);
            lemma_find_from_is(s, nl, 0, (k - pos) as int);
            assert(s.subrange(0, (k - pos) as int) =~= v@.subrange(pos as int, k as int));
            assert(s.subrange((k - pos) + 1, s.len() as int) =~= v@.subrange(
                k + 1,
                v.len() as int,
            ));
        }
        if k > pos && v[k - 1] == '\r' {
            proof {
                assert(v@.subrange(pos as int, k as int).drop_last() =~= v@.subrange(
                    pos as int,
                    k - 1,
                ));
            }
            (pos, k - 1, k + 1)
        } else {
            (pos, k, k + 1)
        }
    } else {
        proof {
            assert forall|j: int| 0 <= j implies !#[trigger] matches_at(s, nl, j) by {
                lemma_matches_single(s, '\n', j);
            }
            lemma_find_from_none(s, nl, 0);
            assert(v@.subrange(v.len() as int, v.len() as int) =~= Seq::<char>::empty());
        }
        (pos, v.len(), v.len())
    }
}


/// Appends the characters of `s` to `v`.
pub fn push_str(v: &mut Vec<char>, s: &str)
    ensures
        final(v)@ == old(v)@ + s@,
{
    let ghost start = v@;
    for c in it: s.chars()
        invariant
            v@ == start + it.seq().take(it.index()),
            it.seq() == s@,
    {
        v.push(c);
    }
    assert(s@.take(s@.len() as int) =~= s@);
}

/// Appends `w[lo..hi]` to `v`.
pub fn push_range(v: &mut Vec<char>, w: &Vec<char>, lo: usize, hi: usize)
    requires
        lo <= hi <= w.len(),
    ensures
        final(v)@ == old(v)@ + w@.subrange(lo as int, hi as int),
{
    let ghost start = v@;
    let mut i = lo;
    while i < hi
        invariant
            lo <= i <= hi,
            hi <= w.len(),
            v@ == start + w@.subrange(lo as int, i as int),
        decreases hi - i,
    {
        v.push(w[i]);
        assert(w@.subrange(lo as int, i + 1) =~= w@.subrange(lo as int, i as int).push(w@[i as int]));
        i += 1;
    }
}

/// The string made of the characters of `v` (`String: FromIterator<&char>`).
#[verifier::external_body]
pub(crate) fn string_from_chars(v: &Vec<char>) -> (s: String)
    ensures
        s@ == v@,
{
    v.iter().collect()
}

/// The string `v[lo..hi]`.
pub fn string_from_range(v: &Vec<char>, lo: usize, hi: usize) -> (s: String)
    requires
        lo <= hi <= v.len(),
    ensures
        s@ == v@.subrange(lo as int, hi as int),
{
    let mut w: Vec<char> = Vec::new();
    push_range(&mut w, v, lo, hi);
    proof {
        assert(Seq::<char>::empty() + v@.subrange(lo as int, hi as int) =~= v@.subrange(lo as int, hi as int));
    }
    string_from_chars(&w)
}

/// The decimal digit `d`.
pub open spec fn digit_char(d: int) -> char {
    if d == 0 {
        '0'
    } else if d == 1 {
        '1'
    } else if d == 2 {
        '2'
    } else if d == 3 {
        '3'
    } else if d == 4 {
        '4'
    } else if d == 5 {
        '5'
    } else if d == 6 {
        '6'
    } else if d == 7 {
        '7'
    } else if d == 8 {
        '8'
    } else {
        '9'
    }
}

/// `n` written in decimal, as `{}` formats an unsigned integer.
pub open spec fn spec_decimal(n: nat) -> Seq<char>
    decreases n,
{
    if n < 10 {
        seq![digit_char(n as int)]
    } else {
        spec_decimal(n / 10).push(digit_char((n % 10) as int))
    }
}

fn digit_exec(d: u64) -> (c: char)
    requires
        d < 10,
    ensures
        c == digit_char(d as int),
{
    if d == 0 {
        '0'
    } else if d == 1 {
        '1'
    } else if d == 2 {
        '2'
    } else if d == 3 {
        '3'
    } else if d == 4 {
        '4'
    } else if d == 5 {
        '5'
    } else if d == 6 {
        '6'
    } else if d == 7 {
        '7'
    } else if d == 8 {
        '8'
    } else {
        '9'
    }
}

/// Appends `n` in decimal to `v`.
pub fn push_decimal(v: &mut Vec<char>, n: u64)
    ensures
        final(v)@ == old(v)@ + spec_decimal(n as nat),
    decreases n,
{
    if n < 10 {
        v.push(digit_exec(n));
    } else {
        push_decimal(v, n / 10);
        v.push(digit_exec(n % 10));
    }
}


/// A copy of `v[lo..hi]`.
pub fn sub_vec(v: &Vec<char>, lo: usize, hi: usize) -> (w: Vec<char>)
    requires
        lo <= hi <= v.len(),
    ensures
        w@ == v@.subrange(lo as int, hi as int),
{
    let mut w: Vec<char> = Vec::new();
    push_range(&mut w, v, lo, hi);
    proof {
        assert(Seq::<char>::empty() + v@.subrange(lo as int, hi as int) =~= v@.subrange(lo as int, hi as int));
    }
    w
}


/// Whether two character vectors are equal.
pub fn chars_eq(a: &Vec<char>, b: &Vec<char>) -> (r: bool)
    ensures
        r == (a@ == b@),
{
    if a.len() != b.len() {
        return false;
    }
    let mut i: usize = 0;
    while i < a.len()
        invariant
            0 <= i <= a.len(),
            a.len() == b.len(),
            forall|j: int| 0 <= j < i ==> a@[j] == b@[j],
        decreases a.len() - i,
    {
        if a[i] != b[i] {
            return false;
        }
        i += 1;
    }
    assert(a@ =~= b@);
    true
}

/// Whether two strings are equal.
pub fn str_eq(a: &str, b: &str) -> (r: bool)
    ensures
        r == (a@ == b@),
{
    let x = chars_of(a);
    let y = chars_of(b);
    chars_eq(&x, &y)
}

/// The views of a sequence of strings.
pub open spec fn views_of(v: Seq<String>) -> Seq<Seq<char>> {
    v.map_values(|s: String| s@)
}

/// An ASCII decimal digit.
pub open spec fn is_digit(c: char) -> bool {
    '0' as u32 <= c as u32 && c as u32 <= '9' as u32
}

/// Every character of `s` is a decimal digit.
pub open spec fn all_digits(s: Seq<char>) -> bool {
    forall|i: int| 0 <= i < s.len() ==> is_digit(#[trigger] s[i])
}

/// The value of the decimal digits `s`.
pub open spec fn digits_value(s: Seq<char>) -> nat
    decreases s.len(),
{
    if s.len() == 0 {
        0
    } else {
        digits_value(s.drop_last()) * 10 + ((s.last() as u32) - ('0' as u32)) as nat
    }
}

/// What `str::parse::<u32>` gives: an optional `+`, then at least one
/// decimal digit, with a value that fits in 32 bits.
pub open spec fn spec_parse_u32(s: Seq<char>) -> Option<u32> {
    let d = if s.len() > 0 && s[0] == '+' {
        s.drop_first()
    } else {
        s
    };
    if d.len() > 0 && all_digits(d) && digits_value(d) <= u32::MAX {
        Some(digits_value(d) as u32)
    } else {
        None
    }
}

/// More digits never make a smaller value.
pub proof fn lemma_digits_value_grows(s: Seq<char>, k: int)
    requires
        0 <= k <= s.len(),
        all_digits(s),
    ensures
        digits_value(s.take(k)) <= digits_value(s),
    decreases s.len(),
{
    if k < s.len() {
        assert(s.drop_last().take(k) =~= s.take(k));
        lemma_digits_value_grows(s.drop_last(), k);
    } else {
        assert(s.take(k) =~= s);
    }
}

/// Parses `v[lo..hi]` as `str::parse::<u32>` does.
pub fn parse_u32(v: &Vec<char>, lo: usize, hi: usize) -> (r: Option<u32>)
    requires
        lo <= hi <= v.len(),
    ensures
        r == spec_parse_u32(v@.subrange(lo as int, hi as int)),
{
    let ghost s = v@.subrange(lo as int, hi as int);
    let mut i = lo;
    if i < hi && v[i] == '+' {
        i = i + 1;
    }
    let ghost d = v@.subrange(i as int, hi as int);
    proof {
        if s.len() > 0 && s[0] == '+' {
            assert(d =~= s.drop_first());
        } else {
            assert(d =~= s);
        }
    }
    if i == hi {
        return None;
    }
    let start = i;
    let mut acc: u64 = 0;
    while i < hi
        invariant
            lo <= start <= i <= hi <= v.len(),
            d == v@.subrange(start as int, hi as int),
            s == v@.subrange(lo as int, hi as int),
            d.len() > 0,
            d == (if s.len() > 0 && s[0] == '+' {
                s.drop_first()
            } else {
                s
            }),
            all_digits(v@.subrange(start as int, i as int)),
            acc == digits_value(v@.subrange(start as int, i as int)),
            acc <= u32::MAX,
        decreases hi - i,
    {
        let c = v[i];
        let code = c as u32;
        if code < '0' as u32 || code > '9' as u32 {
            proof {
                assert(d[i - start] == c);
                assert(!is_digit(d[i - start]));
            }
            return None;
        }
        let next = acc * 10 + (code - '0' as u32) as u64;
        proof {
            let p = v@.subrange(start as int, i + 1);
            assert(p.drop_last() =~= v@.subrange(start as int, i as int));
            assert(p.last() == c);
        }
        if next > u32::MAX as u64 {
            proof {
                let p = v@.subrange(start as int, i + 1);
                if all_digits(d) {
                    assert(d.take(i + 1 - start) =~= p);
                    lemma_digits_value_grows(d, i + 1 - start);
                }
            }
            return None;
        }
        acc = next;
        i = i + 1;
    }
    Some(acc as u32)
}

} // verus!
