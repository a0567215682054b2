//! Character-level text utilities used across the library.
//!
//! Text is handled as sequences of Unicode scalar values (`Seq<char>`),
//! which is what the view of `str` and `String` gives.

use vstd::prelude::*;

verus! {

/// The Unicode `White_Space` property, which is what `char::is_whitespace`
/// tests for.
pub open spec fn is_white_space(c: char) -> bool {
    let u = c as u32;
    ||| 0x09 <= u <= 0x0D
    ||| u == 0x20
    ||| u == 0x85
    ||| u == 0xA0
    ||| u == 0x1680
    ||| 0x2000 <= u <= 0x200A
    ||| u == 0x2028
    ||| u == 0x2029
    ||| u == 0x202F
    ||| u == 0x205F
    ||| u == 0x3000
}

/// `char::is_whitespace`: true exactly for the characters that carry the
/// Unicode `White_Space` property, as its documentation states.
#[verifier::external_body]
pub(crate) fn char_is_whitespace(c: char) -> (b: bool)
    ensures
        b == is_white_space(c),
{
    c.is_whitespace()
}

/// `char::to_ascii_lowercase`.
pub open spec fn ascii_lower(c: char) -> char {
    if 'A' <= c <= 'Z' {
        ((c as u32) + 32) as char
    } else {
        c
    }
}

/// `char::to_ascii_uppercase`.
pub open spec fn ascii_upper(c: char) -> char {
    if 'a' <= c <= 'z' {
        ((c as u32) - 32) as char
    } else {
        c
    }
}

/// Every character is ASCII.
pub open spec fn all_ascii(s: Seq<char>) -> bool {
    forall|i: int| 0 <= i < s.len() ==> (#[trigger] s[i] as u32) < 128
}

/// `str::to_ascii_lowercase`.
pub open spec fn ascii_lower_seq(s: Seq<char>) -> Seq<char> {
    s.map_values(|c: char| ascii_lower(c))
}

/// `str::to_ascii_uppercase`.
pub open spec fn ascii_upper_seq(s: Seq<char>) -> Seq<char> {
    s.map_values(|c: char| ascii_upper(c))
}

/// Collects characters into a `String` (`FromIterator<&char> for String`):
/// the string holds exactly those characters, in order.
#[verifier::external_body]
pub(crate) fn string_from_chars(v: &Vec<char>) -> (s: String)
    ensures
        s@ == v@,
{
    v.iter().collect()
}

/// The characters of `s`, in order.
pub fn chars_of(s: &str) -> (v: Vec<char>)
    ensures
        v@ == s@,
{
    let n = s.unicode_len();
    let mut v: Vec<char> = Vec::new();
    let mut i: usize = 0;
    while i < n
        invariant
            n == s@.len(),
            i <= n,
            v@ == s@.subrange(0, i as int),
        decreases n - i,
    {
        let c = s.get_char(i);
        v.push(c);
        i = i + 1;
    }
    v
}

/// Index of the first character at or after `i` that is not white space
/// (the length when there is none).
pub open spec fn ws_skip_from(s: Seq<char>, i: int) -> int
    decreases s.len() - i,
{
    if 0 <= i < s.len() && is_white_space(s[i]) {
        ws_skip_from(s, i + 1)
    } else {
        i
    }
}

/// End of `s[lo..j]` once trailing white space is removed.
pub open spec fn ws_end_from(s: Seq<char>, lo: int, j: int) -> int
    decreases j - lo,
{
    if lo < j && j <= s.len() && is_white_space(s[j - 1]) {
        ws_end_from(s, lo, j - 1)
    } else {
        j
    }
}

/// `str::trim`: `s` without leading and trailing white space.
pub open spec fn trim_seq(s: Seq<char>) -> Seq<char> {
    let a = ws_skip_from(s, 0);
    s.subrange(a, ws_end_from(s, a, s.len() as int))
}

/// Skipping white space from `i` stops within the text, after white space
/// only, at a character that is not white space (or at the end).
pub proof fn lemma_ws_skip_bounds(s: Seq<char>, i: int)
    requires
        0 <= i <= s.len(),
    ensures
        i <= ws_skip_from(s, i) <= s.len(),
        forall|k: int| i <= k < ws_skip_from(s, i) ==> is_white_space(#[trigger] s[k]),
        ws_skip_from(s, i) < s.len() ==> !is_white_space(s[ws_skip_from(s, i)]),
    decreases s.len() - i,
{
    if i < s.len() && is_white_space(s[i]) {
        lemma_ws_skip_bounds(s, i + 1);
    }
}

/// Dropping trailing white space before `j` stops no earlier than `lo`,
/// after a character that is not white space (or at `lo`).
pub proof fn lemma_ws_end_bounds(s: Seq<char>, lo: int, j: int)
    requires
        0 <= lo <= j <= s.len(),
    ensures
        lo <= ws_end_from(s, lo, j) <= j,
        forall|k: int| ws_end_from(s, lo, j) <= k < j ==> is_white_space(#[trigger] s[k]),
        ws_end_from(s, lo, j) > lo ==> !is_white_space(s[ws_end_from(s, lo, j) - 1]),
    decreases j - lo,
{
    if lo < j && is_white_space(s[j - 1]) {
        lemma_ws_end_bounds(s, lo, j - 1);
    }
}

/// Bounds of the trimmed part of `v`.
pub fn trim_bounds(v: &Vec<char>) -> (r: (usize, usize))
    ensures
        r.0 == ws_skip_from(v@, 0),
        r.1 == ws_end_from(v@, r.0 as int, v@.len() as int),
        r.0 <= r.1 <= v@.len(),
        trim_seq(v@) == v@.subrange(r.0 as int, r.1 as int),
{
    let n = v.len();
    let mut a: usize = 0;
    while a < n && char_is_whitespace(v[a])
        invariant
            n == v@.len(),
            a <= n,
            ws_skip_from(v@, a as int) == ws_skip_from(v@, 0),
        decreases n - a,
    {
        a = a + 1;
    }
    let mut b: usize = n;
    while b > a && char_is_whitespace(v[b - 1])
        invariant
            n == v@.len(),
            a <= b <= n,
            a == ws_skip_from(v@, 0),
            ws_end_from(v@, a as int, b as int) == ws_end_from(v@, a as int, n as int),
        decreases b - a,
    {
        b = b - 1;
    }
    (a, b)
}

/// A copy of `v[a..b]`.
pub fn slice_chars(v: &Vec<char>, a: usize, b: usize) -> (r: Vec<char>)
    requires
        a <= b <= v@.len(),
    ensures
        r@ == v@.subrange(a as int, b as int),
{
    let mut r: Vec<char> = Vec::new();
    let mut i: usize = a;
    while i < b
        invariant
            a <= i <= b <= v@.len(),
            r@ == v@.subrange(a as int, i as int),
        decreases b - i,
    {
        r.push(v[i]);
        i = i + 1;
    }
    r
}

/// `str::trim` on a character vector.
pub fn trim_chars(v: &Vec<char>) -> (r: Vec<char>)
    ensures
        r@ == trim_seq(v@),
{
    let (a, b) = trim_bounds(v);
    slice_chars(v, a, b)
}

/// `str::trim`: the text without leading and trailing white space.
pub fn trim(s: &str) -> (r: String)
    ensures
        r@ == trim_seq(s@),
{
    let v = chars_of(s);
    let t = trim_chars(&v);
    string_from_chars(&t)
}

/// Appends all of `src` to `dst`.
pub fn push_all(dst: &mut Vec<char>, src: &Vec<char>)
    ensures
        final(dst)@ == old(dst)@ + src@,
{
    let ghost start = dst@;
    let mut i: usize = 0;
    while i < src.len()
        invariant
            i <= src@.len(),
            dst@ == start + src@.subrange(0, i as int),
        decreases src@.len() - i,
    {
        dst.push(src[i]);
        i = i + 1;
    }
    assert(src@.subrange(0, src@.len() as int) =~= src@);
}

/// Appends the characters of `s` to `dst`.
pub fn push_str(dst: &mut Vec<char>, s: &str)
    ensures
        final(dst)@ == old(dst)@ + s@,
{
    let v = chars_of(s);
    push_all(dst, &v);
}

/// Whether two character sequences are equal.
pub fn chars_equal(a: &Vec<char>, b: &Vec<char>) -> (r: bool)
    ensures
        r == (a@ == b@),
{
    if a.len() != b.len() {
        return false;
    }
    let mut i: usize = 0;
    while i < a.len()
        invariant
            a@.len() == b@.len(),
            i <= a@.len(),
            forall|k: int| 0 <= k < i ==> a@[k] == b@[k],
        decreases a@.len() - i,
    {
        if a[i] != b[i] {
            return false;
        }
        i = i + 1;
    }
    assert(a@ =~= b@);
    true
}

/// Whether two strings hold the same characters.
pub fn str_equal(a: &str, b: &str) -> (r: bool)
    ensures
        r == (a@ == b@),
{
    let va = chars_of(a);
    let vb = chars_of(b);
    chars_equal(&va, &vb)
}

/// `pat` occurs in `s` starting at position `i`.
pub open spec fn matches_at(s: Seq<char>, pat: Seq<char>, i: int) -> bool {
    0 <= i && i + pat.len() <= s.len() && s.subrange(i, i + pat.len()) == pat
}

/// `str::starts_with`.
pub open spec fn starts_with_seq(s: Seq<char>, pat: Seq<char>) -> bool {
    matches_at(s, pat, 0)
}

/// `str::ends_with`.
pub open spec fn ends_with_seq(s: Seq<char>, pat: Seq<char>) -> bool {
    pat.len() <= s.len() && matches_at(s, pat, s.len() - pat.len())
}

/// `str::contains`.
pub open spec fn contains_seq(s: Seq<char>, pat: Seq<char>) -> bool {
    exists|i: int| matches_at(s, pat, i)
}

/// `str::find`: the first position where `pat` occurs in `s`.
pub open spec fn find_seq(s: Seq<char>, pat: Seq<char>) -> Option<int> {
    if contains_seq(s, pat) {
        Some(choose|i: int| matches_at(s, pat, i) && forall|j: int| 0 <= j < i ==> !matches_at(s, pat, j))
    } else {
        None
    }
}

/// Whether `pat` occurs in `s` at position `i`.
pub fn matches_at_exec(s: &Vec<char>, pat: &Vec<char>, i: usize) -> (r: bool)
    ensures
        r == matches_at(s@, pat@, i as int),
{
    if pat.len() > s.len() || i > s.len() - pat.len() {
        return false;
    }
    let mut k: usize = 0;
    while k < pat.len()
        invariant
            i + pat@.len() <= s@.len(),
            s@.len() == s.len(),
            k <= pat@.len(),
            forall|m: int| 0 <= m < k ==> s@[i + m] == pat@[m],
        decreases pat@.len() - k,
    {
        if s[i + k] != pat[k] {
            assert(s@.subrange(i as int, i + pat@.len())[k as int] != pat@[k as int]);
            return false;
        }
        k = k + 1;
    }
    assert(s@.subrange(i as int, i + pat@.len()) =~= pat@);
    true
}

/// `str::starts_with`.
pub fn starts_with(s: &Vec<char>, pat: &Vec<char>) -> (r: bool)
    ensures
        r == starts_with_seq(s@, pat@),
{
    matches_at_exec(s, pat, 0)
}

/// `str::ends_with`.
pub fn ends_with(s: &Vec<char>, pat: &Vec<char>) -> (r: bool)
    ensures
        r == ends_with_seq(s@, pat@),
{
    if pat.len() > s.len() {
        return false;
    }
    matches_at_exec(s, pat, s.len() - pat.len())
}

proof fn lemma_find_seq_first(s: Seq<char>, pat: Seq<char>, i: int)
    requires
        matches_at(s, pat, i),
        forall|j: int| 0 <= j < i ==> !matches_at(s, pat, j),
    ensures
        find_seq(s, pat) == Some(i),
{
    assert(contains_seq(s, pat));
    let c = choose|k: int| matches_at(s, pat, k) && forall|j: int| 0 <= j < k ==> !matches_at(s, pat, j);
    assert(matches_at(s, pat, c) && forall|j: int| 0 <= j < c ==> !matches_at(s, pat, j));
    if c < i {
        assert(!matches_at(s, pat, c));
    } else if c > i {
        assert(!matches_at(s, pat, i));
    }
}

proof fn lemma_no_match(s: Seq<char>, pat: Seq<char>, upto: int)
    requires
        upto + pat.len() > s.len(),
        forall|j: int| 0 <= j < upto ==> !matches_at(s, pat, j),
    ensures
        !contains_seq(s, pat),
        find_seq(s, pat) is None,
{
    assert forall|j: int| !matches_at(s, pat, j) by {
        if matches_at(s, pat, j) {
            if j >= upto {
                assert(j + pat.len() <= s.len());
                if pat.len() == 0 {
                }
            }
        }
    }
}

/// `str::find`: the first position where `pat` occurs in `s`.
pub fn find(s: &Vec<char>, pat: &Vec<char>) -> (r: Option<usize>)
    ensures
        r matches Some(i) ==> find_seq(s@, pat@) == Some(i as int),
        r is None ==> find_seq(s@, pat@) is None,
        r matches Some(i) ==> matches_at(s@, pat@, i as int),
        r is None ==> !contains_seq(s@, pat@),
{
    if pat.len() > s.len() {
        proof {
            lemma_no_match(s@, pat@, 0);
        }
        return None;
    }
    let last = s.len() - pat.len();
    let mut i: usize = 0;
    loop
        invariant
            i <= last,
            last + pat@.len() == s@.len(),
            forall|j: int| 0 <= j < i ==> !matches_at(s@, pat@, j),
        decreases last - i,
    {
        if matches_at_exec(s, pat, i) {
            proof {
                lemma_find_seq_first(s@, pat@, i as int);
            }
            return Some(i);
        }
        if i == last {
            proof {
                lemma_no_match(s@, pat@, i + 1);
            }
            return None;
        }
        i = i + 1;
    }
}


/// `find_seq` returns the first position where the pattern occurs.
pub proof fn lemma_find_seq_bounds(s: Seq<char>, pat: Seq<char>)
    ensures
        find_seq(s, pat) matches Some(i) ==> matches_at(s, pat, i),
        find_seq(s, pat) matches Some(i) ==> forall|j: int| 0 <= j < i ==> !matches_at(s, pat, j),
{
    if contains_seq(s, pat) {
        let w = choose|i: int| matches_at(s, pat, i);
        lemma_first_match_exists(s, pat, w);
    }
}

/// If the pattern occurs somewhere, there is a first occurrence.
pub proof fn lemma_first_match_exists(s: Seq<char>, pat: Seq<char>, w: int)
    requires
        matches_at(s, pat, w),
    ensures
        exists|i: int| matches_at(s, pat, i) && forall|j: int| 0 <= j < i ==> !matches_at(s, pat, j),
    decreases w,
{
    if exists|j: int| 0 <= j < w && matches_at(s, pat, j) {
        let j = choose|j: int| 0 <= j < w && matches_at(s, pat, j);
        lemma_first_match_exists(s, pat, j);
    } else {
        assert(matches_at(s, pat, w) && forall|j: int| 0 <= j < w ==> !matches_at(s, pat, j));
    }
}

/// `str::split` with a non-empty string separator: the pieces between
/// successive non-overlapping occurrences of `sep`, scanning from the left.
pub open spec fn split_seq(s: Seq<char>, sep: Seq<char>) -> Seq<Seq<char>>
    decreases s.len(),
{
    if sep.len() == 0 {
        seq![s]
    } else {
        match find_seq(s, sep) {
            Some(i) => {
                proof {
                    lemma_find_seq_bounds(s, sep);
                }
                seq![s.subrange(0, i)] + split_seq(s.subrange(i + sep.len(), s.len() as int), sep)
            },
            None => seq![s],
        }
    }
}

/// The views of a vector of character vectors.
pub open spec fn views(v: Seq<Vec<char>>) -> Seq<Seq<char>> {
    v.map_values(|p: Vec<char>| p@)
}

/// `str::split` with a non-empty string separator.
pub fn split(s: &Vec<char>, sep: &Vec<char>) -> (parts: Vec<Vec<char>>)
    requires
        sep@.len() > 0,
    ensures
        views(parts@) == split_seq(s@, sep@),
        parts@.len() >= 1,
{
    let mut parts: Vec<Vec<char>> = Vec::new();
    let mut rest: Vec<char> = slice_chars(s, 0, s.len());
    assert(rest@ =~= s@);
    loop
        invariant
            sep@.len() > 0,
            split_seq(s@, sep@) == views(parts@) + split_seq(rest@, sep@),
        decreases rest@.len(),
    {
        match find(&rest, sep) {
            Some(i) => {
                proof {
                    lemma_find_seq_bounds(rest@, sep@);
                }
                let n = rest.len();
                assert(i + sep@.len() <= n);
                let head = slice_chars(&rest, 0, i);
                let tail = slice_chars(&rest, i + sep.len(), n);
                let ghost old_parts = parts@;
                proof {
                    assert(split_seq(rest@, sep@) == seq![head@] + split_seq(tail@, sep@));
                }
                parts.push(head);
                proof {
                    assert(views(parts@) =~= views(old_parts) + seq![head@]);
                    assert(views(old_parts) + split_seq(rest@, sep@) =~= views(parts@)
                        + split_seq(tail@, sep@));
                }
                rest = tail;
            },
            None => {
                let ghost old_parts = parts@;
                assert(split_seq(rest@, sep@) == seq![rest@]);
                parts.push(rest);
                assert(views(parts@) =~= views(old_parts) + split_seq(rest@, sep@));
                return parts;
            },
        }
    }
}

/// `str::contains`.
pub fn contains(s: &Vec<char>, pat: &Vec<char>) -> (r: bool)
    ensures
        r == contains_seq(s@, pat@),
{
    match find(s, pat) {
        Some(_) => true,
        None => false,
    }
}

/// The decimal digit character for `d` (below ten).
pub open spec fn digit_char(d: int) -> char {
    if d == 0 {
        '0'
    } else if d == 1 {
        '1'
    } else if d == 2 {
        '2'
    } else if d == 3 {
        '3'
    } else if d == 4 {
        '4'
    } else if d == 5 {
        '5'
    } else if d == 6 {
        '6'
    } else if d == 7 {
        '7'
    } else if d == 8 {
        '8'
    } else {
        '9'
    }
}

/// The decimal notation of a natural number, as `Display` writes it.
pub open spec fn decimal(n: nat) -> Seq<char>
    decreases n,
{
    if n < 10 {
        seq![digit_char(n as int)]
    } else {
        decimal(n / 10).push(digit_char((n % 10) as int))
    }
}

/// The decimal notation of an integer, with a leading `-` for negatives.
pub open spec fn signed_decimal(i: int) -> Seq<char> {
    if i < 0 {
        seq!['-'] + decimal((-i) as nat)
    } else {
        decimal(i as nat)
    }
}

fn digit(d: u64) -> (c: char)
    requires
        d < 10,
    ensures
        c == digit_char(d as int),
{
    if d == 0 {
        '0'
    } else if d == 1 {
        '1'
    } else if d == 2 {
        '2'
    } else if d == 3 {
        '3'
    } else if d == 4 {
        '4'
    } else if d == 5 {
        '5'
    } else if d == 6 {
        '6'
    } else if d == 7 {
        '7'
    } else if d == 8 {
        '8'
    } else {
        '9'
    }
}

/// The decimal digits of `n`.
pub fn decimal_chars(n: u64) -> (r: Vec<char>)
    ensures
        r@ == decimal(n as nat),
{
    let mut m: u64 = n;
    let mut r: Vec<char> = Vec::new();
    while m >= 10
        invariant
            decimal(n as nat) == decimal(m as nat) + r@,
        decreases m,
    {
        let d = m % 10;
        let ghost old_r = r@;
        r.insert(0, digit(d));
        proof {
            assert(decimal(m as nat) == decimal((m / 10) as nat).push(digit_char(d as int)));
            assert(decimal((m / 10) as nat).push(digit_char(d as int)) + old_r =~= decimal(
                (m / 10) as nat,
            ) + r@);
        }
        m = m / 10;
    }
    let ghost old_r = r@;
    r.insert(0, digit(m));
    assert(decimal(m as nat) =~= seq![digit_char(m as int)]);
    assert(decimal(n as nat) =~= r@);
    r
}

/// `u64::to_string`.
pub fn u64_to_string(n: u64) -> (s: String)
    ensures
        s@ == decimal(n as nat),
{
    let v = decimal_chars(n);
    string_from_chars(&v)
}

/// `i64::to_string`.
pub fn i64_to_string(i: i64) -> (s: String)
    ensures
        s@ == signed_decimal(i as int),
{
    if i < 0 {
        let m: u64 = if i == i64::MIN {
            9223372036854775808u64
        } else {
            (-i) as u64
        };
        let mut v: Vec<char> = Vec::new();
        v.push('-');
        let d = decimal_chars(m);
        push_all(&mut v, &d);
        assert(v@ =~= seq!['-'] + decimal((-(i as int)) as nat));
        string_from_chars(&v)
    } else {
        u64_to_string(i as u64)
    }
}

} // verus!
