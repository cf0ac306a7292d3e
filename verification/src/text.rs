//! Character-level text utilities with exact specifications over `Seq<char>`.
//!
//! Strings are handled as sequences of Unicode scalar values; every helper
//! states its result over the views of its arguments.

use vstd::prelude::*;

verus! {

// ---------------------------------------------------------------------------
// Character classes
// ---------------------------------------------------------------------------

/// Unicode `White_Space`, the class used by `char::is_whitespace` and `str::trim`.
pub open spec fn is_ws(c: char) -> bool {
    let u = c as u32;
    (0x9 <= u && u <= 0xd) || u == 0x20 || u == 0x85 || u == 0xa0 || u == 0x1680
        || (0x2000 <= u && u <= 0x200a) || u == 0x2028 || u == 0x2029 || u == 0x202f
        || u == 0x205f || u == 0x3000
}

/// ASCII whitespace as `char::is_ascii_whitespace` defines it (no vertical tab).
pub open spec fn is_ascii_ws(c: char) -> bool {
    let u = c as u32;
    u == 0x20 || u == 0x9 || u == 0xa || u == 0xc || u == 0xd
}

/// The `Cc` general category, as `char::is_control` defines it.
pub open spec fn is_control(c: char) -> bool {
    let u = c as u32;
    u <= 0x1f || (0x7f <= u && u <= 0x9f)
}

pub open spec fn is_digit(c: char) -> bool {
    '0' <= c && c <= '9'
}

pub open spec fn is_hex_digit(c: char) -> bool {
    ('0' <= c && c <= '9') || ('a' <= c && c <= 'f') || ('A' <= c && c <= 'F')
}

pub open spec fn hex_value(c: char) -> int {
    if '0' <= c && c <= '9' {
        c as int - '0' as int
    } else if 'a' <= c && c <= 'f' {
        c as int - 'a' as int + 10
    } else {
        c as int - 'A' as int + 10
    }
}

/// ASCII upper-casing of one character, as `char::to_ascii_uppercase`.
pub open spec fn upper(c: char) -> char {
    if 'a' <= c && c <= 'z' {
        ((c as u32) - 32) as char
    } else {
        c
    }
}

/// ASCII lower-casing of one character, as `char::to_ascii_lowercase`.
pub open spec fn lower(c: char) -> char {
    if 'A' <= c && c <= 'Z' {
        ((c as u32) + 32) as char
    } else {
        c
    }
}

pub fn ws(c: char) -> (r: bool)
    ensures
        r == is_ws(c),
{
    let u = c as u32;
    (0x9 <= u && u <= 0xd) || u == 0x20 || u == 0x85 || u == 0xa0 || u == 0x1680 || (0x2000
        <= u && u <= 0x200a) || u == 0x2028 || u == 0x2029 || u == 0x202f || u == 0x205f || u
        == 0x3000
}

pub fn ascii_ws(c: char) -> (r: bool)
    ensures
        r == is_ascii_ws(c),
{
    let u = c as u32;
    u == 0x20 || u == 0x9 || u == 0xa || u == 0xc || u == 0xd
}

pub fn control(c: char) -> (r: bool)
    ensures
        r == is_control(c),
{
    let u = c as u32;
    u <= 0x1f || (0x7f <= u && u <= 0x9f)
}

pub fn digit(c: char) -> (r: bool)
    ensures
        r == is_digit(c),
{
    '0' <= c && c <= '9'
}

pub fn hex_digit_value(c: char) -> (r: Option<u8>)
    ensures
        r is Some <==> is_hex_digit(c),
        r matches Some(v) ==> v as int == hex_value(c) && v < 16,
{
    if '0' <= c && c <= '9' {
        Some(((c as u32) - ('0' as u32)) as u8)
    } else if 'a' <= c && c <= 'f' {
        Some(((c as u32) - ('a' as u32) + 10) as u8)
    } else if 'A' <= c && c <= 'F' {
        Some(((c as u32) - ('A' as u32) + 10) as u8)
    } else {
        None
    }
}

pub fn to_upper(c: char) -> (r: char)
    ensures
        r == upper(c),
{
    if 'a' <= c && c <= 'z' {
        let u = (c as u32) - 32;
        char_of_ascii(u)
    } else {
        c
    }
}

pub fn to_lower(c: char) -> (r: char)
    ensures
        r == lower(c),
{
    if 'A' <= c && c <= 'Z' {
        let u = (c as u32) + 32;
        char_of_ascii(u)
    } else {
        c
    }
}

/// The character of an ASCII code.
fn char_of_ascii(u: u32) -> (c: char)
    requires
        u < 128,
    ensures
        c as u32 == u,
{
    (u as u8) as char
}

// ---------------------------------------------------------------------------
// Sequence predicates
// ---------------------------------------------------------------------------

pub open spec fn starts_with(s: Seq<char>, p: Seq<char>) -> bool {
    p.len() <= s.len() && s.subrange(0, p.len() as int) == p
}

pub open spec fn ends_with(s: Seq<char>, p: Seq<char>) -> bool {
    p.len() <= s.len() && s.subrange(s.len() - p.len(), s.len() as int) == p
}

pub open spec fn occurs_at(s: Seq<char>, p: Seq<char>, i: int) -> bool {
    0 <= i && i + p.len() <= s.len() && s.subrange(i, i + p.len()) == p
}

/// `p` occurs somewhere in `s` (as `str::contains` with a string pattern).
pub open spec fn contains(s: Seq<char>, p: Seq<char>) -> bool {
    exists|i: int| occurs_at(s, p, i)
}

pub open spec fn has_char(s: Seq<char>, c: char) -> bool {
    exists|i: int| 0 <= i < s.len() && s[i] == c
}

pub open spec fn all_digits(s: Seq<char>) -> bool {
    forall|i: int| 0 <= i < s.len() ==> is_digit(#[trigger] s[i])
}

pub open spec fn map_upper(s: Seq<char>) -> Seq<char> {
    s.map_values(|c: char| upper(c))
}

pub open spec fn map_lower(s: Seq<char>) -> Seq<char> {
    s.map_values(|c: char| lower(c))
}

/// `s` with leading Unicode whitespace removed (`str::trim_start`).
pub open spec fn trim_start(s: Seq<char>) -> Seq<char>
    decreases s.len(),
{
    if s.len() > 0 && is_ws(s[0]) {
        trim_start(s.drop_first())
    } else {
        s
    }
}

/// `s` with trailing Unicode whitespace removed (`str::trim_end`).
pub open spec fn trim_end(s: Seq<char>) -> Seq<char>
    decreases s.len(),
{
    if s.len() > 0 && is_ws(s.last()) {
        trim_end(s.drop_last())
    } else {
        s
    }
}

/// `str::trim`: both leading and trailing whitespace removed.
pub open spec fn trim(s: Seq<char>) -> Seq<char> {
    trim_end(trim_start(s))
}

/// The part of `s` before the first `c`, or all of `s` (`s.split(c).next()`).
pub open spec fn before_char(s: Seq<char>, c: char) -> Seq<char>
    decreases s.len(),
{
    if s.len() == 0 {
        s
    } else if s[0] == c {
        Seq::empty()
    } else {
        seq![s[0]] + before_char(s.drop_first(), c)
    }
}

// ---------------------------------------------------------------------------
// Conversions
// ---------------------------------------------------------------------------

/// The characters of a string slice, in order.
pub fn chars_of(s: &str) -> (out: Vec<char>)
    ensures
        out@ == s@,
{
    let mut out: Vec<char> = Vec::new();
    for c in it: s.chars()
        invariant
            out@ == it.seq().take(it.index() as int),
    {
        out.push(c);
    }
    out
}

/// `String::push`.
#[verifier::external_body]
fn push_char(s: &mut String, c: char)
    ensures
        final(s)@ == old(s)@.push(c),
{
    s.push(c)
}

/// A `String` holding exactly the given characters.
pub fn string_of(cs: &[char]) -> (out: String)
    ensures
        out@ == cs@,
{
    let mut out = String::new();
    let mut i: usize = 0;
    while i < cs.len()
        invariant
            i <= cs.len(),
            out@ == cs@.take(i as int),
        decreases cs.len() - i,
    {
        push_char(&mut out, cs[i]);
        i = i + 1;
        assert(cs@.take(i as int) == cs@.take(i - 1).push(cs@[i - 1]));
    }
    assert(cs@.take(cs.len() as int) == cs@);
    out
}

/// A copy of `s[from..to]`.
pub fn slice_vec(s: &[char], from: usize, to: usize) -> (out: Vec<char>)
    requires
        from <= to <= s.len(),
    ensures
        out@ == s@.subrange(from as int, to as int),
{
    let mut out: Vec<char> = Vec::new();
    let mut i = from;
    while i < to
        invariant
            from <= i <= to <= s.len(),
            out@ == s@.subrange(from as int, i as int),
        decreases to - i,
    {
        out.push(s[i]);
        i = i + 1;
        assert(s@.subrange(from as int, i as int) == s@.subrange(from as int, i - 1).push(
            s@[i - 1],
        ));
    }
    out
}

/// `a == b` on character sequences.
pub fn chars_eq(a: &[char], b: &[char]) -> (r: bool)
    ensures
        r == (a@ == b@),
{
    if a.len() != b.len() {
        return false;
    }
    let mut i: usize = 0;
    while i < a.len()
        invariant
            a.len() == b.len(),
            i <= a.len(),
            forall|j: int| 0 <= j < i ==> a@[j] == b@[j],
        decreases a.len() - i,
    {
        if a[i] != b[i] {
            return false;
        }
        i = i + 1;
    }
    assert(a@ =~= b@);
    true
}

/// Whether `p` occurs in `s` at position `at`.
pub fn matches_at(s: &[char], at: usize, p: &[char]) -> (r: bool)
    ensures
        r == occurs_at(s@, p@, at as int),
{
    if p.len() > s.len() || at > s.len() - p.len() {
        return false;
    }
    let mut i: usize = 0;
    while i < p.len()
        invariant
            at + p.len() <= s.len(),
            i <= p.len(),
            forall|j: int| 0 <= j < i ==> s@[at + j] == p@[j],
        decreases p.len() - i,
    {
        if s[at + i] != p[i] {
            assert(s@.subrange(at as int, at + p.len())[i as int] != p@[i as int]);
            return false;
        }
        i = i + 1;
    }
    assert(s@.subrange(at as int, at + p.len()) =~= p@);
    true
}

pub fn has_prefix(s: &[char], p: &[char]) -> (r: bool)
    ensures
        r == starts_with(s@, p@),
{
    matches_at(s, 0, p)
}

pub fn has_suffix(s: &[char], p: &[char]) -> (r: bool)
    ensures
        r == ends_with(s@, p@),
{
    if p.len() > s.len() {
        return false;
    }
    matches_at(s, s.len() - p.len(), p)
}

/// The first position at which `p` occurs in `s`.
pub fn find(s: &[char], p: &[char]) -> (r: Option<usize>)
    ensures
        r is Some <==> contains(s@, p@),
        r matches Some(i) ==> occurs_at(s@, p@, i as int) && forall|k: int|
            0 <= k < i ==> !occurs_at(s@, p@, k),
{
    if p.len() > s.len() {
        return None;
    }
    let last = s.len() - p.len();
    let mut i: usize = 0;
    loop
        invariant
            p.len() <= s.len(),
            last == s.len() - p.len(),
            i <= last,
            forall|k: int| 0 <= k < i ==> !occurs_at(s@, p@, k),
        decreases last - i,
    {
        if matches_at(s, i, p) {
            return Some(i);
        }
        if i == last {
            return None;
        }
        i = i + 1;
    }
}

pub fn contains_chars(s: &[char], p: &[char]) -> (r: bool)
    ensures
        r == contains(s@, p@),
{
    find(s, p).is_some()
}

/// The first position of `c` in `s`.
pub fn find_char(s: &[char], c: char) -> (r: Option<usize>)
    ensures
        r is Some <==> has_char(s@, c),
        r matches Some(i) ==> i < s.len() && s@[i as int] == c && forall|k: int|
            0 <= k < i ==> s@[k] != c,
        r is None ==> forall|k: int| 0 <= k < s.len() ==> s@[k] != c,
{
    let mut i: usize = 0;
    while i < s.len()
        invariant
            i <= s.len(),
            forall|k: int| 0 <= k < i ==> s@[k] != c,
        decreases s.len() - i,
    {
        if s[i] == c {
            return Some(i);
        }
        i = i + 1;
    }
    None
}

pub fn all_digits_exec(s: &[char]) -> (r: bool)
    ensures
        r == all_digits(s@),
{
    let mut i: usize = 0;
    while i < s.len()
        invariant
            i <= s.len(),
            forall|k: int| 0 <= k < i ==> is_digit(#[trigger] s@[k]),
        decreases s.len() - i,
    {
        if !digit(s[i]) {
            return false;
        }
        i = i + 1;
    }
    true
}

pub fn upper_all(s: &[char]) -> (r: Vec<char>)
    ensures
        r@ == map_upper(s@),
{
    let mut out: Vec<char> = Vec::new();
    let mut i: usize = 0;
    while i < s.len()
        invariant
            i <= s.len(),
            out@ == map_upper(s@.take(i as int)),
        decreases s.len() - i,
    {
        out.push(to_upper(s[i]));
        i = i + 1;
        assert(map_upper(s@.take(i as int)) =~= map_upper(s@.take(i - 1)).push(upper(s@[i - 1])));
    }
    assert(s@.take(s.len() as int) == s@);
    out
}

pub fn lower_all(s: &[char]) -> (r: Vec<char>)
    ensures
        r@ == map_lower(s@),
{
    let mut out: Vec<char> = Vec::new();
    let mut i: usize = 0;
    while i < s.len()
        invariant
            i <= s.len(),
            out@ == map_lower(s@.take(i as int)),
        decreases s.len() - i,
    {
        out.push(to_lower(s[i]));
        i = i + 1;
        assert(map_lower(s@.take(i as int)) =~= map_lower(s@.take(i - 1)).push(lower(s@[i - 1])));
    }
    assert(s@.take(s.len() as int) == s@);
    out
}

/// The bounds `(a, b)` with `trim(s) == s[a..b]`.
pub fn trim_bounds(s: &[char]) -> (r: (usize, usize))
    ensures
        r.0 <= r.1 <= s.len(),
        trim(s@) == s@.subrange(r.0 as int, r.1 as int),
        trim_start(s@) == s@.subrange(r.0 as int, s.len() as int),
{
    let mut a: usize = 0;
    assert(s@.subrange(0, s.len() as int) == s@);
    while a < s.len() && ws(s[a])
        invariant
            a <= s.len(),
            trim_start(s@) == trim_start(s@.subrange(a as int, s.len() as int)),
        decreases s.len() - a,
    {
        let ghost t = s@.subrange(a as int, s.len() as int);
        assert(t.drop_first() == s@.subrange(a + 1, s.len() as int));
        a = a + 1;
    }
    let ghost front = s@.subrange(a as int, s.len() as int);
    assert(trim_start(front) == front);
    let mut b: usize = s.len();
    while b > a && ws(s[b - 1])
        invariant
            a <= b <= s.len(),
            trim_end(front) == trim_end(s@.subrange(a as int, b as int)),
            front == s@.subrange(a as int, s.len() as int),
        decreases b,
    {
        let ghost t = s@.subrange(a as int, b as int);
        assert(t.drop_last() == s@.subrange(a as int, b - 1));
        b = b - 1;
    }
    (a, b)
}

pub fn trim_vec(s: &[char]) -> (r: Vec<char>)
    ensures
        r@ == trim(s@),
{
    let (a, b) = trim_bounds(s);
    slice_vec(s, a, b)
}

/// The characters of `s` before its first `c`.
pub fn before_char_vec(s: &[char], c: char) -> (r: Vec<char>)
    ensures
        r@ == before_char(s@, c),
{
    let end = match find_char(s, c) {
        Some(i) => i,
        None => s.len(),
    };
    proof {
        lemma_before_char(s@, c, end as int);
    }
    slice_vec(s, 0, end)
}

/// `before_char` stops at the first occurrence of `c`.
pub proof fn lemma_before_char(s: Seq<char>, c: char, end: int)
    requires
        0 <= end <= s.len(),
        forall|k: int| 0 <= k < end ==> s[k] != c,
        end < s.len() ==> s[end] == c,
    ensures
        before_char(s, c) == s.subrange(0, end),
    decreases s.len(),
{
    if s.len() == 0 {
    } else if s[0] == c {
        assert(end == 0);
    } else {
        lemma_before_char(s.drop_first(), c, end - 1);
        assert(s.subrange(0, end) == seq![s[0]] + s.drop_first().subrange(0, end - 1));
    }
}

} // verus!

verus! {

/// `a == b` on string slices.
pub fn str_eq(a: &str, b: &str) -> (r: bool)
    ensures
        r == (a@ == b@),
{
    chars_eq(&chars_of(a), &chars_of(b))
}

/// `String::from(s)`.
pub fn owned(s: &str) -> (r: String)
    ensures
        r@ == s@,
{
    String::from_str(s)
}

/// `a + b` as a new `String`.
pub fn concat2(a: &str, b: &str) -> (r: String)
    ensures
        r@ == a@ + b@,
{
    let mut out = String::from_str(a);
    out.append(b);
    out
}

/// `a + b + c` as a new `String`.
pub fn concat3(a: &str, b: &str, c: &str) -> (r: String)
    ensures
        r@ == a@ + b@ + c@,
{
    let mut out = String::from_str(a);
    out.append(b);
    out.append(c);
    out
}

} // verus!

verus! {

/// What `format!("{:?}", s)` writes for a string: the text in double quotes
/// with `char::escape_debug` applied to its characters.
pub uninterp spec fn debug_text(s: Seq<char>) -> Seq<char>;

/// `<str as Debug>::fmt`, collected into a `String`.
#[verifier::external_body]
pub(crate) fn debug_quote(s: &str) -> (r: String)
    ensures
        r@ == debug_text(s@),
{
    format!("{:?}", s)
}

} // verus!

verus! {

pub open spec fn digit_char(d: int) -> char {
    ('0' as int + d) as char
}

/// The decimal representation of `n`, as `u64::to_string` writes it.
pub open spec fn decimal(n: nat) -> Seq<char>
    decreases n,
{
    if n < 10 {
        seq![digit_char(n as int)]
    } else {
        decimal(n / 10).push(digit_char((n % 10) as int))
    }
}

/// `n.to_string()` for an unsigned integer.
pub fn decimal_string(n: u64) -> (r: String)
    ensures
        r@ == decimal(n as nat),
    decreases n,
{
    let d = (n % 10) as u32;
    let c = char_of_ascii(48 + d);
    assert(c == digit_char((n % 10) as int));
    if n < 10 {
        let mut out = String::new();
        push_char(&mut out, c);
        assert(out@ =~= seq![digit_char(n as int)]);
        out
    } else {
        let mut out = decimal_string(n / 10);
        push_char(&mut out, c);
        out
    }
}

} // verus!

verus! {

// ---------------------------------------------------------------------------
// Whitespace-separated tokens
// ---------------------------------------------------------------------------

/// The separator of `split_ascii_whitespace` (`ascii`) or `split_whitespace`.
pub open spec fn is_sep(c: char, ascii: bool) -> bool {
    if ascii {
        is_ascii_ws(c)
    } else {
        is_ws(c)
    }
}

/// Length of the run of non-separators that starts `s`.
pub open spec fn run_len(s: Seq<char>, ascii: bool) -> int
    decreases s.len(),
{
    if s.len() == 0 || is_sep(s[0], ascii) {
        0
    } else {
        1 + run_len(s.drop_first(), ascii)
    }
}

/// The non-empty maximal runs of non-separators of `s`, in order, as
/// `split_whitespace` / `split_ascii_whitespace` yield them.
pub open spec fn tokens(s: Seq<char>, ascii: bool) -> Seq<Seq<char>>
    decreases s.len(), 1int,
{
    if s.len() == 0 {
        Seq::empty()
    } else if is_sep(s[0], ascii) {
        tokens(s.drop_first(), ascii)
    } else {
        let n = run_len(s, ascii);
        if 0 < n <= s.len() {
            seq![s.subrange(0, n)] + tokens(s.subrange(n, s.len() as int), ascii)
        } else {
            Seq::empty()
        }
    }
}

pub open spec fn seqs_view(v: Seq<Vec<char>>) -> Seq<Seq<char>> {
    v.map_values(|x: Vec<char>| x@)
}

pub proof fn lemma_run_len_bounds(s: Seq<char>, ascii: bool)
    ensures
        0 <= run_len(s, ascii) <= s.len(),
    decreases s.len(),
{
    if s.len() > 0 && !is_sep(s[0], ascii) {
        lemma_run_len_bounds(s.drop_first(), ascii);
    }
}

/// A run that stops at `n` has length `n`.
pub proof fn lemma_run_len(s: Seq<char>, ascii: bool, n: int)
    requires
        0 <= n <= s.len(),
        forall|k: int| 0 <= k < n ==> !is_sep(#[trigger] s[k], ascii),
        n < s.len() ==> is_sep(s[n], ascii),
    ensures
        run_len(s, ascii) == n,
    decreases s.len(),
{
    if n > 0 {
        assert forall|k: int| 0 <= k < n - 1 implies !is_sep(#[trigger] s.drop_first()[k], ascii) by {
            assert(s.drop_first()[k] == s[k + 1]);
        }
        lemma_run_len(s.drop_first(), ascii, n - 1);
    }
}

fn sep_char(c: char, ascii: bool) -> (r: bool)
    ensures
        r == is_sep(c, ascii),
{
    if ascii {
        ascii_ws(c)
    } else {
        ws(c)
    }
}

/// `split_whitespace` (`ascii == false`) or `split_ascii_whitespace`.
pub fn split_tokens(s: &[char], ascii: bool) -> (r: Vec<Vec<char>>)
    ensures
        seqs_view(r@) == tokens(s@, ascii),
{
    let mut out: Vec<Vec<char>> = Vec::new();
    let mut i: usize = 0;
    assert(s@.subrange(0, s.len() as int) == s@);
    while i < s.len()
        invariant
            i <= s.len(),
            tokens(s@, ascii) == seqs_view(out@) + tokens(s@.subrange(i as int, s.len() as int), ascii),
        decreases s.len() - i,
    {
        let ghost rest = s@.subrange(i as int, s.len() as int);
        if sep_char(s[i], ascii) {
            assert(rest.drop_first() == s@.subrange(i + 1, s.len() as int));
            i = i + 1;
        } else {
            let mut j = i;
            while j < s.len() && !sep_char(s[j], ascii)
                invariant
                    i <= j <= s.len(),
                    forall|k: int| i <= k < j ==> !is_sep(#[trigger] s@[k], ascii),
                decreases s.len() - j,
            {
                j = j + 1;
            }
            proof {
                assert forall|k: int| 0 <= k < j - i implies !is_sep(#[trigger] rest[k], ascii) by {
                    assert(rest[k] == s@[i + k]);
                }
                lemma_run_len(rest, ascii, j - i);
                assert(rest.subrange(0, j - i) == s@.subrange(i as int, j as int));
                assert(rest.subrange(j - i, rest.len() as int) == s@.subrange(j as int, s.len() as int));
            }
            let tok = slice_vec(s, i, j);
            let ghost before = out@;
            out.push(tok);
            assert(seqs_view(out@) == seqs_view(before).push(tok@));
            assert(seqs_view(out@) + tokens(s@.subrange(j as int, s.len() as int), ascii) =~= seqs_view(
                before,
            ) + (seq![tok@] + tokens(s@.subrange(j as int, s.len() as int), ascii)));
            i = j;
        }
    }
    assert(s@.subrange(s.len() as int, s.len() as int) == Seq::<char>::empty());
    assert(seqs_view(out@) + Seq::<Seq<char>>::empty() == seqs_view(out@));
    out
}

// ---------------------------------------------------------------------------
// Decimal numbers
// ---------------------------------------------------------------------------

/// The value of a string of decimal digits.
pub open spec fn dec_value(s: Seq<char>) -> nat
    decreases s.len(),
{
    if s.len() == 0 {
        0
    } else {
        dec_value(s.drop_last()) * 10 + (s.last() as int - '0' as int) as nat
    }
}

/// `u32::from_str`: an optional `+`, then one or more decimal digits, for a
/// value that fits in 32 bits.
pub open spec fn parse_u32(t: Seq<char>) -> Option<u32> {
    let d = if t.len() > 0 && t[0] == '+' {
        t.drop_first()
    } else {
        t
    };
    if d.len() == 0 || !all_digits(d) || dec_value(d) > u32::MAX {
        None
    } else {
        Some(dec_value(d) as u32)
    }
}

/// `u64::from_str`, the same rule for 64 bits.
pub open spec fn parse_u64(t: Seq<char>) -> Option<u64> {
    let d = if t.len() > 0 && t[0] == '+' {
        t.drop_first()
    } else {
        t
    };
    if d.len() == 0 || !all_digits(d) || dec_value(d) > u64::MAX {
        None
    } else {
        Some(dec_value(d) as u64)
    }
}

/// A longer digit string is worth at least as much as its prefix.
pub proof fn lemma_dec_value_prefix(s: Seq<char>, n: int)
    requires
        0 <= n <= s.len(),
        all_digits(s),
    ensures
        dec_value(s.subrange(0, n)) <= dec_value(s),
    decreases s.len() - n,
{
    if n < s.len() {
        lemma_dec_value_prefix(s, n + 1);
        let p = s.subrange(0, n + 1);
        assert(p.drop_last() == s.subrange(0, n));
        assert(is_digit(s[n]));
        let x = dec_value(s.subrange(0, n));
        assert(x * 10 >= x) by (nonlinear_arith);
        assert(dec_value(p) == x * 10 + (p.last() as int - '0' as int) as nat);
    } else {
        assert(s.subrange(0, n) == s);
    }
}

/// Parses the digits `d[from..]` (all digits) with a `limit`.
fn dec_digits(d: &[char], from: usize, limit: u64) -> (r: Option<u64>)
    requires
        from <= d.len(),
        limit >= 9,
        all_digits(d@.subrange(from as int, d.len() as int)),
    ensures
        r matches Some(v) ==> v == dec_value(d@.subrange(from as int, d.len() as int)) && v <= limit,
        r is None ==> dec_value(d@.subrange(from as int, d.len() as int)) > limit,
{
    let ghost ds = d@.subrange(from as int, d.len() as int);
    let mut v: u64 = 0;
    let mut i = from;
    while i < d.len()
        invariant
            from <= i <= d.len(),
            ds == d@.subrange(from as int, d.len() as int),
            all_digits(ds),
            v == dec_value(d@.subrange(from as int, i as int)),
            v <= limit,
            limit >= 9,
        decreases d.len() - i,
    {
        assert(is_digit(ds[i - from]));
        assert(ds[i - from] == d@[i as int]);
        let dig = ((d[i] as u32) - ('0' as u32)) as u64;
        assert(d@.subrange(from as int, i + 1).drop_last() == d@.subrange(from as int, i as int));
        if v > (limit - dig) / 10 {
            proof {
                assert(v * 10 + dig > limit) by (nonlinear_arith)
                    requires
                        v > (limit - dig) / 10,
                        dig <= limit || true,
                ;
                assert(ds.subrange(0, i + 1 - from) == d@.subrange(from as int, i + 1));
                lemma_dec_value_prefix(ds, i + 1 - from);
            }
            return None;
        }
        v = v * 10 + dig;
        i = i + 1;
    }
    Some(v)
}

/// `str::parse::<u32>` on characters.
pub fn parse_u32_chars(t: &[char]) -> (r: Option<u32>)
    ensures
        r == parse_u32(t@),
{
    let from: usize = if t.len() > 0 && t[0] == '+' {
        1
    } else {
        0
    };
    let ghost d = t@.subrange(from as int, t.len() as int);
    assert(d == (if t@.len() > 0 && t@[0] == '+' {
        t@.drop_first()
    } else {
        t@
    }));
    if from == t.len() {
        return None;
    }
    let mut i = from;
    while i < t.len()
        invariant
            from <= i <= t.len(),
            d == t@.subrange(from as int, t.len() as int),
            d == (if t@.len() > 0 && t@[0] == '+' {
                t@.drop_first()
            } else {
                t@
            }),
            d.len() > 0,
            forall|k: int| from <= k < i ==> is_digit(#[trigger] t@[k]),
        decreases t.len() - i,
    {
        if !digit(t[i]) {
            assert(!is_digit(d[i - from]));
            assert(!all_digits(d));
            return None;
        }
        i = i + 1;
    }
    assert(all_digits(d)) by {
        assert forall|k: int| 0 <= k < d.len() implies is_digit(#[trigger] d[k]) by {
            assert(d[k] == t@[from + k]);
        }
    }
    match dec_digits(t, from, 0xffff_ffff) {
        Some(v) => Some(v as u32),
        None => None,
    }
}

/// `str::parse::<u64>` on characters.
pub fn parse_u64_chars(t: &[char]) -> (r: Option<u64>)
    ensures
        r == parse_u64(t@),
{
    let from: usize = if t.len() > 0 && t[0] == '+' {
        1
    } else {
        0
    };
    let ghost d = t@.subrange(from as int, t.len() as int);
    assert(d == (if t@.len() > 0 && t@[0] == '+' {
        t@.drop_first()
    } else {
        t@
    }));
    if from == t.len() {
        return None;
    }
    let mut i = from;
    while i < t.len()
        invariant
            from <= i <= t.len(),
            d == t@.subrange(from as int, t.len() as int),
            d == (if t@.len() > 0 && t@[0] == '+' {
                t@.drop_first()
            } else {
                t@
            }),
            d.len() > 0,
            forall|k: int| from <= k < i ==> is_digit(#[trigger] t@[k]),
        decreases t.len() - i,
    {
        if !digit(t[i]) {
            assert(!is_digit(d[i - from]));
            assert(!all_digits(d));
            return None;
        }
        i = i + 1;
    }
    assert(all_digits(d)) by {
        assert forall|k: int| 0 <= k < d.len() implies is_digit(#[trigger] d[k]) by {
            assert(d[k] == t@[from + k]);
        }
    }
    dec_digits(t, from, 0xffff_ffff_ffff_ffff)
}

} // verus!

verus! {

// ---------------------------------------------------------------------------
// Lines
// ---------------------------------------------------------------------------

pub open spec fn strip_cr(l: Seq<char>) -> Seq<char> {
    if l.len() > 0 && l.last() == '\r' {
        l.drop_last()
    } else {
        l
    }
}

/// `before_char` is shorter than `s` exactly when `c` occurs.
pub proof fn lemma_before_char_len(s: Seq<char>, c: char)
    ensures
        before_char(s, c).len() <= s.len(),
        has_char(s, c) ==> before_char(s, c).len() < s.len() && s[before_char(s, c).len() as int]
            == c,
        !has_char(s, c) ==> before_char(s, c) == s,
        before_char(s, c) == s.subrange(0, before_char(s, c).len() as int),
        forall|k: int| 0 <= k < before_char(s, c).len() ==> s[k] != c,
    decreases s.len(),
{
    if s.len() == 0 {
    } else if s[0] == c {
    } else {
        lemma_before_char_len(s.drop_first(), c);
        let t = s.drop_first();
        if has_char(s, c) {
            let i = choose|i: int| 0 <= i < s.len() && s[i] == c;
            assert(t[i - 1] == c);
        }
        if has_char(t, c) {
            let i = choose|i: int| 0 <= i < t.len() && t[i] == c;
            assert(s[i + 1] == c);
        }
        assert(before_char(s, c) == seq![s[0]] + before_char(t, c));
        assert forall|k: int| 0 <= k < before_char(s, c).len() implies s[k] != c by {
            if k > 0 {
                assert(s[k] == t[k - 1]);
            }
        }
    }
}

/// `str::lines`: the text split at `\n`, each line without its line ending
/// (`\n` or `\r\n`); a final line ending adds no empty line.
pub open spec fn lines(s: Seq<char>) -> Seq<Seq<char>>
    decreases s.len(),
{
    if s.len() == 0 {
        Seq::empty()
    } else if !has_char(s, '\n') {
        seq![s]
    } else {
        let l = before_char(s, '\n');
        proof {
            lemma_before_char_len(s, '\n');
        }
        seq![strip_cr(l)] + lines(s.subrange(l.len() as int + 1, s.len() as int))
    }
}

/// The lines of `s`, as `str::lines` yields them.
pub fn lines_of(s: &[char]) -> (r: Vec<Vec<char>>)
    ensures
        seqs_view(r@) == lines(s@),
{
    let mut out: Vec<Vec<char>> = Vec::new();
    let mut i: usize = 0;
    assert(s@.subrange(0, s.len() as int) == s@);
    while i < s.len()
        invariant
            i <= s.len(),
            lines(s@) == seqs_view(out@) + lines(s@.subrange(i as int, s.len() as int)),
        decreases s.len() - i,
    {
        let ghost rest = s@.subrange(i as int, s.len() as int);
        let mut j = i;
        while j < s.len() && s[j] != '\n'
            invariant
                i <= j <= s.len(),
                forall|k: int| i <= k < j ==> s@[k] != '\n',
            decreases s.len() - j,
        {
            j = j + 1;
        }
        proof {
            assert forall|k: int| 0 <= k < j - i implies rest[k] != '\n' by {
                assert(rest[k] == s@[i + k]);
            }
            if j < s.len() {
                assert(rest[j - i] == '\n');
            }
            lemma_before_char(rest, '\n', j - i);
        }
        let mut end = j;
        if j < s.len() && end > i && s[end - 1] == '\r' {
            end = end - 1;
        }
        let line = slice_vec(s, i, end);
        let ghost before = out@;
        out.push(line);
        assert(seqs_view(out@) == seqs_view(before).push(line@));
        if j < s.len() {
            proof {
                assert(has_char(rest, '\n'));
                assert(rest.subrange(j - i + 1, rest.len() as int) == s@.subrange(j + 1, s.len() as int));
                assert(line@ == strip_cr(rest.subrange(0, j - i)));
            }
            assert(seqs_view(out@) + lines(s@.subrange(j + 1, s.len() as int)) =~= seqs_view(before)
                + (seq![line@] + lines(s@.subrange(j + 1, s.len() as int))));
            i = j + 1;
        } else {
            proof {
                if has_char(rest, '\n') {
                    let k = choose|k: int| 0 <= k < rest.len() && rest[k] == '\n';
                    assert(rest[k] == s@[i + k]);
                }
                assert(rest.subrange(0, j - i) == rest);
                assert(line@ == rest);
                assert(lines(rest) == seq![rest]);
                assert(s@.subrange(j as int, s.len() as int) == Seq::<char>::empty());
            }
            i = j;
            assert(seqs_view(out@) + lines(s@.subrange(i as int, s.len() as int)) =~= seqs_view(out@));
        }
    }
    assert(s@.subrange(s.len() as int, s.len() as int) == Seq::<char>::empty());
    assert(seqs_view(out@) + Seq::<Seq<char>>::empty() == seqs_view(out@));
    out
}

} // verus!

verus! {

/// The items joined by `sep`, as `[String]::join` writes them.
pub open spec fn join(items: Seq<Seq<char>>, sep: Seq<char>) -> Seq<char>
    decreases items.len(),
{
    if items.len() == 0 {
        Seq::empty()
    } else if items.len() == 1 {
        items[0]
    } else {
        join(items.drop_last(), sep) + sep + items.last()
    }
}

pub open spec fn string_seq_view(v: Seq<String>) -> Seq<Seq<char>> {
    v.map_values(|s: String| s@)
}

/// `items.join(sep)`.
pub fn join_strings(items: &[String], sep: &str) -> (r: String)
    ensures
        r@ == join(string_seq_view(items@), sep@),
{
    let mut out = String::new();
    let mut i: usize = 0;
    while i < items.len()
        invariant
            i <= items.len(),
            out@ == join(string_seq_view(items@).take(i as int), sep@),
        decreases items.len() - i,
    {
        let ghost prev = string_seq_view(items@).take(i as int);
        let ghost next = string_seq_view(items@).take(i + 1);
        assert(next.drop_last() == prev);
        assert(next.last() == items@[i as int]@);
        if i > 0 {
            out.append(sep);
        }
        out.append(items[i].as_str());
        i = i + 1;
    }
    assert(string_seq_view(items@).take(items.len() as int) == string_seq_view(items@));
    out
}

/// `s.split(c).next()` for an owned copy: the text before the first `c`.
pub fn before_char_str(s: &str, c: char) -> (r: Vec<char>)
    ensures
        r@ == before_char(s@, c),
{
    before_char_vec(&chars_of(s), c)
}

/// The octal representation of `n`, as `format!("{:o}", n)` writes it.
pub open spec fn octal(n: nat) -> Seq<char>
    decreases n,
{
    if n < 8 {
        seq![digit_char(n as int)]
    } else {
        octal(n / 8).push(digit_char((n % 8) as int))
    }
}

pub fn octal_string(n: u32) -> (r: String)
    ensures
        r@ == octal(n as nat),
    decreases n,
{
    let d = n % 8;
    let c = char_of_ascii(48 + d);
    assert(c == digit_char((n % 8) as int));
    if n < 8 {
        let mut out = String::new();
        push_char(&mut out, c);
        assert(out@ =~= seq![digit_char(n as int)]);
        out
    } else {
        let mut out = octal_string(n / 8);
        push_char(&mut out, c);
        out
    }
}

} // verus!
