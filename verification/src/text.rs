//! Character-level text helpers shared by the validation rules.
//!
//! Every helper works on the `Seq<char>` view of a string, so the contracts
//! of the use cases can speak about trimming, case folding and searching
//! without reference to any particular string representation.
use vstd::prelude::*;

verus! {

/// Unicode `White_Space` (the set `char::is_whitespace` documents).
pub open spec fn is_ws(c: char) -> bool {
    ||| ('\u{9}' <= c && c <= '\u{d}')
    ||| c == ' '
    ||| c == '\u{85}'
    ||| c == '\u{a0}'
    ||| c == '\u{1680}'
    ||| ('\u{2000}' <= c && c <= '\u{200a}')
    ||| c == '\u{2028}'
    ||| c == '\u{2029}'
    ||| c == '\u{202f}'
    ||| c == '\u{205f}'
    ||| c == '\u{3000}'
}

pub fn is_whitespace(c: char) -> (r: bool)
    ensures
        r == is_ws(c),
{
    ('\u{9}' <= c && c <= '\u{d}') || c == ' ' || c == '\u{85}' || c == '\u{a0}' || c
        == '\u{1680}' || ('\u{2000}' <= c && c <= '\u{200a}') || c == '\u{2028}' || c
        == '\u{2029}' || c == '\u{202f}' || c == '\u{205f}' || c == '\u{3000}'
}

pub open spec fn is_digit(c: char) -> bool {
    '0' <= c && c <= '9'
}

pub open spec fn is_upper(c: char) -> bool {
    'A' <= c && c <= 'Z'
}

pub open spec fn is_alpha(c: char) -> bool {
    is_upper(c) || ('a' <= c && c <= 'z')
}

pub open spec fn is_alnum(c: char) -> bool {
    is_alpha(c) || is_digit(c)
}

pub open spec fn all_digits(s: Seq<char>) -> bool {
    forall|i: int| 0 <= i < s.len() ==> is_digit(#[trigger] s[i])
}

pub open spec fn has_ws(s: Seq<char>) -> bool {
    exists|i: int| 0 <= i < s.len() && is_ws(#[trigger] s[i])
}

pub open spec fn contains_char(s: Seq<char>, c: char) -> bool {
    exists|i: int| 0 <= i < s.len() && #[trigger] s[i] == c
}

/// ASCII lower-casing of one character (`char::to_ascii_lowercase`).
pub open spec fn lower(c: char) -> char {
    if is_upper(c) {
        ((c as u32) + 32) as char
    } else {
        c
    }
}

pub open spec fn lower_seq(s: Seq<char>) -> Seq<char> {
    Seq::new(s.len(), |i: int| lower(s[i]))
}

/// Index of the first character at or after `i` that is not whitespace.
pub open spec fn ws_start(s: Seq<char>, i: int) -> int
    decreases s.len() - i,
{
    if i < 0 || i >= s.len() {
        s.len() as int
    } else if is_ws(s[i]) {
        ws_start(s, i + 1)
    } else {
        i
    }
}

/// End (exclusive) of `s[..j]` once trailing whitespace is removed.
pub open spec fn ws_end(s: Seq<char>, j: int) -> int
    decreases j,
{
    if j <= 0 || j > s.len() {
        0
    } else if is_ws(s[j - 1]) {
        ws_end(s, j - 1)
    } else {
        j
    }
}

/// `str::trim`: the string with leading and trailing whitespace removed.
pub open spec fn trim(s: Seq<char>) -> Seq<char> {
    let a = ws_start(s, 0);
    let b = ws_end(s, s.len() as int);
    if a < b {
        s.subrange(a, b)
    } else {
        Seq::empty()
    }
}

/// Index of the first character at or after `i` that differs from `c`.
pub open spec fn char_start(s: Seq<char>, i: int, c: char) -> int
    decreases s.len() - i,
{
    if i < 0 || i >= s.len() {
        s.len() as int
    } else if s[i] == c {
        char_start(s, i + 1, c)
    } else {
        i
    }
}

/// End (exclusive) of `s[..j]` once trailing copies of `c` are removed.
pub open spec fn char_end(s: Seq<char>, j: int, c: char) -> int
    decreases j,
{
    if j <= 0 || j > s.len() {
        0
    } else if s[j - 1] == c {
        char_end(s, j - 1, c)
    } else {
        j
    }
}

/// `str::trim_start_matches(c)`.
pub open spec fn trim_start_char(s: Seq<char>, c: char) -> Seq<char> {
    s.subrange(char_start(s, 0, c), s.len() as int)
}

/// `str::trim_end_matches(c)`.
pub open spec fn trim_end_char(s: Seq<char>, c: char) -> Seq<char> {
    s.subrange(0, char_end(s, s.len() as int, c))
}

/// `str::trim_matches(c)`.
pub open spec fn trim_char(s: Seq<char>, c: char) -> Seq<char> {
    let a = char_start(s, 0, c);
    let b = char_end(s, s.len() as int, c);
    if a < b {
        s.subrange(a, b)
    } else {
        Seq::empty()
    }
}

/// Position of the first occurrence of `c` at or after `i`, if any.
pub open spec fn find_from(s: Seq<char>, i: int, c: char) -> Option<int>
    decreases s.len() - i,
{
    if i < 0 || i >= s.len() {
        None
    } else if s[i] == c {
        Some(i)
    } else {
        find_from(s, i + 1, c)
    }
}

pub open spec fn find(s: Seq<char>, c: char) -> Option<int> {
    find_from(s, 0, c)
}

/// `str::split_once(c)`: the parts before and after the first `c`.
pub open spec fn split_once(s: Seq<char>, c: char) -> Option<(Seq<char>, Seq<char>)> {
    match find(s, c) {
        Some(i) => Some((s.subrange(0, i), s.subrange(i + 1, s.len() as int))),
        None => None,
    }
}

pub proof fn lemma_find_from(s: Seq<char>, i: int, c: char)
    requires
        0 <= i <= s.len(),
    ensures
        find_from(s, i, c) matches Some(k) ==> i <= k < s.len() && s[k] == c && forall|j: int|
            i <= j < k ==> s[j] != c,
        find_from(s, i, c) is None ==> forall|j: int| i <= j < s.len() ==> s[j] != c,
    decreases s.len() - i,
{
    if i < s.len() {
        lemma_find_from(s, i + 1, c);
    }
}

/// `str::starts_with`.
pub open spec fn starts_with(s: Seq<char>, p: Seq<char>) -> bool {
    p.len() <= s.len() && s.subrange(0, p.len() as int) == p
}

/// `str::ends_with`.
pub open spec fn ends_with(s: Seq<char>, p: Seq<char>) -> bool {
    p.len() <= s.len() && s.subrange(s.len() - p.len(), s.len() as int) == p
}

/// Position of the first occurrence of `p` in `s` at or after `i`.
pub open spec fn find_sub_from(s: Seq<char>, p: Seq<char>, i: int) -> Option<int>
    decreases s.len() + 1 - i,
{
    if i < 0 || i + p.len() > s.len() {
        None
    } else if s.subrange(i, i + p.len()) == p {
        Some(i)
    } else {
        find_sub_from(s, p, i + 1)
    }
}

pub proof fn lemma_find_sub_from(s: Seq<char>, p: Seq<char>, i: int)
    requires
        0 <= i,
    ensures
        find_sub_from(s, p, i) matches Some(k) ==> i <= k && k + p.len() <= s.len(),
    decreases s.len() + 1 - i,
{
    if i + p.len() <= s.len() && s.subrange(i, i + p.len()) != p {
        lemma_find_sub_from(s, p, i + 1);
    }
}

/// Whether `p` occurs in `s` at offset `at`.
pub fn occurs_at(s: &Vec<char>, p: &Vec<char>, at: usize) -> (r: bool)
    requires
        at + p@.len() <= s@.len(),
    ensures
        r == (s@.subrange(at as int, at + p@.len()) == p@),
{
    let n = s.len();
    let mut i: usize = 0;
    while i < p.len()
        invariant
            at + p@.len() <= s@.len(),
            n == s@.len(),
            i <= p@.len(),
            forall|j: int| 0 <= j < i ==> s@[at + j] == p@[j],
        decreases p@.len() - i,
    {
        if s[at + i] != p[i] {
            assert(s@.subrange(at as int, at + p@.len())[i as int] != p@[i as int]);
            return false;
        }
        i = i + 1;
    }
    assert(s@.subrange(at as int, at + p@.len()) =~= p@);
    true
}

/// First occurrence of `p` in `s` at or after `from`.
pub fn find_sub_exec(s: &Vec<char>, p: &Vec<char>, from: usize) -> (r: Option<usize>)
    ensures
        r matches Some(k) ==> find_sub_from(s@, p@, from as int) == Some(k as int) && k + p@.len()
            <= s@.len(),
        r is None ==> find_sub_from(s@, p@, from as int) is None,
{
    let mut i = from;
    if p.len() > s.len() {
        return None;
    }
    if p.len() == 0 {
        if from <= s.len() {
            assert(s@.subrange(from as int, from as int) =~= p@);
            return Some(from);
        }
        return None;
    }
    if from > s.len() - p.len() {
        return None;
    }
    while i <= s.len() - p.len()
        invariant
            1 <= p@.len() <= s@.len(),
            from <= i <= s@.len() - p@.len() + 1,
            find_sub_from(s@, p@, from as int) == find_sub_from(s@, p@, i as int),
        decreases s@.len() - i,
    {
        if occurs_at(s, p, i) {
            return Some(i);
        }
        i = i + 1;
    }
    None
}

/// The characters of a text, as contracts read it.
pub type CharSeq = Seq<char>;

/// Strict lexicographic order on character sequences (the order of
/// `str`'s `Ord`, which compares code points).
pub open spec fn lex_lt(a: Seq<char>, b: Seq<char>) -> bool
    decreases a.len(),
{
    if b.len() == 0 {
        false
    } else if a.len() == 0 {
        true
    } else if a[0] != b[0] {
        a[0] < b[0]
    } else {
        lex_lt(a.drop_first(), b.drop_first())
    }
}

/// `a < b` in lexicographic order, over `a[i..]` and `b[i..]`.
pub fn lex_lt_exec(a: &Vec<char>, b: &Vec<char>) -> (r: bool)
    ensures
        r == lex_lt(a@, b@),
{
    let mut i: usize = 0;
    assert(a@.skip(0) =~= a@);
    assert(b@.skip(0) =~= b@);
    while i < a.len() && i < b.len() && a[i] == b[i]
        invariant
            i <= a@.len(),
            i <= b@.len(),
            lex_lt(a@, b@) == lex_lt(a@.skip(i as int), b@.skip(i as int)),
        decreases a@.len() - i,
    {
        assert(a@.skip(i as int).drop_first() =~= a@.skip(i + 1));
        assert(b@.skip(i as int).drop_first() =~= b@.skip(i + 1));
        i = i + 1;
    }
    if i == b.len() {
        false
    } else if i == a.len() {
        true
    } else {
        a[i] < b[i]
    }
}

/// Length of the UTF-8 encoding of `s` (`str::len`).
pub open spec fn byte_len(s: Seq<char>) -> nat {
    vstd::utf8::encode_utf8(s).len()
}

/// Bytes in the UTF-8 encoding of one character.
pub open spec fn char_width(c: char) -> nat {
    if (c as u32) <= 0x7F {
        1
    } else if (c as u32) <= 0x7FF {
        2
    } else if (c as u32) <= 0xFFFF {
        3
    } else {
        4
    }
}

pub proof fn lemma_byte_len_push(a: Seq<char>, c: char)
    ensures
        byte_len(a.push(c)) == byte_len(a) + char_width(c),
    decreases a.len(),
{
    if a.len() == 0 {
        assert(a.push(c).drop_first() =~= Seq::<char>::empty());
        assert(vstd::utf8::encode_utf8(Seq::<char>::empty()) =~= Seq::<u8>::empty());
    } else {
        assert(a.push(c).drop_first() =~= a.drop_first().push(c));
        lemma_byte_len_push(a.drop_first(), c);
    }
}

pub fn char_width_exec(c: char) -> (w: usize)
    ensures
        w == char_width(c),
{
    let v = c as u32;
    if v <= 0x7F {
        1
    } else if v <= 0x7FF {
        2
    } else if v <= 0xFFFF {
        3
    } else {
        4
    }
}

/// The longest character prefix of `s` whose UTF-8 encoding fits in
/// `maximum` bytes.
pub open spec fn is_byte_truncation(r: Seq<char>, s: Seq<char>, maximum: int) -> bool {
    &&& r.len() <= s.len()
    &&& r == s.take(r.len() as int)
    &&& byte_len(r) <= maximum
    &&& (r.len() == s.len() || byte_len(s.take(r.len() as int + 1)) > maximum)
}

/// Whether the UTF-8 encoding of `s` is longer than `bound` bytes.
pub fn byte_len_exceeds(s: &str, bound: usize) -> (r: bool)
    ensures
        r == (byte_len(s@) > bound),
{
    let v = chars_of(s);
    let mut used: usize = 0;
    let mut i: usize = 0;
    proof {
        assert(v@.take(0) =~= Seq::<char>::empty());
        assert(vstd::utf8::encode_utf8(Seq::<char>::empty()) =~= Seq::<u8>::empty());
    }
    while i < v.len()
        invariant
            i <= v@.len(),
            v@ == s@,
            used == byte_len(v@.take(i as int)),
            used <= bound,
        decreases v@.len() - i,
    {
        let w = char_width_exec(v[i]);
        proof {
            assert(v@.take(i + 1) =~= v@.take(i as int).push(v@[i as int]));
            lemma_byte_len_push(v@.take(i as int), v@[i as int]);
        }
        if w > bound - used {
            proof {
                lemma_byte_len_prefix(v@, i as int + 1);
            }
            return true;
        }
        used = used + w;
        i = i + 1;
    }
    assert(v@.take(v@.len() as int) =~= v@);
    false
}

/// A prefix never encodes to more bytes than the whole.
pub proof fn lemma_byte_len_prefix(s: Seq<char>, k: int)
    requires
        0 <= k <= s.len(),
    ensures
        byte_len(s.take(k)) <= byte_len(s),
    decreases s.len() - k,
{
    if k < s.len() {
        assert(s.take(k + 1) =~= s.take(k).push(s[k]));
        lemma_byte_len_push(s.take(k), s[k]);
        lemma_byte_len_prefix(s, k + 1);
    } else {
        assert(s.take(k) =~= s);
    }
}

/// Truncates to at most `maximum_bytes` bytes on a character boundary.
pub fn truncate_utf8(value: String, maximum_bytes: usize) -> (r: String)
    ensures
        is_byte_truncation(r@, value@, maximum_bytes as int),
{
    let v = chars_of(value.as_str());
    let mut used: usize = 0;
    let mut i: usize = 0;
    proof {
        assert(v@.take(0) =~= Seq::<char>::empty());
        assert(vstd::utf8::encode_utf8(Seq::<char>::empty()) =~= Seq::<u8>::empty());
    }
    while i < v.len()
        invariant
            i <= v@.len(),
            v@ == value@,
            used == byte_len(v@.take(i as int)),
            used <= maximum_bytes,
        decreases v@.len() - i,
    {
        let w = char_width_exec(v[i]);
        proof {
            assert(v@.take(i + 1) =~= v@.take(i as int).push(v@[i as int]));
            lemma_byte_len_push(v@.take(i as int), v@[i as int]);
        }
        if w > maximum_bytes - used {
            let r = string_from(&v, 0, i);
            assert(r@ =~= v@.take(i as int));
            return r;
        }
        used = used + w;
        i = i + 1;
    }
    assert(v@.take(v@.len() as int) =~= v@);
    value
}

/// The characters of a string, in order.
pub fn chars_of(s: &str) -> (out: Vec<char>)
    ensures
        out@ == s@,
{
    let mut out: Vec<char> = Vec::new();
    for c in it: s.chars()
        invariant
            out@ == it.seq().take(it.index() as int),
            it.seq() == s@,
    {
        out.push(c);
    }
    out
}

/// Appends one character by `String::push` (std), which vstd gives no
/// contract; this one claims that the string afterwards holds its old
/// characters followed by `c`, as std documents the method.
#[verifier::external_body]
pub(crate) fn push_char(s: &mut String, c: char)
    ensures
        final(s)@ == old(s)@.push(c),
{
    s.push(c);
}

/// Appends the characters of `s` to `out`.
pub fn append_str_to(out: &mut String, s: &str)
    ensures
        final(out)@ == old(out)@ + s@,
{
    let v = chars_of(s);
    let mut i: usize = 0;
    while i < v.len()
        invariant
            i <= v.len(),
            v@ == s@,
            out@ == old(out)@ + s@.subrange(0, i as int),
        decreases v.len() - i,
    {
        push_char(out, v[i]);
        assert(s@.subrange(0, i + 1) =~= s@.subrange(0, i as int).push(s@[i as int]));
        i = i + 1;
    }
    assert(s@.subrange(0, s@.len() as int) =~= s@);
}

/// Builds an owned string from the characters `v[from..to]`.
pub fn string_from(v: &Vec<char>, from: usize, to: usize) -> (s: String)
    requires
        from <= to <= v@.len(),
    ensures
        s@ == v@.subrange(from as int, to as int),
{
    let mut s = String::new();
    let mut i = from;
    while i < to
        invariant
            from <= i <= to <= v@.len(),
            s@ == v@.subrange(from as int, i as int),
        decreases to - i,
    {
        push_char(&mut s, v[i]);
        assert(v@.subrange(from as int, i + 1) =~= v@.subrange(from as int, i as int).push(v@[i as int]));
        i = i + 1;
    }
    s
}

pub fn to_owned(s: &str) -> (r: String)
    ensures
        r@ == s@,
{
    s.to_owned()
}

pub fn seq_eq(a: &Vec<char>, b: &Vec<char>) -> (r: bool)
    ensures
        r == (a@ == b@),
{
    if a.len() != b.len() {
        return false;
    }
    let mut i: usize = 0;
    while i < a.len()
        invariant
            a.len() == b.len(),
            i <= a.len(),
            forall|j: int| 0 <= j < i ==> a@[j] == b@[j],
        decreases a.len() - i,
    {
        if a[i] != b[i] {
            return false;
        }
        i = i + 1;
    }
    assert(a@ =~= b@);
    true
}

/// String equality on the character views.
pub fn str_eq(a: &str, b: &str) -> (r: bool)
    ensures
        r == (a@ == b@),
{
    let va = chars_of(a);
    let vb = chars_of(b);
    seq_eq(&va, &vb)
}

/// Number of characters (`str::chars().count()`).
pub fn char_count(s: &str) -> (n: usize)
    ensures
        n == s@.len(),
{
    let v = chars_of(s);
    v.len()
}

/// Start of the trimmed region of `v`.
pub fn ws_start_exec(v: &Vec<char>) -> (a: usize)
    ensures
        a == ws_start(v@, 0),
        a <= v@.len(),
{
    let mut i: usize = 0;
    while i < v.len() && is_whitespace(v[i])
        invariant
            i <= v.len(),
            ws_start(v@, 0) == ws_start(v@, i as int),
        decreases v.len() - i,
    {
        i = i + 1;
    }
    i
}

/// End of the trimmed region of `v`.
pub fn ws_end_exec(v: &Vec<char>) -> (b: usize)
    ensures
        b == ws_end(v@, v@.len() as int),
        b <= v@.len(),
{
    let mut j: usize = v.len();
    while j > 0 && is_whitespace(v[j - 1])
        invariant
            j <= v.len(),
            ws_end(v@, v@.len() as int) == ws_end(v@, j as int),
        decreases j,
    {
        j = j - 1;
    }
    j
}

/// `str::trim`, producing an owned string.
pub fn trim_str(s: &str) -> (r: String)
    ensures
        r@ == trim(s@),
{
    let v = chars_of(s);
    let a = ws_start_exec(&v);
    let b = ws_end_exec(&v);
    if a < b {
        string_from(&v, a, b)
    } else {
        String::new()
    }
}

/// Whether `trim(s)` is empty (`s.trim().is_empty()`).
pub fn is_blank(s: &str) -> (r: bool)
    ensures
        r == (trim(s@).len() == 0),
{
    let t = trim_str(s);
    let v = chars_of(t.as_str());
    v.len() == 0
}

pub fn char_start_exec(v: &Vec<char>, c: char) -> (a: usize)
    ensures
        a == char_start(v@, 0, c),
        a <= v@.len(),
{
    let mut i: usize = 0;
    while i < v.len() && v[i] == c
        invariant
            i <= v.len(),
            char_start(v@, 0, c) == char_start(v@, i as int, c),
        decreases v.len() - i,
    {
        i = i + 1;
    }
    i
}

pub fn char_end_exec(v: &Vec<char>, c: char) -> (b: usize)
    ensures
        b == char_end(v@, v@.len() as int, c),
        b <= v@.len(),
{
    let mut j: usize = v.len();
    while j > 0 && v[j - 1] == c
        invariant
            j <= v.len(),
            char_end(v@, v@.len() as int, c) == char_end(v@, j as int, c),
        decreases j,
    {
        j = j - 1;
    }
    j
}

/// Position of the first `c` in `v` at or after `from`.
pub fn find_exec(v: &Vec<char>, from: usize, c: char) -> (r: Option<usize>)
    requires
        from <= v@.len(),
    ensures
        r matches Some(k) ==> find_from(v@, from as int, c) == Some(k as int) && from <= k < v@.len(),
        r is None ==> find_from(v@, from as int, c) is None,
{
    let mut i = from;
    while i < v.len()
        invariant
            from <= i <= v.len(),
            find_from(v@, from as int, c) == find_from(v@, i as int, c),
        decreases v.len() - i,
    {
        if v[i] == c {
            return Some(i);
        }
        i = i + 1;
    }
    None
}

pub fn lower_char(c: char) -> (r: char)
    ensures
        r == lower(c),
{
    if 'A' <= c && c <= 'Z' {
        let b = c as u8;
        assert(b == c as u32);
        ((b + 32) as u8) as char
    } else {
        c
    }
}

/// `str::to_ascii_lowercase`.
pub fn to_ascii_lowercase(s: &str) -> (r: String)
    ensures
        r@ == lower_seq(s@),
{
    let v = chars_of(s);
    let mut out = String::new();
    let mut i: usize = 0;
    while i < v.len()
        invariant
            i <= v.len(),
            v@ == s@,
            out@ =~= lower_seq(s@).subrange(0, i as int),
        decreases v.len() - i,
    {
        let l = lower_char(v[i]);
        push_char(&mut out, l);
        i = i + 1;
    }
    out
}

/// Whether every character of `v[from..to]` is an ASCII digit.
pub fn all_digits_exec(v: &Vec<char>, from: usize, to: usize) -> (r: bool)
    requires
        from <= to <= v@.len(),
    ensures
        r == all_digits(v@.subrange(from as int, to as int)),
{
    let mut i = from;
    while i < to
        invariant
            from <= i <= to <= v@.len(),
            forall|j: int| from <= j < i ==> is_digit(v@[j]),
        decreases to - i,
    {
        if !('0' <= v[i] && v[i] <= '9') {
            assert(!is_digit(v@.subrange(from as int, to as int)[i - from]));
            return false;
        }
        i = i + 1;
    }
    assert forall|j: int| 0 <= j < to - from implies is_digit(
        #[trigger] v@.subrange(from as int, to as int)[j],
    ) by {
        assert(v@.subrange(from as int, to as int)[j] == v@[from + j]);
    }
    true
}

/// Whether `v` contains any whitespace character.
pub fn has_ws_exec(v: &Vec<char>) -> (r: bool)
    ensures
        r == has_ws(v@),
{
    let mut i: usize = 0;
    while i < v.len()
        invariant
            i <= v.len(),
            forall|j: int| 0 <= j < i ==> !is_ws(v@[j]),
        decreases v.len() - i,
    {
        if is_whitespace(v[i]) {
            return true;
        }
        i = i + 1;
    }
    false
}

/// Whether `v` contains `c`.
pub fn contains_exec(v: &Vec<char>, c: char) -> (r: bool)
    ensures
        r == contains_char(v@, c),
{
    let mut i: usize = 0;
    while i < v.len()
        invariant
            i <= v.len(),
            forall|j: int| 0 <= j < i ==> v@[j] != c,
        decreases v.len() - i,
    {
        if v[i] == c {
            return true;
        }
        i = i + 1;
    }
    false
}

/// Whether `s` starts with the characters of `p`.
pub fn starts_with_exec(s: &Vec<char>, p: &Vec<char>) -> (r: bool)
    ensures
        r == starts_with(s@, p@),
{
    if p.len() > s.len() {
        return false;
    }
    let mut i: usize = 0;
    while i < p.len()
        invariant
            p.len() <= s.len(),
            i <= p.len(),
            forall|j: int| 0 <= j < i ==> s@[j] == p@[j],
        decreases p.len() - i,
    {
        if s[i] != p[i] {
            assert(s@.subrange(0, p@.len() as int)[i as int] != p@[i as int]);
            return false;
        }
        i = i + 1;
    }
    assert(s@.subrange(0, p@.len() as int) =~= p@);
    true
}

/// Whether `s` ends with the characters of `p`.
pub fn ends_with_exec(s: &Vec<char>, p: &Vec<char>) -> (r: bool)
    ensures
        r == ends_with(s@, p@),
{
    if p.len() > s.len() {
        return false;
    }
    let off = s.len() - p.len();
    let mut i: usize = 0;
    while i < p.len()
        invariant
            p.len() <= s.len(),
            off == s.len() - p.len(),
            i <= p.len(),
            forall|j: int| 0 <= j < i ==> s@[off + j] == p@[j],
        decreases p.len() - i,
    {
        if s[off + i] != p[i] {
            assert(s@.subrange(off as int, s@.len() as int)[i as int] != p@[i as int]);
            return false;
        }
        i = i + 1;
    }
    assert(s@.subrange(off as int, s@.len() as int) =~= p@);
    true
}


/// The value of a run of decimal digits, most significant first.
pub open spec fn digits_value(s: Seq<char>) -> int
    decreases s.len(),
{
    if s.len() == 0 {
        0
    } else {
        digits_value(s.drop_last()) * 10 + (s.last() as int - '0' as int)
    }
}

/// What `str::parse` reads as an integer, before its range is checked: an
/// optional sign and at least one decimal digit, nothing else.
pub open spec fn parsed_integer(s: Seq<char>) -> Option<int> {
    if s.len() == 0 {
        None
    } else {
        let signed = s[0] == '-' || s[0] == '+';
        let body = if signed {
            s.skip(1)
        } else {
            s
        };
        if body.len() > 0 && all_digits(body) {
            Some(
                if s[0] == '-' {
                    -digits_value(body)
                } else {
                    digits_value(body)
                },
            )
        } else {
            None
        }
    }
}

/// `str::parse::<T>` for an integer type whose range is `[low, high]`.
pub open spec fn parsed_in_range(s: Seq<char>, low: int, high: int) -> Option<int> {
    match parsed_integer(s) {
        Some(v) => if low <= v <= high {
            Some(v)
        } else {
            None
        },
        None => None,
    }
}

pub proof fn lemma_digits_value_prefix(s: Seq<char>, i: int)
    requires
        0 <= i <= s.len(),
        all_digits(s),
    ensures
        0 <= digits_value(s.take(i)) <= digits_value(s),
    decreases s.len() - i,
{
    if i < s.len() {
        lemma_digits_value_prefix(s, i + 1);
        assert(s.take(i + 1).drop_last() =~= s.take(i));
        assert(is_digit(s[i]));
    } else {
        assert(s.take(i) =~= s);
    }
    lemma_digits_value_nonneg(s.take(i));
}

pub proof fn lemma_digits_value_nonneg(s: Seq<char>)
    requires
        all_digits(s),
    ensures
        digits_value(s) >= 0,
    decreases s.len(),
{
    if s.len() > 0 {
        assert(is_digit(s[s.len() - 1]));
        lemma_digits_value_nonneg(s.drop_last());
    }
}

/// Parses a decimal integer in `[low, high]` the way `str::parse` does for
/// `i64` and the narrower signed types.
#[verifier::loop_isolation(false)]
pub fn parse_integer(s: &str, low: i64, high: i64) -> (r: Option<i64>)
    requires
        low <= 0 <= high,
    ensures
        match parsed_in_range(s@, low as int, high as int) {
            Some(v) => r == Some(v as i64),
            None => r is None,
        },
{
    let v = chars_of(s);
    let n = v.len();
    if n == 0 {
        return None;
    }
    let negative = v[0] == '-';
    let start: usize = if v[0] == '-' || v[0] == '+' {
        1
    } else {
        0
    };
    if start >= n {
        proof {
            assert(v@.skip(1).len() == 0);
        }
        return None;
    }
    let ghost body = v@.skip(start as int);
    proof {
        if start == 0 {
            assert(body =~= v@);
        }
    }
    let bound: i128 = if negative {
        0i128 - (low as i128)
    } else {
        high as i128
    };
    let mut acc: i128 = 0;
    let mut i: usize = start;
    while i < n
        invariant
            start <= i <= n,
            n == v@.len(),
            body == v@.skip(start as int),
            0 <= bound <= 0x8000_0000_0000_0000,
            all_digits(body.take(i - start)),
            acc == digits_value(body.take(i - start)),
            0 <= acc <= bound,
        decreases n - i,
    {
        let c = v[i];
        if !('0' <= c && c <= '9') {
            proof {
                assert(body[i - start] == c);
            }
            return None;
        }
        proof {
            assert(body.take(i - start + 1).drop_last() =~= body.take(i - start));
            assert(body.take(i - start + 1).last() == c);
        }
        acc = acc * 10 + ((c as u32 - '0' as u32) as i128);
        if acc > bound {
            proof {
                assert forall|k: int| 0 <= k < i - start + 1 implies is_digit(#[trigger] body.take(i - start + 1)[k]) by {
                    if k < i - start {
                        assert(body.take(i - start + 1)[k] == body.take(i - start)[k]);
                    }
                }
                if all_digits(body) {
                    lemma_digits_value_prefix(body, i - start + 1);
                }
            }
            return None;
        }
        proof {
            assert forall|k: int| 0 <= k < i - start + 1 implies is_digit(#[trigger] body.take(i - start + 1)[k]) by {
                if k < i - start {
                    assert(body.take(i - start + 1)[k] == body.take(i - start)[k]);
                }
            }
        }
        i = i + 1;
    }
    proof {
        assert(body.take(n - start) =~= body);
    }
    if negative {
        let value = 0i128 - acc;
        if value < low as i128 {
            return None;
        }
        Some(value as i64)
    } else {
        if acc > high as i128 {
            return None;
        }
        Some(acc as i64)
    }
}

/// The decimal digits of `n`, most significant first, without leading zeros.
pub open spec fn decimal(n: nat) -> Seq<char>
    decreases n,
{
    if n < 10 {
        seq![digit_char(n)]
    } else {
        decimal(n / 10).push(digit_char(n % 10))
    }
}

pub open spec fn digit_char(d: nat) -> char {
    if d == 0 {
        '0'
    } else if d == 1 {
        '1'
    } else if d == 2 {
        '2'
    } else if d == 3 {
        '3'
    } else if d == 4 {
        '4'
    } else if d == 5 {
        '5'
    } else if d == 6 {
        '6'
    } else if d == 7 {
        '7'
    } else if d == 8 {
        '8'
    } else {
        '9'
    }
}

fn digit_char_exec(d: u64) -> (c: char)
    requires
        d < 10,
    ensures
        c == digit_char(d as nat),
{
    if d == 0 {
        '0'
    } else if d == 1 {
        '1'
    } else if d == 2 {
        '2'
    } else if d == 3 {
        '3'
    } else if d == 4 {
        '4'
    } else if d == 5 {
        '5'
    } else if d == 6 {
        '6'
    } else if d == 7 {
        '7'
    } else if d == 8 {
        '8'
    } else {
        '9'
    }
}

/// `u64::to_string`.
pub fn decimal_text(n: u64) -> (r: String)
    ensures
        r@ == decimal(n as nat),
    decreases n,
{
    if n < 10 {
        let mut s = String::new();
        push_char(&mut s, digit_char_exec(n));
        proof {
            assert(s@ =~= seq![digit_char(n as nat)]);
        }
        s
    } else {
        let mut s = decimal_text(n / 10);
        push_char(&mut s, digit_char_exec(n % 10));
        s
    }
}

/// `i64::to_string`: a minus sign before the digits of the magnitude.
pub open spec fn signed_decimal(n: int) -> Seq<char> {
    if n < 0 {
        seq!['-'] + decimal((-n) as nat)
    } else {
        decimal(n as nat)
    }
}

pub fn signed_decimal_text(n: i64) -> (r: String)
    ensures
        r@ == signed_decimal(n as int),
{
    if n < 0 {
        let magnitude: u64 = (0i128 - (n as i128)) as u64;
        let digits = decimal_text(magnitude);
        let mut s = String::new();
        push_char(&mut s, '-');
        append_str_to(&mut s, digits.as_str());
        proof {
            assert(s@ =~= seq!['-'] + decimal((-n) as nat));
        }
        s
    } else {
        decimal_text(n as u64)
    }
}

/// Whether `key` is one of the names in `list`.
pub open spec fn in_list(list: Seq<&str>, key: Seq<char>) -> bool {
    exists|i: int| 0 <= i < list.len() && (#[trigger] list[i])@ == key
}

pub fn in_list_exec(list: &[&str], key: &str) -> (r: bool)
    ensures
        r == in_list(list@, key@),
{
    let mut i: usize = 0;
    while i < list.len()
        invariant
            i <= list@.len(),
            forall|j: int| 0 <= j < i ==> (#[trigger] list@[j])@ != key@,
        decreases list@.len() - i,
    {
        if str_eq(list[i], key) {
            return true;
        }
        i = i + 1;
    }
    false
}


pub proof fn lemma_lex_irreflexive(a: Seq<char>)
    ensures
        !lex_lt(a, a),
    decreases a.len(),
{
    if a.len() > 0 {
        lemma_lex_irreflexive(a.drop_first());
    }
}

pub proof fn lemma_lex_transitive(a: Seq<char>, b: Seq<char>, c: Seq<char>)
    requires
        lex_lt(a, b),
        lex_lt(b, c),
    ensures
        lex_lt(a, c),
    decreases a.len(),
{
    if a.len() > 0 && b.len() > 0 && c.len() > 0 && a[0] == b[0] && b[0] == c[0] {
        lemma_lex_transitive(a.drop_first(), b.drop_first(), c.drop_first());
    }
}

pub proof fn lemma_lex_total(a: Seq<char>, b: Seq<char>)
    requires
        a != b,
    ensures
        lex_lt(a, b) || lex_lt(b, a),
    decreases a.len(),
{
    if a.len() > 0 && b.len() > 0 && a[0] == b[0] {
        if a.drop_first() == b.drop_first() {
            assert(a.drop_first().len() == b.drop_first().len());
            assert forall|k: int| 0 <= k < a.len() implies a[k] == b[k] by {
                if k > 0 {
                    assert(a[k] == a.drop_first()[k - 1]);
                    assert(b[k] == b.drop_first()[k - 1]);
                }
            }
            assert(a =~= b);
        } else {
            lemma_lex_total(a.drop_first(), b.drop_first());
        }
    } else if a.len() == 0 && b.len() == 0 {
        assert(a =~= b);
    }
}

pub proof fn lemma_lex_asymmetric(a: Seq<char>, b: Seq<char>)
    requires
        lex_lt(a, b),
    ensures
        !lex_lt(b, a),
{
    if lex_lt(b, a) {
        lemma_lex_transitive(a, b, a);
        lemma_lex_irreflexive(a);
    }
}

/// Where leading whitespace ends: at the end, or at a character that is
/// not whitespace.
pub proof fn lemma_ws_start_stops(s: Seq<char>, i: int)
    requires
        0 <= i <= s.len(),
    ensures
        i <= ws_start(s, i) <= s.len(),
        ws_start(s, i) < s.len() ==> !is_ws(s[ws_start(s, i)]),
    decreases s.len() - i,
{
    if i < s.len() && is_ws(s[i]) {
        lemma_ws_start_stops(s, i + 1);
    }
}

/// Where trailing whitespace starts: at the start, or after a character
/// that is not whitespace.
pub proof fn lemma_ws_end_stops(s: Seq<char>, j: int)
    requires
        0 <= j <= s.len(),
    ensures
        0 <= ws_end(s, j) <= j,
        ws_end(s, j) > 0 ==> !is_ws(s[ws_end(s, j) - 1]),
    decreases j,
{
    if j > 0 && is_ws(s[j - 1]) {
        lemma_ws_end_stops(s, j - 1);
    }
}

/// Text that neither starts nor ends with whitespace is its own trim.
pub proof fn lemma_trim_of_trimmed(u: Seq<char>)
    requires
        u.len() > 0 ==> !is_ws(u[0]) && !is_ws(u[u.len() - 1]),
    ensures
        trim(u) == u,
{
    if u.len() > 0 {
        assert(u.subrange(0, u.len() as int) =~= u);
    } else {
        assert(trim(u) =~= u);
    }
}

/// The trimmed text neither starts nor ends with whitespace.
pub proof fn lemma_trim_is_clean(s: Seq<char>)
    ensures
        trim(s).len() > 0 ==> !is_ws(trim(s)[0]) && !is_ws(trim(s)[trim(s).len() - 1]),
{
    lemma_ws_start_stops(s, 0);
    lemma_ws_end_stops(s, s.len() as int);
}

/// Trimming twice trims once.
pub proof fn law_trim_is_idempotent(s: Seq<char>)
    ensures
        trim(trim(s)) == trim(s),
{
    lemma_trim_is_clean(s);
    lemma_trim_of_trimmed(trim(s));
}

/// Lower-casing keeps whether a character is whitespace, and lower-casing
/// twice lower-cases once.
pub proof fn lemma_lower_char(c: char)
    ensures
        is_ws(lower(c)) == is_ws(c),
        lower(lower(c)) == lower(c),
{
}

/// Trimming and lower-casing twice gives what doing it once gives.
pub proof fn law_trim_lower_is_idempotent(s: Seq<char>)
    ensures
        lower_seq(trim(lower_seq(trim(s)))) == lower_seq(trim(s)),
{
    let t = trim(s);
    let u = lower_seq(t);
    lemma_trim_is_clean(s);
    if u.len() > 0 {
        lemma_lower_char(t[0]);
        lemma_lower_char(t[t.len() - 1]);
    }
    lemma_trim_of_trimmed(u);
    assert forall|i: int| 0 <= i < u.len() implies lower(#[trigger] u[i]) == u[i] by {
        lemma_lower_char(t[i]);
    }
    assert(lower_seq(u) =~= u);
}

} // verus!
