//! Character-level text operations with their mathematical meaning.
//!
//! Strings are viewed as `Seq<char>`. Each executable function here is the
//! counterpart of a small `str` operation (trimming, ASCII case folding,
//! substring search, decimal parsing and printing) and is proved against a
//! spec function that states that operation directly.
use vstd::prelude::*;

verus! {

// ---------------------------------------------------------------------------
// Specifications
// ---------------------------------------------------------------------------
/// Unicode `White_Space`, the set that `char::is_whitespace` (and so
/// `str::trim`) uses.
pub open spec fn is_white(c: char) -> bool {
    ||| ('\u{9}' <= c && c <= '\u{d}')
    ||| c == ' '
    ||| c == '\u{85}'
    ||| c == '\u{a0}'
    ||| c == '\u{1680}'
    ||| ('\u{2000}' <= c && c <= '\u{200a}')
    ||| c == '\u{2028}'
    ||| c == '\u{2029}'
    ||| c == '\u{202f}'
    ||| c == '\u{205f}'
    ||| c == '\u{3000}'
}

/// `s` with leading white space removed.
pub open spec fn trim_start(s: Seq<char>) -> Seq<char>
    decreases s.len(),
{
    if s.len() > 0 && is_white(s[0]) {
        trim_start(s.drop_first())
    } else {
        s
    }
}

/// `s` with trailing white space removed.
pub open spec fn trim_end(s: Seq<char>) -> Seq<char>
    decreases s.len(),
{
    if s.len() > 0 && is_white(s.last()) {
        trim_end(s.drop_last())
    } else {
        s
    }
}

/// `s` with white space removed at both ends (`str::trim`).
pub open spec fn trim(s: Seq<char>) -> Seq<char> {
    trim_end(trim_start(s))
}

/// `c` with `A`..`Z` mapped to `a`..`z` (`char::to_ascii_lowercase`).
pub open spec fn lower_char(c: char) -> char {
    if 'A' <= c && c <= 'Z' {
        ((c as u32) + 32) as char
    } else {
        c
    }
}

/// `str::to_ascii_lowercase`.
pub open spec fn ascii_lower(s: Seq<char>) -> Seq<char> {
    s.map_values(|c: char| lower_char(c))
}

/// Lower-casing twice is lower-casing once.
pub proof fn lemma_ascii_lower_idempotent(s: Seq<char>)
    ensures
        ascii_lower(ascii_lower(s)) == ascii_lower(s),
{
    assert forall|i: int| 0 <= i < s.len() implies lower_char(lower_char(s[i])) == lower_char(
        s[i],
    ) by {
        let c = s[i];
        if 'A' <= c && c <= 'Z' {
            let d = ((c as u32) + 32) as char;
            assert(97 <= (c as u32) + 32 <= 122);
            assert(d as u32 == (c as u32) + 32);
            assert(!('A' <= d && d <= 'Z'));
        }
    }
    assert(ascii_lower(ascii_lower(s)) =~= ascii_lower(s));
}

/// `needle` occurs in `hay` starting at position `i`.
pub open spec fn occurs_at(hay: Seq<char>, needle: Seq<char>, i: int) -> bool {
    0 <= i && i + needle.len() <= hay.len() && hay.subrange(i, i + needle.len()) == needle
}

/// `needle` occurs somewhere in `hay` (`str::contains`).
pub open spec fn contains(hay: Seq<char>, needle: Seq<char>) -> bool {
    exists|i: int| occurs_at(hay, needle, i)
}

/// `hay` begins with `prefix` (`str::starts_with`).
pub open spec fn starts_with(hay: Seq<char>, prefix: Seq<char>) -> bool {
    prefix.len() <= hay.len() && hay.subrange(0, prefix.len() as int) == prefix
}

/// An ASCII decimal digit.
pub open spec fn is_digit(c: char) -> bool {
    '0' <= c && c <= '9'
}

/// Every character of `s` is an ASCII decimal digit.
pub open spec fn all_digits(s: Seq<char>) -> bool {
    forall|i: int| 0 <= i < s.len() ==> is_digit(#[trigger] s[i])
}

/// The number that a string of decimal digits denotes.
pub open spec fn digits_value(s: Seq<char>) -> nat
    decreases s.len(),
{
    if s.len() == 0 {
        0
    } else {
        digits_value(s.drop_last()) * 10 + ((s.last() as u32) - ('0' as u32)) as nat
    }
}

/// What `str::parse` gives for an unsigned type whose largest value is
/// `max`: an optional `+`, then one or more decimal digits whose value does
/// not exceed `max`.
pub open spec fn parse_unsigned(s: Seq<char>, max: nat) -> Option<nat> {
    let digits = if s.len() > 0 && s[0] == '+' {
        s.drop_first()
    } else {
        s
    };
    if digits.len() > 0 && all_digits(digits) && digits_value(digits) <= max {
        Some(digits_value(digits))
    } else {
        None
    }
}

/// `str::parse::<u32>`.
pub open spec fn parse_u32(s: Seq<char>) -> Option<u32> {
    match parse_unsigned(s, u32::MAX as nat) {
        Some(v) => Some(v as u32),
        None => None,
    }
}

/// `str::parse::<u64>`.
pub open spec fn parse_u64(s: Seq<char>) -> Option<u64> {
    match parse_unsigned(s, u64::MAX as nat) {
        Some(v) => Some(v as u64),
        None => None,
    }
}

/// `str::parse::<i32>`: an optional sign, then one or more decimal digits
/// whose signed value fits in an `i32`.
pub open spec fn parse_i32(s: Seq<char>) -> Option<i32> {
    if s.len() > 0 && s[0] == '-' {
        let digits = s.drop_first();
        if digits.len() > 0 && all_digits(digits) && digits_value(digits) <= 0x8000_0000 {
            Some((0 - digits_value(digits)) as i32)
        } else {
            None
        }
    } else {
        match parse_unsigned(s, 0x7fff_ffff) {
            Some(v) => Some(v as i32),
            None => None,
        }
    }
}

/// The digit character for `d < 10`.
pub open spec fn digit_char(d: nat) -> char {
    ((d + 48) as u32) as char
}

/// The shortest decimal rendering of `n` (`u64::to_string` and friends).
pub open spec fn decimal(n: nat) -> Seq<char>
    decreases n,
{
    if n < 10 {
        seq![digit_char(n)]
    } else {
        decimal(n / 10).push(digit_char(n % 10))
    }
}

/// The decimal rendering of a signed number (`i32::to_string`).
pub open spec fn signed_decimal(n: int) -> Seq<char> {
    if n < 0 {
        seq!['-'] + decimal((0 - n) as nat)
    } else {
        decimal(n as nat)
    }
}

// ---------------------------------------------------------------------------
// Lemmas
// ---------------------------------------------------------------------------
proof fn lemma_trim_start_skip(s: Seq<char>, i: int)
    requires
        0 <= i <= s.len(),
        forall|j: int| 0 <= j < i ==> is_white(#[trigger] s[j]),
    ensures
        trim_start(s) == trim_start(s.subrange(i, s.len() as int)),
    decreases i,
{
    if i > 0 {
        assert(s.drop_first() == s.subrange(1, s.len() as int));
        let t = s.drop_first();
        assert forall|j: int| 0 <= j < i - 1 implies is_white(#[trigger] t[j]) by {
            assert(t[j] == s[j + 1]);
        }
        lemma_trim_start_skip(t, i - 1);
        assert(t.subrange(i - 1, t.len() as int) == s.subrange(i, s.len() as int));
    } else {
        assert(s.subrange(0, s.len() as int) == s);
    }
}

proof fn lemma_trim_end_skip(s: Seq<char>, e: int)
    requires
        0 <= e <= s.len(),
        forall|j: int| e <= j < s.len() ==> is_white(#[trigger] s[j]),
    ensures
        trim_end(s) == trim_end(s.subrange(0, e)),
    decreases s.len() - e,
{
    if e < s.len() {
        let t = s.drop_last();
        assert forall|j: int| e <= j < t.len() implies is_white(#[trigger] t[j]) by {
            assert(t[j] == s[j]);
        }
        lemma_trim_end_skip(t, e);
        assert(t.subrange(0, e) == s.subrange(0, e));
    } else {
        assert(s.subrange(0, e) == s);
    }
}

/// The value of a digit string only grows when digits are appended.
pub proof fn lemma_digits_value_prefix(s: Seq<char>, k: int)
    requires
        0 <= k <= s.len(),
    ensures
        digits_value(s.take(k)) <= digits_value(s),
    decreases s.len() - k,
{
    if k < s.len() {
        lemma_digits_value_prefix(s.drop_last(), k);
        assert(s.drop_last().take(k) == s.take(k));
    } else {
        assert(s.take(k) == s);
    }
}

proof fn lemma_digits_value_step(s: Seq<char>, k: int)
    requires
        0 <= k < s.len(),
    ensures
        digits_value(s.take(k + 1)) == digits_value(s.take(k)) * 10 + ((s[k] as u32) - ('0' as u32)) as nat,
{
    assert(s.take(k + 1).drop_last() == s.take(k));
}

/// A decimal rendering is a non-empty digit string denoting its number.
pub proof fn lemma_decimal_digits(n: nat)
    ensures
        decimal(n).len() >= 1,
        all_digits(decimal(n)),
        digits_value(decimal(n)) == n,
    decreases n,
{
    if n >= 10 {
        lemma_decimal_digits(n / 10);
        let d = decimal(n);
        assert(d.drop_last() == decimal(n / 10));
        assert((digit_char(n % 10) as u32) == n % 10 + 48);
        assert(('0' as u32) == 48);
        assert(d.last() == digit_char(n % 10));
        assert(digits_value(d) == digits_value(decimal(n / 10)) * 10 + n % 10);
        assert forall|i: int| 0 <= i < d.len() implies is_digit(#[trigger] d[i]) by {
            if i < d.len() - 1 {
                assert(d[i] == decimal(n / 10)[i]);
            }
        }
    } else {
        let x = seq![digit_char(n)];
        assert(x.drop_last() =~= Seq::<char>::empty());
        assert(digits_value(x.drop_last()) == 0);
        assert(x.last() == digit_char(n));
        assert((digit_char(n) as u32) == n + 48);
        assert(('0' as u32) == 48);
        assert(digits_value(x) == n);
        assert(decimal(n) == x);
    }
}

/// Parsing the decimal rendering of a `u32` gives it back.
pub proof fn lemma_parse_u32_decimal(n: u32)
    ensures
        parse_u32(decimal(n as nat)) == Some(n),
{
    lemma_decimal_digits(n as nat);
    assert(is_digit(decimal(n as nat)[0]));
}

/// Parsing the decimal rendering of an `i32` gives it back.
pub proof fn lemma_parse_i32_decimal(n: i32)
    ensures
        parse_i32(signed_decimal(n as int)) == Some(n),
{
    if n < 0 {
        let m = (0 - n) as nat;
        lemma_decimal_digits(m);
        let s = signed_decimal(n as int);
        assert(s.drop_first() =~= decimal(m));
    } else {
        lemma_decimal_digits(n as nat);
        assert(is_digit(decimal(n as nat)[0]));
    }
}

/// A decimal rendering starts with a digit; a signed one starts with a digit
/// or `-` followed by a digit.
pub proof fn lemma_decimal_shape(n: int)
    ensures
        signed_decimal(n).len() >= 1,
        n >= 0 ==> is_digit(signed_decimal(n)[0]),
        n < 0 ==> signed_decimal(n)[0] == '-' && signed_decimal(n).len() >= 2 && is_digit(
            signed_decimal(n)[1],
        ),
{
    if n < 0 {
        lemma_decimal_digits((0 - n) as nat);
        assert(signed_decimal(n)[1] == decimal((0 - n) as nat)[0]);
    } else {
        lemma_decimal_digits(n as nat);
    }
}

// ---------------------------------------------------------------------------
// Executable operations
// ---------------------------------------------------------------------------
/// Appends one character to a string (`String::push`).
#[verifier::external_body]
pub(crate) fn push_char(s: &mut String, c: char)
    ensures
        final(s)@ == old(s)@.push(c),
{
    s.push(c)
}

/// The characters of a string slice, in order.
pub fn to_chars(s: &str) -> (out: Vec<char>)
    ensures
        out@ == s@,
{
    let mut out: Vec<char> = Vec::new();
    for c in it: s.chars()
        invariant
            out@ == it.seq().take(it.index() as int),
            it.seq() == s@,
    {
        out.push(c);
    }
    out
}

/// Builds a string from a sequence of characters.
pub fn from_chars(v: &[char]) -> (out: String)
    ensures
        out@ == v@,
{
    let mut out = String::new();
    let mut i: usize = 0;
    while i < v.len()
        invariant
            i <= v.len(),
            out@ == v@.take(i as int),
        decreases v.len() - i,
    {
        push_char(&mut out, v[i]);
        i += 1;
    }
    out
}

/// The characters `v[from..to]` as a string.
pub fn chars_range(v: &Vec<char>, from: usize, to: usize) -> (out: String)
    requires
        from <= to <= v.len(),
    ensures
        out@ == v@.subrange(from as int, to as int),
{
    let mut out = String::new();
    let mut i = from;
    while i < to
        invariant
            from <= i <= to <= v.len(),
            out@ == v@.subrange(from as int, i as int),
        decreases to - i,
    {
        push_char(&mut out, v[i]);
        proof {
            assert(v@.subrange(from as int, i + 1) == v@.subrange(from as int, i as int).push(v@[i as int]));
        }
        i += 1;
    }
    out
}

/// A copy of a string slice as an owned string (`str::to_string`).
pub fn owned(s: &str) -> (out: String)
    ensures
        out@ == s@,
{
    let v = to_chars(s);
    from_chars(v.as_slice())
}

/// `a` followed by `b`.
pub fn concat(a: &str, b: &str) -> (out: String)
    ensures
        out@ == a@ + b@,
{
    let mut out = owned(a);
    let v = to_chars(b);
    let mut i: usize = 0;
    while i < v.len()
        invariant
            i <= v.len(),
            v@ == b@,
            out@ == a@ + b@.take(i as int),
        decreases v.len() - i,
    {
        push_char(&mut out, v[i]);
        proof {
            assert(b@.take(i + 1) == b@.take(i as int).push(b@[i as int]));
        }
        i += 1;
    }
    assert(b@.take(b@.len() as int) == b@);
    out
}

/// Whether two strings are equal.
pub fn str_eq(a: &str, b: &str) -> (r: bool)
    ensures
        r == (a@ == b@),
{
    let x = to_chars(a);
    let y = to_chars(b);
    if x.len() != y.len() {
        return false;
    }
    let mut i: usize = 0;
    while i < x.len()
        invariant
            x.len() == y.len(),
            i <= x.len(),
            x@ == a@,
            y@ == b@,
            forall|j: int| 0 <= j < i ==> x@[j] == y@[j],
        decreases x.len() - i,
    {
        if x[i] != y[i] {
            return false;
        }
        i += 1;
    }
    assert(x@ == y@);
    true
}

/// `str::trim`.
pub fn trim_str(s: &str) -> (out: String)
    ensures
        out@ == trim(s@),
{
    let v = to_chars(s);
    let n = v.len();
    let mut start: usize = 0;
    while start < n && is_white_char(v[start])
        invariant
            start <= n,
            n == v@.len(),
            v@ == s@,
            forall|j: int| 0 <= j < start ==> is_white(#[trigger] v@[j]),
        decreases n - start,
    {
        start += 1;
    }
    proof {
        lemma_trim_start_skip(v@, start as int);
        let t = v@.subrange(start as int, n as int);
        if start < n {
            assert(t[0] == v@[start as int]);
        }
        assert(trim_start(t) == t);
    }
    let mut end: usize = n;
    while end > start && is_white_char(v[end - 1])
        invariant
            start <= end <= n,
            n == v@.len(),
            forall|j: int| end <= j < n ==> is_white(#[trigger] v@[j]),
        decreases end - start,
    {
        end -= 1;
    }
    let ghost t = v@.subrange(start as int, n as int);
    proof {
        assert forall|j: int| end - start <= j < t.len() implies is_white(#[trigger] t[j]) by {
            assert(t[j] == v@[j + start]);
        }
        lemma_trim_end_skip(t, end - start);
        let u = t.subrange(0, end - start);
        assert(u == v@.subrange(start as int, end as int));
        if end > start {
            assert(u.last() == v@[end - 1]);
        }
        assert(trim_end(u) == u);
    }
    let mut out = String::new();
    let mut i = start;
    while i < end
        invariant
            start <= i <= end <= n,
            n == v@.len(),
            out@ == v@.subrange(start as int, i as int),
        decreases end - i,
    {
        push_char(&mut out, v[i]);
        proof {
            assert(v@.subrange(start as int, i + 1) == v@.subrange(start as int, i as int).push(v@[i as int]));
        }
        i += 1;
    }
    out
}

/// Whether a string is empty once trimmed (`s.trim().is_empty()`).
pub fn is_blank(s: &str) -> (r: bool)
    ensures
        r == (trim(s@).len() == 0),
{
    let t = trim_str(s);
    t.as_str().is_empty()
}

/// `char::is_whitespace`.
pub fn is_white_char(c: char) -> (r: bool)
    ensures
        r == is_white(c),
{
    ('\u{9}' <= c && c <= '\u{d}') || c == ' ' || c == '\u{85}' || c == '\u{a0}' || c == '\u{1680}'
        || ('\u{2000}' <= c && c <= '\u{200a}') || c == '\u{2028}' || c == '\u{2029}' || c
        == '\u{202f}' || c == '\u{205f}' || c == '\u{3000}'
}

/// `char::to_ascii_lowercase`.
pub fn lower_ascii_char(c: char) -> (r: char)
    ensures
        r == lower_char(c),
{
    if 'A' <= c && c <= 'Z' {
        let code = (c as u32) + 32;
        char_from_ascii_code(code)
    } else {
        c
    }
}

/// The character with an ASCII code point.
fn char_from_ascii_code(code: u32) -> (c: char)
    requires
        code < 128,
    ensures
        c == code as char,
{
    let b = code as u8;
    b as char
}

/// `str::to_ascii_lowercase`.
pub fn to_ascii_lower(s: &str) -> (out: String)
    ensures
        out@ == ascii_lower(s@),
{
    let v = to_chars(s);
    let mut out = String::new();
    let mut i: usize = 0;
    while i < v.len()
        invariant
            i <= v.len(),
            v@ == s@,
            out@ == ascii_lower(s@).take(i as int),
        decreases v.len() - i,
    {
        let c = lower_ascii_char(v[i]);
        push_char(&mut out, c);
        proof {
            assert(ascii_lower(s@).take(i + 1) == ascii_lower(s@).take(i as int).push(c));
        }
        i += 1;
    }
    assert(ascii_lower(s@).take(v.len() as int) == ascii_lower(s@));
    out
}

/// Whether `needle` occurs in `hay` at position `i`.
fn occurs_at_exec(hay: &Vec<char>, needle: &Vec<char>, i: usize) -> (r: bool)
    requires
        i + needle.len() <= hay.len(),
    ensures
        r == occurs_at(hay@, needle@, i as int),
{
    let mut k: usize = 0;
    while k < needle.len()
        invariant
            k <= needle.len(),
            i + needle.len() <= hay.len(),
            forall|j: int| 0 <= j < k ==> hay@[i + j] == needle@[j],
        decreases needle.len() - k,
    {
        if hay[i + k] != needle[k] {
            proof {
                let sub = hay@.subrange(i as int, i + needle.len());
                assert(sub[k as int] == hay@[i + k]);
            }
            return false;
        }
        k += 1;
    }
    assert(hay@.subrange(i as int, i + needle.len()) == needle@);
    true
}

/// `str::contains` for a string needle.
pub fn contains_str(hay: &str, needle: &str) -> (r: bool)
    ensures
        r == contains(hay@, needle@),
{
    let h = to_chars(hay);
    let n = to_chars(needle);
    if n.len() == 0 {
        assert(hay@.subrange(0, 0) =~= needle@);
        assert(occurs_at(hay@, needle@, 0));
        return true;
    }
    if n.len() > h.len() {
        assert forall|j: int| !occurs_at(hay@, needle@, j) by {}
        return false;
    }
    let mut i: usize = 0;
    while i <= h.len() - n.len()
        invariant
            0 < n.len() <= h.len(),
            i <= h.len(),
            h@ == hay@,
            n@ == needle@,
            forall|j: int| 0 <= j < i ==> !occurs_at(hay@, needle@, j),
        decreases h.len() - i,
    {
        if occurs_at_exec(&h, &n, i) {
            return true;
        }
        i += 1;
    }
    assert forall|j: int| !occurs_at(hay@, needle@, j) by {
        if 0 <= j && j + needle@.len() <= hay@.len() {
            assert(j < i);
        }
    }
    false
}

/// `str::starts_with` for a string prefix.
pub fn starts_with_str(hay: &str, prefix: &str) -> (r: bool)
    ensures
        r == starts_with(hay@, prefix@),
{
    let h = to_chars(hay);
    let p = to_chars(prefix);
    if p.len() > h.len() {
        return false;
    }
    occurs_at_exec(&h, &p, 0)
}

/// The rest of `hay` after `prefix`, when `hay` starts with it
/// (`str::strip_prefix`).
pub fn strip_prefix_str(hay: &str, prefix: &str) -> (r: Option<String>)
    ensures
        r is Some <==> starts_with(hay@, prefix@),
        r matches Some(rest) ==> rest@ == hay@.subrange(prefix@.len() as int, hay@.len() as int),
{
    let h = to_chars(hay);
    let p = to_chars(prefix);
    if p.len() > h.len() {
        return None;
    }
    if !occurs_at_exec(&h, &p, 0) {
        return None;
    }
    let mut out = String::new();
    let mut i = p.len();
    while i < h.len()
        invariant
            p.len() <= i <= h.len(),
            h@ == hay@,
            p@ == prefix@,
            out@ == hay@.subrange(p.len() as int, i as int),
        decreases h.len() - i,
    {
        push_char(&mut out, h[i]);
        proof {
            assert(hay@.subrange(p.len() as int, i + 1) == hay@.subrange(p.len() as int, i as int).push(hay@[i as int]));
        }
        i += 1;
    }
    Some(out)
}

/// Parses an unsigned decimal number no larger than `max`.
fn parse_unsigned_exec(s: &str, max: u64) -> (r: Option<u64>)
    requires
        max >= 9,
    ensures
        match parse_unsigned(s@, max as nat) {
            Some(v) => r == Some(v as u64),
            None => r is None,
        },
{
    let v = to_chars(s);
    let start: usize = if v.len() > 0 && v[0] == '+' { 1 } else { 0 };
    let ghost digits = if s@.len() > 0 && s@[0] == '+' { s@.drop_first() } else { s@ };
    assert(digits == v@.subrange(start as int, v@.len() as int));
    if start >= v.len() {
        return None;
    }
    let mut i = start;
    while i < v.len()
        invariant
            start <= i <= v.len(),
            v@ == s@,
            digits == (if s@.len() > 0 && s@[0] == '+' { s@.drop_first() } else { s@ }),
            digits == v@.subrange(start as int, v@.len() as int),
            forall|j: int| start <= j < i ==> is_digit(#[trigger] v@[j]),
        decreases v.len() - i,
    {
        if !('0' <= v[i] && v[i] <= '9') {
            assert(digits[i - start] == v@[i as int]);
            assert(!all_digits(digits));
            return None;
        }
        i += 1;
    }
    assert(all_digits(digits)) by {
        assert forall|j: int| 0 <= j < digits.len() implies is_digit(#[trigger] digits[j]) by {
            assert(digits[j] == v@[j + start]);
        }
    }
    let mut acc: u64 = 0;
    let mut k = start;
    while k < v.len()
        invariant
            start <= k <= v.len(),
            v@ == s@,
            max >= 9,
            digits == (if s@.len() > 0 && s@[0] == '+' { s@.drop_first() } else { s@ }),
            digits == v@.subrange(start as int, v@.len() as int),
            all_digits(digits),
            acc as nat == digits_value(digits.take(k - start)),
            acc <= max,
        decreases v.len() - k,
    {
        proof {
            assert(digits[k - start] == v@[k as int]);
            assert(is_digit(digits[k - start]));
            lemma_digits_value_step(digits, k - start);
        }
        let d = (v[k] as u32 - '0' as u32) as u64;
        assert(d <= 9);
        if acc > (max - d) / 10 {
            proof {
                assert(acc * 10 + d > max) by (nonlinear_arith)
                    requires
                        acc > (max - d) / 10,
                        d <= max || d > max,
                ;
                lemma_digits_value_prefix(digits, k - start + 1);
            }
            return None;
        }
        proof {
            assert(acc * 10 + d <= max) by (nonlinear_arith)
                requires
                    acc <= (max - d) / 10,
                    d <= 9,
            ;
        }
        acc = acc * 10 + d;
        k += 1;
    }
    assert(digits.take(digits.len() as int) == digits);
    Some(acc)
}

/// `str::parse::<u32>`.
pub fn parse_u32_str(s: &str) -> (r: Option<u32>)
    ensures
        r == parse_u32(s@),
{
    match parse_unsigned_exec(s, 0xffff_ffff) {
        Some(v) => Some(v as u32),
        None => None,
    }
}

/// `str::parse::<u64>`.
pub fn parse_u64_str(s: &str) -> (r: Option<u64>)
    ensures
        r == parse_u64(s@),
{
    parse_unsigned_exec(s, 0xffff_ffff_ffff_ffff)
}

/// `str::parse::<i32>`.
pub fn parse_i32_str(s: &str) -> (r: Option<i32>)
    ensures
        r == parse_i32(s@),
{
    let v = to_chars(s);
    if v.len() > 0 && v[0] == '-' {
        let rest = chars_range(&v, 1, v.len());
        proof {
            assert(rest@ == s@.drop_first());
        }
        let rv = to_chars(rest.as_str());
        if rv.len() > 0 && rv[0] == '+' {
            // "-+5" is not a number; the unsigned parser would accept "+5".
            assert(!is_digit(rest@[0]));
            assert(!all_digits(rest@));
            return None;
        }
        match parse_unsigned_exec(rest.as_str(), 0x8000_0000) {
            Some(m) => {
                let r: i64 = 0 - (m as i64);
                Some(r as i32)
            },
            None => None,
        }
    } else {
        match parse_unsigned_exec(s, 0x7fff_ffff) {
            Some(m) => Some(m as i32),
            None => None,
        }
    }
}

/// The digit character of `d < 10`.
fn digit_char_exec(d: u64) -> (c: char)
    requires
        d < 10,
    ensures
        c == digit_char(d as nat),
{
    char_from_ascii_code((d + 48) as u32)
}

/// `u64::to_string`.
pub fn u64_to_decimal(n: u64) -> (out: String)
    ensures
        out@ == decimal(n as nat),
    decreases n,
{
    if n < 10 {
        let mut out = String::new();
        push_char(&mut out, digit_char_exec(n));
        assert(out@ == seq![digit_char(n as nat)]);
        out
    } else {
        let mut out = u64_to_decimal(n / 10);
        push_char(&mut out, digit_char_exec(n % 10));
        out
    }
}

/// `u32::to_string`.
pub fn u32_to_decimal(n: u32) -> (out: String)
    ensures
        out@ == decimal(n as nat),
{
    u64_to_decimal(n as u64)
}

/// `i32::to_string`.
pub fn i32_to_decimal(n: i32) -> (out: String)
    ensures
        out@ == signed_decimal(n as int),
{
    if n < 0 {
        let m: i64 = 0 - (n as i64);
        let digits = u64_to_decimal(m as u64);
        let mut out = String::new();
        push_char(&mut out, '-');
        let r = concat(out.as_str(), digits.as_str());
        r
    } else {
        u64_to_decimal(n as u64)
    }
}


// ---------------------------------------------------------------------------
// Owned values
// ---------------------------------------------------------------------------
/// The view of an optional string.
pub open spec fn opt_view(o: Option<String>) -> Option<Seq<char>> {
    match o {
        Some(s) => Some(s@),
        None => None,
    }
}

/// The views of a list of strings.
pub open spec fn strs_view(v: Seq<String>) -> Seq<Seq<char>> {
    v.map_values(|s: String| s@)
}

/// A copy of an optional string.
pub fn copy_opt(o: &Option<String>) -> (r: Option<String>)
    ensures
        opt_view(r) == opt_view(*o),
{
    match o {
        Some(s) => Some(s.clone()),
        None => None,
    }
}

/// A copy of a list of strings.
pub fn copy_strings(v: &Vec<String>) -> (r: Vec<String>)
    ensures
        strs_view(r@) == strs_view(v@),
{
    let mut r: Vec<String> = Vec::new();
    let mut i: usize = 0;
    while i < v.len()
        invariant
            i <= v.len(),
            strs_view(r@) == strs_view(v@).take(i as int),
        decreases v.len() - i,
    {
        let c = v[i].clone();
        let ghost before = r@;
        r.push(c);
        proof {
            assert(r@ == before.push(v@[i as int]));
            assert(strs_view(r@) =~= strs_view(before).push(v@[i as int]@));
            assert(strs_view(v@).take(i + 1) =~= strs_view(v@).take(i as int).push(v@[i as int]@));
        }
        i += 1;
    }
    assert(strs_view(v@).take(v.len() as int) == strs_view(v@));
    r
}

/// A string built from a literal.
pub fn lit(s: &str) -> (r: String)
    ensures
        r@ == s@,
{
    owned(s)
}


// ---------------------------------------------------------------------------
// Words, lines and joins
// ---------------------------------------------------------------------------
/// The length of the run of non-white characters at the start of `s`.
pub open spec fn word_len(s: Seq<char>) -> nat
    decreases s.len(),
{
    if s.len() == 0 || is_white(s[0]) {
        0
    } else {
        1 + word_len(s.drop_first())
    }
}

/// The white-space separated words of `s` (`str::split_whitespace`).
pub open spec fn words(s: Seq<char>) -> Seq<Seq<char>>
    decreases s.len(),
{
    if s.len() == 0 {
        Seq::empty()
    } else if is_white(s[0]) {
        words(s.drop_first())
    } else {
        proof {
            lemma_word_len_bound(s);
        }
        seq![s.take(word_len(s) as int)] + words(s.skip(word_len(s) as int))
    }
}

/// The length of `s` up to its first line feed, or all of it.
pub open spec fn line_len(s: Seq<char>) -> nat
    decreases s.len(),
{
    if s.len() == 0 || s[0] == '\n' {
        0
    } else {
        1 + line_len(s.drop_first())
    }
}

/// A line ended by a line feed, without a carriage return before it.
pub open spec fn strip_cr(line: Seq<char>) -> Seq<char> {
    if line.len() > 0 && line.last() == '\r' {
        line.drop_last()
    } else {
        line
    }
}

/// The lines of `s` (`str::lines`): split at line feeds, a carriage return
/// before a line feed dropped, and no empty line after a final line feed.
pub open spec fn lines(s: Seq<char>) -> Seq<Seq<char>>
    decreases s.len(),
{
    if s.len() == 0 {
        Seq::empty()
    } else if line_len(s) < s.len() {
        seq![strip_cr(s.take(line_len(s) as int))] + lines(s.skip(line_len(s) as int + 1))
    } else {
        seq![s]
    }
}

/// The pieces of `parts` with `sep` between each two (`[..].join(sep)`).
pub open spec fn joined(parts: Seq<Seq<char>>, sep: Seq<char>) -> Seq<char>
    decreases parts.len(),
{
    if parts.len() == 0 {
        Seq::empty()
    } else if parts.len() == 1 {
        parts[0]
    } else {
        joined(parts.drop_last(), sep) + sep + parts.last()
    }
}

pub proof fn lemma_word_len_bound(s: Seq<char>)
    ensures
        word_len(s) <= s.len(),
        forall|i: int| 0 <= i < word_len(s) ==> !is_white(#[trigger] s[i]),
        word_len(s) < s.len() ==> is_white(s[word_len(s) as int]),
    decreases s.len(),
{
    if s.len() > 0 && !is_white(s[0]) {
        lemma_word_len_bound(s.drop_first());
        assert forall|i: int| 0 <= i < word_len(s) implies !is_white(#[trigger] s[i]) by {
            if i > 0 {
                assert(s[i] == s.drop_first()[i - 1]);
            }
        }
    }
}

proof fn lemma_word_len_at(s: Seq<char>, n: int)
    requires
        0 <= n <= s.len(),
        forall|i: int| 0 <= i < n ==> !is_white(#[trigger] s[i]),
        n < s.len() ==> is_white(s[n]),
    ensures
        word_len(s) == n,
    decreases n,
{
    if n > 0 {
        let t = s.drop_first();
        assert forall|i: int| 0 <= i < n - 1 implies !is_white(#[trigger] t[i]) by {
            assert(t[i] == s[i + 1]);
        }
        if n - 1 < t.len() {
            assert(t[n - 1] == s[n]);
        }
        lemma_word_len_at(t, n - 1);
    }
}

proof fn lemma_line_len_at(s: Seq<char>, n: int)
    requires
        0 <= n <= s.len(),
        forall|i: int| 0 <= i < n ==> #[trigger] s[i] != '\n',
        n < s.len() ==> s[n] == '\n',
    ensures
        line_len(s) == n,
    decreases n,
{
    if n > 0 {
        let t = s.drop_first();
        assert forall|i: int| 0 <= i < n - 1 implies #[trigger] t[i] != '\n' by {
            assert(t[i] == s[i + 1]);
        }
        if n - 1 < t.len() {
            assert(t[n - 1] == s[n]);
        }
        lemma_line_len_at(t, n - 1);
    }
}

/// `str::split_whitespace`.
pub fn split_words(s: &str) -> (out: Vec<String>)
    ensures
        strs_view(out@) == words(s@),
{
    let v = to_chars(s);
    let n = v.len();
    let mut out: Vec<String> = Vec::new();
    let mut i: usize = 0;
    proof {
        assert(s@.skip(0) =~= s@);
        assert(strs_view(out@) + words(s@) =~= words(s@));
    }
    while i < n
        invariant
            i <= n,
            n == v@.len(),
            v@ == s@,
            words(s@) == strs_view(out@) + words(s@.skip(i as int)),
        decreases n - i,
    {
        if is_white_char(v[i]) {
            proof {
                assert(s@.skip(i as int).drop_first() =~= s@.skip(i + 1));
            }
            i += 1;
        } else {
            let mut j = i;
            while j < n && !is_white_char(v[j])
                invariant
                    i <= j <= n,
                    n == v@.len(),
                    forall|m: int| i <= m < j ==> !is_white(#[trigger] v@[m]),
                decreases n - j,
            {
                j += 1;
            }
            let word = chars_range(&v, i, j);
            let ghost rest = s@.skip(i as int);
            proof {
                assert forall|m: int| 0 <= m < j - i implies !is_white(#[trigger] rest[m]) by {
                    assert(rest[m] == v@[i + m]);
                }
                if j < n {
                    assert(rest[j - i] == v@[j as int]);
                }
                lemma_word_len_at(rest, j - i);
                assert(rest[0] == v@[i as int]);
                assert(rest.take(j - i) =~= v@.subrange(i as int, j as int));
                assert(rest.skip(j - i) =~= s@.skip(j as int));
            }
            let ghost before = out@;
            out.push(word);
            proof {
                assert(strs_view(out@) =~= strs_view(before).push(word@));
                assert(strs_view(out@) + words(s@.skip(j as int)) =~= strs_view(before) + (seq![
                    word@,
                ] + words(s@.skip(j as int))));
            }
            i = j;
        }
    }
    proof {
        assert(s@.skip(n as int) =~= Seq::<char>::empty());
        assert(strs_view(out@) + Seq::<Seq<char>>::empty() =~= strs_view(out@));
    }
    out
}

/// `str::lines`.
pub fn split_lines(s: &str) -> (out: Vec<String>)
    ensures
        strs_view(out@) == lines(s@),
{
    let v = to_chars(s);
    let n = v.len();
    let mut out: Vec<String> = Vec::new();
    let mut i: usize = 0;
    proof {
        assert(s@.skip(0) =~= s@);
        assert(strs_view(out@) + lines(s@) =~= lines(s@));
    }
    while i < n
        invariant
            i <= n,
            n == v@.len(),
            v@ == s@,
            lines(s@) == strs_view(out@) + lines(s@.skip(i as int)),
        decreases n - i,
    {
        let mut j = i;
        while j < n && v[j] != '\n'
            invariant
                i <= j <= n,
                n == v@.len(),
                forall|m: int| i <= m < j ==> #[trigger] v@[m] != '\n',
            decreases n - j,
        {
            j += 1;
        }
        let ghost rest = s@.skip(i as int);
        proof {
            assert forall|m: int| 0 <= m < j - i implies #[trigger] rest[m] != '\n' by {
                assert(rest[m] == v@[i + m]);
            }
            if j < n {
                assert(rest[j - i] == v@[j as int]);
            }
            lemma_line_len_at(rest, j - i);
            assert(rest.take(j - i) =~= v@.subrange(i as int, j as int));
        }
        let ghost before = out@;
        if j < n {
            let end = if j > i && v[j - 1] == '\r' {
                j - 1
            } else {
                j
            };
            let line = chars_range(&v, i, end);
            proof {
                assert(line@ =~= strip_cr(rest.take(j - i)));
                assert(rest.skip(j - i + 1) =~= s@.skip(j + 1));
            }
            out.push(line);
            proof {
                assert(strs_view(out@) =~= strs_view(before).push(line@));
                assert(strs_view(out@) + lines(s@.skip(j + 1)) =~= strs_view(before) + (seq![
                    line@,
                ] + lines(s@.skip(j + 1))));
            }
            i = j + 1;
        } else {
            let line = chars_range(&v, i, n);
            proof {
                assert(rest =~= v@.subrange(i as int, n as int));
                assert(s@.skip(n as int) =~= Seq::<char>::empty());
            }
            out.push(line);
            proof {
                assert(strs_view(out@) =~= strs_view(before).push(line@));
                assert(strs_view(out@) + Seq::<Seq<char>>::empty() =~= strs_view(before) + seq![line@]);
            }
            i = n;
        }
    }
    proof {
        assert(s@.skip(n as int) =~= Seq::<char>::empty());
        assert(strs_view(out@) + Seq::<Seq<char>>::empty() =~= strs_view(out@));
    }
    out
}

/// Joins the strings of `parts` with `sep` between each two.
pub fn join_strs(parts: &Vec<String>, sep: &str) -> (out: String)
    ensures
        out@ == joined(strs_view(parts@), sep@),
{
    let mut out = String::new();
    let mut i: usize = 0;
    while i < parts.len()
        invariant
            i <= parts.len(),
            out@ == joined(strs_view(parts@).take(i as int), sep@),
        decreases parts.len() - i,
    {
        let ghost prev = strs_view(parts@).take(i as int);
        if i == 0 {
            out = parts[0].clone();
            assert(strs_view(parts@).take(1) =~= seq![parts@[0]@]);
        } else {
            let with_sep = concat(out.as_str(), sep);
            out = concat(with_sep.as_str(), parts[i].as_str());
            assert(strs_view(parts@).take(i + 1).drop_last() =~= prev);
        }
        i += 1;
    }
    assert(strs_view(parts@).take(parts.len() as int) =~= strs_view(parts@));
    out
}

/// `s` with leading white space removed (`str::trim_start`).
pub fn trim_start_str(s: &str) -> (out: String)
    ensures
        out@ == trim_start(s@),
{
    let v = to_chars(s);
    let n = v.len();
    let mut start: usize = 0;
    while start < n && is_white_char(v[start])
        invariant
            start <= n,
            n == v@.len(),
            v@ == s@,
            forall|j: int| 0 <= j < start ==> is_white(#[trigger] v@[j]),
        decreases n - start,
    {
        start += 1;
    }
    proof {
        lemma_trim_start_skip(v@, start as int);
        let t = v@.subrange(start as int, n as int);
        if start < n {
            assert(t[0] == v@[start as int]);
        }
        assert(trim_start(t) == t);
    }
    chars_range(&v, start, n)
}

/// What `format!("{:?}", s)` gives for a string: the quoted, escaped form.
pub uninterp spec fn debug_text(s: Seq<char>) -> Seq<char>;

/// The `Debug` rendering of a string: quoted, with escapes.
#[verifier::external_body]
pub(crate) fn debug_quoted(s: &str) -> (r: String)
    ensures
        r@ == debug_text(s@),
{
    format!("{:?}", s)
}
// ---------------------------------------------------------------------------
// Order of strings
// ---------------------------------------------------------------------------
/// `a` comes before `b` in the order of `String` (lexicographic by
/// character, a proper prefix first).
pub open spec fn text_less(a: Seq<char>, b: Seq<char>) -> bool
    decreases a.len(),
{
    if a.len() == 0 {
        b.len() > 0
    } else if b.len() == 0 {
        false
    } else if a[0] != b[0] {
        a[0] < b[0]
    } else {
        text_less(a.drop_first(), b.drop_first())
    }
}

/// No text comes before itself.
pub proof fn lemma_text_less_irreflexive(a: Seq<char>)
    ensures
        !text_less(a, a),
    decreases a.len(),
{
    if a.len() > 0 {
        lemma_text_less_irreflexive(a.drop_first());
    }
}

/// Of two different texts, one comes before the other.
pub proof fn lemma_text_less_total(a: Seq<char>, b: Seq<char>)
    requires
        a != b,
    ensures
        text_less(a, b) || text_less(b, a),
    decreases a.len(),
{
    if a.len() == 0 {
        if b.len() == 0 {
            assert(a =~= b);
        }
    } else if b.len() == 0 {
    } else if a[0] != b[0] {
    } else if a.drop_first() =~= b.drop_first() {
        assert forall|i: int| 0 <= i < a.len() implies a[i] == b[i] by {
            if i > 0 {
                assert(a[i] == a.drop_first()[i - 1]);
                assert(b[i] == b.drop_first()[i - 1]);
            }
        }
        assert(a =~= b);
    } else {
        lemma_text_less_total(a.drop_first(), b.drop_first());
    }
}

/// The order of texts is transitive.
pub proof fn lemma_text_less_transitive(a: Seq<char>, b: Seq<char>, c: Seq<char>)
    requires
        text_less(a, b),
        text_less(b, c),
    ensures
        text_less(a, c),
    decreases a.len(),
{
    if a.len() > 0 && b.len() > 0 && c.len() > 0 && a[0] == b[0] && b[0] == c[0] {
        lemma_text_less_transitive(a.drop_first(), b.drop_first(), c.drop_first());
    }
}

/// Whether `a` comes before `b` in the order of `String`.
pub fn text_lt(a: &str, b: &str) -> (r: bool)
    ensures
        r == text_less(a@, b@),
{
    let x = to_chars(a);
    let y = to_chars(b);
    let mut i: usize = 0;
    assert(a@.skip(0) =~= a@);
    assert(b@.skip(0) =~= b@);
    while i < x.len() && i < y.len() && x[i] == y[i]
        invariant
            i <= x.len(),
            i <= y.len(),
            x@ == a@,
            y@ == b@,
            text_less(a@, b@) == text_less(a@.skip(i as int), b@.skip(i as int)),
        decreases x.len() - i,
    {
        assert(a@.skip(i as int).drop_first() =~= a@.skip(i + 1));
        assert(b@.skip(i as int).drop_first() =~= b@.skip(i + 1));
        i += 1;
    }
    if i == x.len() {
        i < y.len()
    } else if i == y.len() {
        false
    } else {
        x[i] < y[i]
    }
}

/// Each text comes before every later one.
pub open spec fn strictly_ascending(s: Seq<Seq<char>>) -> bool {
    forall|i: int, j: int| 0 <= i < j < s.len() ==> text_less(s[i], s[j])
}

/// The strings of `v` in ascending order, each once (`sort` then `dedup`).
pub fn sorted_unique(v: &Vec<String>) -> (r: Vec<String>)
    ensures
        strictly_ascending(strs_view(r@)),
        strs_view(r@).to_set() == strs_view(v@).to_set(),
{
    let mut out: Vec<String> = Vec::new();
    let mut i: usize = 0;
    while i < v.len()
        invariant
            i <= v.len(),
            strictly_ascending(strs_view(out@)),
            strs_view(out@).to_set() == strs_view(v@.take(i as int)).to_set(),
        decreases v.len() - i,
    {
        let x = &v[i];
        let mut k: usize = 0;
        while k < out.len() && text_lt(out[k].as_str(), x.as_str())
            invariant
                k <= out.len(),
                forall|j: int| 0 <= j < k ==> text_less(#[trigger] out@[j]@, x@),
            decreases out.len() - k,
        {
            k += 1;
        }
        let ghost before = strs_view(out@);
        assert(strs_view(v@.take(i + 1)) =~= strs_view(v@.take(i as int)).push(x@));
        if k < out.len() && str_eq(out[k].as_str(), x.as_str()) {
            assert(before.contains(x@)) by {
                assert(before[k as int] == x@);
            }
            proof {
                strs_view(v@.take(i as int)).lemma_push_to_set_commute(x@);
            }
            assert(strs_view(v@.take(i + 1)).to_set() =~= before.to_set());
        } else {
            proof {
                if k < out.len() {
                    lemma_text_less_total(out@[k as int]@, x@);
                }
            }
            out.insert(k, lit(x.as_str()));
            proof {
                let after = strs_view(out@);
                assert(after =~= before.insert(k as int, x@));
                assert forall|q: int| k < q < after.len() implies text_less(x@, after[q]) by {
                    assert(after[q] == before[q - 1]);
                    if q - 1 > k {
                        lemma_text_less_transitive(x@, before[k as int], before[q - 1]);
                    }
                }
                assert forall|p: int, q: int| 0 <= p < q < after.len() implies text_less(
                    after[p],
                    after[q],
                ) by {
                    if q < k {
                    } else if q == k {
                    } else if p < k {
                        lemma_text_less_transitive(after[p], x@, after[q]);
                    } else if p == k {
                    } else {
                        assert(after[p] == before[p - 1]);
                        assert(after[q] == before[q - 1]);
                    }
                }
                assert(after.to_set() =~= before.to_set().insert(x@)) by {
                    assert forall|t: Seq<char>| after.to_set().contains(t) implies before.to_set().insert(
                        x@,
                    ).contains(t) by {
                        let j = choose|j: int| 0 <= j < after.len() && after[j] == t;
                        if j < k {
                            assert(before[j] == t);
                        } else if j > k {
                            assert(before[j - 1] == t);
                        }
                    }
                    assert forall|t: Seq<char>| before.to_set().insert(x@).contains(t) implies after.to_set().contains(
                        t,
                    ) by {
                        if t == x@ {
                            assert(after[k as int] == t);
                        } else {
                            let j = choose|j: int| 0 <= j < before.len() && before[j] == t;
                            if j < k {
                                assert(after[j] == t);
                            } else {
                                assert(after[j + 1] == t);
                            }
                        }
                    }
                }
                strs_view(v@.take(i as int)).lemma_push_to_set_commute(x@);
            }
        }
        i += 1;
    }
    assert(v@.take(v.len() as int) =~= v@);
    out
}

/// `idx` lists the positions of `keys` in the order of a stable sort: each
/// position once, keys ascending, equal keys in their original order.
pub open spec fn stable_order_of(keys: Seq<Seq<char>>, idx: Seq<int>) -> bool {
    &&& idx.len() == keys.len()
    &&& forall|p: int| 0 <= p < idx.len() ==> 0 <= #[trigger] idx[p] < keys.len()
    &&& forall|p: int, q: int| 0 <= p < q < idx.len() ==> idx[p] != idx[q]
    &&& forall|p: int, q: int| 0 <= p < q < idx.len() ==> !text_less(keys[idx[q]], keys[idx[p]])
    &&& forall|p: int, q: int|
        0 <= p < q < idx.len() && keys[idx[p]] == keys[idx[q]] ==> idx[p] < idx[q]
}

/// A list of positions as integers.
pub open spec fn positions(v: Seq<usize>) -> Seq<int> {
    v.map_values(|x: usize| x as int)
}

/// The positions of `keys` in the order of a stable sort by key.
pub fn stable_order(keys: &Vec<String>) -> (idx: Vec<usize>)
    ensures
        stable_order_of(strs_view(keys@), positions(idx@)),
{
    let ghost ks = strs_view(keys@);
    let mut out: Vec<usize> = Vec::new();
    let mut i: usize = 0;
    while i < keys.len()
        invariant
            i <= keys.len(),
            ks == strs_view(keys@),
            positions(out@).len() == i,
            forall|p: int| 0 <= p < i ==> 0 <= #[trigger] positions(out@)[p] < i,
            forall|p: int, q: int| 0 <= p < q < i ==> positions(out@)[p] != positions(out@)[q],
            forall|p: int, q: int|
                0 <= p < q < i ==> !text_less(ks[positions(out@)[q]], ks[positions(out@)[p]]),
            forall|p: int, q: int|
                0 <= p < q < i && ks[positions(out@)[p]] == ks[positions(out@)[q]] ==> positions(out@)[p]
                    < positions(out@)[q],
        decreases keys.len() - i,
    {
        let x = keys[i].as_str();
        let mut k: usize = 0;
        let mut stop = false;
        while k < out.len() && !stop
            invariant
                k <= out.len(),
                out.len() == i,
                i < keys.len(),
                ks == strs_view(keys@),
                forall|p: int| 0 <= p < i ==> 0 <= #[trigger] positions(out@)[p] < i,
                forall|j: int| 0 <= j < k ==> !text_less(x@, #[trigger] ks[positions(out@)[j]]),
                stop ==> k < out.len() && text_less(x@, ks[positions(out@)[k as int]]),
            decreases out.len() - k, if stop { 0int } else { 1int },
        {
            assert(0 <= positions(out@)[k as int] < i);
            let j = out[k];
            if text_lt(x, keys[j].as_str()) {
                stop = true;
            } else {
                k += 1;
            }
        }
        assert(k < out.len() ==> text_less(x@, ks[positions(out@)[k as int]]));
        let ghost before = positions(out@);
        out.insert(k, i);
        proof {
            let after = positions(out@);
            let xv = ks[i as int];
            assert(xv == x@);
            assert(after =~= before.insert(k as int, i as int));
            assert forall|p: int| 0 <= p < i + 1 implies 0 <= #[trigger] after[p] < i + 1 by {
                if p < k {
                    assert(after[p] == before[p]);
                } else if p > k {
                    assert(after[p] == before[p - 1]);
                }
            }
            assert forall|q: int| k < q < i + 1 implies !text_less(ks[after[q]], xv) by {
                assert(after[q] == before[q - 1]);
                if text_less(ks[before[q - 1]], xv) {
                    lemma_text_less_transitive(ks[before[q - 1]], xv, ks[before[k as int]]);
                    if q - 1 == k {
                        lemma_text_less_irreflexive(xv);
                        lemma_text_less_irreflexive(ks[before[k as int]]);
                    }
                }
            }
            assert forall|q: int| k < q < i + 1 implies ks[after[q]] != xv by {
                assert(after[q] == before[q - 1]);
                if q - 1 > k && ks[before[q - 1]] == xv {
                    assert(!text_less(ks[before[q - 1]], ks[before[k as int]]));
                }
            }
            assert forall|p: int, q: int| 0 <= p < q < i + 1 implies after[p] != after[q] by {
                if p < k && q < k {
                } else if p < k && q == k {
                } else if p < k {
                    assert(after[q] == before[q - 1]);
                } else if p == k {
                    assert(after[q] == before[q - 1]);
                } else {
                    assert(after[p] == before[p - 1]);
                    assert(after[q] == before[q - 1]);
                }
            }
            assert forall|p: int, q: int| 0 <= p < q < i + 1 implies !text_less(ks[after[q]], ks[after[p]]) by {
                if q < k {
                } else if q == k {
                } else if p < k {
                    assert(after[q] == before[q - 1]);
                    if text_less(ks[after[q]], ks[after[p]]) {
                        lemma_text_less_total(ks[after[p]], xv);
                        if text_less(ks[after[p]], xv) {
                            lemma_text_less_transitive(ks[after[q]], ks[after[p]], xv);
                        }
                    }
                } else if p == k {
                } else {
                    assert(after[p] == before[p - 1]);
                    assert(after[q] == before[q - 1]);
                }
            }
            assert forall|p: int, q: int|
                0 <= p < q < i + 1 && ks[after[p]] == ks[after[q]] implies after[p] < after[q] by {
                if q < k {
                } else if q == k {
                } else if p < k {
                    assert(after[q] == before[q - 1]);
                    if ks[after[p]] == ks[after[q]] {
                        lemma_text_less_total(ks[after[p]], xv);
                    }
                } else if p == k {
                } else {
                    assert(after[p] == before[p - 1]);
                    assert(after[q] == before[q - 1]);
                }
            }
        }
        i += 1;
    }
    out
}


/// The trimmed lines of a text that are not empty, in order.
pub open spec fn trimmed_nonempty(ls: Seq<Seq<char>>) -> Seq<Seq<char>>
    decreases ls.len(),
{
    if ls.len() == 0 {
        Seq::empty()
    } else {
        let prev = trimmed_nonempty(ls.drop_last());
        if trim(ls.last()).len() > 0 {
            prev.push(trim(ls.last()))
        } else {
            prev
        }
    }
}

/// The trimmed, non-empty lines of a text, in order.
pub fn trimmed_lines(text: &str) -> (out: Vec<String>)
    ensures
        strs_view(out@) == trimmed_nonempty(lines(text@)),
{
    let ls = split_lines(text);
    let mut out: Vec<String> = Vec::new();
    let mut i: usize = 0;
    while i < ls.len()
        invariant
            i <= ls.len(),
            strs_view(ls@) == lines(text@),
            strs_view(out@) == trimmed_nonempty(strs_view(ls@).take(i as int)),
        decreases ls.len() - i,
    {
        let t = trim_str(ls[i].as_str());
        proof {
            assert(strs_view(ls@).take(i + 1).drop_last() =~= strs_view(ls@).take(i as int));
            assert(strs_view(ls@).take(i + 1).last() == ls@[i as int]@);
        }
        if !str_eq(t.as_str(), "") {
            proof {
                reveal_strlit("");
                assert(t@.len() == 0 ==> t@ =~= ""@);
            }
            let ghost before = out@;
            out.push(t);
            assert(strs_view(out@) =~= strs_view(before).push(t@));
        } else {
            proof {
                reveal_strlit("");
            }
        }
        i += 1;
    }
    assert(strs_view(ls@).take(ls.len() as int) =~= strs_view(ls@));
    out
}


} // verus!
