//! Character-level text helpers shared by the naming and parsing code.
use vstd::prelude::*;
use vstd::string::*;

verus! {

/// The character of a decimal digit `d` (0 through 9).
pub open spec fn digit_char(d: int) -> char
    recommends
        0 <= d < 10,
{
    (d + 48) as char
}

/// Decimal digits of a natural number, most significant first, no leading zeros.
pub open spec fn digits(n: nat) -> Seq<char>
    decreases n,
{
    if n < 10 {
        seq![digit_char(n as int)]
    } else {
        digits(n / 10).push(digit_char((n % 10) as int))
    }
}

/// The decimal rendering of an integer, with a leading '-' when negative.
pub open spec fn decimal(n: int) -> Seq<char> {
    if n < 0 {
        seq!['-'] + digits((-n) as nat)
    } else {
        digits(n as nat)
    }
}

/// `k` zero characters (none when `k` is not positive).
pub open spec fn zeros(k: int) -> Seq<char> {
    Seq::new(if k > 0 { k as nat } else { 0 }, |i: int| '0')
}

/// The decimal rendering of `n` padded with zeros after the sign to at
/// least `width` characters, as the `{:0width}` format renders integers.
pub open spec fn padded(n: int, width: int) -> Seq<char> {
    let sign = if n < 0 { seq!['-'] } else { Seq::<char>::empty() };
    let body = if n < 0 { digits((-n) as nat) } else { digits(n as nat) };
    sign + zeros(width - sign.len() - body.len()) + body
}

/// ASCII lower-casing of one character; every other character is unchanged.
pub open spec fn ascii_lower(c: char) -> char {
    if 'A' <= c <= 'Z' {
        ((c as u32) + 32) as char
    } else {
        c
    }
}

/// Equality of two character sequences up to ASCII case.
pub open spec fn eq_ignore_ascii_case(a: Seq<char>, b: Seq<char>) -> bool {
    &&& a.len() == b.len()
    &&& forall|i: int| 0 <= i < a.len() ==> ascii_lower(#[trigger] a[i]) == ascii_lower(b[i])
}

/// Whether `needle` occurs as a contiguous block of `hay` starting at `at`.
pub open spec fn occurs_at(hay: Seq<char>, needle: Seq<char>, at: int) -> bool {
    0 <= at && at + needle.len() <= hay.len() && hay.subrange(at, at + needle.len()) == needle
}

/// Whether `needle` occurs as a contiguous block of `hay`.
pub open spec fn contains_seq(hay: Seq<char>, needle: Seq<char>) -> bool {
    exists|at: int| occurs_at(hay, needle, at)
}

/// Whether `prefix` is a prefix of `s`.
pub open spec fn starts_with_seq(s: Seq<char>, prefix: Seq<char>) -> bool {
    occurs_at(s, prefix, 0)
}

/// Appends one character to a string, by a call of `String::push`.
/// Trusted, not proved: the string afterwards is the string before with
/// exactly that character added at the end.
#[verifier::external_body]
pub(crate) fn push_char(s: &mut String, c: char)
    ensures
        final(s)@ == old(s)@.push(c),
{
    s.push(c);
}

/// A copy of an optional text.
pub(crate) fn copy_optional_text(a: &Option<String>) -> (r: Option<String>)
    ensures
        r == *a,
{
    match a {
        Some(s) => Some(s.clone()),
        None => None,
    }
}

/// The characters of a string slice, in order.
pub fn chars_of(s: &str) -> (r: Vec<char>)
    ensures
        r@ == s@,
{
    let n = s.unicode_len();
    let mut r: Vec<char> = Vec::new();
    let mut i: usize = 0;
    while i < n
        invariant
            n == s@.len(),
            i <= n,
            r@ == s@.subrange(0, i as int),
        decreases n - i,
    {
        let c = s.get_char(i);
        r.push(c);
        i = i + 1;
        assert(r@ =~= s@.subrange(0, i as int));
    }
    assert(r@ =~= s@);
    r
}

/// Appends the decimal digits of `n` to `s`.
pub fn push_digits(s: &mut String, n: u32)
    ensures
        final(s)@ == old(s)@ + digits(n as nat),
    decreases n,
{
    if n < 10 {
        push_char(s, digit_to_char(n));
    } else {
        push_digits(s, n / 10);
        push_char(s, digit_to_char(n % 10));
        assert(digits(n as nat) == digits((n / 10) as nat).push(digit_char((n % 10) as int)));
    }
}

/// Appends the decimal digits of the count `n` to `s`.
pub fn push_count(s: &mut String, n: usize)
    ensures
        final(s)@ == old(s)@ + digits(n as nat),
    decreases n,
{
    if n < 10 {
        push_char(s, digit_to_char(n as u32));
    } else {
        push_count(s, n / 10);
        push_char(s, digit_to_char((n % 10) as u32));
        assert(digits(n as nat) == digits((n / 10) as nat).push(digit_char((n % 10) as int)));
    }
}

/// The character of the decimal digit `d`.
pub fn digit_to_char(d: u32) -> (c: char)
    requires
        d < 10,
    ensures
        c == digit_char(d as int),
{
    if d == 0 { '0' }
    else if d == 1 { '1' }
    else if d == 2 { '2' }
    else if d == 3 { '3' }
    else if d == 4 { '4' }
    else if d == 5 { '5' }
    else if d == 6 { '6' }
    else if d == 7 { '7' }
    else if d == 8 { '8' }
    else { '9' }
}

/// Appends the decimal rendering of `n` to `s`.
pub fn push_decimal(s: &mut String, n: i32)
    ensures
        final(s)@ == old(s)@ + decimal(n as int),
{
    if n < 0 {
        push_char(s, '-');
        let m: u32 = if n == i32::MIN { 2147483648u32 } else { (-n) as u32 };
        push_digits(s, m);
        assert(old(s)@.push('-') + digits(m as nat) =~= old(s)@ + (seq!['-'] + digits(m as nat)));
    } else {
        push_digits(s, n as u32);
    }
}

/// Appends `n` zero-padded to at least `width` characters after its sign.
pub fn push_padded(s: &mut String, n: i32, width: usize)
    ensures
        final(s)@ == old(s)@ + padded(n as int, width as int),
{
    let negative = n < 0;
    let magnitude: u32 = if n == i32::MIN {
        2147483648u32
    } else if n < 0 {
        (-n) as u32
    } else {
        n as u32
    };
    let mut body = String::new();
    push_digits(&mut body, magnitude);
    let body_len = body.as_str().unicode_len();
    let sign_len: usize = if negative { 1 } else { 0 };
    if negative {
        push_char(s, '-');
    }
    let ghost prefix = s@;
    let mut fill: usize = 0;
    if body_len < width && width - body_len > sign_len {
        fill = width - body_len - sign_len;
    }
    let mut i: usize = 0;
    while i < fill
        invariant
            i <= fill,
            s@ == prefix + zeros(i as int),
        decreases fill - i,
    {
        push_char(s, '0');
        i = i + 1;
        assert(s@ =~= prefix + zeros(i as int));
    }
    s.append(body.as_str());
    let ghost sign = if n < 0 { seq!['-'] } else { Seq::<char>::empty() };
    assert(zeros(fill as int) =~= zeros(width - sign.len() - body@.len()));
    assert(s@ =~= old(s)@ + padded(n as int, width as int));
}

/// ASCII lower-casing of one character.
pub fn to_ascii_lower(c: char) -> (r: char)
    ensures
        r == ascii_lower(c),
{
    if 'A' <= c && c <= 'Z' {
        ((c as u8) + 32) as char
    } else {
        c
    }
}

/// Whether `a` and `b` are equal up to ASCII case.
pub fn chars_eq_ignore_ascii_case(a: &[char], b: &[char]) -> (r: bool)
    ensures
        r == eq_ignore_ascii_case(a@, b@),
{
    if a.len() != b.len() {
        return false;
    }
    let mut i: usize = 0;
    while i < a.len()
        invariant
            a@.len() == b@.len(),
            i <= a@.len(),
            forall|j: int| 0 <= j < i ==> ascii_lower(#[trigger] a@[j]) == ascii_lower(b@[j]),
        decreases a.len() - i,
    {
        if to_ascii_lower(a[i]) != to_ascii_lower(b[i]) {
            return false;
        }
        i = i + 1;
    }
    true
}

/// Whether `needle` occurs at position `at` of `hay`.
pub fn chars_occur_at(hay: &[char], needle: &[char], at: usize) -> (r: bool)
    ensures
        r == occurs_at(hay@, needle@, at as int),
{
    if at > hay.len() || needle.len() > hay.len() - at {
        return false;
    }
    let mut i: usize = 0;
    while i < needle.len()
        invariant
            at + needle@.len() <= hay@.len(),
            hay@.len() <= usize::MAX,
            i <= needle@.len(),
            forall|j: int| 0 <= j < i ==> hay@[at + j] == needle@[j],
        decreases needle.len() - i,
    {
        if hay[at + i] != needle[i] {
            assert(hay@.subrange(at as int, at + needle@.len())[i as int] != needle@[i as int]);
            return false;
        }
        i = i + 1;
    }
    assert(hay@.subrange(at as int, at + needle@.len()) =~= needle@);
    true
}

/// Whether `needle` occurs anywhere in `hay`.
pub fn chars_contain(hay: &[char], needle: &[char]) -> (r: bool)
    ensures
        r == contains_seq(hay@, needle@),
{
    if needle.len() > hay.len() {
        assert forall|at: int| !occurs_at(hay@, needle@, at) by {}
        return false;
    }
    let last = hay.len() - needle.len();
    let mut at: usize = 0;
    while at < last
        invariant
            last == hay@.len() - needle@.len(),
            at <= last,
            forall|k: int| 0 <= k < at ==> !occurs_at(hay@, needle@, k),
        decreases last - at,
    {
        if chars_occur_at(hay, needle, at) {
            return true;
        }
        at = at + 1;
    }
    if chars_occur_at(hay, needle, last) {
        return true;
    }
    assert forall|k: int| !occurs_at(hay@, needle@, k) by {
        if 0 <= k < at {
        }
    }
    false
}

} // verus!
