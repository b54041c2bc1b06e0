//! Raw sound cards: reading the kernel's card list and the ALSA tools'
//! device listings, naming ALSA devices, and recognising Focusrite
//! interfaces.
use vstd::prelude::*;
use vstd::string::*;
use crate::audio::{lower_contains, lowercase, to_lowercase};
use crate::text::{chars_of, chars_contain, chars_occur_at, contains_seq, occurs_at, starts_with_seq, digits, push_char, push_digits};

verus! {

/// Whether `c` is white space: it has the Unicode White_Space property, as
/// `char::is_whitespace` decides.
pub open spec fn is_space(c: char) -> bool {
    ||| '\u{9}' <= c <= '\u{d}'
    ||| c == ' '
    ||| c == '\u{85}'
    ||| c == '\u{a0}'
    ||| c == '\u{1680}'
    ||| '\u{2000}' <= c <= '\u{200a}'
    ||| c == '\u{2028}'
    ||| c == '\u{2029}'
    ||| c == '\u{202f}'
    ||| c == '\u{205f}'
    ||| c == '\u{3000}'
}

/// The first position from `i` on that does not hold white space.
pub open spec fn skip_space(s: Seq<char>, i: int) -> int
    decreases s.len() - i,
{
    if 0 <= i < s.len() && is_space(s[i]) {
        skip_space(s, i + 1)
    } else {
        i
    }
}

/// The first position from `i` on that holds white space (or the end).
pub open spec fn skip_word(s: Seq<char>, i: int) -> int
    decreases s.len() - i,
{
    if 0 <= i < s.len() && !is_space(s[i]) {
        skip_word(s, i + 1)
    } else {
        i
    }
}

/// The position just past the last character before `j` that is not
/// white space (0 when there is none).
pub open spec fn trim_end_index(s: Seq<char>, j: int) -> int
    decreases j,
{
    if 0 < j <= s.len() && is_space(s[j - 1]) {
        trim_end_index(s, j - 1)
    } else {
        j
    }
}

/// `s` without its leading and trailing white space (`str::trim`).
pub open spec fn trimmed(s: Seq<char>) -> Seq<char> {
    let start = skip_space(s, 0);
    if start >= s.len() {
        Seq::<char>::empty()
    } else {
        s.subrange(start, trim_end_index(s, s.len() as int))
    }
}

/// The value of a string of decimal digits.
pub open spec fn digits_value(d: Seq<char>) -> int
    decreases d.len(),
{
    if d.len() == 0 {
        0
    } else {
        digits_value(d.drop_last()) * 10 + (d.last() as int - 48)
    }
}

/// Whether every character of `d` is a decimal digit.
pub open spec fn all_digits(d: Seq<char>) -> bool {
    forall|i: int| 0 <= i < d.len() ==> '0' <= #[trigger] d[i] <= '9'
}

/// The number a text denotes as `u32`'s `FromStr` reads it: an optional
/// '+' and at least one decimal digit, with a value that fits in 32 bits.
pub open spec fn parsed_u32(t: Seq<char>) -> Option<u32> {
    let d = if t.len() > 0 && t[0] == '+' { t.drop_first() } else { t };
    if d.len() > 0 && all_digits(d) && digits_value(d) <= u32::MAX {
        Some(digits_value(d) as u32)
    } else {
        None
    }
}

/// The first position from `i` on where "]:" starts.
pub open spec fn find_marker(s: Seq<char>, i: int) -> Option<int>
    decreases s.len() - i,
{
    if i < 0 || i + 2 > s.len() {
        None
    } else if s[i] == ']' && s[i + 1] == ':' {
        Some(i)
    } else {
        find_marker(s, i + 1)
    }
}

/// The second field of a line split at "]:" (from after the first "]:" to
/// the next one or the end), or the whole line when it holds no "]:".
pub open spec fn name_field(line: Seq<char>) -> Seq<char> {
    match find_marker(line, 0) {
        Some(p) => {
            let rest = line.subrange(p + 2, line.len() as int);
            match find_marker(rest, 0) {
                Some(q) => rest.subrange(0, q),
                None => rest,
            }
        },
        None => line,
    }
}

/// The card a line of the kernel's card list (`/proc/asound/cards`)
/// describes, as in " 2 [USB            ]: USB-Audio - Scarlett 2i2 USB":
/// a line that starts with a space, holds '[' and has at least two
/// whitespace-separated words, the first of which is the card number. The
/// card name is the text after "]:", trimmed.
pub open spec fn card_line(line: Seq<char>) -> Option<(u32, Seq<char>)> {
    if line.len() > 0 && line[0] == ' ' && line.contains('[') {
        let start = skip_space(line, 0);
        let end = skip_word(line, start);
        if skip_space(line, end) < line.len() {
            match parsed_u32(line.subrange(start, end)) {
                Some(card) => Some((card, trimmed(name_field(line)))),
                None => None,
            }
        } else {
            None
        }
    } else {
        None
    }
}

/// Whether `c` is white space (`char::is_whitespace`).
pub fn is_space_char(c: char) -> (r: bool)
    ensures
        r == is_space(c),
{
    ('\u{9}' <= c && c <= '\u{d}') || c == ' ' || c == '\u{85}' || c == '\u{a0}' || c == '\u{1680}'
        || ('\u{2000}' <= c && c <= '\u{200a}') || c == '\u{2028}' || c == '\u{2029}' || c == '\u{202f}'
        || c == '\u{205f}' || c == '\u{3000}'
}

fn skip_space_from(s: &[char], i: usize) -> (r: usize)
    requires
        i <= s@.len(),
    ensures
        r as int == skip_space(s@, i as int),
        i <= r <= s@.len(),
{
    let mut j = i;
    while j < s.len() && is_space_char(s[j])
        invariant
            i <= j <= s@.len(),
            skip_space(s@, i as int) == skip_space(s@, j as int),
        decreases s.len() - j,
    {
        j = j + 1;
    }
    j
}

fn skip_word_from(s: &[char], i: usize) -> (r: usize)
    requires
        i <= s@.len(),
    ensures
        r as int == skip_word(s@, i as int),
        i <= r <= s@.len(),
{
    let mut j = i;
    while j < s.len() && !is_space_char(s[j])
        invariant
            i <= j <= s@.len(),
            skip_word(s@, i as int) == skip_word(s@, j as int),
        decreases s.len() - j,
    {
        j = j + 1;
    }
    j
}

fn trim_end_from(s: &[char], j: usize) -> (r: usize)
    requires
        j <= s@.len(),
    ensures
        r as int == trim_end_index(s@, j as int),
        r <= j,
{
    let mut k = j;
    while k > 0 && is_space_char(s[k - 1])
        invariant
            k <= j <= s@.len(),
            trim_end_index(s@, j as int) == trim_end_index(s@, k as int),
        decreases k,
    {
        k = k - 1;
    }
    k
}

fn find_marker_from(s: &[char], i: usize) -> (r: Option<usize>)
    requires
        i <= s@.len(),
    ensures
        match find_marker(s@, i as int) {
            Some(p) => r == Some(p as usize) && i <= p && p + 2 <= s@.len(),
            None => r is None,
        },
{
    let mut j = i;
    while s.len() - j >= 2
        invariant
            i <= j <= s@.len(),
            find_marker(s@, i as int) == find_marker(s@, j as int),
        decreases s.len() - j,
    {
        if s[j] == ']' && s[j + 1] == ':' {
            return Some(j);
        }
        j = j + 1;
    }
    None
}

/// A string holding exactly the characters of `chars`.
fn string_of(chars: &[char]) -> (r: String)
    ensures
        r@ == chars@,
{
    let mut r = String::new();
    let mut i: usize = 0;
    while i < chars.len()
        invariant
            i <= chars@.len(),
            r@ == chars@.subrange(0, i as int),
        decreases chars.len() - i,
    {
        push_char(&mut r, chars[i]);
        i = i + 1;
        assert(r@ =~= chars@.subrange(0, i as int));
    }
    assert(r@ =~= chars@);
    r
}

/// The characters of `s` without leading and trailing white space.
fn trim_chars(s: &[char]) -> (r: Vec<char>)
    ensures
        r@ == trimmed(s@),
{
    let start = skip_space_from(s, 0);
    if start >= s.len() {
        return Vec::new();
    }
    let end = trim_end_from(s, s.len());
    proof { lemma_trim_end_past_start(s@, s@.len() as int, start as int); }
    let mut r: Vec<char> = Vec::new();
    let mut i = start;
    while i < end
        invariant
            start <= i <= end <= s@.len(),
            r@ == s@.subrange(start as int, i as int),
        decreases end - i,
    {
        r.push(s[i]);
        i = i + 1;
        assert(r@ =~= s@.subrange(start as int, i as int));
    }
    r
}

proof fn lemma_skip_space_stops(s: Seq<char>, i: int)
    requires
        0 <= i <= s.len(),
    ensures
        i <= skip_space(s, i) <= s.len(),
        skip_space(s, i) < s.len() ==> !is_space(s[skip_space(s, i)]),
        forall|k: int| i <= k < skip_space(s, i) ==> is_space(#[trigger] s[k]),
    decreases s.len() - i,
{
    if i < s.len() && is_space(s[i]) {
        lemma_skip_space_stops(s, i + 1);
    }
}

proof fn lemma_trim_end_past_start(s: Seq<char>, j: int, start: int)
    requires
        start == skip_space(s, 0),
        start < j <= s.len(),
    ensures
        start < trim_end_index(s, j),
    decreases j,
{
    lemma_skip_space_stops(s, 0);
    if is_space(s[j - 1]) {
        assert(j - 1 != start);
        lemma_trim_end_past_start(s, j - 1, start);
    }
}

/// The number `t` denotes, read as `u32`'s `FromStr` reads it.
fn parse_u32(t: &[char]) -> (r: Option<u32>)
    ensures
        r == parsed_u32(t@),
{
    let skip: usize = if t.len() > 0 && t[0] == '+' { 1 } else { 0 };
    let d = &t[skip..t.len()];
    assert(d@ =~= (if t@.len() > 0 && t@[0] == '+' { t@.drop_first() } else { t@ }));
    if d.len() == 0 {
        return None;
    }
    let mut value: u64 = 0;
    let mut i: usize = 0;
    while i < d.len()
        invariant
            d@ == (if t@.len() > 0 && t@[0] == '+' { t@.drop_first() } else { t@ }),
            d@.len() > 0,
            i <= d@.len(),
            all_digits(d@.subrange(0, i as int)),
            value as int == if digits_value(d@.subrange(0, i as int)) > u32::MAX {
                u32::MAX + 1
            } else {
                digits_value(d@.subrange(0, i as int))
            },
        decreases d.len() - i,
    {
        let c = d[i];
        if !('0' <= c && c <= '9') {
            assert(!all_digits(d@)) by {
                assert(d@[i as int] == c);
            }
            return None;
        }
        let digit: u64 = (c as u64) - 48;
        let ghost prefix = d@.subrange(0, i as int);
        let ghost next = d@.subrange(0, i as int + 1);
        assert(next.drop_last() =~= prefix);
        assert(next.last() == c);
        assert(digits_value(next) == digits_value(prefix) * 10 + digit);
        if value > 4294967295u64 {
            assert(digits_value(next) > u32::MAX);
        } else {
            value = value * 10 + digit;
            if value > 4294967295u64 {
                value = 4294967296u64;
            }
        }
        i = i + 1;
        assert(all_digits(d@.subrange(0, i as int))) by {
            assert forall|k: int| 0 <= k < i implies '0' <= #[trigger] d@.subrange(0, i as int)[k] <= '9' by {
                if k < i - 1 {
                    assert(d@.subrange(0, i as int)[k] == prefix[k]);
                }
            }
        }
    }
    assert(d@.subrange(0, d@.len() as int) =~= d@);
    if value > 4294967295u64 {
        None
    } else {
        Some(value as u32)
    }
}

/// The card number and name that a line of the kernel's card list
/// (`/proc/asound/cards`) describes, if it describes one.
pub fn parse_card_line(line: &str) -> (r: Option<(u32, String)>)
    ensures
        match card_line(line@) {
            Some((card, name)) => r matches Some((c, n)) && c == card && n@ == name,
            None => r is None,
        },
{
    let chars = chars_of(line);
    let s = chars.as_slice();
    if s.len() == 0 || s[0] != ' ' {
        return None;
    }
    let mut has_bracket = false;
    let mut i: usize = 0;
    while i < s.len()
        invariant
            i <= s@.len(),
            has_bracket == exists|k: int| 0 <= k < i && s@[k] == '[',
        decreases s.len() - i,
    {
        if s[i] == '[' {
            has_bracket = true;
        }
        i = i + 1;
    }
    if !has_bracket {
        assert(!line@.contains('['));
        return None;
    }
    assert(line@.contains('[')) by {
        let k = choose|k: int| 0 <= k < s@.len() && s@[k] == '[';
        assert(line@[k] == '[');
    }
    let start = skip_space_from(s, 0);
    let end = skip_word_from(s, start);
    let after = skip_space_from(s, end);
    if after >= s.len() {
        return None;
    }
    let number = &s[start..end];
    assert(number@ =~= line@.subrange(start as int, end as int));
    let card = match parse_u32(number) {
        Some(card) => card,
        None => return None,
    };
    let field: &[char] = match find_marker_from(s, 0) {
        Some(p) => {
            let rest = &s[p + 2..s.len()];
            assert(rest@ =~= line@.subrange(p + 2, line@.len() as int));
            match find_marker_from(rest, 0) {
                Some(q) => {
                    let f = &rest[0..q];
                    assert(f@ =~= rest@.subrange(0, q as int));
                    f
                },
                None => rest,
            }
        },
        None => s,
    };
    assert(field@ == name_field(line@));
    let name = trim_chars(field);
    Some((card, string_of(name.as_slice())))
}

/// Whether an ALSA device listing (the output of `aplay -l` or `arecord -l`)
/// mentions the card: some line holds "card {card_num}". A listing line
/// never holds a line break, so this is whether the listing holds it.
pub open spec fn lists_card_text(listing: Seq<char>, card_num: u32) -> bool {
    contains_seq(listing, "card "@ + digits(card_num as nat))
}

/// Whether an ALSA device listing mentions the card `card_num`.
pub fn lists_card(listing: &str, card_num: u32) -> (r: bool)
    ensures
        r == lists_card_text(listing@, card_num),
{
    let mut needle = String::from_str("card ");
    push_digits(&mut needle, card_num);
    let hay = chars_of(listing);
    let needle_chars = chars_of(needle.as_str());
    chars_contain(hay.as_slice(), needle_chars.as_slice())
}

/// A raw sound card found on the system.
#[derive(Debug, Clone, PartialEq)]
pub struct HardwareDevice {
    pub card_num: u32,
    pub card_name: String,
    pub usb_id: Option<String>,
    pub is_input: bool,
    pub is_output: bool,
}

/// ALSA device name for a card and device ("hw:{card},{device}").
pub fn get_alsa_device_name(card_num: u32, device_num: u32, is_input: bool) -> (r: String)
    ensures
        r@ == "hw:"@ + digits(card_num as nat) + ","@ + digits(device_num as nat),
{
    let mut name = String::from_str("hw:");
    push_digits(&mut name, card_num);
    name.append(",");
    push_digits(&mut name, device_num);
    name
}

/// Whether a device is a Focusrite/Scarlett interface: by its name (in
/// lower case) or by Focusrite's USB vendor id 1235.
pub open spec fn is_focusrite(d: HardwareDevice) -> bool {
    ||| contains_seq(lowercase(d.card_name@), "focusrite"@)
    ||| contains_seq(lowercase(d.card_name@), "scarlett"@)
    ||| (d.usb_id matches Some(id) && starts_with_seq(id@, "1235:"@))
}

/// Whether a device is a Focusrite/Scarlett interface.
pub fn is_focusrite_device(d: &HardwareDevice) -> (r: bool)
    ensures
        r == is_focusrite(*d),
{
    let lower = to_lowercase(d.card_name.as_str());
    let lower_chars = chars_of(lower.as_str());
    if lower_contains(lower_chars.as_slice(), "focusrite") {
        return true;
    }
    if lower_contains(lower_chars.as_slice(), "scarlett") {
        return true;
    }
    match &d.usb_id {
        Some(id) => {
            let id_chars = chars_of(id.as_str());
            let prefix = chars_of("1235:");
            chars_occur_at(id_chars.as_slice(), prefix.as_slice(), 0)
        },
        None => false,
    }
}

/// The Focusrite/Scarlett devices among scanned hardware, in scan order.
pub fn find_focusrite_devices(devices: Vec<HardwareDevice>) -> (r: Vec<HardwareDevice>)
    ensures
        r@ == devices@.filter(|d: HardwareDevice| is_focusrite(d)),
{
    let ghost all = devices@;
    let ghost pred = |d: HardwareDevice| is_focusrite(d);
    let mut rest = devices;
    let mut found: Vec<HardwareDevice> = Vec::new();
    let mut taken: usize = 0;
    let ghost n = rest.len();
    assert(all.len() == n);
    while rest.len() > 0
        invariant
            pred == (|d: HardwareDevice| is_focusrite(d)),
            taken + rest@.len() == all.len(),
            all.len() <= usize::MAX,
            rest@ == all.subrange(taken as int, all.len() as int),
            found@ == all.take(taken as int).filter(pred),
        decreases rest@.len(),
    {
        let d = rest.remove(0);
        let ghost next = all.take(taken as int + 1);
        assert(next.drop_last() =~= all.take(taken as int));
        assert(next.last() == d);
        assert(next.filter(pred) == (if pred(d) {
            next.drop_last().filter(pred).push(d)
        } else {
            next.drop_last().filter(pred)
        })) by {
            reveal_with_fuel(Seq::<HardwareDevice>::filter, 2);
        }
        if is_focusrite_device(&d) {
            found.push(d);
        }
        taken = taken + 1;
        assert(rest@ =~= all.subrange(taken as int, all.len() as int));
    }
    assert(all.take(taken as int) =~= all);
    found
}

/// A listing mentions a card wherever the text "card N" occurs in it, at
/// the start or anywhere after, with any text following; and it mentions
/// the card only where that text occurs.
pub proof fn lemma_lists_card_anywhere(before: Seq<char>, after: Seq<char>, card_num: u32)
    ensures
        lists_card_text(before + "card "@ + digits(card_num as nat) + after, card_num),
{
    let needle = "card "@ + digits(card_num as nat);
    let listing = before + "card "@ + digits(card_num as nat) + after;
    assert(listing =~= before + needle + after);
    let at = before.len() as int;
    assert(listing.subrange(at, at + needle.len()) =~= needle);
    assert(occurs_at(listing, needle, at));
    assert(contains_seq(listing, needle));
}

/// A listing that mentions a card holds the text "card N" somewhere.
pub proof fn lemma_lists_card_only_where_mentioned(listing: Seq<char>, card_num: u32)
    requires
        lists_card_text(listing, card_num),
    ensures
        exists|before: Seq<char>, after: Seq<char>| listing == before + "card "@ + digits(card_num as nat) + after,
{
    let needle = "card "@ + digits(card_num as nat);
    let at = choose|at: int| occurs_at(listing, needle, at);
    let before = listing.subrange(0, at);
    let after = listing.subrange(at + needle.len(), listing.len() as int);
    assert(occurs_at(listing, needle, at));
    assert(listing.subrange(at, at + needle.len()) == needle);
    assert(before + needle + after =~= listing);
    assert(before + "card "@ + digits(card_num as nat) + after =~= before + needle + after);
}

} // verus!
