//! Text as the host compares, trims and words it.

use vstd::prelude::*;
use vstd::string::*;

verus! {

/// A check's complaint: the message, or nothing where the check passed.
pub type Fault = Option<Seq<char>>;

/// The complaint that a result carries.
pub open spec fn fault<T>(result: Result<T, String>) -> Fault {
    match result {
        Ok(_) => None,
        Err(message) => Some(message@),
    }
}

/// The complaint of a single condition.
pub open spec fn unless(holds: bool, message: Seq<char>) -> Fault {
    if holds {
        None
    } else {
        Some(message)
    }
}

/// The first of two complaints.
pub open spec fn first(earlier: Fault, later: Fault) -> Fault {
    if earlier is Some {
        earlier
    } else {
        later
    }
}

/// The first complaint of a run of checks, from the check numbered `from` up to
/// but not including `to`.
pub open spec fn earliest(from: int, to: int, checks: spec_fn(int) -> Fault) -> Fault
    decreases to - from,
{
    if from >= to {
        None
    } else {
        first(checks(from), earliest(from + 1, to, checks))
    }
}

/// Appends a character.
///
/// `std::string::String::push`: the character stands behind what was there.
pub assume_specification[ std::string::String::push ](text: &mut std::string::String, c: char)
    ensures
        final(text)@ == old(text)@.push(c),
;

/// A code point with the Unicode property `White_Space`.
pub open spec fn space(c: char) -> bool {
    ||| 0x09 <= c as u32 <= 0x0d
    ||| c as u32 == 0x20
    ||| c as u32 == 0x85
    ||| c as u32 == 0xa0
    ||| c as u32 == 0x1680
    ||| 0x2000 <= c as u32 <= 0x200a
    ||| c as u32 == 0x2028
    ||| c as u32 == 0x2029
    ||| c as u32 == 0x202f
    ||| c as u32 == 0x205f
    ||| c as u32 == 0x3000
}

/// Nothing but white space.
pub open spec fn blank(text: Seq<char>) -> bool {
    forall|i: int| 0 <= i < text.len() ==> space(#[trigger] text[i])
}

/// The text without the white space at both ends.
pub open spec fn trimmed(text: Seq<char>) -> Seq<char>
    decreases text.len(),
{
    if text.len() > 0 && space(text[0]) {
        trimmed(text.subrange(1, text.len() as int))
    } else if text.len() > 0 && space(text.last()) {
        trimmed(text.subrange(0, text.len() - 1))
    } else {
        text
    }
}

/// A control character (Unicode category `Cc`).
pub open spec fn control(c: char) -> bool {
    c as u32 <= 0x1f || 0x7f <= c as u32 <= 0x9f
}

/// An ASCII letter in lower case; any other character as it is.
pub open spec fn ascii_lower(c: char) -> u32 {
    if 'A' as u32 <= c as u32 <= 'Z' as u32 {
        (c as u32 + 32) as u32
    } else {
        c as u32
    }
}

/// Equal up to the case of ASCII letters.
pub open spec fn alike(a: Seq<char>, b: Seq<char>) -> bool {
    a.len() == b.len() && forall|i: int|
        0 <= i < a.len() ==> ascii_lower(#[trigger] a[i]) == ascii_lower(b[i])
}

pub open spec fn digit(n: nat) -> char {
    if n == 0 {
        '0'
    } else if n == 1 {
        '1'
    } else if n == 2 {
        '2'
    } else if n == 3 {
        '3'
    } else if n == 4 {
        '4'
    } else if n == 5 {
        '5'
    } else if n == 6 {
        '6'
    } else if n == 7 {
        '7'
    } else if n == 8 {
        '8'
    } else {
        '9'
    }
}

/// A number in decimal, without leading zeros.
pub open spec fn decimal(n: nat) -> Seq<char>
    decreases n,
{
    if n < 10 {
        seq![digit(n)]
    } else {
        decimal(n / 10).push(digit(n % 10))
    }
}

/// Text as `{:?}` writes it, in double quotes and escaped.
pub uninterp spec fn quoted(text: Seq<char>) -> Seq<char>;

/// Text in upper case by the Unicode case mapping.
pub uninterp spec fn upper(text: Seq<char>) -> Seq<char>;

/// `std::fmt` with `{:?}` on a string; the outcome is the name `quoted`.
#[verifier::external_body]
pub(crate) fn quote(text: &str) -> (result: String)
    ensures
        result@ == quoted(text@),
{
    format!("{text:?}")
}

/// A character as `{:?}` writes it, in single quotes and escaped.
pub uninterp spec fn quoted_char(c: char) -> Seq<char>;

/// `std::fmt` with `{:?}` on a character; the outcome is the name `quoted_char`.
#[verifier::external_body]
pub(crate) fn quote_char(c: char) -> (result: String)
    ensures
        result@ == quoted_char(c),
{
    format!("{c:?}")
}

/// `str::to_uppercase`; the outcome is the name `upper`.
#[verifier::external_body]
pub(crate) fn to_upper(text: &str) -> (result: String)
    ensures
        result@ == upper(text@),
{
    text.to_uppercase()
}

pub fn is_space(c: char) -> (result: bool)
    ensures
        result == space(c),
{
    let code: u32 = c as u32;
    (0x09 <= code && code <= 0x0d) || code == 0x20 || code == 0x85 || code == 0xa0 || code == 0x1680
        || (0x2000 <= code && code <= 0x200a) || code == 0x2028 || code == 0x2029 || code == 0x202f
        || code == 0x205f || code == 0x3000
}

/// The characters of a text.
fn characters(text: &str) -> (result: Vec<char>)
    ensures
        result@ == text@,
{
    let mut result: Vec<char> = Vec::new();
    let ghost all = text@;
    for c in iter: text.chars()
        invariant
            iter.seq() == all,
            result@ == iter.seq().take(iter.index()),
    {
        result.push(c);
        proof {
            assert(result@ =~= iter.seq().take(iter.index() + 1));
        }
    }
    proof {
        assert(result@ =~= all);
    }
    result
}

/// Whether a text is empty but for white space.
pub fn is_blank(text: &str) -> (result: bool)
    ensures
        result == blank(text@),
{
    let ghost all = text@;
    for c in iter: text.chars()
        invariant
            iter.seq() == all,
            all == text@,
            forall|i: int| 0 <= i < iter.index() ==> space(#[trigger] all[i]),
    {
        if !is_space(c) {
            assert(!space(all[iter.index() as int]));
            return false;
        }
    }
    true
}

/// Whether a text holds white space anywhere.
pub fn has_space(text: &str) -> (result: bool)
    ensures
        result == exists|i: int| 0 <= i < text@.len() && space(#[trigger] text@[i]),
{
    let ghost all = text@;
    for c in iter: text.chars()
        invariant
            iter.seq() == all,
            all == text@,
            forall|i: int| 0 <= i < iter.index() ==> !space(#[trigger] all[i]),
    {
        if is_space(c) {
            assert(space(all[iter.index() as int]));
            return true;
        }
    }
    false
}

/// Trimming the front: what `trimmed` keeps does not depend on leading white space.
proof fn trim_front(text: Seq<char>, from: int)
    requires
        0 <= from <= text.len(),
        forall|i: int| 0 <= i < from ==> space(#[trigger] text[i]),
    ensures
        trimmed(text) == trimmed(text.subrange(from, text.len() as int)),
    decreases from,
{
    if from == 0 {
        assert(text.subrange(0, text.len() as int) =~= text);
    } else {
        let rest = text.subrange(1, text.len() as int);
        assert(space(text[0]));
        assert forall|i: int| 0 <= i < from - 1 implies space(#[trigger] rest[i]) by {
            assert(space(text[i + 1]));
        }
        trim_front(rest, from - 1);
        assert(rest.subrange(from - 1, rest.len() as int) =~= text.subrange(from, text.len() as int));
    }
}

/// Trimming the back of a text that starts with no white space.
proof fn trim_back(text: Seq<char>, to: int)
    requires
        0 <= to <= text.len(),
        to > 0 ==> !space(text[0]) && !space(text[to - 1]),
        to == 0 ==> text.len() == 0,
        forall|i: int| to <= i < text.len() ==> space(#[trigger] text[i]),
    ensures
        trimmed(text) == text.subrange(0, to),
    decreases text.len(),
{
    if to == text.len() {
        assert(text.subrange(0, to) =~= text);
    } else {
        let rest = text.subrange(0, text.len() - 1);
        trim_back(rest, to);
        assert(rest.subrange(0, to) =~= text.subrange(0, to));
    }
}

/// The text without the white space at both ends.
pub fn trim(text: &str) -> (result: &str)
    ensures
        result@ == trimmed(text@),
{
    let all = characters(text);
    let mut from: usize = 0;
    while from < all.len() && is_space(all[from])
        invariant
            from <= all.len(),
            forall|i: int| 0 <= i < from ==> space(#[trigger] all@[i]),
        decreases all.len() - from,
    {
        from = from + 1;
    }
    let mut to: usize = all.len();
    while to > from && is_space(all[to - 1])
        invariant
            from <= to <= all.len(),
            forall|i: int| to <= i < all.len() ==> space(#[trigger] all@[i]),
        decreases to - from,
    {
        to = to - 1;
    }
    proof {
        trim_front(all@, from as int);
        let rest = all@.subrange(from as int, all.len() as int);
        assert forall|i: int| to - from <= i < rest.len() implies space(#[trigger] rest[i]) by {
            assert(space(all@[i + from]));
        }
        trim_back(rest, to - from);
        assert(rest.subrange(0, to - from) =~= all@.subrange(from as int, to as int));
    }
    text.substring_char(from, to)
}

fn lower(c: char) -> (result: u32)
    ensures
        result == ascii_lower(c),
{
    let code: u32 = c as u32;
    if 'A' as u32 <= code && code <= 'Z' as u32 {
        code + 32
    } else {
        code
    }
}

/// Whether two texts are equal up to the case of ASCII letters.
pub fn is_alike(a: &str, b: &str) -> (result: bool)
    ensures
        result == alike(a@, b@),
{
    let left = characters(a);
    let right = characters(b);
    if left.len() != right.len() {
        return false;
    }
    let mut i: usize = 0;
    while i < left.len()
        invariant
            i <= left.len(),
            left.len() == right.len(),
            left@ == a@,
            right@ == b@,
            forall|j: int| 0 <= j < i ==> ascii_lower(#[trigger] a@[j]) == ascii_lower(b@[j]),
        decreases left.len() - i,
    {
        if lower(left[i]) != lower(right[i]) {
            assert(ascii_lower(a@[i as int]) != ascii_lower(b@[i as int]));
            return false;
        }
        i = i + 1;
    }
    true
}

/// Whether two texts are equal.
pub fn is_same(a: &str, b: &str) -> (result: bool)
    ensures
        result == (a@ == b@),
{
    let left = characters(a);
    let right = characters(b);
    if left.len() != right.len() {
        return false;
    }
    let mut i: usize = 0;
    while i < left.len()
        invariant
            i <= left.len(),
            left.len() == right.len(),
            left@ == a@,
            right@ == b@,
            forall|j: int| 0 <= j < i ==> a@[j] == b@[j],
        decreases left.len() - i,
    {
        if left[i] != right[i] {
            return false;
        }
        i = i + 1;
    }
    proof {
        assert(a@ =~= b@);
    }
    true
}

fn digit_of(n: u128) -> (result: char)
    requires
        n < 10,
    ensures
        result == digit(n as nat),
{
    match n {
        0 => '0',
        1 => '1',
        2 => '2',
        3 => '3',
        4 => '4',
        5 => '5',
        6 => '6',
        7 => '7',
        8 => '8',
        _ => '9',
    }
}

/// A number in decimal.
pub fn number(n: u64) -> (result: String)
    ensures
        result@ == decimal(n as nat),
{
    wide_number(n as u128)
}

/// A large number in decimal.
pub fn wide_number(n: u128) -> (result: String)
    ensures
        result@ == decimal(n as nat),
    decreases n,
{
    if n < 10 {
        let mut text = String::new();
        text.push(digit_of(n));
        proof {
            assert(text@ =~= seq![digit(n as nat)]);
        }
        text
    } else {
        let mut text = wide_number(n / 10);
        text.push(digit_of(n % 10));
        text
    }
}

/// Two texts in a row.
pub fn join(a: &str, b: &str) -> (result: String)
    ensures
        result@ == a@ + b@,
{
    a.to_owned().concat(b)
}

/// Three texts in a row.
pub fn join3(a: &str, b: &str, c: &str) -> (result: String)
    ensures
        result@ == a@ + b@ + c@,
{
    a.to_owned().concat(b).concat(c)
}

/// A condition as a check: the message is the complaint where it fails.
pub fn check(holds: bool, message: &str) -> (result: Result<(), String>)
    ensures
        fault(result) == unless(holds, message@),
{
    if holds {
        Ok(())
    } else {
        Err(message.to_owned())
    }
}

/// Trimming ends: nothing is left to trim.
pub proof fn trimming_is_done(text: Seq<char>)
    ensures
        trimmed(trimmed(text)) == trimmed(text),
        trimmed(text).len() == 0 <==> blank(text),
    decreases text.len(),
{
    if text.len() > 0 && space(text[0]) {
        let rest = text.subrange(1, text.len() as int);
        trimming_is_done(rest);
        if blank(rest) {
            assert forall|i: int| 0 <= i < text.len() implies space(#[trigger] text[i]) by {
                if i > 0 {
                    assert(space(rest[i - 1]));
                }
            }
        } else {
            let i = choose|i: int| 0 <= i < rest.len() && !space(#[trigger] rest[i]);
            assert(!space(text[i + 1]));
        }
    } else if text.len() > 0 && space(text.last()) {
        let rest = text.subrange(0, text.len() - 1);
        trimming_is_done(rest);
        if blank(rest) {
            assert forall|i: int| 0 <= i < text.len() implies space(#[trigger] text[i]) by {
                if i < rest.len() {
                    assert(space(rest[i]));
                }
            }
        } else {
            let i = choose|i: int| 0 <= i < rest.len() && !space(#[trigger] rest[i]);
            assert(!space(text[i]));
        }
    } else if text.len() > 0 {
        assert(!space(text[0]));
    }
}

} // verus!
