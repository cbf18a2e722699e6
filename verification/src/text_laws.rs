//! What trimming, comparing and counting come to, character by character, and what the
//! bits of a number stand for.

use crate::geometry::Handle;
use crate::plain::{text_in_plain_terms, white};
use crate::records::{paper_space, BlockRecord};
use crate::scalar::{magnitude, FRACTIONS, Scalar};
use crate::text::{alike, ascii_lower, decimal, digit, space, trimmed};
use vstd::arithmetic::power2::{lemma_pow2_unfold, pow2};
use vstd::prelude::*;
use vstd::string::*;

verus! {

/// A part of a text without the white space at both of its ends: what is cut off is
/// white, and what is left neither starts nor ends so.
pub open spec fn cut_out(text: Seq<char>, from: int, to: int) -> bool {
    &&& 0 <= from <= to <= text.len()
    &&& forall|i: int| 0 <= i < from ==> white(#[trigger] text[i])
    &&& forall|i: int| to <= i < text.len() ==> white(#[trigger] text[i])
    &&& from < to ==> !white(text[from]) && !white(text[to - 1])
}

/// Trimming cuts off the white space at both ends and nothing else.
pub proof fn trimming_cuts_the_ends(text: Seq<char>)
    ensures
        exists|from: int, to: int| #[trigger]
            cut_out(text, from, to) && trimmed(text) == text.subrange(from, to),
    decreases text.len(),
{
    text_in_plain_terms();
    if text.len() > 0 && space(text[0]) {
        let rest = text.subrange(1, text.len() as int);
        trimming_cuts_the_ends(rest);
        let (from, to) = choose|from: int, to: int| #[trigger]
            cut_out(rest, from, to) && trimmed(rest) == rest.subrange(from, to);
        assert(white(text[0]));
        assert forall|i: int| 0 <= i < from + 1 implies white(#[trigger] text[i]) by {
            if i > 0 {
                assert(white(rest[i - 1]));
            }
        }
        assert forall|i: int| to + 1 <= i < text.len() implies white(#[trigger] text[i]) by {
            assert(white(rest[i - 1]));
        }
        assert(cut_out(text, from + 1, to + 1));
        assert(rest.subrange(from, to) =~= text.subrange(from + 1, to + 1));
    } else if text.len() > 0 && space(text.last()) {
        let rest = text.subrange(0, text.len() - 1);
        trimming_cuts_the_ends(rest);
        let (from, to) = choose|from: int, to: int| #[trigger]
            cut_out(rest, from, to) && trimmed(rest) == rest.subrange(from, to);
        assert(white(text.last()));
        assert forall|i: int| 0 <= i < from implies white(#[trigger] text[i]) by {
            assert(white(rest[i]));
        }
        assert forall|i: int| to <= i < text.len() implies white(#[trigger] text[i]) by {
            if i < rest.len() {
                assert(white(rest[i]));
            }
        }
        assert(cut_out(text, from, to));
        assert(rest.subrange(from, to) =~= text.subrange(from, to));
    } else {
        if text.len() > 0 {
            assert(!white(text[0]));
            assert(!white(text[text.len() - 1]));
        }
        assert(cut_out(text, 0, text.len() as int));
        assert(text.subrange(0, text.len() as int) =~= text);
    }
}

/// Two characters are the same letter: the same character, or one is a small letter of
/// the alphabet and the other its capital.
pub open spec fn same_letter(a: char, b: char) -> bool {
    let m = a as u32;
    let n = b as u32;
    m == n || (97 <= m <= 122 && n + 32 == m) || (97 <= n <= 122 && m + 32 == n)
}

/// Two texts are alike where they are equally long and have the same letters.
pub proof fn alike_texts_have_the_same_letters(a: Seq<char>, b: Seq<char>)
    ensures
        alike(a, b) <==> a.len() == b.len() && forall|i: int|
            0 <= i < a.len() ==> same_letter(#[trigger] a[i], b[i]),
        alike(a, b) <==> alike(b, a),
        alike(a, a),
{
    if alike(a, b) {
        assert forall|i: int| 0 <= i < a.len() implies same_letter(#[trigger] a[i], b[i]) by {
            assert(ascii_lower(a[i]) == ascii_lower(b[i]));
        }
        assert forall|i: int| 0 <= i < b.len() implies ascii_lower(#[trigger] b[i]) == ascii_lower(
            a[i],
        ) by {
            assert(ascii_lower(a[i]) == ascii_lower(b[i]));
        }
    }
    if alike(b, a) {
        assert forall|i: int| 0 <= i < a.len() implies ascii_lower(#[trigger] a[i]) == ascii_lower(
            b[i],
        ) by {
            assert(ascii_lower(b[i]) == ascii_lower(a[i]));
        }
    }
    if a.len() == b.len() && forall|i: int|
        0 <= i < a.len() ==> same_letter(#[trigger] a[i], b[i]) {
        assert forall|i: int| 0 <= i < a.len() implies ascii_lower(#[trigger] a[i]) == ascii_lower(
            b[i],
        ) by {
            assert(same_letter(a[i], b[i]));
        }
    }
}

/// The number that digits stand for.
pub open spec fn counted(text: Seq<char>) -> int
    decreases text.len(),
{
    if text.len() == 0 {
        0
    } else {
        10 * counted(text.drop_last()) + (text.last() as u32 - 48)
    }
}

/// A number in decimal consists of digits, stands for the number, and starts with zero
/// only where it is zero.
pub proof fn decimal_counts(n: nat)
    ensures
        decimal(n).len() > 0,
        forall|i: int| 0 <= i < decimal(n).len() ==> 48 <= (#[trigger] decimal(n)[i]) as u32 <= 57,
        counted(decimal(n)) == n,
        n > 0 ==> decimal(n)[0] as u32 != 48,
    decreases n,
{
    reveal_with_fuel(counted, 2);
    assert(forall|d: nat| d < 10 ==> (#[trigger] digit(d)) as u32 == 48 + d);
    if n < 10 {
        let text = seq![digit(n)];
        assert(text.drop_last() =~= Seq::empty());
        assert(decimal(n) == text);
        assert(text.last() as u32 == 48 + n);
    } else {
        decimal_counts(n / 10);
        let front = decimal(n / 10);
        let last = digit(n % 10);
        assert(decimal(n) == front.push(last));
        assert(front.push(last).drop_last() =~= front);
        assert(last as u32 == 48 + n % 10);
        assert(decimal(n)[0] == front[0]);
        assert forall|i: int| 0 <= i < decimal(n).len() implies 48 <= (
        #[trigger] decimal(n)[i]) as u32 <= 57 by {
            if i < front.len() {
                assert(decimal(n)[i] == front[i]);
            }
        }
    }
}

/// Different handles are shown differently.
pub proof fn handles_are_told_apart(a: Handle, b: Handle)
    ensures
        a.shown() == b.shown() ==> a == b,
        exists|digits: Seq<char>|
            a.shown() == "Handle("@ + digits + ")"@ && #[trigger] counted(digits) == a.value,
{
    decimal_counts(a.value as nat);
    assert(a.shown() == "Handle("@ + decimal(a.value as nat) + ")"@);
    reveal_strlit("Handle(");
    reveal_strlit(")");
    if a.shown() == b.shown() {
        let x = decimal(a.value as nat);
        let y = decimal(b.value as nat);
        let front = "Handle("@.len() as int;
        assert(a.shown().subrange(front, a.shown().len() - 1) =~= x);
        assert(b.shown().subrange(front, b.shown().len() - 1) =~= y);
        decimal_counts(a.value as nat);
        decimal_counts(b.value as nat);
    }
}

/// What the bits of a number stand for: up to two of the smallest steps of the exponent
/// they count by ones, from the first step on each further step doubles, and the sign
/// turns the number round.
pub proof fn bits_stand_for_numbers(pattern: int, s: Scalar)
    requires
        0 <= pattern,
    ensures
        pattern < 0x20_0000_0000_0000 ==> magnitude(pattern) == pattern,
        pattern >= 0x10_0000_0000_0000 ==> magnitude(pattern + 0x10_0000_0000_0000) == 2
            * magnitude(pattern),
        s.bits < 0x8000_0000_0000_0000 ==> s.value() == magnitude(s.bits as int),
        s.bits >= 0x8000_0000_0000_0000 ==> s.value() == -magnitude(
            s.bits - 0x8000_0000_0000_0000,
        ),
        s.opposite().value() == -s.value(),
        s.absolute().value() >= 0,
        s.absolute().value() == s.value() || s.absolute().value() == -s.value(),
{
    let n = FRACTIONS as int;
    let exponent = pattern / n;
    let fraction = pattern % n;
    vstd::arithmetic::power2::lemma2_to64();
    crate::scalar::magnitude_order(s.pattern(), 0);
    if pattern >= n {
        let next = pattern + n;
        assert(next / n == exponent + 1 && next % n == fraction) by (nonlinear_arith)
            requires
                n > 0,
                exponent == pattern / n,
                fraction == pattern % n,
                next == pattern + n,
        ;
        assert(exponent >= 1);
        lemma_pow2_unfold(exponent as nat);
        let p = pow2((exponent - 1) as nat) as int;
        assert(pow2(exponent as nat) == 2 * p);
        assert((n + fraction) * (2 * p) == 2 * ((n + fraction) * p)) by (nonlinear_arith);
    }
    if pattern < 2 * n && pattern >= n {
        assert(exponent == 1);
        assert(pow2(0) == 1);
        assert((n + fraction) * 1 == pattern);
    } else if pattern < n {
        assert(exponent == 0);
    }
}

/// A block is a layout where its name is that of model space or starts like that of a
/// sheet, whatever the case of letters.
pub proof fn layouts_are_named(block: BlockRecord, front: Seq<char>, rest: Seq<char>)
    ensures
        alike(block.name@, "*MODEL_SPACE"@) ==> block.layout(),
        block.name@ == front + rest && alike(front, "*PAPER_SPACE"@) ==> block.layout(),
        block.layout() ==> alike(block.name@, "*MODEL_SPACE"@) || exists|a: Seq<char>, b: Seq<char>|
            block.name@ == #[trigger] (a + b) && alike(a, "*PAPER_SPACE"@),
{
    reveal_strlit("*MODEL_SPACE");
    reveal_strlit("*Model_Space");
    reveal_strlit("*PAPER_SPACE");
    reveal_strlit("*Paper_Space");
    let model = "*Model_Space"@;
    let loud_model = "*MODEL_SPACE"@;
    let paper = "*Paper_Space"@;
    let loud_paper = "*PAPER_SPACE"@;
    assert forall|i: int| 0 <= i < 12 implies ascii_lower(#[trigger] model[i]) == ascii_lower(
        loud_model[i],
    ) by {
        twelve(i);
    }
    assert forall|i: int| 0 <= i < 12 implies ascii_lower(#[trigger] paper[i]) == ascii_lower(
        loud_paper[i],
    ) by {
        twelve(i);
    }
    assert(alike(model, loud_model));
    assert(alike(paper, loud_paper));
    alike_goes_on(block.name@, loud_model, model);
    alike_goes_on(block.name@, model, loud_model);
    alike_texts_have_the_same_letters(model, loud_model);
    alike_texts_have_the_same_letters(paper, loud_paper);
    if block.name@ == front + rest && alike(front, loud_paper) {
        alike_goes_on(front, loud_paper, paper);
        assert(block.name@.subrange(0, 12) =~= front);
    }
    if paper_space(block.name@) {
        let a = block.name@.subrange(0, 12);
        let b = block.name@.subrange(12, block.name@.len() as int);
        alike_goes_on(a, paper, loud_paper);
        assert(block.name@ =~= a + b);
    }
}

proof fn twelve(i: int)
    requires
        0 <= i < 12,
    ensures
        i == 0 || i == 1 || i == 2 || i == 3 || i == 4 || i == 5 || i == 6 || i == 7 || i == 8 || i
            == 9 || i == 10 || i == 11,
{
}

/// What is alike to something alike is alike.
pub proof fn alike_goes_on(a: Seq<char>, b: Seq<char>, c: Seq<char>)
    ensures
        alike(a, b) && alike(b, c) ==> alike(a, c),
{
    if alike(a, b) && alike(b, c) {
        assert forall|i: int| 0 <= i < a.len() implies ascii_lower(#[trigger] a[i]) == ascii_lower(
            c[i],
        ) by {
            assert(ascii_lower(a[i]) == ascii_lower(b[i]));
            assert(ascii_lower(b[i]) == ascii_lower(c[i]));
        }
    }
}

} // verus!
