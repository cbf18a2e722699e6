//! Numbers, points and text in plain terms: by the bits of a number and by the
//! characters of a text. The laws of the host are stated in these terms.

use crate::creation_rules::{single_word, slanted};
use crate::geometry::{non_negative, nonzero, proper, Vector2, Vector3};
use crate::scalar::{magnitude_order, unit_patterns, LOOSE_BITS, SIGN_BIT, Scalar, TINY_BITS};
use crate::text::{blank, earliest, space, trimmed, trimming_is_done, Fault};
use vstd::prelude::*;
use vstd::string::*;

verus! {

/// The exponent of the number is not the one of infinities and NaNs.
pub open spec fn bounded(s: Scalar) -> bool {
    s.bits / 0x10_0000_0000_0000 % 2048 != 2047
}

/// The bits of the number without its sign.
pub open spec fn size(s: Scalar) -> int {
    s.bits as int % 0x8000_0000_0000_0000
}

/// A number at all: the exponent is not the greatest, or the fraction is zero.
pub open spec fn number_at_all(s: Scalar) -> bool {
    bounded(s) || s.bits as int % 0x10_0000_0000_0000 == 0
}

/// Three coordinates that are real numbers.
pub open spec fn real_point(v: Vector3) -> bool {
    bounded(v.x) && bounded(v.y) && bounded(v.z)
}

/// Two coordinates that are real numbers.
pub open spec fn real_spot(v: Vector2) -> bool {
    bounded(v.x) && bounded(v.y)
}

/// A real number above zero.
pub open spec fn above_zero(s: Scalar) -> bool {
    bounded(s) && 0 < s.bits < 0x8000_0000_0000_0000
}

/// A real number that is zero, with either sign, or above zero.
pub open spec fn zero_or_above(s: Scalar) -> bool {
    bounded(s) && s.bits <= 0x8000_0000_0000_0000
}

/// A real number at least as far from zero as the one nearest `1e-12`.
pub open spec fn off_zero(s: Scalar) -> bool {
    bounded(s) && size(s) >= 0x3d71_9799_812d_ea11
}

/// A real number closer to zero than a right angle in radians is.
pub open spec fn leaning(s: Scalar) -> bool {
    bounded(s) && size(s) < 0x3ff9_21fb_5444_2d18
}

/// A vector with real coordinates that is not zero.
pub open spec fn pointing(v: Vector3) -> bool {
    real_point(v) && number_at_all(v.length) && 0 < v.length.bits < 0x8000_0000_0000_0000
}

/// A vector with real coordinates whose length is one, give or take `1e-6`.
pub open spec fn unit_long(v: Vector3) -> bool {
    real_point(v) && 0x3fef_fffd_e721_0bea <= v.length.bits <= 0x3ff0_0001_0c6f_7a0b
}

/// Some coordinate has other bits.
pub open spec fn moved(a: Vector3, b: Vector3) -> bool {
    a.x.bits != b.x.bits || a.y.bits != b.y.bits || a.z.bits != b.z.bits
}

/// The same number: the same bits, or zero with either sign.
pub open spec fn same_number(a: Scalar, b: Scalar) -> bool {
    number_at_all(a) && (a.bits == b.bits || (size(a) == 0 && size(b) == 0))
}

/// An edit left the number alone.
pub open spec fn left_alone(a: Scalar, b: Scalar) -> bool {
    a.bits == b.bits || (size(a) == 0 && size(b) == 0)
}

/// An edit left the point alone.
pub open spec fn still(a: Vector3, b: Vector3) -> bool {
    left_alone(a.x, b.x) && left_alone(a.y, b.y) && left_alone(a.z, b.z)
}

/// The same for a point in a plane.
pub open spec fn spot_still(a: Vector2, b: Vector2) -> bool {
    left_alone(a.x, b.x) && left_alone(a.y, b.y)
}

/// Two points fall together.
pub open spec fn together(a: Vector3, b: Vector3) -> bool {
    same_number(a.x, b.x) && same_number(a.y, b.y) && same_number(a.z, b.z)
}

/// A code point that counts as white space.
pub open spec fn white(c: char) -> bool {
    let n = c as u32;
    if n <= 0xff {
        n == 9 || n == 10 || n == 11 || n == 12 || n == 13 || n == 32 || n == 133 || n == 160
    } else if n <= 0x1fff {
        n == 0x1680
    } else if n <= 0x200a {
        true
    } else {
        n == 0x2028 || n == 0x2029 || n == 0x202f || n == 0x205f || n == 0x3000
    }
}

/// Some character is not white space.
pub open spec fn written(text: Seq<char>) -> bool {
    exists|i: int| 0 <= i < text.len() && !white(#[trigger] text[i])
}

/// At least one character, and none of them white space.
pub open spec fn one_word(text: Seq<char>) -> bool {
    text.len() > 0 && forall|i: int| 0 <= i < text.len() ==> !white(#[trigger] text[i])
}

/// What the checks of numbers and points decide.
pub proof fn numbers_in_plain_terms()
    ensures
        forall|s: Scalar| #[trigger] bounded(s) == s.finite(),
        forall|s: Scalar| #[trigger] above_zero(s) == proper(s),
        forall|s: Scalar| #[trigger] zero_or_above(s) == non_negative(s),
        forall|s: Scalar| #[trigger] off_zero(s) == nonzero(s),
        forall|s: Scalar| #[trigger] leaning(s) == slanted(s),
        forall|s: Scalar| #[trigger] number_at_all(s) == !s.nan(),
        forall|a: Scalar, b: Scalar| #[trigger] same_number(a, b) == a.equal(b),
        forall|a: Scalar, b: Scalar| #[trigger] left_alone(a, b) == a.same(b),
{
    assert forall|s: Scalar| #[trigger] bounded(s) == s.finite() by {
        plain_number(s);
    }
    assert forall|s: Scalar| #[trigger] above_zero(s) == proper(s) by {
        plain_number(s);
    }
    assert forall|s: Scalar| #[trigger] zero_or_above(s) == non_negative(s) by {
        plain_number(s);
    }
    assert forall|s: Scalar| #[trigger] off_zero(s) == nonzero(s) by {
        plain_number(s);
    }
    assert forall|s: Scalar| #[trigger] leaning(s) == slanted(s) by {
        plain_number(s);
    }
    assert forall|s: Scalar| #[trigger] number_at_all(s) == !s.nan() by {
        plain_number(s);
    }
    assert forall|a: Scalar, b: Scalar| #[trigger] same_number(a, b) == a.equal(b) by {
        plain_equality(a, b);
    }
    assert forall|a: Scalar, b: Scalar| #[trigger] left_alone(a, b) == a.same(b) by {
        plain_equality(a, b);
    }
}

/// What the checks of one number decide: whether it is real, whether it is above
/// zero, not below zero, away from zero and less than a right angle.
pub proof fn plain_number(s: Scalar)
    ensures
        bounded(s) == s.finite(),
        number_at_all(s) == !s.nan(),
        above_zero(s) == proper(s),
        zero_or_above(s) == non_negative(s),
        off_zero(s) == nonzero(s),
        leaning(s) == slanted(s),
        (number_at_all(s) && 0 < s.bits < 0x8000_0000_0000_0000) == s.positive(),
        (size(s) == 0) == s.zero(),
        size(s) == s.pattern(),
{
    assert(s.bits < SIGN_BIT ==> s.bits as int % 0x8000_0000_0000_0000 == s.bits);
    assert(s.bits >= SIGN_BIT ==> s.bits as int % 0x8000_0000_0000_0000 == s.bits - SIGN_BIT);
    magnitude_order(s.pattern(), 0);
    magnitude_order(s.pattern(), TINY_BITS as int);
    magnitude_order(TINY_BITS as int, 0);
    magnitude_order(s.pattern(), 0x3ff9_21fb_5444_2d18);
    let a = s.absolute();
    assert(a.pattern() == s.pattern());
}

/// Two numbers are equal where they have the same bits or are both zero; a NaN
/// equals nothing.
pub proof fn plain_equality(a: Scalar, b: Scalar)
    ensures
        same_number(a, b) == a.equal(b),
        left_alone(a, b) == a.same(b),
        same_number(a, b) == same_number(b, a),
{
    plain_number(a);
    plain_number(b);
    magnitude_order(a.pattern(), b.pattern());
    magnitude_order(a.pattern(), 0);
    magnitude_order(b.pattern(), 0);
}

/// One number is lower than another: by the bits where both are above zero, the
/// other way round where both are below, and otherwise by the signs, zero having
/// none.
pub open spec fn lower(a: Scalar, b: Scalar) -> bool {
    number_at_all(a) && number_at_all(b) && (if a.bits < 0x8000_0000_0000_0000 && b.bits
        < 0x8000_0000_0000_0000 {
        a.bits < b.bits
    } else if a.bits >= 0x8000_0000_0000_0000 && b.bits >= 0x8000_0000_0000_0000 {
        a.bits > b.bits
    } else {
        a.bits >= 0x8000_0000_0000_0000 && (size(a) > 0 || size(b) > 0)
    })
}

/// A number below the one nearest `1e-12`.
pub open spec fn tiny(s: Scalar) -> bool {
    number_at_all(s) && (s.bits >= 0x8000_0000_0000_0000 || s.bits < 0x3d71_9799_812d_ea11)
}

/// The comparisons of numbers in plain terms.
pub proof fn plain_order(a: Scalar, b: Scalar)
    ensures
        lower(a, b) == a.below(b),
        a.at_most(b) == (lower(a, b) || same_number(a, b)),
        !(lower(a, b) && lower(b, a)),
{
    plain_number(a);
    plain_number(b);
    plain_equality(a, b);
    magnitude_order(a.pattern(), b.pattern());
    magnitude_order(b.pattern(), a.pattern());
    magnitude_order(a.pattern(), 0);
    magnitude_order(b.pattern(), 0);
}

/// What the comparisons of numbers decide.
pub proof fn order_in_plain_terms()
    ensures
        forall|a: Scalar, b: Scalar| #[trigger] lower(a, b) == a.below(b),
        forall|s: Scalar| #[trigger] tiny(s) == s.below(Scalar { bits: TINY_BITS }),
{
    assert forall|a: Scalar, b: Scalar| #[trigger] lower(a, b) == a.below(b) by {
        plain_order(a, b);
    }
    assert forall|s: Scalar| #[trigger] tiny(s) == s.below(Scalar { bits: TINY_BITS }) by {
        plain_order(s, Scalar { bits: TINY_BITS });
        plain_number(Scalar { bits: TINY_BITS });
    }
}

/// What the checks of points and vectors decide.
pub proof fn points_in_plain_terms()
    ensures
        forall|v: Vector3| #[trigger] real_point(v) == v.finite(),
        forall|v: Vector2| #[trigger] real_spot(v) == v.finite(),
        forall|v: Vector3| #[trigger] pointing(v) == (v.finite() && v.length.positive()),
        forall|v: Vector3| #[trigger]
            unit_long(v) == (v.finite() && v.length.around_one(Scalar { bits: LOOSE_BITS })),
        forall|a: Vector3, b: Vector3| #[trigger] moved(a, b) == !a.identical(b),
        forall|a: Vector3, b: Vector3| #[trigger] still(a, b) == a.same(b),
        forall|a: Vector2, b: Vector2| #[trigger] spot_still(a, b) == a.same(b),
        forall|a: Vector3, b: Vector3| #[trigger] together(a, b) == a.coincident(b),
{
    numbers_in_plain_terms();
    assert forall|v: Vector3| #[trigger] pointing(v) == (v.finite() && v.length.positive()) by {
        plain_number(v.length);
    }
    assert forall|v: Vector3| #[trigger]
        unit_long(v) == (v.finite() && v.length.around_one(Scalar { bits: LOOSE_BITS })) by {
        unit_patterns(v.length);
    }
    assert forall|a: Vector3, b: Vector3| #[trigger] moved(a, b) == !a.identical(b) by {
        assert(a.x.bits == b.x.bits ==> a.x == b.x);
        assert(a.y.bits == b.y.bits ==> a.y == b.y);
        assert(a.z.bits == b.z.bits ==> a.z == b.z);
    }
}

/// What the checks of text decide.
pub proof fn text_in_plain_terms()
    ensures
        forall|c: char| #[trigger] white(c) == space(c),
        forall|text: Seq<char>| #[trigger] written(text) == !blank(text),
        forall|text: Seq<char>| #[trigger] one_word(text) == single_word(text),
        forall|text: Seq<char>| #[trigger] written(text) == (trimmed(text).len() > 0),
{
    assert forall|c: char| #[trigger] white(c) == space(c) by {}
    assert forall|text: Seq<char>| #[trigger] written(text) == !blank(text) by {
        if !blank(text) {
            let i = choose|i: int| 0 <= i < text.len() && !space(#[trigger] text[i]);
            assert(!white(text[i]));
        }
        if written(text) {
            let i = choose|i: int| 0 <= i < text.len() && !white(#[trigger] text[i]);
            assert(!space(text[i]));
        }
    }
    assert forall|text: Seq<char>| #[trigger] one_word(text) == single_word(text) by {
        if one_word(text) {
            assert(!space(text[0]));
            assert forall|i: int| 0 <= i < text.len() implies !space(#[trigger] text[i]) by {
                assert(!white(text[i]));
            }
        }
        if single_word(text) {
            assert forall|i: int| 0 <= i < text.len() implies !white(#[trigger] text[i]) by {
                assert(!space(text[i]));
            }
        }
    }
    assert forall|text: Seq<char>| #[trigger] written(text) == (trimmed(text).len() > 0) by {
        trimming_is_done(text);
    }
}

/// A run of checks passes where each of them does.
pub proof fn all_checks_pass(from: int, to: int, checks: spec_fn(int) -> Fault)
    ensures
        (earliest(from, to, checks) is None) == (forall|i: int|
            from <= i < to ==> #[trigger] checks(i) is None),
    decreases to - from,
{
    if from < to {
        all_checks_pass(from + 1, to, checks);
        if checks(from) is None && earliest(from + 1, to, checks) is None {
            assert forall|i: int| from <= i < to implies #[trigger] checks(i) is None by {
                if i > from {
                    assert(checks(i) is None);
                }
            }
        }
    }
}

} // verus!
