//! Text styles.

use crate::geometry::{is_non_negative, is_proper, non_negative, proper};
use crate::records::TextStyle;
use crate::scalar::Scalar;
use crate::text::{
    check, control, fault, first, join, trim, trimmed, unless, Fault,
};
use vstd::prelude::*;
use vstd::string::*;

verus! {

/// The bits of `100.0`, the widest that text is stretched.
pub const WIDEST_BITS: u64 = 0x4059_0000_0000_0000;

/// The bits of 85 degrees in radians and a billionth, the most that text slants.
pub const STEEPEST_BITS: u64 = 0x3ff7_bc89_cfda_7100;

/// The properties that a plugin asks for in a text style. What it leaves out
/// stays as it is.
pub struct TextStyleConfig {
    pub name: String,
    pub height: Option<Scalar>,
    pub width_factor: Option<Scalar>,
    pub oblique_angle: Option<Scalar>,
    pub font_file: Option<String>,
    pub big_font_file: Option<String>,
    pub true_type_font: Option<String>,
    pub backward: Option<bool>,
    pub upside_down: Option<bool>,
    pub vertical: Option<bool>,
    pub annotative: Option<bool>,
}

impl TextStyleConfig {
    /// A config that asks for nothing.
    pub fn named(name: &str) -> (result: Self)
        ensures
            result.name@ == name@,
            result.idle(),
    {
        TextStyleConfig {
            name: name.to_owned(),
            height: None,
            width_factor: None,
            oblique_angle: None,
            font_file: None,
            big_font_file: None,
            true_type_font: None,
            backward: None,
            upside_down: None,
            vertical: None,
            annotative: None,
        }
    }

    /// The config asks for nothing.
    pub open spec fn idle(self) -> bool {
        &&& self.height is None && self.width_factor is None && self.oblique_angle is None
        &&& self.font_file is None && self.big_font_file is None && self.true_type_font is None
        &&& self.backward is None && self.upside_down is None
        &&& self.vertical is None && self.annotative is None
    }

    pub fn is_idle(&self) -> (result: bool)
        ensures
            result == self.idle(),
    {
        self.height.is_none() && self.width_factor.is_none() && self.oblique_angle.is_none()
            && self.font_file.is_none() && self.big_font_file.is_none()
            && self.true_type_font.is_none() && self.backward.is_none()
            && self.upside_down.is_none() && self.vertical.is_none() && self.annotative.is_none()
    }
}

/// Text without control characters, and not too long.
pub open spec fn plain(text: Seq<char>) -> bool {
    text.len() <= 255 && forall|i: int| 0 <= i < text.len() ==> !control(#[trigger] text[i])
}

fn is_plain(text: &str) -> (result: bool)
    ensures
        result == plain(text@),
{
    let length: usize = text.unicode_len();
    if length > 255 {
        return false;
    }
    let mut i: usize = 0;
    while i < length
        invariant
            i <= length,
            length == text@.len(),
            forall|j: int| 0 <= j < i ==> !control(#[trigger] text@[j]),
        decreases length - i,
    {
        let code: u32 = text.get_char(i) as u32;
        if code <= 0x1f || (0x7f <= code && code <= 0x9f) {
            assert(control(text@[i as int]));
            return false;
        }
        i = i + 1;
    }
    true
}

/// Why a text cannot name a font. What it is comes first in the message.
pub open spec fn font_fault(what: Seq<char>, font: Option<String>) -> Fault {
    match font {
        Some(text) => unless(
            plain(text@),
            what + " must be text of at most 255 characters"@,
        ),
        None => None,
    }
}

fn check_font(what: &str, font: &Option<String>) -> (result: Result<(), String>)
    ensures
        fault(result) == font_fault(what@, *font),
{
    match font {
        Some(text) => check(
            is_plain(text),
            &join(what, " must be text of at most 255 characters"),
        ),
        None => Ok(()),
    }
}

/// A text after a config asked for another.
pub open spec fn chosen(asked: Option<String>, before: Seq<char>) -> Seq<char> {
    match asked {
        Some(text) => trimmed(text@),
        None => before,
    }
}

fn choose_text(asked: &Option<String>, before: &String) -> (result: String)
    ensures
        result@ == chosen(*asked, before@),
        asked is None ==> result == *before,
{
    match asked {
        Some(text) => trim(text).to_owned(),
        None => before.clone(),
    }
}

/// Why a text style with the given fonts cannot be as a config asks.
pub open spec fn text_style_fault(
    font_file: Seq<char>,
    true_type_font: Seq<char>,
    config: TextStyleConfig,
) -> Fault {
    first(
        unless(
            config.height is None || non_negative(config.height->Some_0),
            "text style height must be finite and not negative (0 = variable)"@,
        ),
        first(
            unless(
                config.width_factor is None || (proper(config.width_factor->Some_0)
                    && config.width_factor->Some_0.at_most(Scalar { bits: WIDEST_BITS })),
                "text style width factor must be greater than 0 and at most 100"@,
            ),
            first(
                unless(
                    config.oblique_angle is None || (config.oblique_angle->Some_0.finite()
                        && config.oblique_angle->Some_0.absolute().at_most(
                        Scalar { bits: STEEPEST_BITS },
                    )),
                    "text style oblique angle must be within 85 degrees either way"@,
                ),
                first(
                    font_fault("font file"@, config.font_file),
                    first(
                        font_fault("big font file"@, config.big_font_file),
                        first(
                            font_fault("TrueType font"@, config.true_type_font),
                            unless(
                                chosen(config.font_file, font_file).len() > 0 || chosen(
                                    config.true_type_font,
                                    true_type_font,
                                ).len() > 0,
                                "a text style needs a font file or a TrueType font"@,
                            ),
                        ),
                    ),
                ),
            ),
        ),
    )
}

/// A text style as a config asks for it.
pub open spec fn styled(before: TextStyle, after: TextStyle, config: TextStyleConfig) -> bool {
    &&& after == (TextStyle {
        height: config.height.unwrap_or(before.height),
        width_factor: config.width_factor.unwrap_or(before.width_factor),
        oblique_angle: config.oblique_angle.unwrap_or(before.oblique_angle),
        font_file: after.font_file,
        big_font_file: after.big_font_file,
        true_type_font: after.true_type_font,
        backward: config.backward.unwrap_or(before.backward),
        upside_down: config.upside_down.unwrap_or(before.upside_down),
        is_vertical: config.vertical.unwrap_or(before.is_vertical),
        annotative: config.annotative.unwrap_or(before.annotative),
        ..before
    })
    &&& after.font_file@ == chosen(config.font_file, before.font_file@)
    &&& after.big_font_file@ == chosen(config.big_font_file, before.big_font_file@)
    &&& after.true_type_font@ == chosen(config.true_type_font, before.true_type_font@)
}

/// Gives a text style the properties that a config asks for. A style that would
/// not do stays as it is.
pub fn apply_text_style_config(style: &mut TextStyle, config: &TextStyleConfig) -> (result: Result<
    (),
    String,
>)
    ensures
        fault(result) == text_style_fault(
            old(style).font_file@,
            old(style).true_type_font@,
            *config,
        ),
        result is Ok ==> styled(*old(style), *final(style), *config),
        result is Err ==> *final(style) == *old(style),
{
    if let Some(height) = config.height {
        check(
            is_non_negative(height),
            "text style height must be finite and not negative (0 = variable)",
        )?;
    }
    if let Some(width) = config.width_factor {
        check(
            is_proper(width) && width.le(Scalar { bits: WIDEST_BITS }),
            "text style width factor must be greater than 0 and at most 100",
        )?;
    }
    if let Some(angle) = config.oblique_angle {
        check(
            angle.is_finite() && angle.abs().le(Scalar { bits: STEEPEST_BITS }),
            "text style oblique angle must be within 85 degrees either way",
        )?;
    }
    check_font("font file", &config.font_file)?;
    check_font("big font file", &config.big_font_file)?;
    check_font("TrueType font", &config.true_type_font)?;
    let font_file = choose_text(&config.font_file, &style.font_file);
    let true_type_font = choose_text(&config.true_type_font, &style.true_type_font);
    check(
        font_file.as_str().unicode_len() > 0 || true_type_font.as_str().unicode_len() > 0,
        "a text style needs a font file or a TrueType font",
    )?;
    let big_font_file = choose_text(&config.big_font_file, &style.big_font_file);
    style.height = config.height.unwrap_or(style.height);
    style.width_factor = config.width_factor.unwrap_or(style.width_factor);
    style.oblique_angle = config.oblique_angle.unwrap_or(style.oblique_angle);
    style.font_file = font_file;
    style.big_font_file = big_font_file;
    style.true_type_font = true_type_font;
    style.backward = config.backward.unwrap_or(style.backward);
    style.upside_down = config.upside_down.unwrap_or(style.upside_down);
    style.is_vertical = config.vertical.unwrap_or(style.is_vertical);
    style.annotative = config.annotative.unwrap_or(style.annotative);
    Ok(())
}

} // verus!
