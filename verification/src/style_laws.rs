//! What becomes of text and dimension styles that are made, changed, renamed, deleted
//! or made current.

use crate::agree::Agree;
use crate::document::DocumentView;
use crate::geometry::Handle;
use crate::layer_change_laws::remembered;
use crate::layer_laws::{asked, fit_name, fit_names_are_accepted, now, only_tab};
use crate::plain::{
    above_zero, bounded, left_alone, numbers_in_plain_terms, plain_number, plain_order, size,
    text_in_plain_terms, written, zero_or_above,
};
use crate::records::{keyed, table_key, DimStyle, TextStyle};
use crate::scalar::Scalar;
use crate::search::{seek, seek_finds};
use crate::session::recorded;
use crate::studio::{EventView, StudioView, TableStyleKind};
use crate::style_ops::{
    plain_text_style, stored_name, style_fault, style_handle, styles_announced, text_style_created,
    TableOperation,
};
use crate::styles::{font_fault, plain, styled, text_style_fault, TextStyleConfig};
use crate::table_ops::{operation_done, operation_fault};
use crate::text::{control, trimmed};
use vstd::prelude::*;
use vstd::string::*;

verus! {

/// The application was told: the styles of a kind changed, the geometry of the drawing
/// counts as changed, and its shared view is out of date.
pub open spec fn styles_told<S, C>(
    before: StudioView<S, C>,
    after: StudioView<S, C>,
    tab: int,
    open: bool,
    kind: TableStyleKind,
) -> bool {
    let id = before.tabs[tab].id;
    let old_epoch = before.tabs[tab].scene.geometry_epoch;
    let epoch = after.tabs[tab].scene.geometry_epoch;
    let news = before.last_plugin_document != Some((id, epoch));
    let start = before.events.len() as int;
    let count = after.events.len() as int;
    &&& after.tabs[tab].dirty
    &&& epoch == if old_epoch < u64::MAX {
        old_epoch + 1
    } else {
        0
    }
    &&& count == start + 2 + (if open {
        1int
    } else {
        0
    }) + (if news {
        1int
    } else {
        0
    })
    &&& before.events.is_prefix_of(after.events)
    &&& after.events[start] == EventView::StylesChanged(kind)
    &&& open ==> after.events[start + 1] == EventView::SessionViewChanged(tab as usize)
    &&& news ==> after.events[count - 2] == EventView::DrawingChanged(id, epoch)
    &&& after.events[count - 1] == EventView::ViewChanged(id)
    &&& after.last_plugin_document == Some((id, epoch))
}

/// Apart from styles the drawing is the same.
pub open spec fn only_styles(before: DocumentView, after: DocumentView) -> bool {
    &&& after.layers == before.layers
    &&& after.entities == before.entities
    &&& after.objects == before.objects
    &&& after.line_types == before.line_types
    &&& after.block_records == before.block_records
    &&& after.app_ids == before.app_ids
    &&& after.header == before.header
}

/// A text for a font: at most 255 characters, none of them a control character.
pub open spec fn fit_font(font: Option<String>) -> bool {
    font is Some ==> font->Some_0@.len() <= 255 && forall|i: int|
        0 <= i < font->Some_0@.len() ==> {
            let n = (#[trigger] font->Some_0@[i]) as u32;
            n >= 32 && (n < 127 || n > 159)
        }
}

/// The numbers of a text style are fit: the height is not below zero, the width factor
/// above zero and at most 100, the slant at most 85 degrees either way.
pub open spec fn fit_style(config: TextStyleConfig) -> bool {
    &&& config.height is Some ==> zero_or_above(config.height->Some_0)
    &&& config.width_factor is Some ==> above_zero(config.width_factor->Some_0)
        && config.width_factor->Some_0.bits <= 0x4059_0000_0000_0000
    &&& config.oblique_angle is Some ==> bounded(config.oblique_angle->Some_0) && size(
        config.oblique_angle->Some_0,
    ) <= 0x3ff7_bc89_cfda_7100
    &&& fit_font(config.font_file)
    &&& fit_font(config.big_font_file)
    &&& fit_font(config.true_type_font)
}

proof fn fit_fonts_are_accepted(what: Seq<char>, font: Option<String>)
    ensures
        font_fault(what, font) is None <==> fit_font(font),
{
    if font is Some {
        let text = font->Some_0@;
        assert forall|i: int| 0 <= i < text.len() implies (!control(#[trigger] text[i])) == {
            let n = text[i] as u32;
            n >= 32 && (n < 127 || n > 159)
        } by {}
        if plain(text) {
            assert forall|i: int| 0 <= i < text.len() implies {
                let n = (#[trigger] font->Some_0@[i]) as u32;
                n >= 32 && (n < 127 || n > 159)
            } by {
                assert(!control(text[i]));
            }
        }
        if fit_font(font) {
            assert forall|i: int| 0 <= i < text.len() implies !control(#[trigger] text[i]) by {
                let n = font->Some_0@[i] as u32;
            }
        }
    }
}

/// Some font is left to write with: one that is asked for, or one that stays.
pub open spec fn font_is_left(
    config: TextStyleConfig,
    font_file: Seq<char>,
    true_type_font: Seq<char>,
) -> bool {
    ||| config.font_file is Some && written(config.font_file->Some_0@)
    ||| config.font_file is None && font_file.len() > 0
    ||| config.true_type_font is Some && written(config.true_type_font->Some_0@)
    ||| config.true_type_font is None && true_type_font.len() > 0
}

proof fn fit_styles_are_accepted(
    font_file: Seq<char>,
    true_type_font: Seq<char>,
    config: TextStyleConfig,
)
    ensures
        text_style_fault(font_file, true_type_font, config) is None <==> fit_style(config)
            && font_is_left(config, font_file, true_type_font),
{
    numbers_in_plain_terms();
    text_in_plain_terms();
    fit_fonts_are_accepted("font file"@, config.font_file);
    fit_fonts_are_accepted("big font file"@, config.big_font_file);
    fit_fonts_are_accepted("TrueType font"@, config.true_type_font);
    if config.width_factor is Some {
        let width = config.width_factor->Some_0;
        let widest = Scalar { bits: 0x4059_0000_0000_0000 };
        plain_number(width);
        plain_number(widest);
        plain_order(width, widest);
    }
    if config.oblique_angle is Some {
        let angle = config.oblique_angle->Some_0;
        let steepest = Scalar { bits: 0x3ff7_bc89_cfda_7100 };
        plain_number(angle);
        plain_number(angle.absolute());
        plain_number(steepest);
        plain_order(angle.absolute(), steepest);
    }
}

/// Some text style is filed under the name.
pub open spec fn text_style_filed(doc: DocumentView, name: Seq<char>) -> bool {
    exists|i: int|
        0 <= i < doc.text_styles.len() && table_key((#[trigger] doc.text_styles[i]).name@)
            == table_key(name)
}

/// Some dimension style is filed under the name.
pub open spec fn dim_style_filed(doc: DocumentView, name: Seq<char>) -> bool {
    exists|i: int|
        0 <= i < doc.dim_styles.len() && table_key((#[trigger] doc.dim_styles[i]).name@)
            == table_key(name)
}

/// A style is found by its name exactly where one is filed under it.
pub proof fn style_is_found(doc: DocumentView, name: Seq<char>)
    ensures
        doc.text_style(name) is Some <==> text_style_filed(doc, name),
        doc.dim_style(name) is Some <==> dim_style_filed(doc, name),
        doc.text_style(name) is Some ==> table_key(doc.text_style(name)->Some_0.name@)
            == table_key(name) && style_handle(doc, TableStyleKind::Text, name) == Some(
            doc.text_style(name)->Some_0.handle,
        ) && stored_name(doc, TableStyleKind::Text, name) == doc.text_style(name)->Some_0.name@,
        doc.dim_style(name) is Some ==> table_key(doc.dim_style(name)->Some_0.name@) == table_key(
            name,
        ) && style_handle(doc, TableStyleKind::Dim, name) == Some(
            doc.dim_style(name)->Some_0.handle,
        ) && stored_name(doc, TableStyleKind::Dim, name) == doc.dim_style(name)->Some_0.name@,
        style_fault(doc, TableStyleKind::Text, name) is None <==> text_style_filed(doc, name),
        style_fault(doc, TableStyleKind::Dim, name) is None <==> dim_style_filed(doc, name),
{
    let text = keyed::<TextStyle>(table_key(name));
    let dim = keyed::<DimStyle>(table_key(name));
    seek_finds(doc.text_styles, 0, text);
    seek_finds(doc.dim_styles, 0, dim);
    if text_style_filed(doc, name) {
        let i = choose|i: int|
            0 <= i < doc.text_styles.len() && table_key((#[trigger] doc.text_styles[i]).name@)
                == table_key(name);
        assert(text(doc.text_styles[i]));
    }
    if dim_style_filed(doc, name) {
        let i = choose|i: int|
            0 <= i < doc.dim_styles.len() && table_key((#[trigger] doc.dim_styles[i]).name@)
                == table_key(name);
        assert(dim(doc.dim_styles[i]));
    }
    if seek(doc.text_styles, 0, text) is Some {
        let i = seek(doc.text_styles, 0, text)->Some_0;
        assert(text(doc.text_styles[i]));
        assert(table_key(doc.text_styles[i].name@) == table_key(name));
    }
    if seek(doc.dim_styles, 0, dim) is Some {
        let i = seek(doc.dim_styles, 0, dim)->Some_0;
        assert(dim(doc.dim_styles[i]));
        assert(table_key(doc.dim_styles[i].name@) == table_key(name));
    }
}

/// A text style is made exactly in the active drawing, where its name is fit and free,
/// its properties are fit, and a font is left: without one of its own it writes with
/// `txt`.
pub proof fn text_style_can_be_made<S, C>(
    state: StudioView<S, C>,
    tab: int,
    config: TextStyleConfig,
)
    ensures
        operation_fault(state, tab, TableOperation::TextStyleCreate { config }) is None <==> {
            &&& state.active_tab == tab
            &&& fit_name(config.name@)
            &&& !text_style_filed(state.tabs[tab].scene.document, trimmed(config.name@))
            &&& fit_style(config)
            &&& config.font_file is None || written(config.font_file->Some_0@) || (
            config.true_type_font is Some && written(config.true_type_font->Some_0@))
        },
{
    let doc = state.tabs[tab].scene.document;
    reveal_strlit("txt");
    reveal_strlit("");
    fit_names_are_accepted(config.name@, "a text style name"@);
    style_is_found(doc, trimmed(config.name@));
    fit_styles_are_accepted("txt"@, ""@, config);
}

/// A text style is changed exactly in the active drawing, where it is there, the config
/// asks for something, that is fit, and a font is left.
pub proof fn text_style_can_be_changed<S, C>(
    state: StudioView<S, C>,
    tab: int,
    config: TextStyleConfig,
)
    ensures
        operation_fault(state, tab, TableOperation::TextStyleModify { config }) is None <==> {
            let doc = state.tabs[tab].scene.document;
            let style = doc.text_style(trimmed(config.name@))->Some_0;
            &&& state.active_tab == tab
            &&& text_style_filed(doc, trimmed(config.name@))
            &&& config.height is Some || config.width_factor is Some || config.oblique_angle is Some
                || config.font_file is Some || config.big_font_file is Some
                || config.true_type_font is Some || config.backward is Some
                || config.upside_down is Some || config.vertical is Some
                || config.annotative is Some
            &&& fit_style(config)
            &&& font_is_left(config, style.font_file@, style.true_type_font@)
        },
{
    let doc = state.tabs[tab].scene.document;
    let name = trimmed(config.name@);
    style_is_found(doc, name);
    if doc.text_style(name) is Some {
        let style = doc.text_style(name)->Some_0;
        fit_styles_are_accepted(style.font_file@, style.true_type_font@, config);
    }
}

/// A number that was given, or else the one that was there, up to the sign of a zero.
pub open spec fn number_now(given: Option<Scalar>, before: Scalar, after: Scalar) -> bool {
    match given {
        Some(value) => left_alone(after, value),
        None => left_alone(after, before),
    }
}

/// A text that was given, without the white space around, or else the one that was
/// there.
pub open spec fn text_now(given: Option<String>, before: Seq<char>, after: Seq<char>) -> bool {
    match given {
        Some(text) => after == trimmed(text@),
        None => after == before,
    }
}

/// The style has each property that the config gives, and each other one as before.
pub open spec fn style_reads_back(
    config: TextStyleConfig,
    before: TextStyle,
    after: TextStyle,
) -> bool {
    &&& number_now(config.height, before.height, after.height)
    &&& number_now(config.width_factor, before.width_factor, after.width_factor)
    &&& number_now(config.oblique_angle, before.oblique_angle, after.oblique_angle)
    &&& text_now(config.font_file, before.font_file@, after.font_file@)
    &&& text_now(config.big_font_file, before.big_font_file@, after.big_font_file@)
    &&& text_now(config.true_type_font, before.true_type_font@, after.true_type_font@)
    &&& now(config.backward, before.backward, after.backward)
    &&& now(config.upside_down, before.upside_down, after.upside_down)
    &&& now(config.vertical, before.is_vertical, after.is_vertical)
    &&& now(config.annotative, before.annotative, after.annotative)
    &&& after.is_shape_file == before.is_shape_file
    &&& after.name == before.name
    &&& after.handle == before.handle
    &&& after.record == before.record
}

/// The style has each property that the config gives already.
pub open spec fn already(config: TextStyleConfig, style: TextStyle) -> bool {
    &&& number_now(config.height, style.height, style.height)
    &&& number_now(config.width_factor, style.width_factor, style.width_factor)
    &&& number_now(config.oblique_angle, style.oblique_angle, style.oblique_angle)
    &&& text_now(config.font_file, style.font_file@, style.font_file@)
    &&& text_now(config.big_font_file, style.big_font_file@, style.big_font_file@)
    &&& text_now(config.true_type_font, style.true_type_font@, style.true_type_font@)
    &&& now(config.backward, style.backward, style.backward)
    &&& now(config.upside_down, style.upside_down, style.upside_down)
    &&& now(config.vertical, style.is_vertical, style.is_vertical)
    &&& now(config.annotative, style.annotative, style.annotative)
}

/// After a text style was changed, each property that the config gives reads back, and
/// each other one reads back as before. Other styles and the rest of the drawing stay.
/// The application is told, unless the style was so already.
pub proof fn changed_text_style_reads_back<S, C>(
    before: StudioView<S, C>,
    after: StudioView<S, C>,
    tab: int,
    open: bool,
    config: TextStyleConfig,
    handle: Handle,
)
    requires
        0 <= tab < before.tabs.len(),
        operation_done(
            before,
            after,
            tab,
            open,
            TableOperation::TextStyleModify { config },
            handle,
        ),
    ensures
        ({
            let doc = before.tabs[tab].scene.document;
            let end = after.tabs[tab].scene.document;
            let name = trimmed(config.name@);
            &&& doc.text_style(name) is Some
            &&& end.text_style(name) is Some
            &&& style_reads_back(
                config,
                doc.text_style(name)->Some_0,
                end.text_style(name)->Some_0,
            )
            &&& handle == doc.text_style(name)->Some_0.handle
            &&& end.text_styles.len() == doc.text_styles.len()
            &&& end.dim_styles == doc.dim_styles
            &&& only_styles(doc, end)
            &&& only_tab(before, after, tab)
            &&& already(config, doc.text_style(name)->Some_0) ==> after == before
            &&& after == before || (styles_told(before, after, tab, open, TableStyleKind::Text)
                && remembered(before, after, tab, "Modify text style"@))
            &&& forall|other: Seq<char>|
                table_key(other) != table_key(name) ==> #[trigger] end.text_style(other)
                    == doc.text_style(other)
        }),
{
    let doc = before.tabs[tab].scene.document;
    let end = after.tabs[tab].scene.document;
    let name = trimmed(config.name@);
    let test = keyed::<TextStyle>(table_key(name));
    numbers_in_plain_terms();
    seek_finds(doc.text_styles, 0, test);
    let i = seek(doc.text_styles, 0, test)->Some_0;
    let style = choose|style: TextStyle|
        {
            &&& #[trigger] styled(doc.text_styles[i], style, config)
            &&& after == if style.agrees(doc.text_styles[i]) {
                before
            } else {
                styles_announced(
                    crate::session::with_document(
                        recorded(before, tab, "Modify text style"@),
                        tab,
                        DocumentView { text_styles: doc.text_styles.update(i, style), ..doc },
                    ),
                    tab,
                    open,
                    TableStyleKind::Text,
                )
            }
        };
    let old_style = doc.text_styles[i];
    old_style.height.agrees_with_itself();
    old_style.record.agrees_with_itself();
    assert forall|a: Scalar, b: Scalar| #[trigger] left_alone(a, b) implies left_alone(b, a) by {
        crate::plain::plain_equality(a, b);
    }
    if already(config, old_style) {
        assert(style.height.agrees(old_style.height)) by {
            assert(left_alone(old_style.height, style.height));
            assert(left_alone(style.height, old_style.height));
        }
        assert(style.width_factor.agrees(old_style.width_factor)) by {
            assert(left_alone(old_style.width_factor, style.width_factor));
            assert(left_alone(style.width_factor, old_style.width_factor));
        }
        assert(style.oblique_angle.agrees(old_style.oblique_angle)) by {
            assert(left_alone(old_style.oblique_angle, style.oblique_angle));
            assert(left_alone(style.oblique_angle, old_style.oblique_angle));
        }
        assert(style.agrees(old_style));
    }
    assert(forall|s: Scalar| #[trigger] left_alone(s, s));
    if style.agrees(old_style) {
        assert(left_alone(style.height, old_style.height));
        assert(left_alone(old_style.height, style.height));
        assert(left_alone(style.width_factor, old_style.width_factor));
        assert(left_alone(old_style.width_factor, style.width_factor));
        assert(left_alone(style.oblique_angle, old_style.oblique_angle));
        assert(left_alone(old_style.oblique_angle, style.oblique_angle));
    } else {
        assert(recorded(before, tab, "Modify text style"@).tabs[tab].undo.drop_last()
            =~= before.tabs[tab].undo);
        assert(end.text_styles =~= doc.text_styles.update(i, style));
        seek_finds(end.text_styles, 0, test);
        assert(test(end.text_styles[i]));
        let j = seek(end.text_styles, 0, test)->Some_0;
        if j < i {
            assert(test(doc.text_styles[j]));
        }
        assert(j == i);
        assert forall|other: Seq<char>| table_key(other) != table_key(name) implies
            #[trigger] end.text_style(other) == doc.text_style(other) by {
            let there = keyed::<TextStyle>(table_key(other));
            seek_finds(doc.text_styles, 0, there);
            seek_finds(end.text_styles, 0, there);
            if seek(doc.text_styles, 0, there) is Some {
                let k = seek(doc.text_styles, 0, there)->Some_0;
                assert(there(doc.text_styles[k]));
                assert(k != i);
                assert(there(end.text_styles[k]));
            }
            if seek(end.text_styles, 0, there) is Some {
                let k = seek(end.text_styles, 0, there)->Some_0;
                assert(there(end.text_styles[k]));
                assert(k != i);
                assert(there(doc.text_styles[k]));
            }
        }
    }
}

/// After a text style was made it reads back with each property that the config gives:
/// otherwise its height varies, it is neither stretched nor slanted nor turned, and it
/// writes with `txt`. The other styles and the rest of the drawing stay.
pub proof fn made_text_style_reads_back<S, C>(
    before: StudioView<S, C>,
    after: StudioView<S, C>,
    tab: int,
    open: bool,
    config: TextStyleConfig,
    handle: Handle,
)
    requires
        0 <= tab < before.tabs.len(),
        before.tabs[tab].scene.document.spare(1),
        before.tabs[tab].scene.document.text_style(trimmed(config.name@)) is None,
        operation_done(
            before,
            after,
            tab,
            open,
            TableOperation::TextStyleCreate { config },
            handle,
        ),
    ensures
        ({
            let doc = before.tabs[tab].scene.document;
            let end = after.tabs[tab].scene.document;
            let name = trimmed(config.name@);
            let style = end.text_style(name)->Some_0;
            &&& end.text_style(name) is Some
            &&& end.text_styles == doc.text_styles.push(style)
            &&& style.handle == handle
            &&& handle.value == doc.next_handle
            &&& end.next_handle == doc.next_handle + 1
            &&& style.name@ == name
            &&& asked(config.height, Scalar { bits: 0 }, style.height)
            &&& asked(
                config.width_factor,
                Scalar { bits: 0x3ff0_0000_0000_0000 },
                style.width_factor,
            )
            &&& asked(config.oblique_angle, Scalar { bits: 0 }, style.oblique_angle)
            &&& text_now(config.font_file, "txt"@, style.font_file@)
            &&& text_now(config.big_font_file, Seq::empty(), style.big_font_file@)
            &&& text_now(config.true_type_font, Seq::empty(), style.true_type_font@)
            &&& asked(config.backward, false, style.backward)
            &&& asked(config.upside_down, false, style.upside_down)
            &&& asked(config.vertical, false, style.is_vertical)
            &&& asked(config.annotative, false, style.annotative)
            &&& !style.is_shape_file
            &&& end.dim_styles == doc.dim_styles
            &&& only_styles(doc, end)
            &&& only_tab(before, after, tab)
            &&& styles_told(before, after, tab, open, TableStyleKind::Text)
            &&& remembered(before, after, tab, "Create text style"@)
        }),
{
    let doc = before.tabs[tab].scene.document;
    let end = after.tabs[tab].scene.document;
    let name = trimmed(config.name@);
    let style = choose|style: TextStyle| #[trigger]
        text_style_created(style, handle, name, config) && after == styles_announced(
            crate::session::with_document(
                recorded(before, tab, "Create text style"@),
                tab,
                DocumentView {
                    next_handle: (doc.next_handle + 1) as u64,
                    text_styles: doc.text_styles.push(style),
                    ..doc
                },
            ),
            tab,
            open,
            TableStyleKind::Text,
        );
    reveal_strlit("");
    assert(""@ =~= Seq::empty());
    assert(recorded(before, tab, "Create text style"@).tabs[tab].undo.drop_last()
        =~= before.tabs[tab].undo);
    let base = choose|base: TextStyle| #[trigger]
        plain_text_style(base, name) && styled(
            base,
            TextStyle { handle: base.handle, ..style },
            config,
        );
    assert(base.height == Scalar { bits: 0 });
    assert(base.width_factor == Scalar { bits: 0x3ff0_0000_0000_0000 });
    assert(base.oblique_angle == Scalar { bits: 0 });
    let test = keyed::<TextStyle>(table_key(name));
    let last = doc.text_styles.len() as int;
    seek_finds(doc.text_styles, 0, test);
    seek_finds(end.text_styles, 0, test);
    assert(end.text_styles[last] == style);
    assert(test(end.text_styles[last]));
    let j = seek(end.text_styles, 0, test)->Some_0;
    if j < last {
        assert(test(doc.text_styles[j]));
    }
}

} // verus!
