//! What the operations on styles that were not refused come to, as a reader of the
//! drawing sees it.

use crate::document::DocumentView;
use crate::entities::{AttributeEntity, Dimension, EntityType, Insert, Leader, Shape, Tolerance};
use crate::filing::deleted_style_is_gone;
use crate::geometry::Handle;
use crate::layer_change_laws::remembered;
use crate::layer_laws::{fit_name, fit_names_are_accepted, only_tab};
use crate::records::{keyed, table_key, DimStyle, TextStyle};
use crate::search::{seek, seek_finds};
use crate::session::recorded;
use crate::studio::{StudioView, TableStyleKind};
use crate::style_laws::{
    dim_style_filed, only_styles, style_is_found, styles_told, text_style_filed,
};
use crate::style_ops::{stored_name, style_handle, style_renamed, TableOperation};
use crate::style_uses::{attribute_uses, dim_style_uses, entity_restyled, style_in_use, uses};
use crate::table_ops::{operation_done, operation_fault};
use crate::text::{alike, trimmed};
use vstd::prelude::*;
use vstd::string::*;

verus! {

/// Some style of the kind is filed under the name.
pub open spec fn style_filed(doc: DocumentView, kind: TableStyleKind, name: Seq<char>) -> bool {
    if kind is Text {
        text_style_filed(doc, name)
    } else {
        dim_style_filed(doc, name)
    }
}

/// The name under which the style is stored.
pub open spec fn spelling(doc: DocumentView, kind: TableStyleKind, name: Seq<char>) -> Seq<char> {
    if kind is Text {
        doc.text_style(name)->Some_0.name@
    } else {
        doc.dim_style(name)->Some_0.name@
    }
}

/// A style is renamed exactly in the active drawing, where it is there and not the
/// standard one, and the new name is fit, differs in more than the case of letters, and
/// is free.
pub proof fn style_can_be_renamed<S, C>(
    state: StudioView<S, C>,
    tab: int,
    kind: TableStyleKind,
    from: String,
    to: String,
)
    ensures
        operation_fault(state, tab, TableOperation::StyleRename { kind, from, to }) is None <==> {
            let doc = state.tabs[tab].scene.document;
            let stored = spelling(doc, kind, trimmed(from@));
            &&& state.active_tab == tab
            &&& style_filed(doc, kind, trimmed(from@))
            &&& !alike(stored, "Standard"@)
            &&& fit_name(to@)
            &&& !alike(stored, trimmed(to@))
            &&& !style_filed(doc, kind, trimmed(to@))
        },
{
    let doc = state.tabs[tab].scene.document;
    style_is_found(doc, trimmed(from@));
    style_is_found(doc, trimmed(to@));
    fit_names_are_accepted(to@, "a style name"@);
}

/// The entity is written in the text style: it names the style itself, or an attribute
/// of a block reference does.
pub open spec fn written_in(entity: EntityType, name: Seq<char>) -> bool {
    ||| entity.data is Text && alike(entity.data->Text_0.style_name@, name)
    ||| entity.data is MText && alike(entity.data->MText_0.style_name@, name)
    ||| entity.data is Shape && alike(entity.data->Shape_0.style_name@, name)
    ||| entity.data is AttributeDefinition && alike(
        entity.data->AttributeDefinition_0.text.text_style@,
        name,
    )
    ||| entity.data is AttributeEntity && alike(
        entity.data->AttributeEntity_0.text.text_style@,
        name,
    )
    ||| entity.data is Insert && exists|k: int|
        0 <= k < entity.data->Insert_0.attributes@.len() && alike(
            (#[trigger] entity.data->Insert_0.attributes@[k]).value.text.text_style@,
            name,
        )
}

/// The entity is measured in the dimension style.
pub open spec fn measured_in(entity: EntityType, name: Seq<char>) -> bool {
    ||| entity.data is Dimension && alike(entity.data->Dimension_0.style_name@, name)
    ||| entity.data is Leader && alike(entity.data->Leader_0.dimension_style@, name)
    ||| entity.data is Tolerance && alike(entity.data->Tolerance_0.dimension_style_name@, name)
}

/// The style is the current one, a dimension style writes in it, or an entity names it.
pub open spec fn needed_style(doc: DocumentView, kind: TableStyleKind, name: Seq<char>) -> bool {
    if kind is Text {
        ||| alike(doc.header.current_text_style_name@, name)
        ||| exists|i: int|
            0 <= i < doc.dim_styles.len() && alike((#[trigger] doc.dim_styles[i]).dimtxsty@, name)
        ||| exists|i: int| 0 <= i < doc.entities.len() && written_in(#[trigger] doc.entities[i], name)
    } else {
        ||| alike(doc.header.current_dimstyle_name@, name)
        ||| exists|i: int|
            0 <= i < doc.entities.len() && measured_in(#[trigger] doc.entities[i], name)
    }
}

proof fn uses_are_seen(entity: EntityType, name: Seq<char>)
    ensures
        uses(TableStyleKind::Text, name)(entity) == written_in(entity, name),
        uses(TableStyleKind::Dim, name)(entity) == measured_in(entity, name),
{
    if entity.data is Insert {
        let list = entity.data->Insert_0.attributes@;
        let test = attribute_uses(name);
        seek_finds(list, 0, test);
        if exists|k: int|
            0 <= k < list.len() && alike(
                (#[trigger] entity.data->Insert_0.attributes@[k]).value.text.text_style@,
                name,
            ) {
            let k = choose|k: int|
                0 <= k < list.len() && alike(
                    (#[trigger] entity.data->Insert_0.attributes@[k]).value.text.text_style@,
                    name,
                );
            assert(test(list[k]));
        }
        if seek(list, 0, test) is Some {
            let k = seek(list, 0, test)->Some_0;
            assert(test(list[k]));
            assert(alike(
                entity.data->Insert_0.attributes@[k].value.text.text_style@,
                name,
            ));
        }
    }
}

proof fn needed_styles_are_in_use(doc: DocumentView, kind: TableStyleKind, name: Seq<char>)
    ensures
        style_in_use(doc, kind, name) == needed_style(doc, kind, name),
{
    let by_entity = uses(kind, name);
    let by_style = dim_style_uses(name);
    seek_finds(doc.entities, 0, by_entity);
    seek_finds(doc.dim_styles, 0, by_style);
    assert forall|entity: EntityType|
        uses(TableStyleKind::Text, name)(entity) == #[trigger] written_in(entity, name) by {
        uses_are_seen(entity, name);
    }
    assert forall|entity: EntityType|
        uses(TableStyleKind::Dim, name)(entity) == #[trigger] measured_in(entity, name) by {
        uses_are_seen(entity, name);
    }
    if seek(doc.entities, 0, by_entity) is Some {
        let i = seek(doc.entities, 0, by_entity)->Some_0;
        assert(by_entity(doc.entities[i]));
        uses_are_seen(doc.entities[i], name);
        assert(kind is Text ==> written_in(doc.entities[i], name));
        assert(kind is Dim ==> measured_in(doc.entities[i], name));
    } else {
        assert forall|i: int| 0 <= i < doc.entities.len() implies !by_entity(
            #[trigger] doc.entities[i],
        ) && (kind is Text ==> !written_in(doc.entities[i], name)) && (kind is Dim
            ==> !measured_in(doc.entities[i], name)) by {
            uses_are_seen(doc.entities[i], name);
        }
    }
    if seek(doc.dim_styles, 0, by_style) is Some {
        let i = seek(doc.dim_styles, 0, by_style)->Some_0;
        assert(by_style(doc.dim_styles[i]));
    } else {
        assert forall|i: int| 0 <= i < doc.dim_styles.len() implies !alike(
            (#[trigger] doc.dim_styles[i]).dimtxsty@,
            name,
        ) by {
            assert(!by_style(doc.dim_styles[i]));
        }
    }
}

/// A style is deleted exactly in the active drawing, where it is there, not the standard
/// one, not the current one, and nothing is written or measured in it.
pub proof fn style_can_be_deleted<S, C>(
    state: StudioView<S, C>,
    tab: int,
    kind: TableStyleKind,
    name: String,
)
    ensures
        operation_fault(state, tab, TableOperation::StyleDelete { kind, name }) is None <==> {
            let doc = state.tabs[tab].scene.document;
            let stored = spelling(doc, kind, trimmed(name@));
            &&& state.active_tab == tab
            &&& style_filed(doc, kind, trimmed(name@))
            &&& !alike(stored, "Standard"@)
            &&& !needed_style(doc, kind, stored)
        },
{
    let doc = state.tabs[tab].scene.document;
    style_is_found(doc, trimmed(name@));
    needed_styles_are_in_use(doc, kind, spelling(doc, kind, trimmed(name@)));
}

/// A style is made current exactly in the active drawing, where it is there.
pub proof fn style_can_be_current<S, C>(
    state: StudioView<S, C>,
    tab: int,
    kind: TableStyleKind,
    name: String,
)
    ensures
        operation_fault(state, tab, TableOperation::StyleSetCurrent { kind, name }) is None <==> {
            &&& state.active_tab == tab
            &&& style_filed(state.tabs[tab].scene.document, kind, trimmed(name@))
        },
{
    style_is_found(state.tabs[tab].scene.document, trimmed(name@));
}

/// A style that was made current is so in the drawing, by its stored name and its
/// handle, and in the ribbon; nothing else changes.
pub proof fn current_style_reads_back<S, C>(
    before: StudioView<S, C>,
    after: StudioView<S, C>,
    tab: int,
    open: bool,
    kind: TableStyleKind,
    name: String,
    handle: Handle,
)
    requires
        0 <= tab < before.tabs.len(),
        operation_done(
            before,
            after,
            tab,
            open,
            TableOperation::StyleSetCurrent { kind, name },
            handle,
        ),
    ensures
        ({
            let doc = before.tabs[tab].scene.document;
            let end = after.tabs[tab].scene.document;
            let stored = spelling(doc, kind, trimmed(name@));
            &&& style_filed(doc, kind, trimmed(name@))
            &&& kind is Text ==> {
                &&& handle == doc.text_style(trimmed(name@))->Some_0.handle
                &&& end.header.current_text_style_name@ == stored
                &&& end.header.current_text_style_handle == handle
                &&& after.ribbon.active_text_style == stored
                &&& end.header.current_dimstyle_name == doc.header.current_dimstyle_name
                &&& end.header.current_dimstyle_handle == doc.header.current_dimstyle_handle
                &&& after.ribbon.active_dim_style == before.ribbon.active_dim_style
            }
            &&& kind is Dim ==> {
                &&& handle == doc.dim_style(trimmed(name@))->Some_0.handle
                &&& end.header.current_dimstyle_name@ == stored
                &&& end.header.current_dimstyle_handle == handle
                &&& after.ribbon.active_dim_style == stored
                &&& end.header.current_text_style_name == doc.header.current_text_style_name
                &&& end.header.current_text_style_handle == doc.header.current_text_style_handle
                &&& after.ribbon.active_text_style == before.ribbon.active_text_style
            }
            &&& end.header.current_layer_name == doc.header.current_layer_name
            &&& end.header.model_space_block_handle == doc.header.model_space_block_handle
            &&& end.header.paper_space_block_handle == doc.header.paper_space_block_handle
            &&& end.header.named_objects_dict_handle == doc.header.named_objects_dict_handle
            &&& end.text_styles == doc.text_styles && end.dim_styles == doc.dim_styles
            &&& end.layers == doc.layers && end.entities == doc.entities && end.objects
                == doc.objects
            &&& after.ribbon.active_layer == before.ribbon.active_layer
            &&& after.tabs[tab].dirty
            &&& after.tabs[tab].undo == before.tabs[tab].undo
            &&& only_tab(before, after, tab)
            &&& after.events == before.events
        }),
{
    style_is_found(before.tabs[tab].scene.document, trimmed(name@));
}

/// A style that was deleted is gone. Every other style and the rest of the drawing
/// stay, the drawing can be had back, and the application is told.
pub proof fn deleted_style_reads_back<S, C>(
    before: StudioView<S, C>,
    after: StudioView<S, C>,
    tab: int,
    open: bool,
    kind: TableStyleKind,
    name: String,
    handle: Handle,
)
    requires
        0 <= tab < before.tabs.len(),
        before.tabs[tab].scene.document.filed(),
        operation_done(
            before,
            after,
            tab,
            open,
            TableOperation::StyleDelete { kind, name },
            handle,
        ),
    ensures
        ({
            let doc = before.tabs[tab].scene.document;
            let end = after.tabs[tab].scene.document;
            let gone = trimmed(name@);
            &&& style_filed(doc, kind, gone)
            &&& !style_filed(end, kind, gone)
            &&& kind is Text ==> {
                &&& handle == doc.text_style(gone)->Some_0.handle
                &&& end.text_styles.len() + 1 == doc.text_styles.len()
                &&& end.dim_styles == doc.dim_styles
                &&& forall|i: int|
                    0 <= i < doc.text_styles.len() && table_key(
                        (#[trigger] doc.text_styles[i]).name@,
                    ) != table_key(gone) ==> end.text_styles.contains(doc.text_styles[i])
            }
            &&& kind is Dim ==> {
                &&& handle == doc.dim_style(gone)->Some_0.handle
                &&& end.dim_styles.len() + 1 == doc.dim_styles.len()
                &&& end.text_styles == doc.text_styles
                &&& forall|i: int|
                    0 <= i < doc.dim_styles.len() && table_key(
                        (#[trigger] doc.dim_styles[i]).name@,
                    ) != table_key(gone) ==> end.dim_styles.contains(doc.dim_styles[i])
            }
            &&& only_styles(doc, end)
            &&& only_tab(before, after, tab)
            &&& styles_told(before, after, tab, open, kind)
            &&& remembered(before, after, tab, "Delete style"@)
        }),
{
    let doc = before.tabs[tab].scene.document;
    let end = after.tabs[tab].scene.document;
    let gone = trimmed(name@);
    style_is_found(doc, gone);
    style_is_found(end, gone);
    deleted_style_is_gone(doc, kind, gone);
    assert(recorded(before, tab, "Delete style"@).tabs[tab].undo.drop_last()
        =~= before.tabs[tab].undo);
    let text = keyed::<TextStyle>(table_key(gone));
    let dim = keyed::<DimStyle>(table_key(gone));
    seek_finds(doc.text_styles, 0, text);
    seek_finds(doc.dim_styles, 0, dim);
    if kind is Text {
        let k = seek(doc.text_styles, 0, text)->Some_0;
        assert(text(doc.text_styles[k]));
        assert forall|i: int|
            0 <= i < doc.text_styles.len() && table_key((#[trigger] doc.text_styles[i]).name@)
                != table_key(gone) implies end.text_styles.contains(doc.text_styles[i]) by {
            assert(i != k);
            if i < k {
                assert(end.text_styles[i] == doc.text_styles[i]);
            } else {
                assert(end.text_styles[i - 1] == doc.text_styles[i]);
            }
        }
    } else {
        let k = seek(doc.dim_styles, 0, dim)->Some_0;
        assert(dim(doc.dim_styles[k]));
        assert forall|i: int|
            0 <= i < doc.dim_styles.len() && table_key((#[trigger] doc.dim_styles[i]).name@)
                != table_key(gone) implies end.dim_styles.contains(doc.dim_styles[i]) by {
            assert(i != k);
            if i < k {
                assert(end.dim_styles[i] == doc.dim_styles[i]);
            } else {
                assert(end.dim_styles[i - 1] == doc.dim_styles[i]);
            }
        }
    }
}

/// A name of the style is the new one now, and any other name stays.
pub open spec fn style_name_moves(
    from: Seq<char>,
    to: Seq<char>,
    before: Seq<char>,
    after: Seq<char>,
) -> bool {
    &&& alike(before, from) ==> after == to
    &&& !alike(before, from) ==> after == before
}

/// The names of a text style in an entity move, and nothing else of it changes.
pub open spec fn text_names_move(
    from: Seq<char>,
    to: Seq<char>,
    before: EntityType,
    after: EntityType,
) -> bool {
    &&& after.common == before.common
    &&& after.record == before.record
    &&& after.data.kind() == before.data.kind()
    &&& before.data is Text ==> style_name_moves(
        from,
        to,
        before.data->Text_0.style_name@,
        after.data->Text_0.style_name@,
    )
    &&& before.data is MText ==> style_name_moves(
        from,
        to,
        before.data->MText_0.style_name@,
        after.data->MText_0.style_name@,
    )
    &&& before.data is Shape ==> style_name_moves(
        from,
        to,
        before.data->Shape_0.style_name@,
        after.data->Shape_0.style_name@,
    ) && after.data->Shape_0.style_handle == before.data->Shape_0.style_handle
        && after.data->Shape_0.insertion_point == before.data->Shape_0.insertion_point
    &&& before.data is AttributeDefinition ==> style_name_moves(
        from,
        to,
        before.data->AttributeDefinition_0.text.text_style@,
        after.data->AttributeDefinition_0.text.text_style@,
    ) && after.data->AttributeDefinition_0.text.tag == before.data->AttributeDefinition_0.text.tag
    &&& before.data is AttributeEntity ==> style_name_moves(
        from,
        to,
        before.data->AttributeEntity_0.text.text_style@,
        after.data->AttributeEntity_0.text.text_style@,
    ) && after.data->AttributeEntity_0.text.tag == before.data->AttributeEntity_0.text.tag
        && after.data->AttributeEntity_0.attdef_handle
        == before.data->AttributeEntity_0.attdef_handle
    &&& before.data is Insert ==> {
        let old_list = before.data->Insert_0.attributes@;
        let list = after.data->Insert_0.attributes@;
        &&& list.len() == old_list.len()
        &&& forall|k: int|
            #![trigger old_list[k]]
            0 <= k < old_list.len() ==> list[k].common == old_list[k].common && list[k].record
                == old_list[k].record && style_name_moves(
                from,
                to,
                old_list[k].value.text.text_style@,
                list[k].value.text.text_style@,
            ) && list[k].value.text.tag == old_list[k].value.text.tag
        &&& after.data->Insert_0.block_name == before.data->Insert_0.block_name
    }
    &&& !written_in(before, from) && !(before.data is Insert) ==> after == before
}

/// The names of a dimension style in an entity move, and nothing else of it changes.
pub open spec fn dim_names_move(
    from: Seq<char>,
    to: Seq<char>,
    before: EntityType,
    after: EntityType,
) -> bool {
    &&& after.common == before.common
    &&& after.record == before.record
    &&& after.data.kind() == before.data.kind()
    &&& before.data is Dimension ==> style_name_moves(
        from,
        to,
        before.data->Dimension_0.style_name@,
        after.data->Dimension_0.style_name@,
    ) && after.data->Dimension_0.geometry == before.data->Dimension_0.geometry
    &&& before.data is Leader ==> style_name_moves(
        from,
        to,
        before.data->Leader_0.dimension_style@,
        after.data->Leader_0.dimension_style@,
    ) && after.data->Leader_0.annotation_handle == before.data->Leader_0.annotation_handle
    &&& before.data is Tolerance ==> style_name_moves(
        from,
        to,
        before.data->Tolerance_0.dimension_style_name@,
        after.data->Tolerance_0.dimension_style_name@,
    ) && after.data->Tolerance_0.dimension_style_handle
        == before.data->Tolerance_0.dimension_style_handle
    &&& !measured_in(before, from) ==> after == before
}

proof fn restyled_names_move(
    from: Seq<char>,
    to: Seq<char>,
    before: &EntityType,
    after: &EntityType,
)
    ensures
        entity_restyled(TableStyleKind::Text, from, to, *before, *after) ==> text_names_move(
            from,
            to,
            *before,
            *after,
        ),
        entity_restyled(TableStyleKind::Dim, from, to, *before, *after) ==> dim_names_move(
            from,
            to,
            *before,
            *after,
        ),
{
    if entity_restyled(TableStyleKind::Text, from, to, *before, *after) && before.data is Insert {
        let old_list = before.data->Insert_0.attributes@;
        let list = after.data->Insert_0.attributes@;
        assert forall|k: int|
            #![trigger old_list[k]]
            0 <= k < old_list.len() implies list[k].common == old_list[k].common && list[k].record
            == old_list[k].record && style_name_moves(
            from,
            to,
            old_list[k].value.text.text_style@,
            list[k].value.text.text_style@,
        ) && list[k].value.text.tag == old_list[k].value.text.tag by {
            assert(crate::style_uses::attribute_restyled(from, to, old_list[k], list[k]));
        }
    }
}

/// After a style was renamed it is found under the new name, with every property that it
/// had. Entities, attributes, dimension styles and the current style that named it name
/// it still, and nothing else changes.
pub proof fn renamed_style_reads_back<S, C>(
    before: StudioView<S, C>,
    after: StudioView<S, C>,
    tab: int,
    open: bool,
    kind: TableStyleKind,
    from: String,
    to: String,
    handle: Handle,
)
    requires
        0 <= tab < before.tabs.len(),
        before.tabs[tab].scene.document.filed(),
        !style_filed(before.tabs[tab].scene.document, kind, trimmed(to@)),
        operation_done(
            before,
            after,
            tab,
            open,
            TableOperation::StyleRename { kind, from, to },
            handle,
        ),
    ensures
        ({
            let doc = before.tabs[tab].scene.document;
            let end = after.tabs[tab].scene.document;
            let old_name = spelling(doc, kind, trimmed(from@));
            let new_name = trimmed(to@);
            &&& style_filed(doc, kind, trimmed(from@))
            &&& style_filed(end, kind, new_name)
            &&& kind is Text ==> {
                let style = doc.text_style(trimmed(from@))->Some_0;
                let named = end.text_style(new_name)->Some_0;
                &&& handle == style.handle
                &&& named.name@ == new_name
                &&& named.handle == style.handle && named.height == style.height
                    && named.width_factor == style.width_factor && named.oblique_angle
                    == style.oblique_angle && named.font_file == style.font_file
                    && named.big_font_file == style.big_font_file && named.true_type_font
                    == style.true_type_font && named.backward == style.backward
                    && named.upside_down == style.upside_down && named.is_vertical
                    == style.is_vertical && named.annotative == style.annotative
                    && named.is_shape_file == style.is_shape_file && named.record == style.record
                &&& end.text_styles.len() == doc.text_styles.len()
                &&& end.dim_styles.len() == doc.dim_styles.len()
                &&& forall|i: int|
                    #![trigger doc.dim_styles[i]]
                    0 <= i < doc.dim_styles.len() ==> {
                        &&& style_name_moves(
                            old_name,
                            new_name,
                            doc.dim_styles[i].dimtxsty@,
                            end.dim_styles[i].dimtxsty@,
                        )
                        &&& end.dim_styles[i].name == doc.dim_styles[i].name
                        &&& end.dim_styles[i].handle == doc.dim_styles[i].handle
                        &&& end.dim_styles[i].properties == doc.dim_styles[i].properties
                        &&& end.dim_styles[i].dimtxsty_handle == doc.dim_styles[i].dimtxsty_handle
                    }
                &&& forall|i: int|
                    0 <= i < doc.entities.len() ==> text_names_move(
                        old_name,
                        new_name,
                        #[trigger] doc.entities[i],
                        end.entities[i],
                    )
                &&& style_name_moves(
                    old_name,
                    new_name,
                    doc.header.current_text_style_name@,
                    end.header.current_text_style_name@,
                )
                &&& end.header.current_dimstyle_name == doc.header.current_dimstyle_name
            }
            &&& kind is Dim ==> {
                let style = doc.dim_style(trimmed(from@))->Some_0;
                let named = end.dim_style(new_name)->Some_0;
                &&& handle == style.handle
                &&& named.name@ == new_name
                &&& named.handle == style.handle && named.dimscale == style.dimscale
                    && named.dimtxt == style.dimtxt && named.dimasz == style.dimasz
                    && named.dimtxsty == style.dimtxsty && named.dimtxsty_handle
                    == style.dimtxsty_handle && named.properties == style.properties
                &&& end.dim_styles.len() == doc.dim_styles.len()
                &&& end.text_styles == doc.text_styles
                &&& forall|i: int|
                    0 <= i < doc.entities.len() ==> dim_names_move(
                        old_name,
                        new_name,
                        #[trigger] doc.entities[i],
                        end.entities[i],
                    )
                &&& style_name_moves(
                    old_name,
                    new_name,
                    doc.header.current_dimstyle_name@,
                    end.header.current_dimstyle_name@,
                )
                &&& end.header.current_text_style_name == doc.header.current_text_style_name
            }
            &&& end.entities.len() == doc.entities.len()
            &&& end.header.current_layer_name == doc.header.current_layer_name
            &&& end.layers == doc.layers && end.objects == doc.objects && end.line_types
                == doc.line_types && end.block_records == doc.block_records
            &&& only_tab(before, after, tab)
            &&& styles_told(before, after, tab, open, kind)
            &&& remembered(before, after, tab, "Rename style"@)
        }),
{
    let doc = before.tabs[tab].scene.document;
    let end = after.tabs[tab].scene.document;
    let new_name = trimmed(to@);
    style_is_found(doc, trimmed(from@));
    style_is_found(doc, new_name);
    style_is_found(end, new_name);
    let old_name = stored_name(doc, kind, trimmed(from@));
    assert(recorded(before, tab, "Rename style"@).tabs[tab].undo.drop_last()
        =~= before.tabs[tab].undo);
    assert(style_renamed(doc, end, kind, old_name, new_name));
    let text_from = keyed::<TextStyle>(table_key(old_name));
    let text_to = keyed::<TextStyle>(table_key(new_name));
    let dim_from = keyed::<DimStyle>(table_key(old_name));
    let dim_to = keyed::<DimStyle>(table_key(new_name));
    assert(table_key(old_name) == table_key(trimmed(from@)));
    seek_finds(doc.text_styles, 0, text_from);
    seek_finds(doc.text_styles, 0, text_to);
    seek_finds(end.text_styles, 0, text_to);
    seek_finds(doc.dim_styles, 0, dim_from);
    seek_finds(doc.dim_styles, 0, dim_to);
    seek_finds(end.dim_styles, 0, dim_to);
    if kind is Text {
        let i = seek(doc.text_styles, 0, text_from)->Some_0;
        assert(text_to(end.text_styles[i]));
        let k = seek(end.text_styles, 0, text_to)->Some_0;
        if k != i {
            assert(text_to(end.text_styles[k]));
            assert(text_to(doc.text_styles[k]));
        }
        assert(seek(doc.text_styles, 0, keyed::<TextStyle>(table_key(trimmed(from@)))) == Some(i));
        assert forall|j: int| 0 <= j < doc.entities.len() implies text_names_move(
            old_name,
            new_name,
            #[trigger] doc.entities[j],
            end.entities[j],
        ) by {
            assert(entity_restyled(
                TableStyleKind::Text,
                old_name,
                new_name,
                doc.entities[j],
                end.entities[j],
            ));
            restyled_names_move(old_name, new_name, &doc.entities[j], &end.entities[j]);
        }
        assert forall|j: int|
            #![trigger doc.dim_styles[j]]
            0 <= j < doc.dim_styles.len() implies {
            &&& style_name_moves(
                old_name,
                new_name,
                doc.dim_styles[j].dimtxsty@,
                end.dim_styles[j].dimtxsty@,
            )
            &&& end.dim_styles[j].name == doc.dim_styles[j].name
            &&& end.dim_styles[j].handle == doc.dim_styles[j].handle
            &&& end.dim_styles[j].properties == doc.dim_styles[j].properties
            &&& end.dim_styles[j].dimtxsty_handle == doc.dim_styles[j].dimtxsty_handle
        } by {
            assert(crate::style_uses::dim_style_followed(
                doc.dim_styles[j],
                end.dim_styles[j],
                old_name,
                new_name,
            ));
        }
    } else {
        let i = seek(doc.dim_styles, 0, dim_from)->Some_0;
        assert(dim_to(end.dim_styles[i]));
        let k = seek(end.dim_styles, 0, dim_to)->Some_0;
        if k != i {
            assert(dim_to(end.dim_styles[k]));
            assert(dim_to(doc.dim_styles[k]));
        }
        assert(seek(doc.dim_styles, 0, keyed::<DimStyle>(table_key(trimmed(from@)))) == Some(i));
        assert forall|j: int| 0 <= j < doc.entities.len() implies dim_names_move(
            old_name,
            new_name,
            #[trigger] doc.entities[j],
            end.entities[j],
        ) by {
            assert(entity_restyled(
                TableStyleKind::Dim,
                old_name,
                new_name,
                doc.entities[j],
                end.entities[j],
            ));
            restyled_names_move(old_name, new_name, &doc.entities[j], &end.entities[j]);
        }
    }
}

} // verus!
