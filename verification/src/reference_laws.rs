//! What an entity must find in its drawing, in terms of what the drawing holds.

use crate::document::{DocumentView, MLineStyle};
use crate::entities::{
    AttributeEntity, BoundaryPath, EntityType, Hatch, Leader, MLine, MultiLeader, Shape, Table,
    TableCell, TableRow, Tolerance,
};
use crate::geometry::Handle;
use crate::plain::{all_checks_pass, text_in_plain_terms, written};
use crate::records::{identified, spelled, BlockRecord, DimStyle, LineType, TextStyle};
use crate::reference_rules::{
    boundary_checks, boundary_handle_checks, cell_reference_checks, content_reference_checks,
    defines, definition, hatch_reference_fault, mline_reference_fault, mline_style,
    mline_style_spelled, reference_fault, row_reference_checks, segment_count_checks,
};
use crate::search::{pick, seek, seek_finds};
use crate::text::{alike, trimmed};
use vstd::prelude::*;
use vstd::string::*;

verus! {

/// A search finds the first item that passes, where there is one.
pub proof fn search_finds_the_first<T>(items: Seq<T>, test: spec_fn(T) -> bool)
    ensures
        pick(items, test) is Some <==> exists|i: int|
            0 <= i < items.len() && test(#[trigger] items[i]),
        pick(items, test) is Some ==> exists|i: int|
            {
                &&& 0 <= i < items.len()
                &&& #[trigger] items[i] == pick(items, test)->Some_0
                &&& test(items[i])
                &&& forall|j: int| 0 <= j < i ==> !test(#[trigger] items[j])
            },
{
    seek_finds(items, 0, test);
}

/// Some block of the drawing has the handle.
pub open spec fn block_there(doc: DocumentView, handle: Handle) -> bool {
    exists|i: int|
        0 <= i < doc.block_records.len() && (#[trigger] doc.block_records[i]).handle == handle
}

/// Some text style of the drawing has the handle.
pub open spec fn text_style_there(doc: DocumentView, handle: Handle) -> bool {
    exists|i: int|
        0 <= i < doc.text_styles.len() && (#[trigger] doc.text_styles[i]).handle == handle
}

/// Some dimension style of the drawing has the handle.
pub open spec fn dim_style_there(doc: DocumentView, handle: Handle) -> bool {
    exists|i: int|
        0 <= i < doc.dim_styles.len() && (#[trigger] doc.dim_styles[i]).handle == handle
}

/// Some dimension style of the drawing has the name, whatever the case of letters.
pub open spec fn dim_style_named(doc: DocumentView, name: Seq<char>) -> bool {
    exists|i: int|
        0 <= i < doc.dim_styles.len() && alike(
            (#[trigger] doc.dim_styles[i]).name@,
            trimmed(name),
        )
}

/// Some linetype of the drawing has the handle.
pub open spec fn line_type_there(doc: DocumentView, handle: Handle) -> bool {
    exists|i: int|
        0 <= i < doc.line_types.len() && (#[trigger] doc.line_types[i]).handle == handle
}

/// A reference leads nowhere by intent: it is absent or null.
pub open spec fn open_end(reference: Option<Handle>) -> bool {
    reference is None || reference->Some_0.value == 0
}

proof fn lookups(doc: DocumentView, handle: Handle, name: Seq<char>)
    ensures
        doc.block_with(handle) is Some <==> block_there(doc, handle),
        pick(doc.text_styles, identified::<TextStyle>(handle)) is Some <==> text_style_there(
            doc,
            handle,
        ),
        pick(doc.dim_styles, identified::<DimStyle>(handle)) is Some <==> dim_style_there(
            doc,
            handle,
        ),
        pick(doc.line_types, identified::<LineType>(handle)) is Some <==> line_type_there(
            doc,
            handle,
        ),
        pick(doc.dim_styles, spelled::<DimStyle>(trimmed(name))) is Some <==> dim_style_named(
            doc,
            name,
        ),
{
    let block = identified::<BlockRecord>(handle);
    let text = identified::<TextStyle>(handle);
    let dim = identified::<DimStyle>(handle);
    let line = identified::<LineType>(handle);
    let named = spelled::<DimStyle>(trimmed(name));
    seek_finds(doc.block_records, 0, block);
    seek_finds(doc.text_styles, 0, text);
    seek_finds(doc.dim_styles, 0, dim);
    seek_finds(doc.line_types, 0, line);
    seek_finds(doc.dim_styles, 0, named);
    if block_there(doc, handle) {
        let i = choose|i: int|
            0 <= i < doc.block_records.len() && (#[trigger] doc.block_records[i]).handle == handle;
        assert(block(doc.block_records[i]));
    }
    if text_style_there(doc, handle) {
        let i = choose|i: int|
            0 <= i < doc.text_styles.len() && (#[trigger] doc.text_styles[i]).handle == handle;
        assert(text(doc.text_styles[i]));
    }
    if dim_style_there(doc, handle) {
        let i = choose|i: int|
            0 <= i < doc.dim_styles.len() && (#[trigger] doc.dim_styles[i]).handle == handle;
        assert(dim(doc.dim_styles[i]));
    }
    if line_type_there(doc, handle) {
        let i = choose|i: int|
            0 <= i < doc.line_types.len() && (#[trigger] doc.line_types[i]).handle == handle;
        assert(line(doc.line_types[i]));
    }
    if dim_style_named(doc, name) {
        let i = choose|i: int|
            0 <= i < doc.dim_styles.len() && alike(
                (#[trigger] doc.dim_styles[i]).name@,
                trimmed(name),
            );
        assert(named(doc.dim_styles[i]));
    }
}

/// The owner of an entity, where it names one, is a block; that of an attribute can be
/// a block reference too.
pub open spec fn owner_there(doc: DocumentView, entity: EntityType) -> bool {
    let owner = entity.common.owner_handle;
    ||| owner.value == 0
    ||| block_there(doc, owner)
    ||| entity.data is AttributeEntity && doc.entity(owner) is Some && doc.entity(
        owner,
    )->Some_0.data is Insert
}

/// Of an entity that refers to nothing else, only the owner has to be there.
pub proof fn plain_entity_needs_its_owner(doc: DocumentView, entity: EntityType)
    requires
        !(entity.data is Hatch || entity.data is Tolerance || entity.data is Shape
            || entity.data is Table || entity.data is MultiLeader || entity.data is Dimension
            || entity.data is MLine || entity.data is Leader || entity.data is AttributeDefinition
            || entity.data is AttributeEntity),
    ensures
        reference_fault(doc, entity) is None <==> owner_there(doc, entity),
{
    lookups(doc, entity.common.owner_handle, Seq::empty());
}

/// The entities that a path of a boundary names are there.
pub open spec fn path_supplied(doc: DocumentView, path: BoundaryPath) -> bool {
    forall|j: int|
        0 <= j < path.boundary_handles@.len() ==> (#[trigger] path.boundary_handles@[j]).value != 0
            && doc.entity(path.boundary_handles@[j]) is Some
}

/// A hatch needs every entity that its boundary names. Where it follows them it names
/// some, and where it does not it names none.
pub proof fn hatch_needs_its_boundary(doc: DocumentView, entity: EntityType)
    requires
        entity.data is Hatch,
    ensures
        reference_fault(doc, entity) is None <==> {
            let paths = entity.data->Hatch_0.paths@;
            &&& owner_there(doc, entity)
            &&& forall|i: int| 0 <= i < paths.len() ==> path_supplied(doc, #[trigger] paths[i])
            &&& entity.data->Hatch_0.is_associative <==> exists|i: int|
                0 <= i < paths.len() && (#[trigger] paths[i]).boundary_handles@.len() > 0
        },
{
    lookups(doc, entity.common.owner_handle, Seq::empty());
    hatch_boundaries(doc, &entity.data->Hatch_0);
}

proof fn hatch_boundaries(doc: DocumentView, value: &Hatch)
    ensures
        hatch_reference_fault(doc, *value) is None <==> {
            let paths = value.paths@;
            &&& forall|i: int| 0 <= i < paths.len() ==> path_supplied(doc, #[trigger] paths[i])
            &&& value.is_associative <==> exists|i: int|
                0 <= i < paths.len() && (#[trigger] paths[i]).boundary_handles@.len() > 0
        },
{
    let paths = value.paths@;
    let checks = boundary_checks(doc, paths);
    all_checks_pass(0, paths.len() as int, checks);
    assert forall|i: int| 0 <= i < paths.len() implies (#[trigger] checks(i) is None)
        == path_supplied(doc, paths[i]) by {
        let handles = paths[i].boundary_handles@;
        let inner = boundary_handle_checks(doc, handles);
        all_checks_pass(0, handles.len() as int, inner);
        assert forall|j: int| 0 <= j < handles.len() implies (#[trigger] inner(j) is None) == (
        handles[j].value != 0 && doc.entity(handles[j]) is Some) by {}
        if checks(i) is None {
            assert forall|j: int| 0 <= j < handles.len() implies (
            #[trigger] paths[i].boundary_handles@[j]).value != 0 && doc.entity(
                paths[i].boundary_handles@[j],
            ) is Some by {
                assert(inner(j) is None);
            }
        }
        if path_supplied(doc, paths[i]) {
            assert forall|j: int| 0 <= j < handles.len() implies #[trigger] inner(j) is None by {
                assert(paths[i].boundary_handles@[j].value != 0);
            }
        }
    }
    if crate::text::earliest(0, paths.len() as int, checks) is None {
        assert forall|i: int| 0 <= i < paths.len() implies path_supplied(
            doc,
            #[trigger] paths[i],
        ) by {
            assert(checks(i) is None);
        }
    }
    if forall|i: int| 0 <= i < paths.len() ==> path_supplied(doc, #[trigger] paths[i]) {
        assert forall|i: int| 0 <= i < paths.len() implies #[trigger] checks(i) is None by {
            assert(path_supplied(doc, paths[i]));
        }
    }
}

/// A tolerance frame needs the dimension style with its handle, or without a handle
/// the one with its name.
pub proof fn tolerance_needs_its_style(doc: DocumentView, entity: EntityType)
    requires
        entity.data is Tolerance,
    ensures
        reference_fault(doc, entity) is None <==> {
            let value = entity.data->Tolerance_0;
            &&& owner_there(doc, entity)
            &&& if open_end(value.dimension_style_handle) {
                dim_style_named(doc, value.dimension_style_name@)
            } else {
                dim_style_there(doc, value.dimension_style_handle->Some_0)
            }
        },
{
    let value = entity.data->Tolerance_0;
    lookups(doc, entity.common.owner_handle, value.dimension_style_name@);
    if value.dimension_style_handle is Some {
        lookups(doc, value.dimension_style_handle->Some_0, value.dimension_style_name@);
    }
}

/// A dimension needs the style that it names.
pub proof fn dimension_needs_its_style(doc: DocumentView, entity: EntityType)
    requires
        entity.data is Dimension,
    ensures
        reference_fault(doc, entity) is None <==> owner_there(doc, entity) && dim_style_named(
            doc,
            entity.data->Dimension_0.style_name@,
        ),
{
    lookups(doc, entity.common.owner_handle, entity.data->Dimension_0.style_name@);
}

/// A leader needs the dimension style that it names. An annotation that it names is
/// another entity, of the kind that the leader was made with.
pub proof fn leader_needs_its_annotation(doc: DocumentView, entity: EntityType)
    requires
        entity.data is Leader,
    ensures
        reference_fault(doc, entity) is None <==> {
            let value = entity.data->Leader_0;
            let note = value.annotation_handle;
            &&& owner_there(doc, entity)
            &&& dim_style_named(doc, value.dimension_style@)
            &&& note.value != 0 ==> {
                let found = doc.entity(note)->Some_0.data;
                &&& note.value != entity.common.handle.value
                &&& doc.entity(note) is Some
                &&& !(value.creation_type is NoAnnotation)
                &&& value.creation_type is WithText ==> found is Text || found is MText
                &&& value.creation_type is WithTolerance ==> found is Tolerance
                &&& value.creation_type is WithBlock ==> found is Insert
            }
        },
{
    let value = entity.data->Leader_0;
    lookups(doc, entity.common.owner_handle, value.dimension_style@);
    assert(value.annotation_handle.value == entity.common.handle.value ==> value.annotation_handle
        == entity.common.handle);
}

/// A multileader needs every style, linetype and block that it refers to.
pub proof fn multileader_needs_its_parts(doc: DocumentView, entity: EntityType)
    requires
        entity.data is MultiLeader,
    ensures
        reference_fault(doc, entity) is None <==> {
            let value = entity.data->MultiLeader_0;
            &&& owner_there(doc, entity)
            &&& open_end(value.style_handle) || (doc.object(value.style_handle->Some_0) is Some
                && doc.object(value.style_handle->Some_0)->Some_0 is MultiLeaderStyle)
            &&& open_end(value.text_style_handle) || text_style_there(
                doc,
                value.text_style_handle->Some_0,
            )
            &&& open_end(value.context.text_style_handle) || text_style_there(
                doc,
                value.context.text_style_handle->Some_0,
            )
            &&& open_end(value.line_type_handle) || line_type_there(
                doc,
                value.line_type_handle->Some_0,
            )
            &&& open_end(value.arrowhead_handle) || block_there(
                doc,
                value.arrowhead_handle->Some_0,
            )
            &&& open_end(value.block_content_handle) || block_there(
                doc,
                value.block_content_handle->Some_0,
            )
            &&& open_end(value.context.block_content_handle) || block_there(
                doc,
                value.context.block_content_handle->Some_0,
            )
        },
{
    let value = entity.data->MultiLeader_0;
    let none = Seq::<char>::empty();
    lookups(doc, entity.common.owner_handle, none);
    lookups(doc, value.text_style_handle->Some_0, none);
    lookups(doc, value.context.text_style_handle->Some_0, none);
    lookups(doc, value.line_type_handle->Some_0, none);
    lookups(doc, value.arrowhead_handle->Some_0, none);
    lookups(doc, value.block_content_handle->Some_0, none);
    lookups(doc, value.context.block_content_handle->Some_0, none);
}

/// The text styles and blocks of a cell are there.
pub open spec fn cell_supplied(doc: DocumentView, cell: TableCell) -> bool {
    forall|k: int|
        #![trigger cell.contents@[k]]
        0 <= k < cell.contents@.len() ==> {
            let piece = cell.contents@[k];
            &&& open_end(piece.text_style_handle) || text_style_there(
                doc,
                piece.text_style_handle->Some_0,
            )
            &&& open_end(piece.block_handle) || block_there(doc, piece.block_handle->Some_0)
        }
}

/// The cells of a row are supplied.
pub open spec fn row_supplied(doc: DocumentView, row: TableRow) -> bool {
    forall|j: int| 0 <= j < row.cells@.len() ==> cell_supplied(doc, #[trigger] row.cells@[j])
}

/// A table needs its style, and the text styles and blocks of all its cells.
pub proof fn table_needs_its_parts(doc: DocumentView, entity: EntityType)
    requires
        entity.data is Table,
    ensures
        reference_fault(doc, entity) is None <==> {
            let value = entity.data->Table_0;
            &&& owner_there(doc, entity)
            &&& open_end(value.table_style_handle) || (doc.object(
                value.table_style_handle->Some_0,
            ) is Some && doc.object(value.table_style_handle->Some_0)->Some_0 is TableStyle)
            &&& forall|i: int|
                0 <= i < value.rows@.len() ==> row_supplied(doc, #[trigger] value.rows@[i])
        },
{
    let value = entity.data->Table_0;
    lookups(doc, entity.common.owner_handle, Seq::empty());
    let rows = value.rows@;
    let checks = row_reference_checks(doc, rows);
    all_checks_pass(0, rows.len() as int, checks);
    assert forall|i: int| 0 <= i < rows.len() implies (#[trigger] checks(i) is None)
        == row_supplied(doc, rows[i]) by {
        let cells = rows[i].cells@;
        let inner = cell_reference_checks(
            doc,
            cells,
            "Table.rows["@ + crate::text::decimal(i as nat) + "].cells["@,
        );
        all_checks_pass(0, cells.len() as int, inner);
        assert forall|j: int| 0 <= j < cells.len() implies (#[trigger] inner(j) is None)
            == cell_supplied(doc, cells[j]) by {
            let contents = cells[j].contents@;
            let last = content_reference_checks(
                doc,
                contents,
                "Table.rows["@ + crate::text::decimal(i as nat) + "].cells["@
                    + crate::text::decimal(j as nat) + "]"@,
            );
            all_checks_pass(0, contents.len() as int, last);
            assert forall|k: int| 0 <= k < contents.len() implies (#[trigger] last(k) is None) == {
                let piece = contents[k];
                &&& open_end(piece.text_style_handle) || text_style_there(
                    doc,
                    piece.text_style_handle->Some_0,
                )
                &&& open_end(piece.block_handle) || block_there(doc, piece.block_handle->Some_0)
            } by {
                lookups(doc, contents[k].text_style_handle->Some_0, Seq::empty());
                lookups(doc, contents[k].block_handle->Some_0, Seq::empty());
            }
            if inner(j) is None {
                assert forall|k: int|
                    #![trigger cells[j].contents@[k]]
                    0 <= k < contents.len() implies {
                    let piece = cells[j].contents@[k];
                    &&& open_end(piece.text_style_handle) || text_style_there(
                        doc,
                        piece.text_style_handle->Some_0,
                    )
                    &&& open_end(piece.block_handle) || block_there(
                        doc,
                        piece.block_handle->Some_0,
                    )
                } by {
                    assert(last(k) is None);
                }
            }
            if cell_supplied(doc, cells[j]) {
                assert forall|k: int| 0 <= k < contents.len() implies #[trigger] last(
                    k,
                ) is None by {
                    let piece = cells[j].contents@[k];
                }
            }
        }
        if checks(i) is None {
            assert forall|j: int| 0 <= j < cells.len() implies cell_supplied(
                doc,
                #[trigger] rows[i].cells@[j],
            ) by {
                assert(inner(j) is None);
            }
        }
        if row_supplied(doc, rows[i]) {
            assert forall|j: int| 0 <= j < cells.len() implies #[trigger] inner(j) is None by {
                assert(cell_supplied(doc, rows[i].cells@[j]));
            }
        }
    }
    if crate::text::earliest(0, rows.len() as int, checks) is None {
        assert forall|i: int| 0 <= i < rows.len() implies row_supplied(
            doc,
            #[trigger] value.rows@[i],
        ) by {
            assert(checks(i) is None);
        }
    }
    if forall|i: int| 0 <= i < rows.len() ==> row_supplied(doc, #[trigger] value.rows@[i]) {
        assert forall|i: int| 0 <= i < rows.len() implies #[trigger] checks(i) is None by {
            assert(row_supplied(doc, value.rows@[i]));
        }
    }
}

/// The text style fits a shape: it is a shape file with a font.
pub open spec fn draws_shapes(style: TextStyle) -> bool {
    style.is_shape_file && written(style.font_file@)
}

/// The first text style of the drawing with the handle.
pub open spec fn first_with(doc: DocumentView, handle: Handle, i: int) -> bool {
    &&& 0 <= i < doc.text_styles.len()
    &&& doc.text_styles[i].handle == handle
    &&& forall|j: int| 0 <= j < i ==> (#[trigger] doc.text_styles[j]).handle != handle
}

/// The first text style of the drawing with the name.
pub open spec fn first_called(doc: DocumentView, name: Seq<char>, i: int) -> bool {
    &&& 0 <= i < doc.text_styles.len()
    &&& alike(doc.text_styles[i].name@, trimmed(name))
    &&& forall|j: int|
        0 <= j < i ==> !alike((#[trigger] doc.text_styles[j]).name@, trimmed(name))
}

/// A shape needs a text style that draws shapes: the one with its handle, or where
/// there is none the one with its name.
pub proof fn shape_needs_its_style(doc: DocumentView, entity: EntityType)
    requires
        entity.data is Shape,
    ensures
        reference_fault(doc, entity) is None <==> {
            let value = entity.data->Shape_0;
            &&& owner_there(doc, entity)
            &&& if !open_end(value.style_handle) && text_style_there(
                doc,
                value.style_handle->Some_0,
            ) {
                exists|i: int| #[trigger]
                    first_with(doc, value.style_handle->Some_0, i) && draws_shapes(
                        doc.text_styles[i],
                    )
            } else {
                exists|i: int| #[trigger]
                    first_called(doc, value.style_name@, i) && draws_shapes(doc.text_styles[i])
            }
        },
{
    let value = entity.data->Shape_0;
    lookups(doc, entity.common.owner_handle, Seq::empty());
    lookups(doc, value.style_handle->Some_0, Seq::empty());
    text_in_plain_terms();
    let by_handle = identified::<TextStyle>(value.style_handle->Some_0);
    let by_name = spelled::<TextStyle>(trimmed(value.style_name@));
    seek_finds(doc.text_styles, 0, by_handle);
    seek_finds(doc.text_styles, 0, by_name);
    if seek(doc.text_styles, 0, by_handle) is Some {
        let k = seek(doc.text_styles, 0, by_handle)->Some_0;
        assert(by_handle(doc.text_styles[k]));
        assert forall|j: int| 0 <= j < k implies (#[trigger] doc.text_styles[j]).handle
            != value.style_handle->Some_0 by {
            assert(!by_handle(doc.text_styles[j]));
        }
        assert(first_with(doc, value.style_handle->Some_0, k));
        assert forall|i: int| #[trigger] first_with(doc, value.style_handle->Some_0, i) implies i
            == k by {
            if k < i {
                assert(doc.text_styles[k].handle != value.style_handle->Some_0);
            }
        }
    }
    if seek(doc.text_styles, 0, by_name) is Some {
        let k = seek(doc.text_styles, 0, by_name)->Some_0;
        assert(by_name(doc.text_styles[k]));
        assert forall|j: int| 0 <= j < k implies !alike(
            (#[trigger] doc.text_styles[j]).name@,
            trimmed(value.style_name@),
        ) by {
            assert(!by_name(doc.text_styles[j]));
        }
        assert(first_called(doc, value.style_name@, k));
        assert forall|i: int| #[trigger] first_called(doc, value.style_name@, i) implies i == k by {
            if k < i {
                assert(!alike(doc.text_styles[k].name@, trimmed(value.style_name@)));
            } else if i < k {
                assert(!by_name(doc.text_styles[i]));
            }
        }
    } else {
        assert forall|i: int| !(#[trigger] first_called(doc, value.style_name@, i)) by {
            if 0 <= i < doc.text_styles.len() {
                assert(!by_name(doc.text_styles[i]));
            }
        }
    }
}

/// A multiline needs a style with elements, and each of its vertices is cut for every
/// element or for none.
pub proof fn mline_needs_its_style(doc: DocumentView, entity: EntityType)
    requires
        entity.data is MLine,
    ensures
        reference_fault(doc, entity) is None <==> {
            let value = entity.data->MLine_0;
            let style = mline_style(doc, *value)->Some_0;
            &&& owner_there(doc, entity)
            &&& mline_style(doc, *value) is Some
            &&& style.elements > 0
            &&& forall|i: int|
                0 <= i < value.vertices@.len() ==> (#[trigger] value.vertices@[i]).segments@.len()
                    == 0 || value.vertices@[i].segments@.len() == style.elements
        },
        ({
            let value = entity.data->MLine_0;
            let by_handle = doc.object(value.style_handle->Some_0);
            let bound = !open_end(value.style_handle) && by_handle is Some
                && by_handle->Some_0 is MLineStyle;
            let found = mline_style(doc, *value);
            &&& bound ==> found == Some(*by_handle->Some_0->MLineStyle_0)
            &&& !bound ==> (found is Some <==> exists|i: int|
                #![trigger doc.objects[i]]
                0 <= i < doc.objects.len() && doc.objects[i].object is MLineStyle && alike(
                    doc.objects[i].object->MLineStyle_0.name@,
                    trimmed(value.style_name@),
                ))
            &&& !bound && found is Some ==> alike(
                found->Some_0.name@,
                trimmed(value.style_name@),
            )
        }),
{
    lookups(doc, entity.common.owner_handle, Seq::empty());
    mline_styles(doc, &entity.data->MLine_0);
}

proof fn mline_styles(doc: DocumentView, value: &MLine)
    ensures
        mline_reference_fault(doc, *value) is None <==> {
            let style = mline_style(doc, *value)->Some_0;
            &&& mline_style(doc, *value) is Some
            &&& style.elements > 0
            &&& forall|i: int|
                0 <= i < value.vertices@.len() ==> (#[trigger] value.vertices@[i]).segments@.len()
                    == 0 || value.vertices@[i].segments@.len() == style.elements
        },
        ({
            let by_handle = doc.object(value.style_handle->Some_0);
            let bound = !open_end(value.style_handle) && by_handle is Some
                && by_handle->Some_0 is MLineStyle;
            let found = mline_style(doc, *value);
            &&& bound ==> found == Some(*by_handle->Some_0->MLineStyle_0)
            &&& !bound ==> (found is Some <==> exists|i: int|
                #![trigger doc.objects[i]]
                0 <= i < doc.objects.len() && doc.objects[i].object is MLineStyle && alike(
                    doc.objects[i].object->MLineStyle_0.name@,
                    trimmed(value.style_name@),
                ))
            &&& !bound && found is Some ==> alike(
                found->Some_0.name@,
                trimmed(value.style_name@),
            )
        }),
{
    let test = mline_style_spelled(trimmed(value.style_name@));
    seek_finds(doc.objects, 0, test);
    if exists|i: int|
        #![trigger doc.objects[i]]
        0 <= i < doc.objects.len() && doc.objects[i].object is MLineStyle && alike(
            doc.objects[i].object->MLineStyle_0.name@,
            trimmed(value.style_name@),
        ) {
        let i = choose|i: int|
            #![trigger doc.objects[i]]
            0 <= i < doc.objects.len() && doc.objects[i].object is MLineStyle && alike(
                doc.objects[i].object->MLineStyle_0.name@,
                trimmed(value.style_name@),
            );
        assert(test(doc.objects[i]));
    }
    if seek(doc.objects, 0, test) is Some {
        let k = seek(doc.objects, 0, test)->Some_0;
        assert(test(doc.objects[k]));
    }
    if mline_style(doc, *value) is Some {
        let style = mline_style(doc, *value)->Some_0;
        let checks = segment_count_checks(value.vertices@, style);
        all_checks_pass(0, value.vertices@.len() as int, checks);
        assert forall|i: int| 0 <= i < value.vertices@.len() implies (#[trigger] checks(i) is None)
            == (value.vertices@[i].segments@.len() == 0 || value.vertices@[i].segments@.len()
            == style.elements) by {}
        if crate::text::earliest(0, value.vertices@.len() as int, checks) is None {
            assert forall|i: int| 0 <= i < value.vertices@.len() implies (
            #[trigger] value.vertices@[i]).segments@.len() == 0
                || value.vertices@[i].segments@.len() == style.elements by {
                assert(checks(i) is None);
            }
        }
    }
}

/// The text style is there and writes text: it is no shape file.
pub open spec fn writes_text(doc: DocumentView, name: Seq<char>) -> bool {
    doc.text_style(trimmed(name)) is Some && !doc.text_style(trimmed(name))->Some_0.is_shape_file
}

/// An attribute definition belongs to a block that is no layout, and needs a style that
/// writes text.
pub proof fn definition_needs_its_block(doc: DocumentView, entity: EntityType)
    requires
        entity.data is AttributeDefinition,
    ensures
        reference_fault(doc, entity) is None <==> {
            let owner = entity.common.owner_handle;
            &&& doc.block_with(owner) is Some
            &&& !doc.block_with(owner)->Some_0.layout()
            &&& writes_text(doc, entity.data->AttributeDefinition_0.text.text_style@)
        },
        doc.block_with(entity.common.owner_handle) is Some <==> block_there(
            doc,
            entity.common.owner_handle,
        ),
{
    lookups(doc, entity.common.owner_handle, Seq::empty());
}

/// An attribute belongs to a block reference. Its definition stands in the block that
/// is referred to and has the same tag, whatever the case of letters, and its style
/// writes text.
pub proof fn attribute_needs_its_definition(doc: DocumentView, entity: EntityType)
    requires
        entity.data is AttributeEntity,
    ensures
        reference_fault(doc, entity) is None <==> {
            let value = entity.data->AttributeEntity_0;
            let owner = doc.entity(entity.common.owner_handle);
            let name = trimmed(owner->Some_0.data->Insert_0.block_name@);
            let model = doc.entity(value.attdef_handle);
            &&& owner is Some && owner->Some_0.data is Insert
            &&& doc.block(name) is Some
            &&& doc.block(name)->Some_0.entity_handles@.contains(value.attdef_handle)
            &&& model is Some && model->Some_0.data is AttributeDefinition
            &&& alike(
                model->Some_0.data->AttributeDefinition_0.text.tag@,
                trimmed(value.text.tag@),
            )
            &&& writes_text(doc, value.text.text_style@)
        },
{
    let value = entity.data->AttributeEntity_0;
    let owner = doc.entity(entity.common.owner_handle);
    lookups(doc, entity.common.owner_handle, Seq::empty());
    if owner is Some && owner->Some_0.data is Insert {
        let name = trimmed(owner->Some_0.data->Insert_0.block_name@);
        if doc.block(name) is Some {
            let handles = doc.block(name)->Some_0.entity_handles@;
            let test = defines(doc, value.attdef_handle);
            seek_finds(handles, 0, test);
            if handles.contains(value.attdef_handle) && definition(
                doc,
                value.attdef_handle,
            ) is Some {
                let i = choose|i: int| 0 <= i < handles.len() && handles[i] == value.attdef_handle;
                assert(test(handles[i]));
            }
            if seek(handles, 0, test) is Some {
                let k = seek(handles, 0, test)->Some_0;
                assert(test(handles[k]));
                assert(handles.contains(handles[k]));
            }
        }
    }
}

} // verus!
