//! The rules for what an entity refers to in its drawing, and the binding of
//! names to handles.

use crate::document::{CadDocument, DocumentView, MLineStyle, ObjectEntry, ObjectType};
use crate::entities::{
    AttributeDefinition, AttributeEntity, BoundaryPath, CellContent, Dimension, EntityData,
    EntityType, Hatch, Insert, Leader, LeaderCreationType, MLine, MLineVertex, MultiLeader, Shape,
    Table, TableCell, TableRow, Tolerance,
};
use crate::geometry::{target, target_of, Handle};
use crate::records::{
    find_handle, find_spelled, identified, spelled, BlockRecord, DimStyle, LineType, TextStyle,
};
use crate::search::{item, pick, seek};
use crate::text::{
    alike, blank, check, decimal, earliest, fault, first, is_alike, is_blank, join, join3, number,
    quote, quoted, trim, trimmed, unless, Fault,
};
use vstd::prelude::*;
use vstd::string::*;

verus! {

/// A handle in a message, as the one that leads nowhere.
pub open spec fn missing(what: Seq<char>, handle: Handle) -> Seq<char> {
    what + handle.shown() + " does not exist"@
}

fn say_missing(what: &str, handle: Handle) -> (result: String)
    ensures
        result@ == missing(what@, handle),
{
    join3(what, &handle.show(), " does not exist")
}

/// A name in a message, between what it names and what is wrong with it.
pub open spec fn about(what: Seq<char>, name: Seq<char>, wrong: Seq<char>) -> Seq<char> {
    what + quoted(name) + wrong
}

fn say_about(what: &str, name: &str, wrong: &str) -> (result: String)
    ensures
        result@ == about(what@, name@, wrong@),
{
    join3(what, &quote(name), wrong)
}

/// An owner is a block of the drawing; an attribute may also be owned by a block
/// reference.
pub open spec fn owner_fault(doc: DocumentView, entity: EntityType) -> Fault {
    let owner = entity.common.owner_handle;
    unless(
        owner.null() || doc.block_with(owner) is Some || (entity.data is AttributeEntity && (
        doc.entity(owner) matches Some(found) && found.data is Insert)),
        missing("entity owner "@, owner),
    )
}

fn is_insert(entity: Option<&EntityType>) -> (result: bool)
    ensures
        result == (item(entity) matches Some(found) && found.data is Insert),
{
    match entity {
        Some(found) => match &found.data {
            EntityData::Insert(_) => true,
            _ => false,
        },
        None => false,
    }
}

fn check_owner(doc: &CadDocument, entity: &EntityType) -> (result: Result<(), String>)
    ensures
        fault(result) == owner_fault(doc@, *entity),
{
    let owner = entity.common.owner_handle;
    let attribute = match &entity.data {
        EntityData::AttributeEntity(_) => true,
        _ => false,
    };
    check(
        owner.is_null() || doc.get_block_with(owner).is_some() || (attribute && is_insert(
            doc.get_entity(owner),
        )),
        &say_missing("entity owner ", owner),
    )
}

/// For each boundary handle of a path, that it leads to an entity.
pub open spec fn boundary_handle_checks(doc: DocumentView, handles: Seq<Handle>) -> spec_fn(
    int,
) -> Fault {
    |i: int|
        unless(
            !handles[i].null() && doc.entity(handles[i]) is Some,
            missing("Hatch boundary handle "@, handles[i]),
        )
}

fn check_boundary_handles(doc: &CadDocument, handles: &Vec<Handle>) -> (result: Result<(), String>)
    ensures
        fault(result) == earliest(0, handles.len() as int, boundary_handle_checks(doc@, handles@)),
{
    let mut i: usize = 0;
    while i < handles.len()
        invariant
            i <= handles.len(),
            earliest(0, handles.len() as int, boundary_handle_checks(doc@, handles@)) == earliest(
                i as int,
                handles.len() as int,
                boundary_handle_checks(doc@, handles@),
            ),
        decreases handles.len() - i,
    {
        check(
            !handles[i].is_null() && doc.get_entity(handles[i]).is_some(),
            &say_missing("Hatch boundary handle ", handles[i]),
        )?;
        i = i + 1;
    }
    Ok(())
}

pub open spec fn boundary_checks(doc: DocumentView, paths: Seq<BoundaryPath>) -> spec_fn(
    int,
) -> Fault {
    |i: int|
        earliest(
            0,
            paths[i].boundary_handles.len() as int,
            boundary_handle_checks(doc, paths[i].boundary_handles@),
        )
}

/// Some path names the entities that it follows.
pub open spec fn bounded(paths: Seq<BoundaryPath>) -> bool {
    exists|i: int| 0 <= i < paths.len() && (#[trigger] paths[i]).boundary_handles.len() > 0
}

/// The boundary handles of a hatch lead to entities, and an associative hatch,
/// and only such a one, has them.
pub open spec fn hatch_reference_fault(doc: DocumentView, value: Hatch) -> Fault {
    first(
        earliest(0, value.paths.len() as int, boundary_checks(doc, value.paths@)),
        first(
            unless(
                !value.is_associative || bounded(value.paths@),
                "associative Hatch requires boundary handles"@,
            ),
            unless(
                value.is_associative || !bounded(value.paths@),
                "non-associative Hatch cannot carry boundary handles"@,
            ),
        ),
    )
}

fn check_hatch_reference(doc: &CadDocument, value: &Hatch) -> (result: Result<(), String>)
    ensures
        fault(result) == hatch_reference_fault(doc@, *value),
{
    let paths = &value.paths;
    let mut any = false;
    let mut i: usize = 0;
    while i < paths.len()
        invariant
            i <= paths.len(),
            paths@ == value.paths@,
            any == exists|j: int|
                0 <= j < i && (#[trigger] paths@[j]).boundary_handles.len() > 0,
            earliest(0, paths.len() as int, boundary_checks(doc@, paths@)) == earliest(
                i as int,
                paths.len() as int,
                boundary_checks(doc@, paths@),
            ),
        decreases paths.len() - i,
    {
        check_boundary_handles(doc, &paths[i].boundary_handles)?;
        let ghost before = any;
        if paths[i].boundary_handles.len() > 0 {
            any = true;
            assert(paths@[i as int].boundary_handles.len() > 0);
        }
        i = i + 1;
    }
    check(!value.is_associative || any, "associative Hatch requires boundary handles")?;
    check(value.is_associative || !any, "non-associative Hatch cannot carry boundary handles")
}

/// A tolerance frame names a dimension style, by handle or else by name.
pub open spec fn tolerance_reference_fault(doc: DocumentView, value: Tolerance) -> Fault {
    unless(
        match target(value.dimension_style_handle) {
            Some(handle) => pick(doc.dim_styles, identified::<DimStyle>(handle)) is Some,
            None => pick(
                doc.dim_styles,
                spelled::<DimStyle>(trimmed(value.dimension_style_name@)),
            ) is Some,
        },
        about("Tolerance dimension style "@, value.dimension_style_name@, " does not exist"@),
    )
}

fn check_tolerance_reference(doc: &CadDocument, value: &Tolerance) -> (result: Result<(), String>)
    ensures
        fault(result) == tolerance_reference_fault(doc@, *value),
{
    let found = match target_of(value.dimension_style_handle) {
        Some(handle) => find_handle(&doc.dim_styles, handle).is_some(),
        None => find_spelled(&doc.dim_styles, trim(&value.dimension_style_name)).is_some(),
    };
    check(
        found,
        &say_about("Tolerance dimension style ", &value.dimension_style_name, " does not exist"),
    )
}

/// The style of a shape: the one with its handle, or else the one with its name.
pub open spec fn shape_style(doc: DocumentView, value: Shape) -> Option<TextStyle> {
    let by_name = pick(doc.text_styles, spelled::<TextStyle>(trimmed(value.style_name@)));
    match target(value.style_handle) {
        Some(handle) => match pick(doc.text_styles, identified::<TextStyle>(handle)) {
            Some(style) => Some(style),
            None => by_name,
        },
        None => by_name,
    }
}

/// A shape is drawn with a style that names a shape file.
pub open spec fn shape_reference_fault(doc: DocumentView, value: Shape) -> Fault {
    match shape_style(doc, value) {
        None => Some(about("Shape text style "@, value.style_name@, " does not exist"@)),
        Some(style) => first(
            unless(
                style.is_shape_file,
                about("Shape text style "@, style.name@, " is not a shape-file style"@),
            ),
            unless(
                !blank(style.font_file@),
                about("Shape text style "@, style.name@, " has no SHX file"@),
            ),
        ),
    }
}

fn check_shape_reference(doc: &CadDocument, value: &Shape) -> (result: Result<(), String>)
    ensures
        fault(result) == shape_reference_fault(doc@, *value),
{
    let by_handle: Option<usize> = match target_of(value.style_handle) {
        Some(handle) => find_handle(&doc.text_styles, handle),
        None => None,
    };
    let found: Option<usize> = match by_handle {
        Some(i) => Some(i),
        None => find_spelled(&doc.text_styles, trim(&value.style_name)),
    };
    match found {
        None => Err(say_about("Shape text style ", &value.style_name, " does not exist")),
        Some(i) => {
            let style = &doc.text_styles[i];
            check(
                style.is_shape_file,
                &say_about("Shape text style ", &style.name, " is not a shape-file style"),
            )?;
            check(
                !is_blank(&style.font_file),
                &say_about("Shape text style ", &style.name, " has no SHX file"),
            )
        },
    }
}

/// A reference, where there is one, leads to a text style.
pub open spec fn text_style_fault(
    doc: DocumentView,
    what: Seq<char>,
    reference: Option<Handle>,
) -> Fault {
    match target(reference) {
        Some(handle) => unless(
            pick(doc.text_styles, identified::<TextStyle>(handle)) is Some,
            missing(what, handle),
        ),
        None => None,
    }
}

fn check_text_style(doc: &CadDocument, what: &str, reference: Option<Handle>) -> (result: Result<
    (),
    String,
>)
    ensures
        fault(result) == text_style_fault(doc@, what@, reference),
{
    match target_of(reference) {
        Some(handle) => check(
            find_handle(&doc.text_styles, handle).is_some(),
            &say_missing(what, handle),
        ),
        None => Ok(()),
    }
}

/// A reference, where there is one, leads to a block.
pub open spec fn block_fault(
    doc: DocumentView,
    what: Seq<char>,
    reference: Option<Handle>,
) -> Fault {
    match target(reference) {
        Some(handle) => unless(doc.block_with(handle) is Some, missing(what, handle)),
        None => None,
    }
}

fn check_block(doc: &CadDocument, what: &str, reference: Option<Handle>) -> (result: Result<
    (),
    String,
>)
    ensures
        fault(result) == block_fault(doc@, what@, reference),
{
    match target_of(reference) {
        Some(handle) => check(
            doc.get_block_with(handle).is_some(),
            &say_missing(what, handle),
        ),
        None => Ok(()),
    }
}

/// A reference, where there is one, leads to a linetype.
pub open spec fn line_type_fault(
    doc: DocumentView,
    what: Seq<char>,
    reference: Option<Handle>,
) -> Fault {
    match target(reference) {
        Some(handle) => unless(
            pick(doc.line_types, identified::<LineType>(handle)) is Some,
            missing(what, handle),
        ),
        None => None,
    }
}

fn check_line_type(doc: &CadDocument, what: &str, reference: Option<Handle>) -> (result: Result<
    (),
    String,
>)
    ensures
        fault(result) == line_type_fault(doc@, what@, reference),
{
    match target_of(reference) {
        Some(handle) => check(
            find_handle(&doc.line_types, handle).is_some(),
            &say_missing(what, handle),
        ),
        None => Ok(()),
    }
}

/// A reference, where there is one, leads to a table style.
pub open spec fn table_style_fault(doc: DocumentView, reference: Option<Handle>) -> Fault {
    match target(reference) {
        Some(handle) => unless(
            doc.object(handle) matches Some(object) && object is TableStyle,
            missing("Table style handle "@, handle),
        ),
        None => None,
    }
}

fn check_table_style(doc: &CadDocument, reference: Option<Handle>) -> (result: Result<(), String>)
    ensures
        fault(result) == table_style_fault(doc@, reference),
{
    match target_of(reference) {
        Some(handle) => {
            let found = match doc.get_object(handle) {
                Some(ObjectType::TableStyle(_)) => true,
                _ => false,
            };
            check(found, &say_missing("Table style handle ", handle))
        },
        None => Ok(()),
    }
}

/// A reference, where there is one, leads to a multileader style.
pub open spec fn leader_style_fault(doc: DocumentView, reference: Option<Handle>) -> Fault {
    match target(reference) {
        Some(handle) => unless(
            doc.object(handle) matches Some(object) && object is MultiLeaderStyle,
            missing("MultiLeader style handle "@, handle),
        ),
        None => None,
    }
}

fn check_leader_style(doc: &CadDocument, reference: Option<Handle>) -> (result: Result<(), String>)
    ensures
        fault(result) == leader_style_fault(doc@, reference),
{
    match target_of(reference) {
        Some(handle) => {
            let found = match doc.get_object(handle) {
                Some(ObjectType::MultiLeaderStyle(_)) => true,
                _ => false,
            };
            check(found, &say_missing("MultiLeader style handle ", handle))
        },
        None => Ok(()),
    }
}

/// For each piece of content in a cell, that its style and its block are there.
pub open spec fn content_reference_checks(
    doc: DocumentView,
    contents: Seq<CellContent>,
    cell: Seq<char>,
) -> spec_fn(int) -> Fault {
    |i: int|
        first(
            text_style_fault(doc, cell + " text style handle "@, contents[i].text_style_handle),
            block_fault(doc, cell + " block handle "@, contents[i].block_handle),
        )
}

fn check_content_references(doc: &CadDocument, contents: &Vec<CellContent>, cell: &str) -> (result:
    Result<(), String>)
    ensures
        fault(result) == earliest(
            0,
            contents.len() as int,
            content_reference_checks(doc@, contents@, cell@),
        ),
{
    let mut i: usize = 0;
    while i < contents.len()
        invariant
            i <= contents.len(),
            earliest(0, contents.len() as int, content_reference_checks(doc@, contents@, cell@))
                == earliest(
                i as int,
                contents.len() as int,
                content_reference_checks(doc@, contents@, cell@),
            ),
        decreases contents.len() - i,
    {
        check_text_style(
            doc,
            &join(cell, " text style handle "),
            contents[i].text_style_handle,
        )?;
        check_block(doc, &join(cell, " block handle "), contents[i].block_handle)?;
        i = i + 1;
    }
    Ok(())
}

pub open spec fn cell_reference_checks(
    doc: DocumentView,
    cells: Seq<TableCell>,
    name: Seq<char>,
) -> spec_fn(int) -> Fault {
    |i: int|
        earliest(
            0,
            cells[i].contents.len() as int,
            content_reference_checks(
                doc,
                cells[i].contents@,
                name + decimal(i as nat) + "]"@,
            ),
        )
}

fn check_cell_references(doc: &CadDocument, cells: &Vec<TableCell>, name: &str) -> (result: Result<
    (),
    String,
>)
    ensures
        fault(result) == earliest(
            0,
            cells.len() as int,
            cell_reference_checks(doc@, cells@, name@),
        ),
{
    let mut i: usize = 0;
    while i < cells.len()
        invariant
            i <= cells.len(),
            earliest(0, cells.len() as int, cell_reference_checks(doc@, cells@, name@))
                == earliest(
                i as int,
                cells.len() as int,
                cell_reference_checks(doc@, cells@, name@),
            ),
        decreases cells.len() - i,
    {
        check_content_references(
            doc,
            &cells[i].contents,
            &join3(name, &number(i as u64), "]"),
        )?;
        i = i + 1;
    }
    Ok(())
}

pub open spec fn row_reference_checks(doc: DocumentView, rows: Seq<TableRow>) -> spec_fn(
    int,
) -> Fault {
    |i: int|
        earliest(
            0,
            rows[i].cells.len() as int,
            cell_reference_checks(
                doc,
                rows[i].cells@,
                "Table.rows["@ + decimal(i as nat) + "].cells["@,
            ),
        )
}

/// The styles and blocks that a table uses are there.
pub open spec fn table_reference_fault(doc: DocumentView, value: Table) -> Fault {
    first(
        table_style_fault(doc, value.table_style_handle),
        earliest(0, value.rows.len() as int, row_reference_checks(doc, value.rows@)),
    )
}

#[verifier::loop_isolation(false)]
fn check_table_reference(doc: &CadDocument, value: &Table) -> (result: Result<(), String>)
    ensures
        fault(result) == table_reference_fault(doc@, *value),
{
    check_table_style(doc, value.table_style_handle)?;
    let rows = &value.rows;
    let mut i: usize = 0;
    while i < rows.len()
        invariant
            i <= rows.len(),
            earliest(0, rows.len() as int, row_reference_checks(doc@, rows@)) == earliest(
                i as int,
                rows.len() as int,
                row_reference_checks(doc@, rows@),
            ),
        decreases rows.len() - i,
    {
        check_cell_references(
            doc,
            &rows[i].cells,
            &join3("Table.rows[", &number(i as u64), "].cells["),
        )?;
        i = i + 1;
    }
    Ok(())
}

/// The styles, linetypes and blocks that a multileader uses are there.
pub open spec fn multileader_reference_fault(doc: DocumentView, value: MultiLeader) -> Fault {
    first(
        leader_style_fault(doc, value.style_handle),
        first(
            text_style_fault(doc, "MultiLeader text style handle "@, value.text_style_handle),
            first(
                text_style_fault(
                    doc,
                    "MultiLeader context text style handle "@,
                    value.context.text_style_handle,
                ),
                first(
                    line_type_fault(doc, "MultiLeader line type handle "@, value.line_type_handle),
                    first(
                        block_fault(
                            doc,
                            "MultiLeader arrowhead block handle "@,
                            value.arrowhead_handle,
                        ),
                        first(
                            block_fault(
                                doc,
                                "MultiLeader block content handle "@,
                                value.block_content_handle,
                            ),
                            block_fault(
                                doc,
                                "MultiLeader context block content handle "@,
                                value.context.block_content_handle,
                            ),
                        ),
                    ),
                ),
            ),
        ),
    )
}

fn check_multileader_reference(doc: &CadDocument, value: &MultiLeader) -> (result: Result<
    (),
    String,
>)
    ensures
        fault(result) == multileader_reference_fault(doc@, *value),
{
    check_leader_style(doc, value.style_handle)?;
    check_text_style(doc, "MultiLeader text style handle ", value.text_style_handle)?;
    check_text_style(
        doc,
        "MultiLeader context text style handle ",
        value.context.text_style_handle,
    )?;
    check_line_type(doc, "MultiLeader line type handle ", value.line_type_handle)?;
    check_block(doc, "MultiLeader arrowhead block handle ", value.arrowhead_handle)?;
    check_block(doc, "MultiLeader block content handle ", value.block_content_handle)?;
    check_block(
        doc,
        "MultiLeader context block content handle ",
        value.context.block_content_handle,
    )
}

/// A dimension names its style.
pub open spec fn dimension_reference_fault(doc: DocumentView, value: Dimension) -> Fault {
    unless(
        pick(doc.dim_styles, spelled::<DimStyle>(trimmed(value.style_name@))) is Some,
        about("Dimension style "@, value.style_name@, " does not exist"@),
    )
}

fn check_dimension_reference(doc: &CadDocument, value: &Dimension) -> (result: Result<(), String>)
    ensures
        fault(result) == dimension_reference_fault(doc@, *value),
{
    check(
        find_spelled(&doc.dim_styles, trim(&value.style_name)).is_some(),
        &say_about("Dimension style ", &value.style_name, " does not exist"),
    )
}

/// The object is a multiline style with the name.
pub open spec fn mline_style_spelled(name: Seq<char>) -> spec_fn(ObjectEntry) -> bool {
    |entry: ObjectEntry|
        match entry.object {
            ObjectType::MLineStyle(style) => alike(style.name@, name),
            _ => false,
        }
}

/// The style of a multiline: the one with its handle, or else the one with its
/// name.
pub open spec fn mline_style(doc: DocumentView, value: MLine) -> Option<MLineStyle> {
    let by_name = match pick(doc.objects, mline_style_spelled(trimmed(value.style_name@))) {
        Some(entry) => match entry.object {
            ObjectType::MLineStyle(style) => Some(*style),
            _ => None,
        },
        None => None,
    };
    match target(value.style_handle) {
        Some(handle) => match doc.object(handle) {
            Some(ObjectType::MLineStyle(style)) => Some(*style),
            _ => by_name,
        },
        None => by_name,
    }
}

/// The style of a multiline. A stable handle wins; the name is the fallback.
pub fn resolve_mline_style<'a>(doc: &'a CadDocument, value: &MLine) -> (result: Option<
    &'a MLineStyle,
>)
    ensures
        item(result) == mline_style(doc@, *value),
{
    if let Some(handle) = target_of(value.style_handle) {
        if let Some(ObjectType::MLineStyle(style)) = doc.get_object(handle) {
            return Some(style);
        }
    }
    let name = trim(&value.style_name);
    let ghost test = mline_style_spelled(name@);
    let mut i: usize = 0;
    while i < doc.objects.len()
        invariant
            i <= doc.objects.len(),
            test == mline_style_spelled(name@),
            seek(doc.objects@, 0, test) == seek(doc.objects@, i as int, test),
            name@ == trimmed(value.style_name@),
            match target(value.style_handle) {
                Some(handle) => !(doc@.object(handle) matches Some(object)
                    && object is MLineStyle),
                None => true,
            },
        decreases doc.objects.len() - i,
    {
        if let ObjectType::MLineStyle(style) = &doc.objects[i].object {
            if is_alike(&style.name, name) {
                return Some(style);
            }
        }
        i = i + 1;
    }
    None
}

/// For each vertex, that it is cut for every element of the style or for none.
pub open spec fn segment_count_checks(
    vertices: Seq<MLineVertex>,
    style: MLineStyle,
) -> spec_fn(int) -> Fault {
    |i: int|
        unless(
            vertices[i].segments.len() == 0 || vertices[i].segments.len() == style.elements,
            "MLine.vertices["@ + decimal(i as nat) + "] has "@ + decimal(
                vertices[i].segments.len() as nat,
            ) + " segments but style "@ + quoted(style.name@) + " has "@ + decimal(
                style.elements as nat,
            ) + " elements"@,
        )
}

/// A multiline has a style with elements, and its cuts fit the style.
pub open spec fn mline_reference_fault(doc: DocumentView, value: MLine) -> Fault {
    match mline_style(doc, value) {
        None => Some(about("MLine style "@, value.style_name@, " does not exist"@)),
        Some(style) => first(
            unless(
                style.elements > 0,
                about("MLine style "@, style.name@, " has no elements"@),
            ),
            earliest(
                0,
                value.vertices@.len() as int,
                segment_count_checks(value.vertices@, style),
            ),
        ),
    }
}

#[verifier::loop_isolation(false)]
fn check_mline_reference(doc: &CadDocument, value: &MLine) -> (result: Result<(), String>)
    ensures
        fault(result) == mline_reference_fault(doc@, *value),
{
    let style = match resolve_mline_style(doc, value) {
        None => {
            return Err(say_about("MLine style ", &value.style_name, " does not exist"));
        },
        Some(style) => style,
    };
    check(
        style.elements > 0,
        &say_about("MLine style ", &style.name, " has no elements"),
    )?;
    let mut i: usize = 0;
    while i < value.vertices.len()
        invariant
            i <= value.vertices.len(),
            earliest(
                0,
                value.vertices@.len() as int,
                segment_count_checks(value.vertices@, *style),
            ) == earliest(
                i as int,
                value.vertices@.len() as int,
                segment_count_checks(value.vertices@, *style),
            ),
        decreases value.vertices.len() - i,
    {
        let count: usize = value.vertices[i].segments.len();
        check(
            count == 0 || count == style.elements,
            &join3(
                &join3(
                    &join3(
                        &join3("MLine.vertices[", &number(i as u64), "] has "),
                        &number(count as u64),
                        " segments but style ",
                    ),
                    &quote(&style.name),
                    " has ",
                ),
                &number(style.elements as u64),
                " elements",
            ),
        )?;
        i = i + 1;
    }
    Ok(())
}

/// The way in which a leader was created, as messages show it.
pub open spec fn creation_name(creation: LeaderCreationType) -> Seq<char> {
    match creation {
        LeaderCreationType::WithText => "WithText"@,
        LeaderCreationType::WithTolerance => "WithTolerance"@,
        LeaderCreationType::WithBlock => "WithBlock"@,
        LeaderCreationType::NoAnnotation => "NoAnnotation"@,
    }
}

fn say_creation(creation: LeaderCreationType) -> (result: &'static str)
    ensures
        result@ == creation_name(creation),
{
    match creation {
        LeaderCreationType::WithText => "WithText",
        LeaderCreationType::WithTolerance => "WithTolerance",
        LeaderCreationType::WithBlock => "WithBlock",
        LeaderCreationType::NoAnnotation => "NoAnnotation",
    }
}

/// The annotation is of the kind that the leader was created with.
pub open spec fn annotates(creation: LeaderCreationType, annotation: EntityData) -> bool {
    match creation {
        LeaderCreationType::WithText => annotation is Text || annotation is MText,
        LeaderCreationType::WithTolerance => annotation is Tolerance,
        LeaderCreationType::WithBlock => annotation is Insert,
        LeaderCreationType::NoAnnotation => false,
    }
}

fn is_annotation(creation: LeaderCreationType, annotation: &EntityData) -> (result: bool)
    ensures
        result == annotates(creation, *annotation),
{
    match (creation, annotation) {
        (LeaderCreationType::WithText, EntityData::Text(_)) => true,
        (LeaderCreationType::WithText, EntityData::MText(_)) => true,
        (LeaderCreationType::WithTolerance, EntityData::Tolerance(_)) => true,
        (LeaderCreationType::WithBlock, EntityData::Insert(_)) => true,
        _ => false,
    }
}

/// A leader has a dimension style, and its annotation, where it has one, is
/// another entity of the right kind.
pub open spec fn leader_reference_fault(
    doc: DocumentView,
    own_handle: Handle,
    value: Leader,
) -> Fault {
    first(
        unless(
            pick(doc.dim_styles, spelled::<DimStyle>(trimmed(value.dimension_style@))) is Some,
            about("Leader dimension style "@, value.dimension_style@, " does not exist"@),
        ),
        if value.annotation_handle.null() {
            None
        } else {
            first(
                unless(
                    value.creation_type != LeaderCreationType::NoAnnotation,
                    "Leader with no annotation cannot carry an annotation handle"@,
                ),
                match doc.entity(value.annotation_handle) {
                    Some(annotation) if value.annotation_handle != own_handle => unless(
                        annotates(value.creation_type, annotation.data),
                        "Leader annotation "@ + value.annotation_handle.shown()
                            + " does not match creation_type "@ + creation_name(
                            value.creation_type,
                        ),
                    ),
                    _ => Some(missing("Leader annotation handle "@, value.annotation_handle)),
                },
            )
        },
    )
}

fn check_leader_reference(doc: &CadDocument, own_handle: Handle, value: &Leader) -> (result: Result<
    (),
    String,
>)
    ensures
        fault(result) == leader_reference_fault(doc@, own_handle, *value),
{
    check(
        find_spelled(&doc.dim_styles, trim(&value.dimension_style)).is_some(),
        &say_about("Leader dimension style ", &value.dimension_style, " does not exist"),
    )?;
    if value.annotation_handle.is_null() {
        return Ok(());
    }
    check(
        value.creation_type != LeaderCreationType::NoAnnotation,
        "Leader with no annotation cannot carry an annotation handle",
    )?;
    match doc.get_entity(value.annotation_handle) {
        Some(annotation) if value.annotation_handle != own_handle => check(
            is_annotation(value.creation_type, &annotation.data),
            &join(
                &join3(
                    "Leader annotation ",
                    &value.annotation_handle.show(),
                    " does not match creation_type ",
                ),
                say_creation(value.creation_type),
            ),
        ),
        _ => Err(say_missing("Leader annotation handle ", value.annotation_handle)),
    }
}

/// An attribute is written in a style that is no shape file. The messages start
/// with the name of the kind.
pub open spec fn attribute_style_fault(
    doc: DocumentView,
    prefix: Seq<char>,
    name: Seq<char>,
) -> Fault {
    match doc.text_style(trimmed(name)) {
        None => Some(about(prefix + " text style "@, name, " does not exist"@)),
        Some(style) => unless(
            !style.is_shape_file,
            about(prefix + " text style "@, style.name@, " is a shape-file style"@),
        ),
    }
}

fn check_attribute_style(doc: &CadDocument, prefix: &str, name: &str) -> (result: Result<
    (),
    String,
>)
    ensures
        fault(result) == attribute_style_fault(doc@, prefix@, name@),
{
    let what = join(prefix, " text style ");
    match doc.get_text_style(trim(name)) {
        None => Err(say_about(&what, name, " does not exist")),
        Some(style) => check(
            !style.is_shape_file,
            &say_about(&what, &style.name, " is a shape-file style"),
        ),
    }
}

/// An attribute definition belongs to a block definition.
pub open spec fn definition_reference_fault(
    doc: DocumentView,
    owner: Handle,
    value: AttributeDefinition,
) -> Fault {
    match doc.block_with(owner) {
        None => Some("AttributeDefinition requires an existing block-record owner"@),
        Some(block) => first(
            unless(!block.layout(), "AttributeDefinition owner must be a block definition"@),
            attribute_style_fault(doc, "AttributeDefinition"@, value.text.text_style@),
        ),
    }
}

fn check_definition_reference(
    doc: &CadDocument,
    owner: Handle,
    value: &AttributeDefinition,
) -> (result: Result<(), String>)
    ensures
        fault(result) == definition_reference_fault(doc@, owner, *value),
{
    match doc.get_block_with(owner) {
        None => Err("AttributeDefinition requires an existing block-record owner".to_owned()),
        Some(block) => {
            check(
                !block.is_layout(),
                "AttributeDefinition owner must be a block definition",
            )?;
            check_attribute_style(doc, "AttributeDefinition", &value.text.text_style)
        },
    }
}

/// The block reference that owns an attribute.
pub open spec fn owning_insert(doc: DocumentView, owner: Handle) -> Option<Insert> {
    match doc.entity(owner) {
        Some(entity) => match entity.data {
            EntityData::Insert(insert) => Some(*insert),
            _ => None,
        },
        None => None,
    }
}

pub(crate) fn get_owning_insert(doc: &CadDocument, owner: Handle) -> (result: Option<&Insert>)
    ensures
        item(result) == owning_insert(doc@, owner),
{
    match doc.get_entity(owner) {
        Some(entity) => match &entity.data {
            EntityData::Insert(insert) => Some(insert),
            _ => None,
        },
        None => None,
    }
}

/// The attribute definition with a handle.
pub open spec fn definition(doc: DocumentView, handle: Handle) -> Option<AttributeDefinition> {
    match doc.entity(handle) {
        Some(entity) => match entity.data {
            EntityData::AttributeDefinition(value) => Some(*value),
            _ => None,
        },
        None => None,
    }
}

pub(crate) fn get_definition(doc: &CadDocument, handle: Handle) -> (result: Option<&AttributeDefinition>)
    ensures
        item(result) == definition(doc@, handle),
{
    match doc.get_entity(handle) {
        Some(entity) => match &entity.data {
            EntityData::AttributeDefinition(value) => Some(value),
            _ => None,
        },
        None => None,
    }
}

/// The handle is the given one and leads to an attribute definition.
pub open spec fn defines(doc: DocumentView, attdef: Handle) -> spec_fn(Handle) -> bool {
    |handle: Handle| handle == attdef && definition(doc, handle) is Some
}

/// The handle leads to an attribute definition with the tag.
pub open spec fn defines_tag(doc: DocumentView, tag: Seq<char>) -> spec_fn(Handle) -> bool {
    |handle: Handle|
        match definition(doc, handle) {
            Some(value) => alike(value.text.tag@, tag),
            None => false,
        }
}

/// The first member of a block with the handle `attdef`, where it leads to an
/// attribute definition.
fn find_definition<'a>(doc: &'a CadDocument, block: &BlockRecord, attdef: Handle) -> (result:
    Option<&'a AttributeDefinition>)
    ensures
        item(result) == (match pick(block.entity_handles@, defines(doc@, attdef)) {
            Some(handle) => definition(doc@, handle),
            None => None,
        }),
{
    let handles: &Vec<Handle> = &block.entity_handles;
    let mut i: usize = 0;
    while i < handles.len()
        invariant
            i <= handles.len(),
            seek(handles@, 0, defines(doc@, attdef)) == seek(
                handles@,
                i as int,
                defines(doc@, attdef),
            ),
            handles@ == block.entity_handles@,
        decreases handles.len() - i,
    {
        if handles[i] == attdef {
            if let Some(value) = get_definition(doc, handles[i]) {
                return Some(value);
            }
        }
        i = i + 1;
    }
    None
}

/// The first member of a block that is an attribute definition with the tag.
pub(crate) fn find_tag(doc: &CadDocument, block: &BlockRecord, tag: &str) -> (result: Option<Handle>)
    ensures
        result == pick(block.entity_handles@, defines_tag(doc@, tag@)),
{
    let handles: &Vec<Handle> = &block.entity_handles;
    let mut i: usize = 0;
    while i < handles.len()
        invariant
            i <= handles.len(),
            seek(handles@, 0, defines_tag(doc@, tag@)) == seek(
                handles@,
                i as int,
                defines_tag(doc@, tag@),
            ),
            handles@ == block.entity_handles@,
        decreases handles.len() - i,
    {
        if let Some(value) = get_definition(doc, handles[i]) {
            if is_alike(&value.text.tag, tag) {
                return Some(handles[i]);
            }
        }
        i = i + 1;
    }
    None
}

/// An attribute belongs to a block reference, and its definition to the block
/// that is referred to.
pub open spec fn attribute_reference_fault(
    doc: DocumentView,
    owner: Handle,
    value: AttributeEntity,
) -> Fault {
    match owning_insert(doc, owner) {
        None => Some("AttributeEntity requires an existing Insert owner"@),
        Some(insert) => match doc.block(trimmed(insert.block_name@)) {
            None => Some(
                "AttributeEntity owner references missing block "@ + quoted(insert.block_name@),
            ),
            Some(block) => match pick(
                block.entity_handles@,
                defines(doc, value.attdef_handle),
            ) {
                None => Some("AttributeEntity attdef_handle does not belong to the owner's block"@),
                Some(handle) => first(
                    unless(
                        definition(doc, handle) matches Some(found) && alike(
                            found.text.tag@,
                            trimmed(value.text.tag@),
                        ),
                        "AttributeEntity tag does not match its attribute definition"@,
                    ),
                    attribute_style_fault(doc, "AttributeEntity"@, value.text.text_style@),
                ),
            },
        },
    }
}

fn check_attribute_reference(doc: &CadDocument, owner: Handle, value: &AttributeEntity) -> (result:
    Result<(), String>)
    ensures
        fault(result) == attribute_reference_fault(doc@, owner, *value),
{
    let insert = match get_owning_insert(doc, owner) {
        None => {
            return Err("AttributeEntity requires an existing Insert owner".to_owned());
        },
        Some(insert) => insert,
    };
    let block = match doc.get_block(trim(&insert.block_name)) {
        None => {
            return Err(
                join(
                    "AttributeEntity owner references missing block ",
                    &quote(&insert.block_name),
                ),
            );
        },
        Some(block) => block,
    };
    proof {
        crate::search::seek_finds(block.entity_handles@, 0, defines(doc@, value.attdef_handle));
    }
    match find_definition(doc, block, value.attdef_handle) {
        None => Err(
            "AttributeEntity attdef_handle does not belong to the owner's block".to_owned(),
        ),
        Some(found) => {
            check(
                is_alike(&found.text.tag, trim(&value.text.tag)),
                "AttributeEntity tag does not match its attribute definition",
            )?;
            check_attribute_style(doc, "AttributeEntity", &value.text.text_style)
        },
    }
}

/// What an entity must find in its drawing.
pub open spec fn reference_fault(doc: DocumentView, entity: EntityType) -> Fault {
    first(
        owner_fault(doc, entity),
        match entity.data {
            EntityData::Hatch(value) => hatch_reference_fault(doc, *value),
            EntityData::Tolerance(value) => tolerance_reference_fault(doc, *value),
            EntityData::Shape(value) => shape_reference_fault(doc, *value),
            EntityData::Table(value) => table_reference_fault(doc, *value),
            EntityData::MultiLeader(value) => multileader_reference_fault(doc, *value),
            EntityData::Dimension(value) => dimension_reference_fault(doc, *value),
            EntityData::MLine(value) => mline_reference_fault(doc, *value),
            EntityData::Leader(value) => leader_reference_fault(
                doc,
                entity.common.handle,
                *value,
            ),
            EntityData::AttributeDefinition(value) => definition_reference_fault(
                doc,
                entity.common.owner_handle,
                *value,
            ),
            EntityData::AttributeEntity(value) => attribute_reference_fault(
                doc,
                entity.common.owner_handle,
                *value,
            ),
            _ => None,
        },
    )
}

/// Checks that whatever an entity refers to is in the drawing and fits.
pub fn validate_canvas_entity_references(doc: &CadDocument, entity: &EntityType) -> (result: Result<
    (),
    String,
>)
    ensures
        fault(result) == reference_fault(doc@, *entity),
{
    check_owner(doc, entity)?;
    match &entity.data {
        EntityData::Hatch(value) => check_hatch_reference(doc, value),
        EntityData::Tolerance(value) => check_tolerance_reference(doc, value),
        EntityData::Shape(value) => check_shape_reference(doc, value),
        EntityData::Table(value) => check_table_reference(doc, value),
        EntityData::MultiLeader(value) => check_multileader_reference(doc, value),
        EntityData::Dimension(value) => check_dimension_reference(doc, value),
        EntityData::MLine(value) => check_mline_reference(doc, value),
        EntityData::Leader(value) => check_leader_reference(doc, entity.common.handle, value),
        EntityData::AttributeDefinition(value) => check_definition_reference(
            doc,
            entity.common.owner_handle,
            value,
        ),
        EntityData::AttributeEntity(value) => check_attribute_reference(
            doc,
            entity.common.owner_handle,
            value,
        ),
        _ => Ok(()),
    }
}

} // verus!
