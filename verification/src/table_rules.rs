//! The rules for tables.

use crate::entities::{CellContent, CellRange, Table, TableCell, TableColumn, TableRow};
use crate::geometry::{
    finite_fault, finite_vector, is_non_negative, non_negative, normal_fault, positive_size,
    size_fault, solid_normal,
};
use crate::text::{check, decimal, earliest, fault, first, join, join3, number, unless, Fault};
use vstd::prelude::*;
use vstd::string::*;

verus! {

/// The rules for a table.
pub open spec fn table_fault(new: Table) -> Fault {
    first(
        finite_fault("Table.insertion_point"@, new.insertion_point),
        first(
            normal_fault("Table.normal"@, new.normal),
            first(
                normal_fault("Table.horizontal_direction"@, new.horizontal_direction),
                first(
                    unless(
                        non_negative(new.break_spacing),
                        "Table.break_spacing must be finite and non-negative"@,
                    ),
                    first(
                        unless(
                            new.rows.len() > 0 && new.columns.len() > 0,
                            "Table requires at least one row and one column"@,
                        ),
                        first(
                            earliest(0, new.columns.len() as int, column_checks(new.columns@)),
                            first(
                                earliest(
                                    0,
                                    new.rows.len() as int,
                                    row_checks(new.rows@, new.columns.len() as int),
                                ),
                                earliest(
                                    0,
                                    new.merged_ranges.len() as int,
                                    range_checks(
                                        new.merged_ranges@,
                                        new.rows.len() as int,
                                        new.columns.len() as int,
                                    ),
                                ),
                            ),
                        ),
                    ),
                ),
            ),
        ),
    )
}

pub fn validate_table(new: &Table) -> (result: Result<(), String>)
    ensures
        fault(result) == table_fault(*new),
{
    finite_vector("Table.insertion_point", &new.insertion_point)?;
    solid_normal("Table.normal", &new.normal)?;
    solid_normal("Table.horizontal_direction", &new.horizontal_direction)?;
    check(
        is_non_negative(new.break_spacing),
        "Table.break_spacing must be finite and non-negative",
    )?;
    check(
        new.rows.len() > 0 && new.columns.len() > 0,
        "Table requires at least one row and one column",
    )?;
    check_columns(&new.columns)?;
    check_rows(&new.rows, new.columns.len())?;
    check_ranges(&new.merged_ranges, new.rows.len(), new.columns.len())
}

/// For each column, that it has a width.
pub open spec fn column_checks(columns: Seq<TableColumn>) -> spec_fn(int) -> Fault {
    |i: int| size_fault("Table.columns["@ + decimal(i as nat) + "].width"@, columns[i].width)
}

fn check_columns(columns: &Vec<TableColumn>) -> (result: Result<(), String>)
    ensures
        fault(result) == earliest(0, columns.len() as int, column_checks(columns@)),
{
    let mut i: usize = 0;
    while i < columns.len()
        invariant
            i <= columns.len(),
            earliest(0, columns.len() as int, column_checks(columns@)) == earliest(
                i as int,
                columns.len() as int,
                column_checks(columns@),
            ),
        decreases columns.len() - i,
    {
        positive_size(&join3("Table.columns[", &number(i as u64), "].width"), columns[i].width)?;
        i = i + 1;
    }
    Ok(())
}

/// For each piece of content, that its numbers are sound.
pub open spec fn content_checks(contents: Seq<CellContent>, name: Seq<char>) -> spec_fn(int) -> Fault {
    |i: int| {
        let content = name + decimal(i as nat) + "]"@;
        first(
            unless(
                contents[i].rotation.finite() && contents[i].scale.finite() && non_negative(contents[i].text_height),
                content + " has invalid rotation, scale or text height"@,
            ),
            unless(
                contents[i].numeric_value.finite(),
                content + ".value.numeric_value must be finite"@,
            ),
        )
    }
}

fn check_contents(contents: &Vec<CellContent>, name: &str) -> (result: Result<(), String>)
    ensures
        fault(result) == earliest(0, contents.len() as int, content_checks(contents@, name@)),
{
    let mut i: usize = 0;
    while i < contents.len()
        invariant
            i <= contents.len(),
            earliest(0, contents.len() as int, content_checks(contents@, name@)) == earliest(
                i as int,
                contents.len() as int,
                content_checks(contents@, name@),
            ),
        decreases contents.len() - i,
    {
        let content = join3(name, &number(i as u64), "]");
        check(
            contents[i].rotation.is_finite() && contents[i].scale.is_finite() && is_non_negative(contents[i].text_height),
            &join(&content, " has invalid rotation, scale or text height"),
        )?;
        check(
            contents[i].numeric_value.is_finite(),
            &join(&content, ".value.numeric_value must be finite"),
        )?;
        i = i + 1;
    }
    Ok(())
}

/// For each cell of a row, that it and its content are sound.
pub open spec fn cell_checks(cells: Seq<TableCell>, name: Seq<char>) -> spec_fn(int) -> Fault {
    |i: int| {
        let cell = name + decimal(i as nat) + "]"@;
        first(
            unless(
                cells[i].rotation.finite() && cells[i].geometry_scale.finite() && cells[i].block_scale.finite(),
                cell + " has non-finite rotation or scale"@,
            ),
            earliest(
                0,
                cells[i].contents.len() as int,
                content_checks(cells[i].contents@, cell + ".contents["@),
            ),
        )
    }
}

fn check_cells(cells: &Vec<TableCell>, name: &str) -> (result: Result<(), String>)
    ensures
        fault(result) == earliest(0, cells.len() as int, cell_checks(cells@, name@)),
{
    let mut i: usize = 0;
    while i < cells.len()
        invariant
            i <= cells.len(),
            earliest(0, cells.len() as int, cell_checks(cells@, name@)) == earliest(
                i as int,
                cells.len() as int,
                cell_checks(cells@, name@),
            ),
        decreases cells.len() - i,
    {
        let cell = join3(name, &number(i as u64), "]");
        check(
            cells[i].rotation.is_finite() && cells[i].geometry_scale.is_finite() && cells[i].block_scale.is_finite(),
            &join(&cell, " has non-finite rotation or scale"),
        )?;
        check_contents(&cells[i].contents, &join(&cell, ".contents["))?;
        i = i + 1;
    }
    Ok(())
}

/// For each row, that it has a height and a cell for each column.
pub open spec fn row_checks(rows: Seq<TableRow>, columns: int) -> spec_fn(int) -> Fault {
    |i: int| {
        let row = "Table.rows["@ + decimal(i as nat) + "]"@;
        first(
            size_fault(row + ".height"@, rows[i].height),
            first(
                unless(
                    rows[i].cells.len() == columns,
                    row + " has "@ + decimal(rows[i].cells.len() as nat) + " cells but the table has "@ + decimal(columns as nat) + " columns"@,
                ),
                earliest(
                    0,
                    rows[i].cells.len() as int,
                    cell_checks(rows[i].cells@, row + ".cells["@),
                ),
            ),
        )
    }
}

fn check_rows(rows: &Vec<TableRow>, columns: usize) -> (result: Result<(), String>)
    ensures
        fault(result) == earliest(0, rows.len() as int, row_checks(rows@, columns as int)),
{
    let mut i: usize = 0;
    while i < rows.len()
        invariant
            i <= rows.len(),
            earliest(0, rows.len() as int, row_checks(rows@, columns as int)) == earliest(
                i as int,
                rows.len() as int,
                row_checks(rows@, columns as int),
            ),
        decreases rows.len() - i,
    {
        let row = join3("Table.rows[", &number(i as u64), "]");
        positive_size(&join(&row, ".height"), rows[i].height)?;
        check(
            rows[i].cells.len() == columns,
            &join(&join3(
                &join3(&row, " has ", &number(rows[i].cells.len() as u64)),
                " cells but the table has ",
                &number(columns as u64),
            ), " columns"),
        )?;
        check_cells(&rows[i].cells, &join(&row, ".cells["))?;
        i = i + 1;
    }
    Ok(())
}

/// Two blocks of cells share no cell.
pub open spec fn apart(a: CellRange, b: CellRange) -> bool {
    a.bottom_row < b.top_row || b.bottom_row < a.top_row || a.right_col < b.left_col || b.right_col
        < a.left_col
}

fn are_apart(a: &CellRange, b: &CellRange) -> (result: bool)
    ensures
        result == apart(*a, *b),
{
    a.bottom_row < b.top_row || b.bottom_row < a.top_row || a.right_col < b.left_col || b.right_col
        < a.left_col
}

/// For each block of merged cells behind the one numbered `index`, that the two
/// share no cell.
pub open spec fn overlap_checks(ranges: Seq<CellRange>, index: int) -> spec_fn(int) -> Fault {
    |i: int|
        unless(
            apart(ranges[index], ranges[i]),
            "Table.merged_ranges["@ + decimal(index as nat) + "] overlaps merged_ranges["@
                + decimal(i as nat) + "]"@,
        )
}

fn check_overlaps(ranges: &Vec<CellRange>, index: usize) -> (result: Result<(), String>)
    requires
        index < ranges.len(),
    ensures
        fault(result) == earliest(
            index + 1,
            ranges.len() as int,
            overlap_checks(ranges@, index as int),
        ),
{
    let mut i: usize = index + 1;
    while i < ranges.len()
        invariant
            index < i <= ranges.len(),
            earliest(index + 1, ranges.len() as int, overlap_checks(ranges@, index as int))
                == earliest(i as int, ranges.len() as int, overlap_checks(ranges@, index as int)),
        decreases ranges.len() - i,
    {
        check(
            are_apart(&ranges[index], &ranges[i]),
            &join3(
                &join3("Table.merged_ranges[", &number(index as u64), "] overlaps merged_ranges["),
                &number(i as u64),
                "]",
            ),
        )?;
        i = i + 1;
    }
    Ok(())
}

/// The block lies within a grid of the given size.
pub open spec fn inside(range: CellRange, rows: int, columns: int) -> bool {
    range.top_row <= range.bottom_row < rows && range.left_col <= range.right_col < columns
}

/// For each block of merged cells, that it lies within the grid and overlaps
/// none of those behind it.
pub open spec fn range_checks(ranges: Seq<CellRange>, rows: int, columns: int) -> spec_fn(
    int,
) -> Fault {
    |i: int|
        first(
            unless(
                inside(ranges[i], rows, columns),
                "Table.merged_ranges["@ + decimal(i as nat) + "] lies outside the "@ + decimal(
                    rows as nat,
                ) + "x"@ + decimal(columns as nat) + " grid"@,
            ),
            earliest(i + 1, ranges.len() as int, overlap_checks(ranges, i)),
        )
}

fn check_ranges(ranges: &Vec<CellRange>, rows: usize, columns: usize) -> (result: Result<
    (),
    String,
>)
    ensures
        fault(result) == earliest(
            0,
            ranges.len() as int,
            range_checks(ranges@, rows as int, columns as int),
        ),
{
    let mut i: usize = 0;
    while i < ranges.len()
        invariant
            i <= ranges.len(),
            earliest(0, ranges.len() as int, range_checks(ranges@, rows as int, columns as int))
                == earliest(
                i as int,
                ranges.len() as int,
                range_checks(ranges@, rows as int, columns as int),
            ),
        decreases ranges.len() - i,
    {
        let range = &ranges[i];
        check(
            range.top_row <= range.bottom_row && range.bottom_row < rows && range.left_col
                <= range.right_col && range.right_col < columns,
            &join3(
                &join3(
                    &join3("Table.merged_ranges[", &number(i as u64), "] lies outside the "),
                    &number(rows as u64),
                    "x",
                ),
                &number(columns as u64),
                " grid",
            ),
        )?;
        check_overlaps(ranges, i)?;
        i = i + 1;
    }
    Ok(())
}

} // verus!
