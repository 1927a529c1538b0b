//! Rows that come back from a query.

use vstd::prelude::*;
use vstd::utf8::valid_utf8;
use crate::convert::{column_value, mysql_value_to_wit_value, time_fits, InvalidText};
use crate::error::{QueryError, QueryErrorModel};
use crate::value::{Column, ColumnType, DriverValue, MysqlValue, ValueModel};

verus! {

/// One value of a row as the driver hands it over, with the column that it comes from.
#[derive(Debug, PartialEq)]
pub struct DriverCell {
    pub column: Column,
    pub value: DriverValue,
}

/// One value of a row as a component receives it.
#[derive(Debug, PartialEq)]
pub struct ResultRowEntry {
    pub column_name: String,
    pub value: MysqlValue,
}

/// A row as a component receives it.
pub type ResultRow = Vec<ResultRowEntry>;

/// The value that a cell stands for, or the failure to read it.
pub open spec fn cell_value(cell: DriverCell) -> Result<ValueModel, InvalidText> {
    column_value(cell.value@, cell.column)
}

/// Whether every span of time in a row has hours that 32 bits hold.
pub open spec fn row_times_fit(cells: Seq<DriverCell>) -> bool {
    forall|i: int| 0 <= i < cells.len() ==> time_fits((#[trigger] cells[i]).value@)
}

/// Whether `row` holds the name and the value of every cell, in order.
pub open spec fn row_of(cells: Seq<DriverCell>, row: Seq<ResultRowEntry>) -> bool {
    &&& row.len() == cells.len()
    &&& forall|i: int|
        0 <= i < cells.len() ==> (#[trigger] row[i]).column_name@ == cells[i].column.name@
            && cell_value(cells[i]) == Ok::<ValueModel, InvalidText>(row[i].value@)
}

/// Whether `e` is why the first cell that cannot be read cannot be read.
pub open spec fn row_fails(cells: Seq<DriverCell>, e: InvalidText) -> bool {
    exists|i: int|
        {
            &&& 0 <= i < cells.len()
            &&& #[trigger] cell_value(cells[i]) == Err::<ValueModel, InvalidText>(e)
            &&& forall|j: int| 0 <= j < i ==> #[trigger] cell_value(cells[j]) is Ok
        }
}

/// Turns a row of the driver into a row for a component.
pub fn into_result_row(cells: Vec<DriverCell>) -> (r: Result<ResultRow, InvalidText>)
    requires
        row_times_fit(cells@),
    ensures
        match r {
            Ok(row) => row_of(cells@, row@),
            Err(e) => row_fails(cells@, e),
        },
{
    let mut row: ResultRow = Vec::new();
    let ghost all = cells@;
    for cell in iter: cells
        invariant
            iter.seq() == all,
            row_times_fit(all),
            row@.len() == iter.index(),
            forall|i: int|
                0 <= i < iter.index() ==> (#[trigger] row@[i]).column_name@ == all[i].column.name@
                    && cell_value(all[i]) == Ok::<ValueModel, InvalidText>(row@[i].value@),
    {
        let ghost n = iter.index();
        assert(cell == all[n]);
        assert forall|j: int| 0 <= j < n implies #[trigger] cell_value(all[j]) is Ok by {
            assert(cell_value(all[j]) == Ok::<ValueModel, InvalidText>(row@[j].value@));
        }
        match mysql_value_to_wit_value(cell.value, &cell.column) {
            Ok(value) => {
                row.push(ResultRowEntry { column_name: cell.column.name, value });
            },
            Err(e) => {
                assert(cell_value(all[n]) == Err::<ValueModel, InvalidText>(e));
                return Err(e);
            },
        }
    }
    Ok(row)
}

/// What is reported when rows cannot be read.
pub open spec fn rows_failure(e: InvalidText) -> QueryErrorModel {
    QueryErrorModel::Unexpected("failed to convert rows: "@ + e.text())
}

/// Whether a row can be read.
pub open spec fn row_readable(cells: Seq<DriverCell>) -> bool {
    forall|i: int| 0 <= i < cells.len() ==> #[trigger] cell_value(cells[i]) is Ok
}

/// Whether `e` is why the first row that cannot be read cannot be read.
pub open spec fn rows_fail(rows: Seq<Vec<DriverCell>>, e: InvalidText) -> bool {
    exists|i: int|
        {
            &&& 0 <= i < rows.len()
            &&& row_fails((#[trigger] rows[i])@, e)
            &&& forall|j: int| 0 <= j < i ==> row_readable((#[trigger] rows[j])@)
        }
}

/// Turns the rows of the driver into rows for a component.
pub fn convert_rows(rows: Vec<Vec<DriverCell>>) -> (r: Result<Vec<ResultRow>, QueryError>)
    requires
        forall|i: int| 0 <= i < rows@.len() ==> row_times_fit((#[trigger] rows@[i])@),
    ensures
        match r {
            Ok(result) => result@.len() == rows@.len() && forall|i: int|
                0 <= i < rows@.len() ==> row_of(rows@[i]@, (#[trigger] result@[i])@),
            Err(error) => exists|e: InvalidText| #[trigger]
                rows_fail(rows@, e) && error@ == rows_failure(e),
        },
{
    let mut result: Vec<ResultRow> = Vec::new();
    let ghost all = rows@;
    for cells in iter: rows
        invariant
            iter.seq() == all,
            forall|i: int| 0 <= i < all.len() ==> row_times_fit((#[trigger] all[i])@),
            result@.len() == iter.index(),
            forall|i: int| 0 <= i < iter.index() ==> row_of(all[i]@, (#[trigger] result@[i])@),
    {
        let ghost n = iter.index();
        assert(cells == all[n]);
        match into_result_row(cells) {
            Ok(row) => {
                result.push(row);
            },
            Err(e) => {
                proof {
                    assert forall|j: int| 0 <= j < n implies row_readable((#[trigger] all[j])@) by {
                        let done = result@[j]@;
                        assert(row_of(all[j]@, done));
                        assert forall|k: int| 0 <= k < all[j]@.len() implies #[trigger] cell_value(
                            all[j]@[k],
                        ) is Ok by {
                            assert(done[k].column_name@ == all[j]@[k].column.name@);
                        }
                    }
                    assert(row_fails(all[n]@, e));
                    assert(rows_fail(all, e));
                }
                let mut text: String = "failed to convert rows: ".to_owned();
                let reason: String = e.message();
                text.append(reason.as_str());
                return Err(QueryError::Unexpected(text));
            },
        }
    }
    Ok(result)
}

/// A row for a component has an entry for every cell, in order, with the name of the cell's column
/// and the value that is read from it.
pub proof fn law_rows_keep_names_and_order(cells: Seq<DriverCell>, row: Seq<ResultRowEntry>)
    requires
        row_of(cells, row),
    ensures
        row.len() == cells.len(),
        forall|i: int|
            0 <= i < cells.len() ==> {
                &&& (#[trigger] row[i]).column_name@ == cells[i].column.name@
                &&& column_value(cells[i].value@, cells[i].column) == Ok::<ValueModel, InvalidText>(
                    row[i].value@,
                )
            },
{
}

/// A row can be read or fails, never both. It can be read exactly where it does not fail.
pub proof fn law_row_is_read_or_fails(
    cells: Seq<DriverCell>,
    row: Seq<ResultRowEntry>,
    e: InvalidText,
)
    ensures
        row_of(cells, row) ==> row_readable(cells),
        row_fails(cells, e) ==> !row_readable(cells),
        !row_readable(cells) ==> exists|reason: InvalidText| row_fails(cells, reason),
{
    if row_of(cells, row) {
        assert forall|i: int| 0 <= i < cells.len() implies #[trigger] cell_value(cells[i]) is Ok by {
            assert(row[i].column_name@ == cells[i].column.name@);
        }
    }
    if !row_readable(cells) {
        lemma_some_cell_fails(cells, cells.len());
    }
}

/// Among the first cells of a row that cannot all be read one is the first that cannot.
proof fn lemma_some_cell_fails(cells: Seq<DriverCell>, n: nat)
    requires
        n <= cells.len(),
        exists|i: int| 0 <= i < n && !(#[trigger] cell_value(cells[i]) is Ok),
    ensures
        exists|e: InvalidText| row_fails(cells, e),
    decreases n,
{
    let last = n - 1;
    if exists|i: int| 0 <= i < last && !(#[trigger] cell_value(cells[i]) is Ok) {
        lemma_some_cell_fails(cells, last as nat);
    } else {
        let e = cell_value(cells[last])->Err_0;
        assert(cell_value(cells[last]) == Err::<ValueModel, InvalidText>(e));
        assert(row_fails(cells, e));
    }
}

/// A row fails on the first cell of a column of text that holds no text, and the failure names the
/// kind of that column.
pub proof fn law_failing_row_names_first_bad_column(cells: Seq<DriverCell>, e: InvalidText)
    requires
        row_fails(cells, e),
    ensures
        exists|i: int|
            {
                &&& 0 <= i < cells.len()
                &&& (#[trigger] cells[i]).value matches DriverValue::Bytes(bytes)
                &&& !valid_utf8(bytes@)
                &&& match cells[i].column.column_type {
                    ColumnType::MYSQL_TYPE_JSON => e is JsonColumn,
                    ColumnType::MYSQL_TYPE_ENUM => e is EnumColumn,
                    ColumnType::MYSQL_TYPE_SET => e is SetColumn,
                    ColumnType::MYSQL_TYPE_DECIMAL => e is DecimalColumn,
                    ColumnType::MYSQL_TYPE_NEWDECIMAL => e is DecimalColumn,
                    _ => false,
                }
                &&& forall|j: int|
                    0 <= j < i ==> column_value(
                        (#[trigger] cells[j]).value@,
                        cells[j].column,
                    ) is Ok
            },
{
    let i = choose|i: int|
        {
            &&& 0 <= i < cells.len()
            &&& #[trigger] cell_value(cells[i]) == Err::<ValueModel, InvalidText>(e)
            &&& forall|j: int| 0 <= j < i ==> #[trigger] cell_value(cells[j]) is Ok
        };
    assert(cells[i].value is Bytes);
    assert forall|j: int| 0 <= j < i implies column_value(
        (#[trigger] cells[j]).value@,
        cells[j].column,
    ) is Ok by {
        assert(cell_value(cells[j]) is Ok);
    }
}

/// Rows fail on the first row that fails, and the answer says why in the words for that.
pub proof fn law_failing_rows_tell_the_first_failure(rows: Seq<Vec<DriverCell>>, e: InvalidText)
    requires
        rows_fail(rows, e),
    ensures
        exists|i: int|
            {
                &&& 0 <= i < rows.len()
                &&& row_fails((#[trigger] rows[i])@, e)
                &&& forall|j: int, reason: InvalidText|
                    0 <= j < i ==> !(#[trigger] row_fails(rows[j]@, reason))
            },
        rows_failure(e) == QueryErrorModel::Unexpected("failed to convert rows: "@ + e.text()),
{
    let i = choose|i: int|
        {
            &&& 0 <= i < rows.len()
            &&& row_fails((#[trigger] rows[i])@, e)
            &&& forall|j: int| 0 <= j < i ==> row_readable((#[trigger] rows[j])@)
        };
    assert forall|j: int, reason: InvalidText| 0 <= j < i implies !(#[trigger] row_fails(
        rows[j]@,
        reason,
    )) by {
        assert(row_readable(rows[j]@));
    }
}

/// A row can be taken in unless some span of time in it has 2 to the 32 hours or more.
pub proof fn law_only_overlong_times_do_not_fit_rows(cells: Seq<DriverCell>)
    ensures
        row_times_fit(cells) <==> forall|i: int|
            0 <= i < cells.len() ==> match (#[trigger] cells[i]).value {
                DriverValue::Time(_, days, hours, _, _, _) => 24 * days + hours < 0x1_0000_0000,
                _ => true,
            },
{
}

} // verus!
