//! Rows as the store returns them, and the positional mapping from a row to a
//! user record.
//!
//! The mapping goes by column position alone: column 0 is `id`, 1 is `name`,
//! 2 is `email`, 3 is `address`. Column names play no part, so a table whose
//! text columns change places is read without complaint, and wrongly.

use vstd::prelude::*;
use crate::record::{UserData, UserRecord, records_view};

verus! {

/// One column of a returned row.
#[derive(Debug, PartialEq, Eq)]
pub enum Cell {
    /// A non-null 32-bit integer.
    Int(i32),
    /// A non-null text value.
    Text(String),
    /// Anything else: a null, or a value of a type the gateway does not read.
    Other,
}

/// A returned row: its columns in the order the store sent them.
#[derive(Debug, PartialEq, Eq)]
pub struct Row {
    pub cells: Vec<Cell>,
}

/// Mathematical value of a [`Cell`].
pub enum CellView {
    Int(i32),
    Text(Seq<char>),
    Other,
}

impl View for Cell {
    type V = CellView;

    open spec fn view(&self) -> CellView {
        match self {
            Cell::Int(n) => CellView::Int(*n),
            Cell::Text(s) => CellView::Text(s@),
            Cell::Other => CellView::Other,
        }
    }
}

impl View for Row {
    type V = Seq<CellView>;

    open spec fn view(&self) -> Seq<CellView> {
        self.cells@.map_values(|c: Cell| c@)
    }
}

/// The values of a sequence of rows, in order.
pub open spec fn rows_view(rows: Seq<Row>) -> Seq<Seq<CellView>> {
    rows.map_values(|r: Row| r@)
}

/// Number of leading columns that make up a user record.
pub const USER_COLUMNS: usize = 4;

/// Whether a row can be read as a user record: it has at least four columns,
/// the first an integer and the next three text.
pub open spec fn is_user_row(row: Seq<CellView>) -> bool {
    &&& row.len() >= USER_COLUMNS
    &&& row[0] is Int
    &&& row[1] is Text
    &&& row[2] is Text
    &&& row[3] is Text
}

/// The record a readable row stands for, column by column.
pub open spec fn record_of_row(row: Seq<CellView>) -> UserRecord
    recommends
        is_user_row(row),
{
    UserRecord {
        id: row[0]->Int_0,
        name: row[1]->Text_0,
        email: row[2]->Text_0,
        address: row[3]->Text_0,
    }
}

/// The row the store holds for a record: its four fields in column order.
pub open spec fn row_of_record(record: UserRecord) -> Seq<CellView> {
    seq![
        CellView::Int(record.id),
        CellView::Text(record.name),
        CellView::Text(record.email),
        CellView::Text(record.address),
    ]
}

/// Whether every row of a result can be read as a user record.
pub open spec fn all_user_rows(rows: Seq<Seq<CellView>>) -> bool {
    forall|i: int| 0 <= i < rows.len() ==> is_user_row(#[trigger] rows[i])
}

/// The records a result stands for: one per row, in the order of the rows.
pub open spec fn records_of_rows(rows: Seq<Seq<CellView>>) -> Seq<UserRecord> {
    rows.map_values(|row: Seq<CellView>| record_of_row(row))
}

impl Cell {
    /// The integer in this cell, if it holds one.
    pub fn as_int(&self) -> (n: Option<i32>)
        ensures
            n == (match self@ {
                CellView::Int(v) => Some(v),
                _ => None,
            }),
    {
        match self {
            Cell::Int(v) => Some(*v),
            _ => None,
        }
    }

    /// A copy of the text in this cell, if it holds text.
    pub fn as_text(&self) -> (s: Option<String>)
        ensures
            match self@ {
                CellView::Text(t) => s matches Some(owned) && owned@ == t,
                _ => s is None,
            },
    {
        match self {
            Cell::Text(t) => Some(t.clone()),
            _ => None,
        }
    }
}

impl Row {
    /// Whether this row can be read as a user record.
    pub fn is_user(&self) -> (ok: bool)
        ensures
            ok == is_user_row(self@),
    {
        if self.cells.len() < USER_COLUMNS {
            return false;
        }
        let id_ok = matches!(self.cells[0], Cell::Int(_));
        let name_ok = matches!(self.cells[1], Cell::Text(_));
        let email_ok = matches!(self.cells[2], Cell::Text(_));
        let address_ok = matches!(self.cells[3], Cell::Text(_));
        id_ok && name_ok && email_ok && address_ok
    }
}

impl UserData {
    /// Reads a row as a user record by column position.
    ///
    /// Gives `None` exactly when the row is too short or a column holds
    /// something other than what its position calls for. Columns past the
    /// fourth are ignored.
    pub fn from_row(row: &Row) -> (user: Option<UserData>)
        ensures
            user is Some <==> is_user_row(row@),
            user matches Some(u) ==> u@ == record_of_row(row@),
    {
        if row.cells.len() < USER_COLUMNS {
            return None;
        }
        let id = row.cells[0].as_int();
        let name = row.cells[1].as_text();
        let email = row.cells[2].as_text();
        let address = row.cells[3].as_text();
        match (id, name, email, address) {
            (Some(id), Some(name), Some(email), Some(address)) => Some(
                UserData { id, name, email, address },
            ),
            _ => None,
        }
    }
}

/// Whether every row of a result can be read as a user record.
pub fn rows_are_users(rows: &Vec<Row>) -> (ok: bool)
    ensures
        ok == all_user_rows(rows_view(rows@)),
{
    let mut i: usize = 0;
    while i < rows.len()
        invariant
            i <= rows.len(),
            forall|j: int| 0 <= j < i ==> is_user_row(#[trigger] rows_view(rows@)[j]),
        decreases rows.len() - i,
    {
        if !rows[i].is_user() {
            assert(!is_user_row(rows_view(rows@)[i as int]));
            return false;
        }
        i += 1;
    }
    true
}

/// Reads a whole result as user records, one per row and in the same order.
///
/// Gives `None` exactly when some row cannot be read.
pub fn users_from_rows(rows: &Vec<Row>) -> (users: Option<Vec<UserData>>)
    ensures
        users is Some <==> all_user_rows(rows_view(rows@)),
        users matches Some(v) ==> records_view(v@) == records_of_rows(rows_view(rows@)),
{
    let mut users: Vec<UserData> = Vec::new();
    let mut i: usize = 0;
    while i < rows.len()
        invariant
            i <= rows.len(),
            users.len() == i,
            forall|j: int| 0 <= j < i ==> is_user_row(#[trigger] rows_view(rows@)[j]),
            forall|j: int| 0 <= j < i ==> (#[trigger] users[j])@ == record_of_row(rows[j]@),
        decreases rows.len() - i,
    {
        match UserData::from_row(&rows[i]) {
            Some(user) => {
                users.push(user);
            },
            None => {
                assert(!is_user_row(rows_view(rows@)[i as int]));
                return None;
            },
        }
        i += 1;
    }
    assert(records_view(users@) =~= records_of_rows(rows_view(rows@)));
    Some(users)
}

} // verus!
