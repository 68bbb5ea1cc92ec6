//! What the statements mean.
//!
//! The store is not part of this library. To say what the gateway does end to
//! end, this module states what the store is taken to do with each statement:
//! the table is a sequence of records, and each statement either changes that
//! sequence or selects from it. Nothing here runs; the definitions serve the
//! laws proved about the handlers.

use vstd::prelude::*;
use crate::record::{InsertPayload, UpdatePayload, UserRecord};
use crate::row::{CellView, row_of_record};
use crate::statement::{StatementKind, StatementView, insert_statement};

verus! {

/// Selects the records with the given `id`.
pub open spec fn with_id(id: i32) -> spec_fn(UserRecord) -> bool {
    |record: UserRecord| record.id == id
}

/// Selects the records with any other `id`.
pub open spec fn without_id(id: i32) -> spec_fn(UserRecord) -> bool {
    |record: UserRecord| record.id != id
}

/// Selects the records with the given `name`.
pub open spec fn with_name(name: Seq<char>) -> spec_fn(UserRecord) -> bool {
    |record: UserRecord| record.name == name
}

/// Replaces `email` and `address` of a record that has the given `name`, and
/// leaves any other record as it is.
pub open spec fn revise(name: Seq<char>, change: UpdatePayload) -> spec_fn(UserRecord) -> UserRecord {
    |record: UserRecord|
        if record.name == name {
            record.revised(change)
        } else {
            record
        }
}

/// Whether some record of the table has the given `id`.
pub open spec fn holds_id(table: Seq<UserRecord>, id: i32) -> bool {
    exists|i: int| 0 <= i < table.len() && (#[trigger] table[i]).id == id
}

/// Whether some record of the table has the given `name`.
pub open spec fn holds_name(table: Seq<UserRecord>, name: Seq<char>) -> bool {
    exists|i: int| 0 <= i < table.len() && (#[trigger] table[i]).name == name
}

/// The table after the store has run a statement.
///
/// `assigned` is the id the store gives to a new record. It matters to an
/// insert only.
pub open spec fn effect(table: Seq<UserRecord>, statement: StatementView, assigned: i32) -> Seq<
    UserRecord,
> {
    match statement.kind {
        StatementKind::InsertUser => table.push(
            UserRecord {
                id: assigned,
                name: statement.params[0]->Text_0,
                email: statement.params[1]->Text_0,
                address: statement.params[2]->Text_0,
            },
        ),
        StatementKind::SelectUserById | StatementKind::SelectAllUsers => table,
        StatementKind::DeleteUserById => table.filter(without_id(statement.params[0]->Int_0)),
        StatementKind::UpdateUsersByName => table.map_values(
            revise(
                statement.params[2]->Text_0,
                UpdatePayload {
                    email: statement.params[0]->Text_0,
                    address: statement.params[1]->Text_0,
                },
            ),
        ),
    }
}

/// The records a statement selects, in table order. A statement that is not
/// a query selects none.
pub open spec fn selection(table: Seq<UserRecord>, statement: StatementView) -> Seq<UserRecord> {
    match statement.kind {
        StatementKind::SelectUserById => table.filter(with_id(statement.params[0]->Int_0)),
        StatementKind::SelectAllUsers => table,
        _ => Seq::empty(),
    }
}

/// The number of rows that the store reports as changed by a statement.
pub open spec fn affected(table: Seq<UserRecord>, statement: StatementView) -> nat {
    match statement.kind {
        StatementKind::InsertUser => 1,
        StatementKind::DeleteUserById => table.filter(with_id(statement.params[0]->Int_0)).len(),
        StatementKind::UpdateUsersByName => table.filter(
            with_name(statement.params[2]->Text_0),
        ).len(),
        _ => 0,
    }
}

/// Whether `order` names each position below `n` once.
pub open spec fn is_ordering(order: Seq<int>, n: nat) -> bool {
    &&& order.len() == n
    &&& forall|i: int| 0 <= i < n ==> 0 <= #[trigger] order[i] < n
    &&& forall|i: int, j: int| 0 <= i < j < n ==> #[trigger] order[i] != #[trigger] order[j]
}

/// The selected records as rows, taken in the given order.
pub open spec fn arranged(records: Seq<UserRecord>, order: Seq<int>) -> Seq<Seq<CellView>> {
    Seq::new(records.len(), |i: int| row_of_record(records[order[i]]))
}

/// Whether `rows` is what the store may hand back for a query: the selected
/// records, each as one row with its fields in column order, in any order.
pub open spec fn answers(
    table: Seq<UserRecord>,
    statement: StatementView,
    rows: Seq<Seq<CellView>>,
) -> bool {
    exists|order: Seq<int>|
        is_ordering(order, selection(table, statement).len()) && rows == #[trigger] arranged(
            selection(table, statement),
            order,
        )
}

/// The table after one insert for each of `users`, in order, where the store
/// gives the `i`-th new record the id `ids[i]`.
pub open spec fn after_inserts(
    table: Seq<UserRecord>,
    users: Seq<InsertPayload>,
    ids: Seq<i32>,
) -> Seq<UserRecord>
    decreases users.len(),
{
    if users.len() == 0 {
        table
    } else {
        effect(
            after_inserts(table, users.drop_last(), ids.drop_last()),
            insert_statement(users.last()),
            ids.last(),
        )
    }
}

} // verus!
