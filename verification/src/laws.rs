//! Laws of the gateway: what a client sees across requests, given that the
//! store does with each statement what [`crate::table`] says.

use vstd::prelude::*;
use vstd::set_lib::{lemma_int_range, lemma_len_subset, set_int_range};
use crate::handler::{ActionView, Progress, UPDATED, command_step, query_step, readable};
use crate::record::{InsertPayload, UpdatePayload, UserRecord};
use crate::response::{ok_json, ok_text};
use crate::row::{
    Row, all_user_rows, is_user_row, record_of_row, records_of_rows, row_of_record, rows_view,
};
use crate::statement::{
    delete_by_id_statement, insert_statement, select_all_statement, select_by_id_statement,
    update_by_name_statement,
};
use crate::table::{
    affected, after_inserts, answers, arranged, effect, holds_id, holds_name, is_ordering,
    selection, with_id, with_name, without_id,
};

verus! {

/// Reading back the row that holds a record gives that record.
pub proof fn row_round_trip(record: UserRecord)
    ensures
        is_user_row(row_of_record(record)),
        record_of_row(row_of_record(record)) == record,
{
}

/// An ordering reaches every position: each one below `n` is named somewhere
/// in it.
pub proof fn ordering_reaches(order: Seq<int>, n: nat, position: int)
    requires
        is_ordering(order, n),
        0 <= position < n,
    ensures
        exists|i: int| 0 <= i < n && #[trigger] order[i] == position,
{
    if !(exists|i: int| 0 <= i < n && #[trigger] order[i] == position) {
        let named = order.to_set();
        let others = set_int_range(0, n as int).remove(position);
        assert(order.no_duplicates());
        order.unique_seq_to_set();
        lemma_int_range(0, n as int);
        assert(named.subset_of(others)) by {
            assert forall|value: int| named.contains(value) implies others.contains(value) by {
                let i = choose|i: int| 0 <= i < order.len() && order[i] == value;
                assert(0 <= order[i] < n);
            }
        }
        lemma_len_subset(named, others);
        assert(false);
    }
}

/// Whatever a query hands back can be read, and reads as the selected
/// records: as many as were selected, in the order the store chose, and with
/// every selected record among them.
pub proof fn answer_reads_as_selection(records: Seq<UserRecord>, order: Seq<int>)
    requires
        is_ordering(order, records.len()),
    ensures
        all_user_rows(arranged(records, order)),
        records_of_rows(arranged(records, order)).len() == records.len(),
        forall|i: int|
            0 <= i < records.len() ==> #[trigger] records_of_rows(arranged(records, order))[i]
                == records[order[i]],
        forall|j: int|
            0 <= j < records.len() ==> records_of_rows(arranged(records, order)).contains(
                #[trigger] records[j],
            ),
{
    let rows = arranged(records, order);
    let read = records_of_rows(rows);
    assert forall|i: int| 0 <= i < rows.len() implies is_user_row(#[trigger] rows[i]) by {
        row_round_trip(records[order[i]]);
    }
    assert forall|i: int| 0 <= i < records.len() implies #[trigger] read[i] == records[order[i]] by {
        row_round_trip(records[order[i]]);
    }
    assert forall|j: int| 0 <= j < records.len() implies read.contains(#[trigger] records[j]) by {
        ordering_reaches(order, records.len(), j);
        let i = choose|i: int| 0 <= i < records.len() && #[trigger] order[i] == j;
        assert(read[i] == records[j]);
    }
}

/// A record that was inserted comes back when fetched by the id the store
/// gave it: the answer is 200 with exactly that record, whose `name`, `email`
/// and `address` are those of the payload.
pub proof fn insert_then_select(table: Seq<UserRecord>, user: InsertPayload, id: i32, rows: Vec<Row>)
    requires
        !holds_id(table, id),
        answers(
            effect(table, insert_statement(user), id),
            select_by_id_statement(id),
            rows_view(rows@),
        ),
    ensures
        readable(Progress::Done(rows)),
        query_step(select_by_id_statement(id), Progress::Done(rows)) == ActionView::Respond(
            ok_json(seq![user.with_id(id)]),
        ),
{
    let after = effect(table, insert_statement(user), id);
    let selected = selection(after, select_by_id_statement(id));
    let record = user.with_id(id);
    assert(selected == seq![record]) by {
        assert(after == table.push(record));
        assert(after.drop_last() == table);
        assert(forall|i: int| 0 <= i < table.len() ==> !with_id(id)(#[trigger] table[i]));
        table.lemma_all_neg_filter_empty(with_id(id));
        reveal(Seq::filter);
        assert(after.filter(with_id(id)) == table.filter(with_id(id)).push(record));
    }
    let order = choose|order: Seq<int>|
        is_ordering(order, selected.len()) && rows_view(rows@) == #[trigger] arranged(
            selected,
            order,
        );
    answer_reads_as_selection(selected, order);
    assert(order[0] == 0);
    assert(records_of_rows(rows_view(rows@)) == seq![record]);
}

/// After `n` inserts into an empty table, fetching all records answers 200
/// with exactly `n` records: each is one of those inserted, and each of those
/// inserted is among them, in whatever order the store hands them back.
pub proof fn select_all_after_inserts(users: Seq<InsertPayload>, ids: Seq<i32>, rows: Vec<Row>)
    requires
        users.len() == ids.len(),
        answers(
            after_inserts(Seq::empty(), users, ids),
            select_all_statement(),
            rows_view(rows@),
        ),
    ensures
        readable(Progress::Done(rows)),
        ({
            let records = records_of_rows(rows_view(rows@));
            &&& query_step(select_all_statement(), Progress::Done(rows)) == ActionView::Respond(
                ok_json(records),
            )
            &&& records.len() == users.len()
            &&& forall|i: int|
                #![trigger records[i]]
                0 <= i < records.len() ==> exists|j: int|
                    #![trigger users[j]]
                    0 <= j < users.len() && records[i] == users[j].with_id(ids[j])
            &&& forall|j: int|
                #![trigger users[j]]
                0 <= j < users.len() ==> records.contains(users[j].with_id(ids[j]))
        }),
{
    let table = after_inserts(Seq::empty(), users, ids);
    inserts_append(Seq::empty(), users, ids);
    let selected = selection(table, select_all_statement());
    assert(selected == table);
    let order = choose|order: Seq<int>|
        is_ordering(order, selected.len()) && rows_view(rows@) == #[trigger] arranged(
            selected,
            order,
        );
    answer_reads_as_selection(selected, order);
    let records = records_of_rows(rows_view(rows@));
    assert forall|i: int| #![trigger records[i]] 0 <= i < records.len() implies exists|j: int|
        #![trigger users[j]]
        0 <= j < users.len() && records[i] == users[j].with_id(ids[j]) by {
        let j = order[i];
        assert(records[i] == table[j]);
        assert(0 <= j < users.len() && table[j] == users[j].with_id(ids[j]));
    }
    assert forall|j: int| #![trigger users[j]] 0 <= j < users.len() implies records.contains(
        users[j].with_id(ids[j]),
    ) by {
        assert(table[j] == users[j].with_id(ids[j]));
    }
}

/// A run of inserts appends one record per payload, in order, and leaves what
/// was there before in place.
pub proof fn inserts_append(table: Seq<UserRecord>, users: Seq<InsertPayload>, ids: Seq<i32>)
    requires
        users.len() == ids.len(),
    ensures
        after_inserts(table, users, ids).len() == table.len() + users.len(),
        forall|i: int|
            0 <= i < table.len() ==> #[trigger] after_inserts(table, users, ids)[i] == table[i],
        forall|k: int|
            table.len() <= k < table.len() + users.len() ==> #[trigger] after_inserts(
                table,
                users,
                ids,
            )[k] == users[k - table.len()].with_id(ids[k - table.len()]),
    decreases users.len(),
{
    if users.len() > 0 {
        inserts_append(table, users.drop_last(), ids.drop_last());
    }
}

/// Fetching by an id that no record has answers 200 with an empty list.
pub proof fn select_absent_id(table: Seq<UserRecord>, id: i32, rows: Vec<Row>)
    requires
        !holds_id(table, id),
        answers(table, select_by_id_statement(id), rows_view(rows@)),
    ensures
        rows.len() == 0,
        readable(Progress::Done(rows)),
        query_step(select_by_id_statement(id), Progress::Done(rows)) == ActionView::Respond(
            ok_json(Seq::empty()),
        ),
{
    assert(forall|i: int| 0 <= i < table.len() ==> !with_id(id)(#[trigger] table[i]));
    table.lemma_all_neg_filter_empty(with_id(id));
    assert(rows_view(rows@).len() == 0);
    assert(records_of_rows(rows_view(rows@)) == Seq::<UserRecord>::empty());
}

/// Once the records with an id are deleted, no record with that id is left,
/// and fetching by that id answers 200 with an empty list.
pub proof fn delete_then_select(table: Seq<UserRecord>, id: i32, assigned: i32, rows: Vec<Row>)
    requires
        answers(
            effect(table, delete_by_id_statement(id), assigned),
            select_by_id_statement(id),
            rows_view(rows@),
        ),
    ensures
        !holds_id(effect(table, delete_by_id_statement(id), assigned), id),
        readable(Progress::Done(rows)),
        query_step(select_by_id_statement(id), Progress::Done(rows)) == ActionView::Respond(
            ok_json(Seq::empty()),
        ),
{
    let after = effect(table, delete_by_id_statement(id), assigned);
    assert forall|i: int| 0 <= i < after.len() implies without_id(id)(#[trigger] after[i]) by {
        table.lemma_filter_pred(without_id(id), i);
    }
    select_absent_id(after, id, rows);
}

/// An update by name keeps every record in its place with its `id` and
/// `name`. A record with that name gets the payload's `email` and `address`;
/// any other record is left as it was.
pub proof fn update_changes_email_and_address_only(
    table: Seq<UserRecord>,
    name: Seq<char>,
    change: UpdatePayload,
    assigned: i32,
)
    ensures
        effect(table, update_by_name_statement(name, change), assigned).len() == table.len(),
        forall|i: int|
            #![trigger effect(table, update_by_name_statement(name, change), assigned)[i]]
            0 <= i < table.len() ==> {
                let before = table[i];
                let after = effect(table, update_by_name_statement(name, change), assigned)[i];
                &&& after.id == before.id
                &&& after.name == before.name
                &&& before.name == name ==> after.email == change.email && after.address
                    == change.address
                &&& before.name != name ==> after == before
            },
{
}

/// An update for a name that no record has changes nothing, and the gateway
/// answers 200 with the same confirmation as for any other update.
pub proof fn update_absent_name(
    table: Seq<UserRecord>,
    name: Seq<char>,
    change: UpdatePayload,
    assigned: i32,
    count: u64,
)
    requires
        !holds_name(table, name),
    ensures
        effect(table, update_by_name_statement(name, change), assigned) == table,
        affected(table, update_by_name_statement(name, change)) == 0,
        command_step(update_by_name_statement(name, change), UPDATED@, Progress::Done(count))
            == ActionView::Respond(ok_text(UPDATED@)),
{
    assert(forall|i: int| 0 <= i < table.len() ==> !with_name(name)(#[trigger] table[i]));
    table.lemma_all_neg_filter_empty(with_name(name));
    assert(effect(table, update_by_name_statement(name, change), assigned) =~= table);
}

} // verus!
