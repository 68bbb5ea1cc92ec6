//! The request handlers.
//!
//! Serving a request takes up to two steps that only the surrounding program
//! can perform: getting a connection from the pool, and running a statement on
//! it. A handler is therefore a function of the request and of how far the
//! exchange has come. It says what to do next, and the program calls it again
//! with the outcome, until the handler says what to answer.
//!
//! Every handler but [`home`] follows the same course: ask for a connection;
//! if there is none, answer 500 with the pool's message; otherwise run one
//! statement; if the store refuses it, answer 500 with the store's message;
//! otherwise answer 200. No statement is run twice, and no request runs more
//! than one.

use vstd::prelude::*;
use crate::record::{InsertUser, UpdateUser};
use crate::response::{Response, ResponseView, ok_json, ok_text, server_error};
use crate::row::{CellView, Row, all_user_rows, records_of_rows, rows_view, users_from_rows};
use crate::statement::{
    Statement, StatementView, delete_by_id_statement, insert_statement, select_all_statement,
    select_by_id_statement, update_by_name_statement,
};

verus! {

/// How far an exchange has come. `T` is what the store hands back when the
/// statement succeeds: a count of changed rows, or the rows found.
#[derive(Debug, PartialEq, Eq)]
pub enum Progress<T> {
    /// The request has arrived and nothing has been done yet.
    Start,
    /// The pool handed out a connection.
    Connected,
    /// The pool could not hand out a connection; its message.
    Unavailable(String),
    /// The store ran the statement; what it handed back.
    Done(T),
    /// The store refused or could not run the statement; its message.
    Failed(String),
}

/// What the surrounding program is to do next.
#[derive(Debug, PartialEq, Eq)]
pub enum Action {
    /// Get a connection from the pool, then report `Connected` or
    /// `Unavailable`.
    Acquire,
    /// Run the statement for its effect, then report `Done` with the number of
    /// rows changed, or `Failed`.
    Execute(Statement),
    /// Run the statement for its rows, then report `Done` with the rows, or
    /// `Failed`.
    Query(Statement),
    /// Send the answer. The exchange is over.
    Respond(Response),
}

/// Mathematical value of an [`Action`].
pub enum ActionView {
    Acquire,
    Execute(StatementView),
    Query(StatementView),
    Respond(ResponseView),
}

impl View for Action {
    type V = ActionView;

    open spec fn view(&self) -> ActionView {
        match self {
            Action::Acquire => ActionView::Acquire,
            Action::Execute(statement) => ActionView::Execute(statement@),
            Action::Query(statement) => ActionView::Query(statement@),
            Action::Respond(response) => ActionView::Respond(response@),
        }
    }
}

/// Body of the answer to `GET /`.
pub const GREETING: &'static str = "Hey there!";

/// Body of the answer that confirms an insert.
pub const INSERTED: &'static str = "Data Inserted";

/// Body of the answer that confirms a delete.
pub const DELETED: &'static str = "User deleted.";

/// Body of the answer that confirms an update.
pub const UPDATED: &'static str = "Data Updated.";

/// The answer to a query that the store has run: the rows as records, one for
/// one and in the same order. No rows give an empty list, which is a success
/// like any other.
pub open spec fn found(rows: Seq<Seq<CellView>>) -> ResponseView {
    ok_json(records_of_rows(rows))
}

/// The course of a request that changes the table: `statement` is what it
/// runs and `confirmation` what it answers once the store has run it. The
/// number of rows changed plays no part in the answer.
pub open spec fn command_step(
    statement: StatementView,
    confirmation: Seq<char>,
    progress: Progress<u64>,
) -> ActionView {
    match progress {
        Progress::Start => ActionView::Acquire,
        Progress::Connected => ActionView::Execute(statement),
        Progress::Unavailable(message) => ActionView::Respond(server_error(message@)),
        Progress::Done(_) => ActionView::Respond(ok_text(confirmation)),
        Progress::Failed(message) => ActionView::Respond(server_error(message@)),
    }
}

/// The course of a request that reads the table: `statement` is what it runs.
pub open spec fn query_step(statement: StatementView, progress: Progress<Vec<Row>>) -> ActionView {
    match progress {
        Progress::Start => ActionView::Acquire,
        Progress::Connected => ActionView::Query(statement),
        Progress::Unavailable(message) => ActionView::Respond(server_error(message@)),
        Progress::Done(rows) => ActionView::Respond(found(rows_view(rows@))),
        Progress::Failed(message) => ActionView::Respond(server_error(message@)),
    }
}

/// Whether a handler that reads the table can take this progress: the rows
/// the store handed back, if it has, can all be read as user records.
pub open spec fn readable(progress: Progress<Vec<Row>>) -> bool {
    progress matches Progress::Done(rows) ==> all_user_rows(rows_view(rows@))
}

/// `GET /`: answers 200 with a greeting. Needs neither pool nor store.
pub fn home() -> (response: Response)
    ensures
        response@ == ok_text(GREETING@),
{
    Response::ok_text(GREETING.to_owned())
}

/// `GET /user/{id}`: fetches the records with the given `id`.
///
/// Answers 200 with the records found, as many as there are rows and in
/// their order; 500 with the message if the pool or the store failed.
///
/// The rows reported in `Done` must be readable as user records, which
/// [`rows_are_users`](crate::row::rows_are_users) tells.
pub fn select_data(id: i32, progress: Progress<Vec<Row>>) -> (action: Action)
    requires
        readable(progress),
    ensures
        action@ == query_step(select_by_id_statement(id), progress),
        progress matches Progress::Done(rows) && rows.len() == 0 ==> action@
            == ActionView::Respond(ok_json(Seq::empty())),
{
    match progress {
        Progress::Start => Action::Acquire,
        Progress::Connected => Action::Query(Statement::select_by_id(id)),
        Progress::Unavailable(message) => Action::Respond(Response::server_error(message)),
        Progress::Done(rows) => Action::Respond(show(&rows)),
        Progress::Failed(message) => Action::Respond(Response::server_error(message)),
    }
}

/// `GET /alluser`: fetches every record.
///
/// Answers 200 with the records found, as many as there are rows and in
/// their order; 500 with the message if the pool or the store failed.
///
/// The rows reported in `Done` must be readable as user records, which
/// [`rows_are_users`](crate::row::rows_are_users) tells.
pub fn all_data(progress: Progress<Vec<Row>>) -> (action: Action)
    requires
        readable(progress),
    ensures
        action@ == query_step(select_all_statement(), progress),
        progress matches Progress::Done(rows) && rows.len() == 0 ==> action@
            == ActionView::Respond(ok_json(Seq::empty())),
{
    match progress {
        Progress::Start => Action::Acquire,
        Progress::Connected => Action::Query(Statement::select_all()),
        Progress::Unavailable(message) => Action::Respond(Response::server_error(message)),
        Progress::Done(rows) => Action::Respond(show(&rows)),
        Progress::Failed(message) => Action::Respond(Response::server_error(message)),
    }
}

/// `GET /insert`: creates a record from the payload.
///
/// Answers 200 with a confirmation; 500 with the message if the pool or the
/// store failed.
pub fn add_data(val: &InsertUser, progress: Progress<u64>) -> (action: Action)
    ensures
        action@ == command_step(insert_statement(val@), INSERTED@, progress),
{
    match progress {
        Progress::Start => Action::Acquire,
        Progress::Connected => Action::Execute(Statement::insert(val)),
        Progress::Unavailable(message) => Action::Respond(Response::server_error(message)),
        Progress::Done(_) => Action::Respond(Response::ok_text(INSERTED.to_owned())),
        Progress::Failed(message) => Action::Respond(Response::server_error(message)),
    }
}

/// `GET /update/{name}`: sets `email` and `address` of the records with the
/// given `name`.
///
/// Answers 200 with a confirmation, whether or not any record has that name;
/// 500 with the message if the pool or the store failed.
pub fn update_data(val: &UpdateUser, name: &str, progress: Progress<u64>) -> (action: Action)
    ensures
        action@ == command_step(update_by_name_statement(name@, val@), UPDATED@, progress),
{
    match progress {
        Progress::Start => Action::Acquire,
        Progress::Connected => Action::Execute(Statement::update_by_name(name, val)),
        Progress::Unavailable(message) => Action::Respond(Response::server_error(message)),
        Progress::Done(_) => Action::Respond(Response::ok_text(UPDATED.to_owned())),
        Progress::Failed(message) => Action::Respond(Response::server_error(message)),
    }
}

/// `GET /delete/{id}`: removes the records with the given `id`.
///
/// Answers 200 with a confirmation, whether or not any record has that id;
/// 500 with the message if the pool or the store failed.
pub fn delete_data(id: i32, progress: Progress<u64>) -> (action: Action)
    ensures
        action@ == command_step(delete_by_id_statement(id), DELETED@, progress),
{
    match progress {
        Progress::Start => Action::Acquire,
        Progress::Connected => Action::Execute(Statement::delete_by_id(id)),
        Progress::Unavailable(message) => Action::Respond(Response::server_error(message)),
        Progress::Done(_) => Action::Respond(Response::ok_text(DELETED.to_owned())),
        Progress::Failed(message) => Action::Respond(Response::server_error(message)),
    }
}

/// The answer to a query that the store has run.
fn show(rows: &Vec<Row>) -> (response: Response)
    requires
        all_user_rows(rows_view(rows@)),
    ensures
        response@ == found(rows_view(rows@)),
        rows.len() == 0 ==> response@ == ok_json(Seq::empty()),
{
    assert(rows.len() == 0 ==> records_of_rows(rows_view(rows@)) =~= Seq::empty());
    Response::ok_json(users_from_rows(rows).unwrap())
}

} // verus!
