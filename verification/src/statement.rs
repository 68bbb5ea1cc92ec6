//! The five statements the gateway sends to the store.
//!
//! A statement is a fixed text with numbered placeholders and the values bound
//! to them. The text depends on the kind of statement alone: what a client
//! sends reaches the store only as a bound value, never as part of the text.
//! Each text holds the placeholders `$1` to `$n` in that order, and each
//! statement built here binds `n` values.

use vstd::prelude::*;
use crate::record::{InsertPayload, InsertUser, UpdatePayload, UpdateUser};

verus! {

/// Text of the statement that creates a record.
pub const INSERT_USER: &'static str =
    "INSERT INTO user_info(name, email, address) VALUES ($1, $2, $3)";

/// Text of the statement that fetches the records with a given id.
pub const SELECT_USER_BY_ID: &'static str = "SELECT * FROM user_info WHERE id = $1";

/// Text of the statement that fetches every record.
pub const SELECT_ALL_USERS: &'static str = "SELECT * FROM user_info";

/// Text of the statement that removes the records with a given id.
pub const DELETE_USER_BY_ID: &'static str = "DELETE FROM user_info WHERE id = $1";

/// Text of the statement that changes the records with a given name.
pub const UPDATE_USERS_BY_NAME: &'static str =
    "UPDATE user_info SET email = $1, address = $2 WHERE name = $3";

/// Which of the five statements.
#[derive(Debug, Clone, Copy, PartialEq, Eq)]
pub enum StatementKind {
    InsertUser,
    SelectUserById,
    SelectAllUsers,
    DeleteUserById,
    UpdateUsersByName,
}

/// A value bound to a placeholder.
#[derive(Debug, PartialEq, Eq)]
pub enum Param {
    Int(i32),
    Text(String),
}

/// A statement ready to be sent: its kind and the values for `$1`, `$2`, ...
/// in that order.
#[derive(Debug, PartialEq, Eq)]
pub struct Statement {
    pub kind: StatementKind,
    pub params: Vec<Param>,
}

/// Mathematical value of a [`Param`].
pub enum ParamView {
    Int(i32),
    Text(Seq<char>),
}

/// Mathematical value of a [`Statement`].
pub struct StatementView {
    pub kind: StatementKind,
    pub params: Seq<ParamView>,
}

impl View for Param {
    type V = ParamView;

    open spec fn view(&self) -> ParamView {
        match self {
            Param::Int(n) => ParamView::Int(*n),
            Param::Text(s) => ParamView::Text(s@),
        }
    }
}

impl View for Statement {
    type V = StatementView;

    open spec fn view(&self) -> StatementView {
        StatementView { kind: self.kind, params: self.params@.map_values(|p: Param| p@) }
    }
}

/// Number of `$` signs among the first `end` characters of `text`.
pub open spec fn marks_before(text: Seq<char>, end: nat) -> nat
    decreases end,
{
    if end == 0 {
        0
    } else if text[end - 1] == '$' {
        marks_before(text, (end - 1) as nat) + 1
    } else {
        marks_before(text, (end - 1) as nat)
    }
}

/// Whether `c` is a decimal digit.
pub open spec fn is_digit(c: char) -> bool {
    '0' <= c <= '9'
}

/// Whether the one-digit `number` stands at position `at` of `text`, with no
/// further digit behind it.
pub open spec fn names(text: Seq<char>, at: int, number: nat) -> bool {
    &&& 1 <= number <= 9
    &&& at < text.len()
    &&& text[at] as int == '0' as int + number
    &&& at + 1 < text.len() ==> !is_digit(text[at + 1])
}

/// Whether each `$` among the first `end` characters of `text` starts a
/// placeholder numbered by its rank: the first `$` is `$1`, the second `$2`,
/// and so on.
pub open spec fn numbered_before(text: Seq<char>, end: nat) -> bool
    decreases end,
{
    end == 0 || {
        &&& numbered_before(text, (end - 1) as nat)
        &&& text[end - 1] == '$' ==> names(text, end as int, marks_before(text, end))
    }
}

/// Number of placeholders in a statement text.
pub open spec fn placeholder_count(text: Seq<char>) -> nat {
    marks_before(text, text.len())
}

/// Whether the placeholders of a statement text are `$1`, `$2`, ... in the
/// order in which they stand.
pub open spec fn numbered_in_order(text: Seq<char>) -> bool {
    numbered_before(text, text.len())
}

impl StatementKind {
    /// The statement's text.
    pub open spec fn text(self) -> Seq<char> {
        match self {
            StatementKind::InsertUser => INSERT_USER@,
            StatementKind::SelectUserById => SELECT_USER_BY_ID@,
            StatementKind::SelectAllUsers => SELECT_ALL_USERS@,
            StatementKind::DeleteUserById => DELETE_USER_BY_ID@,
            StatementKind::UpdateUsersByName => UPDATE_USERS_BY_NAME@,
        }
    }

    /// How many placeholders the text has.
    pub open spec fn placeholders(self) -> nat {
        placeholder_count(self.text())
    }

    /// The statement's text, as sent to the store.
    pub fn sql(&self) -> (text: &'static str)
        ensures
            text@ == self.text(),
    {
        match self {
            StatementKind::InsertUser => INSERT_USER,
            StatementKind::SelectUserById => SELECT_USER_BY_ID,
            StatementKind::SelectAllUsers => SELECT_ALL_USERS,
            StatementKind::DeleteUserById => DELETE_USER_BY_ID,
            StatementKind::UpdateUsersByName => UPDATE_USERS_BY_NAME,
        }
    }
}

impl StatementView {
    /// Whether the bound values fit the placeholders in number and in type.
    pub open spec fn well_formed(self) -> bool {
        &&& self.params.len() == self.kind.placeholders()
        &&& match self.kind {
            StatementKind::InsertUser | StatementKind::UpdateUsersByName => {
                self.params[0] is Text && self.params[1] is Text && self.params[2] is Text
            },
            StatementKind::SelectUserById | StatementKind::DeleteUserById => self.params[0] is Int,
            StatementKind::SelectAllUsers => true,
        }
    }
}

/// The text of each kind holds the placeholders `$1` to `$n` in that order and
/// no other: three for an insert or an update, one for a select or a delete
/// by id, none for the select of everything.
pub proof fn placeholders_of(kind: StatementKind)
    ensures
        numbered_in_order(kind.text()),
        kind.placeholders() == (match kind {
            StatementKind::InsertUser => 3nat,
            StatementKind::SelectUserById => 1nat,
            StatementKind::SelectAllUsers => 0nat,
            StatementKind::DeleteUserById => 1nat,
            StatementKind::UpdateUsersByName => 3nat,
        }),
{
    match kind {
        StatementKind::InsertUser => {
            assert(placeholder_count(INSERT_USER@) == 3 && numbered_in_order(INSERT_USER@)) by {
                reveal_strlit("INSERT INTO user_info(name, email, address) VALUES ($1, $2, $3)");
                reveal_with_fuel(marks_before, 64);
                reveal_with_fuel(numbered_before, 64);
            }
        },
        StatementKind::SelectUserById => {
            assert(placeholder_count(SELECT_USER_BY_ID@) == 1 && numbered_in_order(
                SELECT_USER_BY_ID@,
            )) by {
                reveal_strlit("SELECT * FROM user_info WHERE id = $1");
                reveal_with_fuel(marks_before, 64);
                reveal_with_fuel(numbered_before, 64);
            }
        },
        StatementKind::SelectAllUsers => {
            assert(placeholder_count(SELECT_ALL_USERS@) == 0 && numbered_in_order(
                SELECT_ALL_USERS@,
            )) by {
                reveal_strlit("SELECT * FROM user_info");
                reveal_with_fuel(marks_before, 64);
                reveal_with_fuel(numbered_before, 64);
            }
        },
        StatementKind::DeleteUserById => {
            assert(placeholder_count(DELETE_USER_BY_ID@) == 1 && numbered_in_order(
                DELETE_USER_BY_ID@,
            )) by {
                reveal_strlit("DELETE FROM user_info WHERE id = $1");
                reveal_with_fuel(marks_before, 64);
                reveal_with_fuel(numbered_before, 64);
            }
        },
        StatementKind::UpdateUsersByName => {
            assert(placeholder_count(UPDATE_USERS_BY_NAME@) == 3 && numbered_in_order(
                UPDATE_USERS_BY_NAME@,
            )) by {
                reveal_strlit("UPDATE user_info SET email = $1, address = $2 WHERE name = $3");
                reveal_with_fuel(marks_before, 64);
                reveal_with_fuel(numbered_before, 64);
            }
        },
    }
}

/// Creates a record: `name`, `email` and `address` bound in that order.
pub open spec fn insert_statement(user: InsertPayload) -> StatementView {
    StatementView {
        kind: StatementKind::InsertUser,
        params: seq![
            ParamView::Text(user.name),
            ParamView::Text(user.email),
            ParamView::Text(user.address),
        ],
    }
}

/// Fetches the records with the given `id`.
pub open spec fn select_by_id_statement(id: i32) -> StatementView {
    StatementView { kind: StatementKind::SelectUserById, params: seq![ParamView::Int(id)] }
}

/// Fetches every record.
pub open spec fn select_all_statement() -> StatementView {
    StatementView { kind: StatementKind::SelectAllUsers, params: Seq::empty() }
}

/// Removes the records with the given `id`.
pub open spec fn delete_by_id_statement(id: i32) -> StatementView {
    StatementView { kind: StatementKind::DeleteUserById, params: seq![ParamView::Int(id)] }
}

/// Changes `email` and `address` of the records with the given `name`:
/// the new `email`, the new `address` and the `name`, bound in that order.
pub open spec fn update_by_name_statement(name: Seq<char>, change: UpdatePayload) -> StatementView {
    StatementView {
        kind: StatementKind::UpdateUsersByName,
        params: seq![
            ParamView::Text(change.email),
            ParamView::Text(change.address),
            ParamView::Text(name),
        ],
    }
}

impl Statement {
    /// The statement that creates a record from a payload.
    pub fn insert(user: &InsertUser) -> (statement: Statement)
        ensures
            statement@ == insert_statement(user@),
            statement@.well_formed(),
    {
        let mut params: Vec<Param> = Vec::new();
        params.push(Param::Text(user.name.clone()));
        params.push(Param::Text(user.email.clone()));
        params.push(Param::Text(user.address.clone()));
        let statement = Statement { kind: StatementKind::InsertUser, params };
        proof {
            placeholders_of(StatementKind::InsertUser);
        }
        assert(statement@.params =~= insert_statement(user@).params);
        statement
    }

    /// The statement that fetches the records with the given `id`.
    pub fn select_by_id(id: i32) -> (statement: Statement)
        ensures
            statement@ == select_by_id_statement(id),
            statement@.well_formed(),
    {
        let mut params: Vec<Param> = Vec::new();
        params.push(Param::Int(id));
        let statement = Statement { kind: StatementKind::SelectUserById, params };
        proof {
            placeholders_of(StatementKind::SelectUserById);
        }
        assert(statement@.params =~= select_by_id_statement(id).params);
        statement
    }

    /// The statement that fetches every record.
    pub fn select_all() -> (statement: Statement)
        ensures
            statement@ == select_all_statement(),
            statement@.well_formed(),
    {
        let statement = Statement { kind: StatementKind::SelectAllUsers, params: Vec::new() };
        proof {
            placeholders_of(StatementKind::SelectAllUsers);
        }
        assert(statement@.params =~= select_all_statement().params);
        statement
    }

    /// The statement that removes the records with the given `id`.
    pub fn delete_by_id(id: i32) -> (statement: Statement)
        ensures
            statement@ == delete_by_id_statement(id),
            statement@.well_formed(),
    {
        let mut params: Vec<Param> = Vec::new();
        params.push(Param::Int(id));
        let statement = Statement { kind: StatementKind::DeleteUserById, params };
        proof {
            placeholders_of(StatementKind::DeleteUserById);
        }
        assert(statement@.params =~= delete_by_id_statement(id).params);
        statement
    }

    /// The statement that changes `email` and `address` of the records with
    /// the given `name`.
    pub fn update_by_name(name: &str, change: &UpdateUser) -> (statement: Statement)
        ensures
            statement@ == update_by_name_statement(name@, change@),
            statement@.well_formed(),
    {
        let mut params: Vec<Param> = Vec::new();
        params.push(Param::Text(change.email.clone()));
        params.push(Param::Text(change.address.clone()));
        params.push(Param::Text(name.to_owned()));
        let statement = Statement { kind: StatementKind::UpdateUsersByName, params };
        proof {
            placeholders_of(StatementKind::UpdateUsersByName);
        }
        assert(statement@.params =~= update_by_name_statement(name@, change@).params);
        statement
    }
}

} // verus!
