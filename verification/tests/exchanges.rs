use user_gateway::handler::{
    add_data, all_data, delete_data, select_data, update_data, Action, Progress,
};
use user_gateway::record::{InsertUser, UpdateUser, UserData};
use user_gateway::response::{Body, Response};
use user_gateway::row::{rows_are_users, Cell, Row};
use user_gateway::statement::{Param, Statement, StatementKind};

/// Stands in for the pool and the store: a table in memory that runs the
/// five statements, with ids counting up from 1.
struct Store {
    reachable: bool,
    rows: Vec<(i32, String, String, String)>,
    next_id: i32,
}

fn text_of(param: &Param) -> String {
    match param {
        Param::Text(s) => s.clone(),
        Param::Int(n) => panic!("expected text, got {}", n),
    }
}

fn int_of(param: &Param) -> i32 {
    match param {
        Param::Int(n) => *n,
        Param::Text(s) => panic!("expected an integer, got {:?}", s),
    }
}

impl Store {
    fn new() -> Store {
        Store { reachable: true, rows: Vec::new(), next_id: 1 }
    }

    fn execute(&mut self, statement: &Statement) -> Result<u64, String> {
        let p = &statement.params;
        match statement.kind {
            StatementKind::InsertUser => {
                assert_eq!(p.len(), 3);
                self.rows.push((self.next_id, text_of(&p[0]), text_of(&p[1]), text_of(&p[2])));
                self.next_id += 1;
                Ok(1)
            }
            StatementKind::DeleteUserById => {
                assert_eq!(p.len(), 1);
                let id = int_of(&p[0]);
                let before = self.rows.len();
                self.rows.retain(|row| row.0 != id);
                Ok((before - self.rows.len()) as u64)
            }
            StatementKind::UpdateUsersByName => {
                assert_eq!(p.len(), 3);
                let (email, address, name) = (text_of(&p[0]), text_of(&p[1]), text_of(&p[2]));
                let mut changed = 0;
                for row in self.rows.iter_mut() {
                    if row.1 == name {
                        row.2 = email.clone();
                        row.3 = address.clone();
                        changed += 1;
                    }
                }
                Ok(changed)
            }
            other => Err(format!("{:?} is not a command", other)),
        }
    }

    fn query(&self, statement: &Statement) -> Result<Vec<Row>, String> {
        let p = &statement.params;
        let wanted: Option<i32> = match statement.kind {
            StatementKind::SelectUserById => {
                assert_eq!(p.len(), 1);
                Some(int_of(&p[0]))
            }
            StatementKind::SelectAllUsers => {
                assert!(p.is_empty());
                None
            }
            other => return Err(format!("{:?} is not a query", other)),
        };
        Ok(self
            .rows
            .iter()
            .filter(|row| wanted.map_or(true, |id| row.0 == id))
            .map(|row| Row {
                cells: vec![
                    Cell::Int(row.0),
                    Cell::Text(row.1.clone()),
                    Cell::Text(row.2.clone()),
                    Cell::Text(row.3.clone()),
                ],
            })
            .collect())
    }

    /// Drives a handler that changes the table to its answer.
    fn command(&mut self, handler: impl Fn(Progress<u64>) -> Action) -> Response {
        let mut progress = Progress::Start;
        for _ in 0..3 {
            progress = match handler(progress) {
                Action::Acquire if self.reachable => Progress::Connected,
                Action::Acquire => Progress::Unavailable("pool closed".to_string()),
                Action::Execute(statement) => match self.execute(&statement) {
                    Ok(count) => Progress::Done(count),
                    Err(message) => Progress::Failed(message),
                },
                Action::Query(statement) => panic!("a command asked for rows: {:?}", statement),
                Action::Respond(response) => return response,
            };
        }
        panic!("no answer after three steps");
    }

    /// Drives a handler that reads the table to its answer.
    fn ask(&self, handler: impl Fn(Progress<Vec<Row>>) -> Action) -> Response {
        let mut progress = Progress::Start;
        for _ in 0..3 {
            progress = match handler(progress) {
                Action::Acquire if self.reachable => Progress::Connected,
                Action::Acquire => Progress::Unavailable("pool closed".to_string()),
                Action::Query(statement) => match self.query(&statement) {
                    Ok(rows) => {
                        assert!(rows_are_users(&rows));
                        Progress::Done(rows)
                    }
                    Err(message) => Progress::Failed(message),
                },
                Action::Execute(statement) => panic!("a query asked for a count: {:?}", statement),
                Action::Respond(response) => return response,
            };
        }
        panic!("no answer after three steps");
    }
}

fn user(name: &str, email: &str, address: &str) -> InsertUser {
    InsertUser { name: name.to_string(), email: email.to_string(), address: address.to_string() }
}

fn record(id: i32, name: &str, email: &str, address: &str) -> UserData {
    UserData {
        id,
        name: name.to_string(),
        email: email.to_string(),
        address: address.to_string(),
    }
}

fn ok_text(body: &str) -> Response {
    Response { status: 200, body: Body::Text(body.to_string()) }
}

fn ok_records(records: Vec<UserData>) -> Response {
    Response { status: 200, body: Body::Json(records) }
}

#[test]
fn inserted_record_comes_back_by_its_id() {
    let mut store = Store::new();
    store.command(|p| add_data(&user("Bo", "bo@x.com", "2 Rd"), p));
    let ann = user("Ann", "ann@x.com", "1 Rd");
    assert_eq!(store.command(|p| add_data(&ann, p)), ok_text("Data Inserted"));
    let id = store.rows.last().unwrap().0;
    assert_eq!(
        store.ask(|p| select_data(id, p)),
        ok_records(vec![record(id, "Ann", "ann@x.com", "1 Rd")])
    );
}

#[test]
fn as_many_records_as_inserts() {
    let mut store = Store::new();
    assert_eq!(store.ask(|p| all_data(p)), ok_records(vec![]));
    for n in 0..5 {
        let name = format!("user{}", n);
        store.command(|p| add_data(&user(&name, "e", "a"), p));
    }
    match store.ask(|p| all_data(p)) {
        Response { status: 200, body: Body::Json(records) } => {
            assert_eq!(records.len(), 5);
            for n in 0..5 {
                let name = format!("user{}", n);
                assert_eq!(records.iter().filter(|r| r.name == name).count(), 1);
            }
        }
        other => panic!("expected five records, got {:?}", other),
    }
}

#[test]
fn unknown_id_gives_an_empty_list_not_an_error() {
    let mut store = Store::new();
    store.command(|p| add_data(&user("Ann", "ann@x.com", "1 Rd"), p));
    assert_eq!(store.ask(|p| select_data(2, p)), ok_records(vec![]));
    assert_eq!(store.ask(|p| select_data(-1, p)), ok_records(vec![]));
}

#[test]
fn deleted_record_is_gone() {
    let mut store = Store::new();
    store.command(|p| add_data(&user("Ann", "ann@x.com", "1 Rd"), p));
    store.command(|p| add_data(&user("Bo", "bo@x.com", "2 Rd"), p));
    assert_eq!(store.command(|p| delete_data(1, p)), ok_text("User deleted."));
    assert_eq!(store.ask(|p| select_data(1, p)), ok_records(vec![]));
    assert_eq!(
        store.ask(|p| all_data(p)),
        ok_records(vec![record(2, "Bo", "bo@x.com", "2 Rd")])
    );
}

#[test]
fn deleting_what_is_not_there_still_confirms() {
    let mut store = Store::new();
    assert_eq!(store.command(|p| delete_data(1, p)), ok_text("User deleted."));
}

#[test]
fn update_changes_email_and_address_of_every_record_with_the_name() {
    let mut store = Store::new();
    store.command(|p| add_data(&user("Ann", "ann@x.com", "1 Rd"), p));
    store.command(|p| add_data(&user("Bo", "bo@x.com", "2 Rd"), p));
    store.command(|p| add_data(&user("Ann", "other@x.com", "3 Rd"), p));
    let change = UpdateUser { email: "new@x.com".to_string(), address: "9 Ave".to_string() };
    assert_eq!(store.command(|p| update_data(&change, "Ann", p)), ok_text("Data Updated."));
    assert_eq!(
        store.ask(|p| all_data(p)),
        ok_records(vec![
            record(1, "Ann", "new@x.com", "9 Ave"),
            record(2, "Bo", "bo@x.com", "2 Rd"),
            record(3, "Ann", "new@x.com", "9 Ave"),
        ])
    );
}

#[test]
fn insert_ann_then_list_everything() {
    let mut store = Store::new();
    let ann = user("Ann", "ann@x.com", "1 Rd");
    let answer = store.command(|p| add_data(&ann, p));
    assert_eq!(answer.status, 200);
    assert_eq!(answer.body, Body::Text("Data Inserted".to_string()));
    assert_eq!(
        store.ask(|p| all_data(p)),
        ok_records(vec![record(1, "Ann", "ann@x.com", "1 Rd")])
    );
}

#[test]
fn update_of_an_unknown_name_confirms_and_changes_nothing() {
    let mut store = Store::new();
    store.command(|p| add_data(&user("Ann", "ann@x.com", "1 Rd"), p));
    let change = UpdateUser { email: "new@x.com".to_string(), address: "9 Ave".to_string() };
    assert_eq!(store.command(|p| update_data(&change, "Nobody", p)), ok_text("Data Updated."));
    assert_eq!(
        store.ask(|p| all_data(p)),
        ok_records(vec![record(1, "Ann", "ann@x.com", "1 Rd")])
    );
}

#[test]
fn no_connection_means_500_and_no_statement() {
    let mut store = Store::new();
    store.reachable = false;
    let down = Response { status: 500, body: Body::Text("pool closed".to_string()) };
    assert_eq!(store.command(|p| add_data(&user("Ann", "ann@x.com", "1 Rd"), p)), down);
    assert_eq!(store.ask(|p| all_data(p)), down);
    assert_eq!(store.ask(|p| select_data(1, p)), down);
    assert_eq!(store.command(|p| delete_data(1, p)), down);
    assert!(store.rows.is_empty());
}
