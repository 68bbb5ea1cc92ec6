//! The user record and the two payloads that carry its client-supplied parts.

use vstd::prelude::*;

verus! {

/// One row of `user_info` as the gateway serves it.
#[derive(Debug, PartialEq, Eq)]
pub struct UserData {
    /// Primary key, assigned by the store.
    pub id: i32,
    pub name: String,
    pub email: String,
    pub address: String,
}

/// What a client sends to create a record: everything but the `id`.
#[derive(Debug, PartialEq, Eq)]
pub struct InsertUser {
    pub name: String,
    pub email: String,
    pub address: String,
}

/// What a client sends to change the records that share a name.
#[derive(Debug, PartialEq, Eq)]
pub struct UpdateUser {
    pub email: String,
    pub address: String,
}

/// Mathematical value of a [`UserData`].
pub struct UserRecord {
    pub id: i32,
    pub name: Seq<char>,
    pub email: Seq<char>,
    pub address: Seq<char>,
}

/// Mathematical value of an [`InsertUser`].
pub struct InsertPayload {
    pub name: Seq<char>,
    pub email: Seq<char>,
    pub address: Seq<char>,
}

/// Mathematical value of an [`UpdateUser`].
pub struct UpdatePayload {
    pub email: Seq<char>,
    pub address: Seq<char>,
}

impl View for UserData {
    type V = UserRecord;

    open spec fn view(&self) -> UserRecord {
        UserRecord { id: self.id, name: self.name@, email: self.email@, address: self.address@ }
    }
}

impl View for InsertUser {
    type V = InsertPayload;

    open spec fn view(&self) -> InsertPayload {
        InsertPayload { name: self.name@, email: self.email@, address: self.address@ }
    }
}

impl View for UpdateUser {
    type V = UpdatePayload;

    open spec fn view(&self) -> UpdatePayload {
        UpdatePayload { email: self.email@, address: self.address@ }
    }
}

impl InsertPayload {
    /// The record that holds this payload under the given `id`.
    pub open spec fn with_id(self, id: i32) -> UserRecord {
        UserRecord { id, name: self.name, email: self.email, address: self.address }
    }
}

impl UserRecord {
    /// This record after an update: `email` and `address` replaced, `id` and
    /// `name` kept.
    pub open spec fn revised(self, change: UpdatePayload) -> UserRecord {
        UserRecord { id: self.id, name: self.name, email: change.email, address: change.address }
    }
}

/// The values of a sequence of records, in order.
pub open spec fn records_view(records: Seq<UserData>) -> Seq<UserRecord> {
    records.map_values(|r: UserData| r@)
}

} // verus!
