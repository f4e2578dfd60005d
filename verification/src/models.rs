//! Data shapes of the service: the persisted user row, the request payloads
//! accepted on create and update, and the uniform success envelope, together
//! with the mathematical model that the contracts speak of.

use vstd::prelude::*;

verus! {

/// Mathematical model of one persisted user row.
#[verifier::ext_equal]
pub ghost struct UserModel {
    /// Surrogate key assigned by the store, strictly increasing in
    /// assignment order.
    pub id: int,
    /// Public identifier: a 128-bit token assigned at creation, the external
    /// lookup key.
    pub user_id: u128,
    pub first_name: Seq<char>,
    pub last_name: Seq<char>,
    pub email: Seq<char>,
    /// Creation time, in seconds.
    pub created_at: int,
}

/// One persisted user row.
#[derive(Debug)]
pub struct User {
    pub id: i32,
    pub user_id: u128,
    pub first_name: String,
    pub last_name: String,
    pub email: String,
    pub created_at: i64,
}

impl View for User {
    type V = UserModel;

    open spec fn view(&self) -> UserModel {
        UserModel {
            id: self.id as int,
            user_id: self.user_id,
            first_name: self.first_name@,
            last_name: self.last_name@,
            email: self.email@,
            created_at: self.created_at as int,
        }
    }
}

/// A row as handed to the insert operation: the surrogate key is still
/// unassigned (the store assigns it), everything else is already fixed.
#[derive(Debug)]
pub struct Users {
    pub id: Option<i32>,
    pub user_id: u128,
    pub first_name: String,
    pub last_name: String,
    pub email: String,
    pub created_at: i64,
}

impl Users {
    /// The persisted row that this insert request becomes once the store
    /// assigns it the surrogate key `id`.
    pub open spec fn with_id(&self, id: int) -> UserModel {
        UserModel {
            id: id,
            user_id: self.user_id,
            first_name: self.first_name@,
            last_name: self.last_name@,
            email: self.email@,
            created_at: self.created_at as int,
        }
    }
}

/// Payload of a create request: every field is required.
#[derive(Debug)]
pub struct NewUser {
    pub first_name: String,
    pub last_name: String,
    pub email: String,
}

/// Mathematical model of an update request.
#[verifier::ext_equal]
pub ghost struct UpdateModel {
    pub first_name: Option<Seq<char>>,
    pub last_name: Option<Seq<char>>,
    pub email: Option<Seq<char>>,
}

/// Payload of an update request: a field that is absent is left unchanged.
#[derive(Debug)]
pub struct UpdateUser {
    pub first_name: Option<String>,
    pub last_name: Option<String>,
    pub email: Option<String>,
}

impl View for UpdateUser {
    type V = UpdateModel;

    open spec fn view(&self) -> UpdateModel {
        UpdateModel {
            first_name: match self.first_name {
                Some(s) => Some(s@),
                None => None,
            },
            last_name: match self.last_name {
                Some(s) => Some(s@),
                None => None,
            },
            email: match self.email {
                Some(s) => Some(s@),
                None => None,
            },
        }
    }
}

/// Uniform wrapper around every successful response: a status text, a
/// human-readable message, and an optional payload.
#[derive(Debug)]
pub struct GenericResponse<T> {
    pub status: String,
    pub message: String,
    pub data: Option<T>,
}

/// The rows of a table, read as their mathematical models.
pub open spec fn users_view(rows: Seq<User>) -> Seq<UserModel> {
    rows.map_values(|u: User| u@)
}

/// Whether some row of `rows` carries the public identifier `uid`.
pub open spec fn contains_user_id(rows: Seq<UserModel>, uid: u128) -> bool {
    exists|i: int| 0 <= i < rows.len() && rows[i].user_id == uid
}

/// Surrogate keys appear in strictly increasing order.
pub open spec fn ids_increasing(rows: Seq<UserModel>) -> bool {
    forall|i: int, j: int|
        0 <= i < j < rows.len() ==> rows[i].id < rows[j].id
}

/// No two rows share a public identifier.
pub open spec fn user_ids_distinct(rows: Seq<UserModel>) -> bool {
    forall|i: int, j: int|
        0 <= i < j < rows.len() ==> rows[i].user_id != rows[j].user_id
}

/// The table invariant: rows ordered by assignment, public identifiers
/// unique.
pub open spec fn table_inv(rows: Seq<UserModel>) -> bool {
    ids_increasing(rows) && user_ids_distinct(rows)
}

/// The row produced by applying an update request to an existing row: a
/// present field overwrites, an absent one leaves the stored value.
pub open spec fn merged(row: UserModel, changes: UpdateModel) -> UserModel {
    UserModel {
        id: row.id,
        user_id: row.user_id,
        first_name: if changes.first_name is Some { changes.first_name->0 } else { row.first_name },
        last_name: if changes.last_name is Some { changes.last_name->0 } else { row.last_name },
        email: if changes.email is Some { changes.email->0 } else { row.email },
        created_at: row.created_at,
    }
}

/// The table with every row carrying the public identifier `uid` removed.
pub open spec fn without_user(rows: Seq<UserModel>, uid: u128) -> Seq<UserModel> {
    rows.filter(|u: UserModel| u.user_id != uid)
}

/// What a re-read after a mutating operation returns: the most recently
/// inserted row if any, else nothing. With `ids_increasing` the last row is
/// the one with the greatest surrogate key.
pub open spec fn most_recent_rows(rows: Seq<UserModel>) -> Seq<UserModel> {
    if rows.len() == 0 {
        Seq::empty()
    } else {
        seq![rows.last()]
    }
}

} // verus!
