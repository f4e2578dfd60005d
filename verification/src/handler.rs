//! The five operations behind the service's routes: the liveness check and
//! the four table operations, each wrapping its result in the uniform
//! success envelope or ending in a `UserError`.

use vstd::prelude::*;

use crate::gen::{fresh_user_id, now_timestamp, parse_user_id, parsed_user_id};
use crate::models::{
    contains_user_id, merged, most_recent_rows, user_ids_distinct, users_view, without_user,
    GenericResponse, NewUser, UpdateUser, User, Users,
};
use crate::store::{lemma_delete_removes, UserStore};
use crate::user_error::UserError;

verus! {

/// The liveness check: an OK envelope with no payload.
pub fn health_checker() -> (r: GenericResponse<()>)
    ensures
        r.status@ == "OK"@,
        r.message@ == "Working"@,
        r.data is None,
{
    GenericResponse {
        status: String::from_str("OK"),
        message: String::from_str("Working"),
        data: None,
    }
}

/// Fetch all rows. An empty table yields an OK envelope around an empty
/// sequence, never an error.
pub fn get_users(store: &UserStore) -> (r: GenericResponse<Vec<User>>)
    ensures
        r.status@ == "OK"@,
        r.message@ == "Users Fetched successfully"@,
        r.data matches Some(rows) && users_view(rows@) == store@,
{
    GenericResponse {
        status: String::from_str("OK"),
        message: String::from_str("Users Fetched successfully"),
        data: Some(store.list_users()),
    }
}

/// Create one user: draw a fresh public identifier and the creation time,
/// insert the row, and answer with the re-read of the most recent row —
/// which is exactly the row just created.
pub fn add_user(store: &mut UserStore, form: &NewUser) -> (r: Result<
    GenericResponse<Vec<User>>,
    UserError,
>)
    requires
        old(store).wf(),
    ensures
        final(store).wf(),
        match r {
            Ok(resp) => {
                &&& final(store)@.len() == old(store)@.len() + 1
                &&& final(store)@ == old(store)@.push(final(store)@.last())
                &&& final(store)@.last().id == old(store).spec_next_id()
                &&& final(store).spec_next_id() == old(store).spec_next_id() + 1
                &&& !contains_user_id(old(store)@, final(store)@.last().user_id)
                &&& user_ids_distinct(final(store)@)
                &&& final(store)@.last().user_id != 0
                &&& final(store)@.last().first_name == form.first_name@
                &&& final(store)@.last().last_name == form.last_name@
                &&& final(store)@.last().email == form.email@
                &&& resp.status@ == "OK"@
                &&& resp.message@ == "Users added successfully"@
                &&& resp.data matches Some(rows) && users_view(rows@) == most_recent_rows(
                    final(store)@,
                )
            },
            Err(e) => {
                &&& *final(store) == *old(store)
                &&& e matches UserError::StorageError(_)
            },
        },
        old(store)@.len() == 0 && old(store).spec_next_id() < i32::MAX as int ==> r is Ok,
        old(store).spec_next_id() == i32::MAX as int ==> r is Err,
{
    let uid: u128 = fresh_user_id();
    let ts: i64 = now_timestamp();
    let row = Users {
        id: None,
        user_id: uid,
        first_name: form.first_name.clone(),
        last_name: form.last_name.clone(),
        email: form.email.clone(),
        created_at: ts,
    };
    match store.insert(row) {
        Err(e) => Err(e),
        Ok(()) => {
            proof {
                store.lemma_public_ids_unique();
            }
            Ok(
                GenericResponse {
                    status: String::from_str("OK"),
                    message: String::from_str("Users added successfully"),
                    data: Some(store.most_recent()),
                },
            )
        },
    }
}

/// Update one user by the externally supplied public identifier. A
/// malformed identifier is the caller's error; an identifier no row carries
/// updates nothing. Success answers with the re-read of the most recent row
/// overall.
pub fn update_user(store: &mut UserStore, user_id_text: &str, form: &UpdateUser) -> (r: Result<
    GenericResponse<Vec<User>>,
    UserError,
>)
    requires
        old(store).wf(),
    ensures
        final(store).wf(),
        match parsed_user_id(user_id_text@) {
            None => {
                &&& r matches Err(UserError::InvalidUserId)
                &&& *final(store) == *old(store)
            },
            Some(uid) => {
                &&& final(store)@.len() == old(store)@.len()
                &&& final(store).spec_next_id() == old(store).spec_next_id()
                &&& forall|i: int|
                    0 <= i < old(store)@.len() ==> final(store)@[i] == (
                    if old(store)@[i].user_id == uid {
                        merged(old(store)@[i], form@)
                    } else {
                        old(store)@[i]
                    })
                &&& r matches Ok(resp) && resp.status@ == "OK"@ && resp.message@
                    == "Users updated successfully"@ && (resp.data matches Some(rows)
                    && users_view(rows@) == most_recent_rows(final(store)@))
            },
        },
{
    match parse_user_id(user_id_text) {
        None => Err(UserError::InvalidUserId),
        Some(uid) => {
            store.update(uid, form);
            Ok(
                GenericResponse {
                    status: String::from_str("OK"),
                    message: String::from_str("Users updated successfully"),
                    data: Some(store.most_recent()),
                },
            )
        },
    }
}

/// Delete one user by the externally supplied public identifier. A
/// malformed identifier is the caller's error; deleting an identifier no
/// row carries removes nothing and still succeeds. Success answers with the
/// re-read of the most recent remaining row.
pub fn delete_user(store: &mut UserStore, user_id_text: &str) -> (r: Result<
    GenericResponse<Vec<User>>,
    UserError,
>)
    requires
        old(store).wf(),
    ensures
        final(store).wf(),
        match parsed_user_id(user_id_text@) {
            None => {
                &&& r matches Err(UserError::InvalidUserId)
                &&& *final(store) == *old(store)
            },
            Some(uid) => {
                &&& final(store)@ == without_user(old(store)@, uid)
                &&& !contains_user_id(final(store)@, uid)
                &&& final(store).spec_next_id() == old(store).spec_next_id()
                &&& r matches Ok(resp) && resp.status@ == "OK"@ && resp.message@
                    == "Users Deleted successfully"@ && (resp.data matches Some(rows)
                    && users_view(rows@) == most_recent_rows(final(store)@))
            },
        },
{
    match parse_user_id(user_id_text) {
        None => Err(UserError::InvalidUserId),
        Some(uid) => {
            store.delete(uid);
            proof {
                lemma_delete_removes(old(store)@, uid);
            }
            Ok(
                GenericResponse {
                    status: String::from_str("OK"),
                    message: String::from_str("Users Deleted successfully"),
                    data: Some(store.most_recent()),
                },
            )
        },
    }
}

} // verus!
