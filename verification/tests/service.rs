use user_service::handler::{add_user, delete_user, get_users, health_checker, update_user};
use user_service::models::{NewUser, UpdateUser, User, Users};
use user_service::store::UserStore;
use user_service::user_error::UserError;

fn ada() -> NewUser {
    NewUser {
        first_name: "Ada".to_string(),
        last_name: "Lovelace".to_string(),
        email: "ada@example.com".to_string(),
    }
}

fn grace() -> NewUser {
    NewUser {
        first_name: "Grace".to_string(),
        last_name: "Hopper".to_string(),
        email: "grace@example.com".to_string(),
    }
}

fn no_changes() -> UpdateUser {
    UpdateUser {
        first_name: None,
        last_name: None,
        email: None,
    }
}

fn id_text(user_id: u128) -> String {
    uuid::Uuid::from_u128(user_id).to_string()
}

fn created_id(store: &mut UserStore, form: &NewUser) -> u128 {
    let resp = add_user(store, form).expect("create must succeed");
    let rows = resp.data.expect("create returns the created row");
    assert_eq!(rows.len(), 1);
    rows[0].user_id
}

#[test]
fn health_checker_reports_ok() {
    let resp = health_checker();
    assert_eq!(resp.status, "OK");
    assert_eq!(resp.message, "Working");
    assert!(resp.data.is_none());
}

#[test]
fn listing_empty_table_is_ok_and_empty() {
    let store = UserStore::new();
    let resp = get_users(&store);
    assert_eq!(resp.status, "OK");
    assert_eq!(resp.message, "Users Fetched successfully");
    let rows = resp.data.expect("an empty table is a payload, not an error");
    assert!(rows.is_empty());
}

#[test]
fn create_returns_the_created_row() {
    let mut store = UserStore::new();
    let resp = add_user(&mut store, &ada()).expect("create must succeed");
    assert_eq!(resp.status, "OK");
    assert_eq!(resp.message, "Users added successfully");
    let rows = resp.data.expect("create answers with the new row");
    assert_eq!(rows.len(), 1);
    assert_ne!(rows[0].user_id, 0, "public identifier must be present");
    assert_eq!(rows[0].first_name, "Ada");
    assert_eq!(rows[0].last_name, "Lovelace");
    assert_eq!(rows[0].email, "ada@example.com");
}

#[test]
fn sequential_creates_draw_distinct_public_ids() {
    let mut store = UserStore::new();
    let mut seen: Vec<u128> = Vec::new();
    for _ in 0..50 {
        let id = created_id(&mut store, &ada());
        assert!(!seen.contains(&id), "public identifiers must never repeat");
        seen.push(id);
    }
}

#[test]
fn surrogate_ids_increase_in_creation_order() {
    let mut store = UserStore::new();
    created_id(&mut store, &ada());
    created_id(&mut store, &grace());
    created_id(&mut store, &ada());
    let rows = get_users(&store).data.unwrap();
    assert_eq!(rows.len(), 3);
    assert!(rows[0].id < rows[1].id && rows[1].id < rows[2].id);
}

#[test]
fn list_after_create_contains_the_new_row() {
    let mut store = UserStore::new();
    let id = created_id(&mut store, &ada());
    let rows = get_users(&store).data.unwrap();
    assert!(rows.iter().any(|u: &User| u.user_id == id));
}

#[test]
fn update_changes_email_and_keeps_absent_fields() {
    let mut store = UserStore::new();
    let id = created_id(&mut store, &ada());
    let changes = UpdateUser {
        first_name: None,
        last_name: None,
        email: Some("countess@example.com".to_string()),
    };
    let resp = update_user(&mut store, &id_text(id), &changes).expect("update must succeed");
    assert_eq!(resp.status, "OK");
    assert_eq!(resp.message, "Users updated successfully");
    let rows = get_users(&store).data.unwrap();
    let row = rows.iter().find(|u| u.user_id == id).expect("row must remain");
    assert_eq!(row.email, "countess@example.com");
    assert_eq!(row.first_name, "Ada", "an absent field is left unchanged");
    assert_eq!(row.last_name, "Lovelace", "an absent field is left unchanged");
}

#[test]
fn update_present_fields_overwrite() {
    let mut store = UserStore::new();
    let id = created_id(&mut store, &ada());
    let changes = UpdateUser {
        first_name: Some("Augusta".to_string()),
        last_name: Some("King".to_string()),
        email: Some("augusta@example.com".to_string()),
    };
    update_user(&mut store, &id_text(id), &changes).expect("update must succeed");
    let rows = get_users(&store).data.unwrap();
    let row = rows.iter().find(|u| u.user_id == id).unwrap();
    assert_eq!(row.first_name, "Augusta");
    assert_eq!(row.last_name, "King");
    assert_eq!(row.email, "augusta@example.com");
}

#[test]
fn update_reread_returns_most_recent_row_overall() {
    let mut store = UserStore::new();
    let first = created_id(&mut store, &ada());
    let second = created_id(&mut store, &grace());
    let changes = UpdateUser {
        first_name: None,
        last_name: None,
        email: Some("first@example.com".to_string()),
    };
    let resp = update_user(&mut store, &id_text(first), &changes).expect("update must succeed");
    let rows = resp.data.unwrap();
    assert_eq!(rows.len(), 1);
    assert_eq!(
        rows[0].user_id, second,
        "the re-read returns the most recently inserted row, not the updated one"
    );
}

#[test]
fn update_with_unknown_valid_id_still_succeeds() {
    let mut store = UserStore::new();
    let id = created_id(&mut store, &ada());
    let absent = uuid::Uuid::new_v4().as_u128();
    assert_ne!(absent, id);
    let resp = update_user(&mut store, &id_text(absent), &no_changes())
        .expect("updating an unknown identifier is not an error");
    let rows = resp.data.unwrap();
    assert_eq!(rows.len(), 1, "the re-read still returns the most recent row");
    let listed = get_users(&store).data.unwrap();
    assert_eq!(listed.len(), 1);
    assert_eq!(listed[0].email, "ada@example.com");
}

#[test]
fn update_with_malformed_id_is_a_client_error() {
    let mut store = UserStore::new();
    created_id(&mut store, &ada());
    let err = update_user(&mut store, "not-a-uuid", &no_changes())
        .expect_err("a malformed identifier must be rejected");
    assert!(matches!(err, UserError::InvalidUserId));
    assert_eq!(err.status_code(), 400);
    assert_eq!(err.message(), "Invalid user id");
    let rows = get_users(&store).data.unwrap();
    assert_eq!(rows.len(), 1, "a rejected update leaves the table untouched");
}

#[test]
fn delete_removes_the_row() {
    let mut store = UserStore::new();
    let first = created_id(&mut store, &ada());
    let second = created_id(&mut store, &grace());
    let resp = delete_user(&mut store, &id_text(first)).expect("delete must succeed");
    assert_eq!(resp.status, "OK");
    assert_eq!(resp.message, "Users Deleted successfully");
    let rows = get_users(&store).data.unwrap();
    assert!(rows.iter().all(|u| u.user_id != first));
    assert!(rows.iter().any(|u| u.user_id == second));
}

#[test]
fn delete_with_unknown_valid_id_still_succeeds() {
    let mut store = UserStore::new();
    let id = created_id(&mut store, &ada());
    let absent = uuid::Uuid::new_v4().as_u128();
    assert_ne!(absent, id);
    let resp = delete_user(&mut store, &id_text(absent))
        .expect("deleting an unknown identifier is not an error");
    let rows = resp.data.unwrap();
    assert_eq!(rows.len(), 1, "the re-read returns whatever row is most recent");
    assert_eq!(rows[0].user_id, id, "no row was deleted");
}

#[test]
fn delete_with_malformed_id_is_a_client_error() {
    let mut store = UserStore::new();
    let err = delete_user(&mut store, "{broken}")
        .expect_err("a malformed identifier must be rejected");
    assert!(matches!(err, UserError::InvalidUserId));
    assert_eq!(err.status_code(), 400);
}

#[test]
fn delete_reread_tolerates_an_empty_table() {
    let mut store = UserStore::new();
    let id = created_id(&mut store, &ada());
    let resp = delete_user(&mut store, &id_text(id)).expect("delete must succeed");
    let rows = resp.data.unwrap();
    assert!(rows.is_empty(), "an emptied table yields an empty sequence, not an error");
}

#[test]
fn inserting_a_taken_public_id_is_a_storage_failure() {
    let mut store = UserStore::new();
    let row = Users {
        id: None,
        user_id: 7,
        first_name: "Ada".to_string(),
        last_name: "Lovelace".to_string(),
        email: "ada@example.com".to_string(),
        created_at: 0,
    };
    store.insert(row).expect("a fresh public identifier must insert");
    let twin = Users {
        id: None,
        user_id: 7,
        first_name: "Grace".to_string(),
        last_name: "Hopper".to_string(),
        email: "grace@example.com".to_string(),
        created_at: 1,
    };
    let err = store.insert(twin).expect_err("a taken public identifier must be refused");
    assert!(matches!(err, UserError::StorageError(_)));
    assert_eq!(err.status_code(), 500);
    assert_eq!(store.len(), 1);
}

#[test]
fn error_translator_maps_every_failure() {
    assert_eq!(UserError::NotFound.status_code(), 404);
    assert_eq!(UserError::NotFound.message(), "User not found");
    assert_eq!(UserError::AddingUser.status_code(), 500);
    assert_eq!(UserError::AddingUser.message(), "Error adding user");
    assert_eq!(UserError::UpdatingUser.status_code(), 500);
    assert_eq!(UserError::UpdatingUser.message(), "Error updating user");
    assert_eq!(UserError::DeletingUser.status_code(), 500);
    assert_eq!(UserError::DeletingUser.message(), "Error deleting user");
    assert_eq!(UserError::InvalidUserId.status_code(), 400);
    assert_eq!(UserError::InvalidUserId.message(), "Invalid user id");
    let storage = UserError::StorageError("relation users does not exist".to_string());
    assert_eq!(storage.status_code(), 500);
    assert_eq!(storage.message(), "relation users does not exist");
}

#[test]
fn parse_accepts_exactly_what_uuid_accepts() {
    let mut store = UserStore::new();
    created_id(&mut store, &ada());
    // A canonical hyphenated identifier parses even when no row carries it.
    let ok = update_user(
        &mut store,
        "67e55044-10b1-426f-9247-bb680e5fe0c8",
        &no_changes(),
    );
    assert!(ok.is_ok());
    // The same text with a digit dropped does not.
    let bad = update_user(
        &mut store,
        "67e55044-10b1-426f-9247-bb680e5fe0c",
        &no_changes(),
    );
    assert!(matches!(bad, Err(UserError::InvalidUserId)));
}

#[test]
fn most_recent_follows_the_latest_insert() {
    let mut store = UserStore::new();
    created_id(&mut store, &ada());
    let second = created_id(&mut store, &grace());
    let recent = store.most_recent();
    assert_eq!(recent.len(), 1);
    assert_eq!(recent[0].user_id, second);
    assert_eq!(recent[0].first_name, "Grace");
}
