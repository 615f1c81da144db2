use users_backend::handlers::{
    create_user, delete_user, health_checker, list_users, update_user, HandlerError,
};
use users_backend::store::Store;
use users_backend::user::{CreateUserSchema, User};

fn schema(login: &str) -> CreateUserSchema {
    CreateUserSchema { login: String::from(login) }
}

#[test]
fn health_is_always_the_fixed_payload() {
    let r = health_checker();
    assert_eq!(r.status, 200);
    assert_eq!(
        r.body,
        "{\"name\":\"Jill\",\"followee\":\"Jim\",\"msg\":\"Build Simple CRUD API with Rust, SQLX, Postgres,and Actix Web\"}"
    );
}

#[test]
fn listing_an_empty_table_is_an_empty_array() {
    let store = Store::new();
    let r = list_users(Ok(store.all()));
    assert_eq!(r.status, 200);
    assert_eq!(r.body, "[]");
}

#[test]
fn create_then_list_grows_by_one_and_contains_the_login() {
    let mut store = Store::new();
    let before = store.all().len();
    let count = store.create(schema("alice"));
    assert_eq!(count, 1);
    let rows = store.all();
    assert_eq!(rows.len(), before + 1);
    assert!(rows.iter().any(|u| u.login == "alice"));
    let r = list_users(Ok(rows));
    assert_eq!(r.status, 200);
    assert_eq!(r.body, "[{\"id\":1,\"login\":\"alice\"}]");
}

#[test]
fn listing_keeps_insertion_order() {
    let mut store = Store::new();
    store.create(schema("alice"));
    store.create(schema("bob"));
    let r = list_users(Ok(store.all()));
    assert_eq!(r.body, "[{\"id\":1,\"login\":\"alice\"},{\"id\":2,\"login\":\"bob\"}]");
}

#[test]
fn deleting_a_missing_id_is_not_an_error() {
    let mut store = Store::new();
    store.create(schema("alice"));
    let count = store.delete(42);
    assert_eq!(count, 0);
    let r = delete_user(Ok(count));
    assert_eq!(r.status, 204);
    assert_eq!(r.body, "0");
    assert_eq!(store.all().len(), 1);
}

#[test]
fn deleting_an_existing_id_affects_one_row() {
    let mut store = Store::new();
    store.create(schema("alice"));
    let count = store.delete(1);
    assert_eq!(count, 1);
    let r = delete_user(Ok(count));
    assert_eq!(r.status, 204);
    assert_eq!(r.body, "1");
    assert_eq!(list_users(Ok(store.all())).body, "[]");
}

#[test]
fn updating_a_missing_id_maps_to_a_store_error_500() {
    let mut store = Store::new();
    let outcome = store.update(User { id: 7, login: String::from("bob") });
    assert!(outcome.is_err());
    let r = match outcome {
        Ok(u) => update_user(Ok(u)),
        Err(_) => update_user(Err(HandlerError::StoreFailure)),
    };
    assert_eq!(r.status, 500);
    assert_eq!(r.body, "\"unable to update users\"");
}

#[test]
fn create_update_list_round_trip_keeps_the_id() {
    let mut store = Store::new();
    store.create(schema("alice"));
    let updated = store.update(User { id: 1, login: String::from("bob") }).unwrap();
    assert_eq!(updated.id, 1);
    assert_eq!(updated.login, "bob");
    let r = update_user(Ok(updated));
    assert_eq!(r.status, 200);
    assert_eq!(r.body, "{\"id\":1,\"login\":\"bob\"}");
    let listed = list_users(Ok(store.all()));
    assert_eq!(listed.body, "[{\"id\":1,\"login\":\"bob\"}]");
}

#[test]
fn update_touches_only_the_matching_row() {
    let mut store = Store::new();
    store.create(schema("alice"));
    store.create(schema("bob"));
    store.update(User { id: 2, login: String::from("carol") }).unwrap();
    let r = list_users(Ok(store.all()));
    assert_eq!(r.body, "[{\"id\":1,\"login\":\"alice\"},{\"id\":2,\"login\":\"carol\"}]");
}

#[test]
fn create_response_carries_the_count_not_the_record() {
    let r = create_user(Ok(1));
    assert_eq!(r.status, 201);
    assert_eq!(r.body, "1");
}

#[test]
fn pool_failures_answer_500_with_the_pool_message() {
    for r in [
        list_users(Err(HandlerError::PoolUnavailable)),
        create_user(Err(HandlerError::PoolUnavailable)),
        update_user(Err(HandlerError::PoolUnavailable)),
        delete_user(Err(HandlerError::PoolUnavailable)),
    ] {
        assert_eq!(r.status, 500);
        assert_eq!(r.body, "\"unable to get postgres client\"");
    }
}

#[test]
fn store_failures_answer_500_with_the_route_message() {
    let r = list_users(Err(HandlerError::StoreFailure));
    assert_eq!(r.status, 500);
    assert_eq!(r.body, "\"unable to fetch users\"");
    let r = create_user(Err(HandlerError::StoreFailure));
    assert_eq!(r.body, "\"unable to create users\"");
    let r = delete_user(Err(HandlerError::StoreFailure));
    assert_eq!(r.body, "\"unable to delete users\"");
}
