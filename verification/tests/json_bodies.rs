use users_backend::json::{u64_to_json, user_to_json, users_to_json};
use users_backend::statements::{
    delete_statement, insert_statement, select_all_statement, update_statement,
};
use users_backend::user::User;

fn record(id: i32, login: &str) -> User {
    User { id, login: String::from(login) }
}

#[test]
fn counts_are_plain_decimal() {
    assert_eq!(u64_to_json(0), "0");
    assert_eq!(u64_to_json(7), "7");
    assert_eq!(u64_to_json(40), "40");
    assert_eq!(u64_to_json(18446744073709551615), "18446744073709551615");
}

#[test]
fn negative_ids_keep_their_sign() {
    assert_eq!(user_to_json(&record(-5, "x")), "{\"id\":-5,\"login\":\"x\"}");
    assert_eq!(
        user_to_json(&record(-2147483648, "x")),
        "{\"id\":-2147483648,\"login\":\"x\"}"
    );
    assert_eq!(
        user_to_json(&record(2147483647, "x")),
        "{\"id\":2147483647,\"login\":\"x\"}"
    );
}

#[test]
fn logins_are_escaped_as_json_strings() {
    assert_eq!(
        user_to_json(&record(1, "a\"b\\c")),
        "{\"id\":1,\"login\":\"a\\\"b\\\\c\"}"
    );
    assert_eq!(
        user_to_json(&record(1, "line\nfeed\ttab\rreturn")),
        "{\"id\":1,\"login\":\"line\\nfeed\\ttab\\rreturn\"}"
    );
    assert_eq!(
        user_to_json(&record(1, "\u{8}\u{c}\u{1}\u{1f}")),
        "{\"id\":1,\"login\":\"\\b\\f\\u0001\\u001f\"}"
    );
    assert_eq!(
        user_to_json(&record(1, "café ☕")),
        "{\"id\":1,\"login\":\"café ☕\"}"
    );
}

#[test]
fn listings_join_records_with_commas() {
    let rows: Vec<User> = Vec::new();
    assert_eq!(users_to_json(&rows), "[]");
    let rows = vec![record(1, "a")];
    assert_eq!(users_to_json(&rows), "[{\"id\":1,\"login\":\"a\"}]");
    let rows = vec![record(1, "a"), record(2, "b"), record(3, "c")];
    assert_eq!(
        users_to_json(&rows),
        "[{\"id\":1,\"login\":\"a\"},{\"id\":2,\"login\":\"b\"},{\"id\":3,\"login\":\"c\"}]"
    );
}

#[test]
fn statements_match_the_store_schema() {
    assert_eq!(select_all_statement(), "SELECT id, login FROM users");
    assert_eq!(insert_statement(), "INSERT INTO users (login) VALUES ($1) RETURNING *");
    assert_eq!(delete_statement(), "DELETE FROM users WHERE id = $1");
    assert_eq!(
        update_statement(),
        "UPDATE users SET login = $2 WHERE id = $1 RETURNING id, login "
    );
}
