use user_service::banner;
use user_service::models::UserJson;
use user_service::store::{plan_create, CreatePlan, UserTable};

fn json(name: &str, address: &str) -> UserJson {
    UserJson { name: name.to_string(), address: address.to_string() }
}

#[test]
fn banner_is_served() {
    assert_eq!(banner(), "REST API in Rust!");
}

#[test]
fn create_unseen_name_then_listed() {
    let mut t = UserTable::new();
    let u = t.find_or_create_at(&json("Alice", "1 Main St"), "2024-01-01 09:00:00".to_string());
    let rows = t.list_users();
    assert_eq!(rows.len(), 1);
    assert_eq!(rows[0].name, "Alice");
    assert_eq!(rows[0].address, "1 Main St");
    assert!(rows[0].id >= 1);
    assert!(!rows[0].date_created.is_empty());
    assert_eq!(u.id, rows[0].id);
}

#[test]
fn repeat_name_keeps_first_id() {
    let mut t = UserTable::new();
    let first = t.find_or_create_at(&json("Bob", "5 North Rd"), "2024-02-01 08:00:00".to_string());
    let again = t.find_or_create_at(&json("Bob", "7 South Rd"), "2024-02-02 08:00:00".to_string());
    assert_eq!(again.id, first.id);
    assert_eq!(again.address, "5 North Rd");
    assert_eq!(again.date_created, "2024-02-01 08:00:00");
    assert_eq!(t.list_users().len(), 1);
}

#[test]
fn dates_follow_insertion_order() {
    let mut t = UserTable::new();
    t.find_or_create_at(&json("Alice", "1 Main St"), "2024-01-01 00:00:00".to_string());
    t.find_or_create_at(&json("Bob", "2 Main St"), "2024-01-02 00:00:00".to_string());
    t.find_or_create_at(&json("Carol", "3 Main St"), "2024-01-02 00:00:00".to_string());
    let rows = t.list_users();
    assert_eq!(rows.len(), 3);
    for w in rows.windows(2) {
        assert!(w[0].date_created <= w[1].date_created);
    }
}

#[test]
fn listing_is_stable() {
    let mut t = UserTable::new();
    t.find_or_create_at(&json("Alice", "1 Main St"), "2024-01-01 00:00:00".to_string());
    t.find_or_create_at(&json("Bob", "2 Main St"), "2024-01-02 00:00:00".to_string());
    let first = t.list_users();
    let second = t.list_users();
    assert_eq!(first, second);
}

#[test]
fn scenario_create_repeat_list() {
    let mut t = UserTable::new();
    let u = t.find_or_create_at(&json("Alice", "1 Main St"), "2024-03-01 12:00:00".to_string());
    assert_eq!(u.id, 1);
    assert_eq!(u.name, "Alice");
    assert_eq!(u.address, "1 Main St");
    assert_eq!(u.date_created, "2024-03-01 12:00:00");

    let again = t.find_or_create_at(&json("Alice", "2 Other St"), "2024-03-01 12:05:00".to_string());
    assert_eq!(again.id, 1);
    assert_eq!(again.address, "1 Main St");

    let rows = t.list_users();
    assert_eq!(rows.len(), 1);
    assert_eq!(rows[0].id, 1);
    assert_eq!(rows[0].name, "Alice");
}

#[test]
fn empty_table_lists_nothing() {
    let t = UserTable::new();
    assert!(t.list_users().is_empty());
}

#[test]
fn clock_create_assigns_timestamp() {
    let mut t = UserTable::new();
    let u = t.find_or_create(&json("Dora", "9 East Ave"));
    assert_eq!(u.id, 1);
    assert!(!u.date_created.is_empty());
    let again = t.find_or_create(&json("Dora", "11 West Ave"));
    assert_eq!(again.id, 1);
    assert_eq!(again.date_created, u.date_created);
    assert_eq!(t.list_users().len(), 1);
}

#[test]
fn plan_uses_found_row() {
    let mut t = UserTable::new();
    let u = t.find_or_create_at(&json("Eve", "4 Oak St"), "2024-04-01 00:00:00".to_string());
    let repeat = json("Eve", "8 Elm St");
    let plan = plan_create(Some(u), &repeat, "2024-04-02 00:00:00");
    match plan {
        CreatePlan::Use(found) => {
            assert_eq!(found.id, 1);
            assert_eq!(found.address, "4 Oak St");
        }
        CreatePlan::Insert(_) => panic!("lookup outcome was discarded"),
    }
}

#[test]
fn plan_inserts_fresh_row() {
    let item = json("Frank", "6 Pine St");
    let plan = plan_create(None, &item, "2024-05-01 00:00:00");
    match plan {
        CreatePlan::Use(_) => panic!("nothing was looked up"),
        CreatePlan::Insert(row) => {
            assert_eq!(row.name, "Frank");
            assert_eq!(row.address, "6 Pine St");
            assert_eq!(row.date_created, "2024-05-01 00:00:00");
        }
    }
}
