use invok::catalog::{Catalog, FunctionRecord};

const USER_A: &str = "123e4567-e89b-12d3-a456-426614174000";
const USER_B: &str = "00000000-0000-0000-0000-000000000000";

fn record(owner: &str, name: &str, uuid: &str) -> FunctionRecord {
    FunctionRecord {
        uuid: String::from(uuid),
        name: String::from(name),
        runtime: String::from("go"),
        owner_uuid: String::from(owner),
    }
}

#[test]
fn register_twice_leaves_one_row() {
    let mut catalog = Catalog::new();
    assert!(catalog.register(record(USER_A, "hello", "f-1")));
    // the redeploy succeeds and changes nothing
    assert!(!catalog.register(record(USER_A, "hello", "f-2")));
    let rows = catalog.find_by_user(USER_A);
    assert_eq!(rows.len(), 1);
    assert_eq!(rows[0].uuid, "f-1");
}

#[test]
fn two_users_same_name_two_rows() {
    let mut catalog = Catalog::new();
    assert!(catalog.register(record(USER_A, "hello", "f-1")));
    assert!(catalog.register(record(USER_B, "hello", "f-2")));
    assert_eq!(catalog.find_by_user(USER_A).len(), 1);
    assert_eq!(catalog.find_by_user(USER_B).len(), 1);
    assert_eq!(catalog.find_by_name(USER_A, "hello").unwrap().uuid, "f-1");
    assert_eq!(catalog.find_by_name(USER_B, "hello").unwrap().uuid, "f-2");
}

#[test]
fn lookup_misses() {
    let mut catalog = Catalog::new();
    assert!(catalog.register(record(USER_A, "hello", "f-1")));
    assert!(catalog.find_by_name(USER_B, "hello").is_none());
    assert!(catalog.find_by_name(USER_A, "other").is_none());
    assert!(catalog.find_by_user(USER_B).is_empty());
}
