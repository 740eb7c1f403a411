use greetings::{
    hello_message, lookup_result, order_by_id, push_decimal, welcome_message, Greeting, Info,
    ServiceError, CREATE_TABLE, INSERT_GREETING, SELECT_ALL, SELECT_BY_ID,
};

fn alice() -> Greeting {
    Greeting::new(1, "Alice".to_string())
}

fn decimal_of(n: i64) -> String {
    let mut s = String::new();
    push_decimal(&mut s, n);
    s
}

#[test]
fn record_alice_says_hello() {
    let info = Info { name: "Alice".to_string() };
    assert_eq!(hello_message(&info).message, "Hello, Alice!");
}

#[test]
fn hello_keeps_empty_and_spaced_names() {
    let empty = Info { name: String::new() };
    assert_eq!(hello_message(&empty).message, "Hello, !");
    let spaced = Info { name: "  Bob ".to_string() };
    assert_eq!(hello_message(&spaced).message, "Hello,   Bob !");
}

#[test]
fn welcome_after_one_greeting() {
    assert_eq!(welcome_message(1).message, "Welcome! 1 names have been greeted.");
}

#[test]
fn welcome_on_empty_table() {
    assert_eq!(welcome_message(0).message, "Welcome! 0 names have been greeted.");
}

#[test]
fn welcome_counts_grow_by_one() {
    assert_eq!(welcome_message(9).message, "Welcome! 9 names have been greeted.");
    assert_eq!(welcome_message(10).message, "Welcome! 10 names have been greeted.");
    assert_eq!(welcome_message(1234567).message, "Welcome! 1234567 names have been greeted.");
}

#[test]
fn decimal_extremes() {
    assert_eq!(decimal_of(i64::MAX), "9223372036854775807");
    assert_eq!(decimal_of(i64::MIN), "-9223372036854775808");
    assert_eq!(decimal_of(-7), "-7");
    assert_eq!(decimal_of(100), "100");
}

#[test]
fn push_decimal_appends() {
    let mut s = "n=".to_string();
    push_decimal(&mut s, 42);
    assert_eq!(s, "n=42");
}

#[test]
fn list_after_alice() {
    assert_eq!(order_by_id(vec![alice()]), vec![alice()]);
}

#[test]
fn list_of_empty_table_is_empty() {
    assert!(order_by_id(Vec::new()).is_empty());
}

#[test]
fn list_is_ordered_by_id() {
    let rows = vec![
        Greeting::new(3, "Carol".to_string()),
        Greeting::new(1, "Alice".to_string()),
        Greeting::new(4, "Alice".to_string()),
        Greeting::new(2, "Bob".to_string()),
    ];
    let expected = vec![
        Greeting::new(1, "Alice".to_string()),
        Greeting::new(2, "Bob".to_string()),
        Greeting::new(3, "Carol".to_string()),
        Greeting::new(4, "Alice".to_string()),
    ];
    assert_eq!(order_by_id(rows), expected);
}

#[test]
fn list_orders_negative_and_extreme_ids() {
    let rows = vec![
        Greeting::new(i32::MAX, "z".to_string()),
        Greeting::new(0, "o".to_string()),
        Greeting::new(i32::MIN, "a".to_string()),
    ];
    let ids: Vec<i32> = order_by_id(rows).iter().map(|g| g.id).collect();
    assert_eq!(ids, vec![i32::MIN, 0, i32::MAX]);
}

#[test]
fn get_by_id_found_and_missing() {
    match lookup_result(1, Some(alice())) {
        Ok(g) => assert_eq!(g, alice()),
        Err(e) => panic!("unexpected error {:?}", e),
    }
    match lookup_result(99, None) {
        Err(ServiceError::NotFound { id }) => assert_eq!(id, 99),
        other => panic!("unexpected outcome {:?}", other),
    }
}

#[test]
fn missing_negative_id_is_not_found() {
    assert!(matches!(lookup_result(-5, None), Err(ServiceError::NotFound { id: -5 })));
}

#[test]
fn not_found_reply() {
    let e = ServiceError::NotFound { id: 99 };
    assert_eq!(e.status_code(), 404);
    assert_eq!(e.message(), "No greeting found with id 99");
}

#[test]
fn storage_error_reply() {
    let e = ServiceError::Storage { detail: "pool timed out".to_string() };
    assert_eq!(e.status_code(), 500);
    assert_eq!(e.message(), "Error: pool timed out");
}

#[test]
fn greeting_equality_looks_at_both_fields() {
    assert_ne!(alice(), Greeting::new(2, "Alice".to_string()));
    assert_ne!(alice(), Greeting::new(1, "Bob".to_string()));
}

#[test]
fn statements_name_the_table() {
    assert!(CREATE_TABLE.starts_with("CREATE TABLE IF NOT EXISTS greetings"));
    assert_eq!(INSERT_GREETING, "INSERT INTO greetings (name) VALUES (?)");
    assert_eq!(SELECT_ALL, "SELECT id, name FROM greetings");
    assert_eq!(SELECT_BY_ID, "SELECT id, name FROM greetings WHERE id = ?");
}
