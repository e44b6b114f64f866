use dbrunner::sql::{Query, QueryResponse, UidGetter};

#[test]
fn test_hash_query() {
    let query_a1 = Query {
        initial_sql: "CREATE TABLE test (id INTEGER PRIMARY KEY, name TEXT NOT NULL)".to_string(),
        query: "SELECT * FROM test".to_string(),
    };
    let query_a2 = Query {
        initial_sql: "CREATE TABLE test (id INTEGER PRIMARY KEY, name TEXT NOT NULL)".to_string(),
        query: "SELECT * FROM test".to_string(),
    };
    let query_b = Query {
        initial_sql: "CREATE TABLE test (id INTEGER PRIMARY KEY, name TEXT NOT NULL)".to_string(),
        query: "SELECT * FROM test WHERE id = 1".to_string(),
    };
    let query_b2 = Query {
        initial_sql: "CREATE TABLE test (id INTEGER PRIMARY KEY, name TEXT NOT NULL)".to_string(),
        query: "select * from test where id = 1".to_string(),
    }
    .format()
    .expect("should formattable");
    let query_c = Query {
        initial_sql: "CREATE TABLE test (id INTEGER PRIMARY KEY, name TEXT NOT NULL)".to_string(),
        query: "SELECT * FROM test WHERE id = 2".to_string(),
    };

    assert_eq!(query_a1.get_uid(), query_a2.get_uid());
    assert_ne!(query_a1.get_uid(), query_b.get_uid());
    assert_ne!(query_a1.get_uid(), query_c.get_uid());
    assert_ne!(query_b.get_uid(), query_c.get_uid());
    assert_eq!(query_b.get_uid(), query_b2.get_uid());
}

#[test]
fn test_hash_result() {
    let response_a1 = QueryResponse {
        header: vec!["id".to_string(), "name".to_string()],
        rows: vec![vec![Some("1".to_string()), Some("Alice".to_string())]],
    };
    let response_a2 = QueryResponse {
        header: vec!["id".to_string(), "name".to_string()],
        rows: vec![vec![Some("1".to_string()), Some("Alice".to_string())]],
    };
    let response_b = QueryResponse {
        header: vec!["id".to_string(), "name".to_string()],
        rows: vec![vec![Some("2".to_string()), Some("Bob".to_string())]],
    };

    assert_eq!(response_a1.get_uid(), response_a2.get_uid());
    assert_ne!(response_a1.get_uid(), response_b.get_uid());
    assert_ne!(response_a2.get_uid(), response_b.get_uid());
}

#[test]
fn query_uid_is_blake3_of_fields_with_zero_separator() {
    let query = Query { initial_sql: "ab".to_string(), query: "cd".to_string() };
    let expected = blake3::hash(b"ab\x00cd");
    assert_eq!(query.get_uid().bytes, *expected.as_bytes());
    assert_eq!(query.get_uid().to_hex(), expected.to_hex().to_string());
}

#[test]
fn response_uid_hashes_debug_text_of_fields() {
    let response = QueryResponse {
        header: vec!["id".to_string()],
        rows: vec![vec![Some("1".to_string()), None]],
    };
    let expected = blake3::hash(b"[\"id\"]\x00[[Some(\"1\"), None]]");
    assert_eq!(response.get_uid().bytes, *expected.as_bytes());
}

#[test]
fn separator_keeps_fields_apart() {
    let a = Query { initial_sql: "ab".to_string(), query: "c".to_string() };
    let b = Query { initial_sql: "a".to_string(), query: "bc".to_string() };
    assert_ne!(a.get_uid(), b.get_uid());
}

#[test]
fn hex_is_lowercase_two_digits_per_byte() {
    let mut bytes = [0u8; 32];
    bytes[0] = 0xab;
    bytes[1] = 0x05;
    bytes[31] = 0xff;
    let uid = dbrunner::sql::Uid { bytes };
    let hex = uid.to_hex();
    assert_eq!(hex.len(), 64);
    assert!(hex.starts_with("ab05"));
    assert!(hex.ends_with("ff"));
}
