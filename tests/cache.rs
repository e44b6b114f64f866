use std::collections::HashMap;

use dbrunner::cache::{
    cache_key, compare_output_uids, lookup_outcome, output_key_for, set_records, CacheState,
    Error, Kind,
};
use dbrunner::sql::{Query, QueryResponse, UidGetter};

/// A store that keeps records in memory, read and written the way the
/// service reads and writes the remote one.
struct MemoryStore {
    values: HashMap<String, String>,
}

impl MemoryStore {
    fn new() -> Self {
        MemoryStore { values: HashMap::new() }
    }

    fn set(&mut self, query_uid: &str, output: QueryResponse) {
        let payload = serde_json::to_string(&(&output.header, &output.rows)).unwrap();
        for record in set_records(query_uid, &output, payload) {
            self.values.insert(record.key, record.value);
        }
    }

    fn get(&self, query_uid: &str) -> CacheState<QueryResponse> {
        let input_record = self.values.get(&cache_key(Kind::Input, query_uid)).cloned();
        let Some(output_key) = output_key_for(input_record) else {
            return CacheState::Miss;
        };
        match lookup_outcome(self.values.get(&output_key).cloned()) {
            CacheState::Hit(payload) => {
                let (header, rows): (Vec<String>, Vec<Vec<Option<String>>>) =
                    serde_json::from_str(&payload).unwrap();
                CacheState::Hit(QueryResponse { header, rows })
            }
            CacheState::Miss => CacheState::Miss,
        }
    }

    fn same_output_uid(&self, left: &str, right: &str) -> Result<bool, Error> {
        let left = self.values.get(&cache_key(Kind::Input, left)).cloned();
        let right = self.values.get(&cache_key(Kind::Input, right)).cloned();
        compare_output_uids(left, right)
    }
}

#[test]
fn test_cache() {
    let mut cacher = MemoryStore::new();

    let input = Query {
        initial_sql: "CREATE TABLE test (id INT); INSERT INTO test VALUES (1);".to_string(),
        query: "SELECT * FROM test".to_string(),
    }
    .format()
    .expect("formatting query");
    let output = QueryResponse {
        header: vec![("id".to_string())],
        rows: vec![vec![Some("1".to_string())]],
    };
    let output_c = output.clone();
    let input_uid = input.get_uid();

    cacher.set(input_uid.to_hex().as_str(), output);

    let result = cacher.get(input_uid.to_hex().as_str());
    assert!(matches!(result, CacheState::Hit(v) if v == output_c));
}

#[test]
fn test_cache_not_hit() {
    let cacher = MemoryStore::new();

    let input = Query {
        initial_sql: "CREATE TABLE test (id INT); INSERT INTO test VALUES (1);".to_string(),
        query: "SELECT * FROM test".to_string(),
    }
    .format()
    .expect("formatting query");

    let result = cacher.get(input.get_uid().to_hex().as_str());
    assert!(matches!(result, CacheState::Miss));
}

#[test]
fn test_two_uid_same() {
    let mut cacher = MemoryStore::new();

    let input_a1 = Query {
        initial_sql: "CREATE TABLE test (id INT); INSERT INTO test VALUES (1);".to_string(),
        query: "SELECT * FROM test".to_string(),
    };
    let input_a2 = Query {
        initial_sql: "CREATE TABLE test (id INT); INSERT INTO test VALUES (1);".to_string(),
        query: "select * from test".to_string(),
    };
    let input_b = Query {
        initial_sql: "CREATE TABLE test (id INT); INSERT INTO test VALUES (1);".to_string(),
        query: "SELECT * FROM test WHERE id = 114514".to_string(),
    };
    let output_a = QueryResponse {
        header: vec![("id".to_string())],
        rows: vec![vec![Some("1".to_string())]],
    };
    let output_b = QueryResponse { header: Default::default(), rows: Default::default() };

    cacher.set(input_a1.get_uid().to_hex().as_str(), output_a.clone());
    cacher.set(input_a2.get_uid().to_hex().as_str(), output_a);
    cacher.set(input_b.get_uid().to_hex().as_str(), output_b);

    let result = cacher
        .same_output_uid(
            input_a1.get_uid().to_hex().as_str(),
            input_a2.get_uid().to_hex().as_str(),
        )
        .ok()
        .expect("checking same output UID");
    assert!(result, "input_a1->output_uid != input_a2->output_uid, expected ==");

    let result = cacher
        .same_output_uid(
            input_a1.get_uid().to_hex().as_str(),
            input_b.get_uid().to_hex().as_str(),
        )
        .ok()
        .expect("checking same output UID");
    assert!(!result, "input_a1->output_uid == input_b->output_uid, expected !=");

    let result = cacher
        .same_output_uid(
            input_a2.get_uid().to_hex().as_str(),
            input_b.get_uid().to_hex().as_str(),
        )
        .ok()
        .expect("checking same output UID");
    assert!(!result, "input_a2->output_uid == input_b->output_uid, expected !=");
}

#[test]
fn unknown_operand_is_an_error_not_false() {
    let mut cacher = MemoryStore::new();
    let output = QueryResponse { header: vec!["x".to_string()], rows: vec![] };
    cacher.set("known", output);
    assert!(matches!(cacher.same_output_uid("known", "unknown"), Err(Error::UnknownQuery)));
    assert!(matches!(cacher.same_output_uid("unknown", "known"), Err(Error::UnknownQuery)));
}

#[test]
fn dangling_input_record_is_a_miss() {
    let mut cacher = MemoryStore::new();
    let output = QueryResponse { header: vec!["x".to_string()], rows: vec![] };
    cacher.set("q", output.clone());
    let output_key = cache_key(Kind::Output, output.get_uid().to_hex().as_str());
    cacher.values.remove(&output_key);
    assert!(matches!(cacher.get("q"), CacheState::Miss));
}

#[test]
fn keys_carry_namespace_and_kind() {
    assert_eq!(cache_key(Kind::Input, "abc"), "dbrunner:cacher:input:abc");
    assert_eq!(cache_key(Kind::Output, "abc"), "dbrunner:cacher:output:abc");
    assert_eq!(Kind::Input.as_str(), "input");
}

#[test]
fn set_writes_output_then_input_record() {
    let output = QueryResponse { header: vec!["id".to_string()], rows: vec![vec![None]] };
    let hex = output.get_uid().to_hex();
    let records = set_records("q1", &output, "payload".to_string());
    assert_eq!(records.len(), 2);
    assert_eq!(records[0].key, format!("dbrunner:cacher:output:{hex}"));
    assert_eq!(records[0].value, "payload");
    assert_eq!(records[1].key, "dbrunner:cacher:input:q1");
    assert_eq!(records[1].value, hex);
}

#[test]
fn set_is_idempotent() {
    let mut cacher = MemoryStore::new();
    let output = QueryResponse { header: vec!["id".to_string()], rows: vec![vec![None]] };
    cacher.set("q", output.clone());
    let before = cacher.values.clone();
    cacher.set("q", output);
    assert_eq!(before, cacher.values);
}
