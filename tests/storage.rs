use rusqlite::Connection;
use stylo::decoder::LogFields;
use stylo::error::LogError;
use stylo::service::{run_cleanup, run_oneshot};
use stylo::statement::RETENTION_HOURS;
use stylo::store::Store;

fn uri(name: &str) -> String {
    format!("file:{}?mode=memory&cache=shared", name)
}

fn count(path: &str) -> i64 {
    let c = Connection::open(path).unwrap();
    c.query_row("SELECT COUNT(*) FROM logs", [], |r| r.get::<_, i64>(0)).unwrap()
}

#[test]
fn insert_assigns_increasing_ids() {
    let path = uri("ids");
    let mut store = Store::open(&path).unwrap();
    let a = store.insert(&LogFields::new("a", "INFO", "one")).unwrap();
    let b = store.insert(&LogFields::new("b", "INFO", "two")).unwrap();
    let c = run_oneshot(&path, "c", "INFO", "three").0.unwrap();
    assert!(a < b && b < c);
    let check = Connection::open(&path).unwrap();
    let row: (String, String, String) = check
        .query_row("SELECT source, severity, message FROM logs WHERE id = ?1", [c], |r| {
            Ok((r.get(0)?, r.get(1)?, r.get(2)?))
        })
        .unwrap();
    assert_eq!(row, ("c".to_string(), "INFO".to_string(), "three".to_string()));
    let c2 = Connection::open(&path).unwrap();
    let (src, ts): (String, String) = c2
        .query_row("SELECT source, timestamp FROM logs WHERE id = ?1", [b], |r| Ok((r.get(0)?, r.get(1)?)))
        .unwrap();
    assert_eq!(src, "b");
    assert_eq!(ts.len(), 19);
}

#[test]
fn several_writers_each_add_one_row() {
    let path = uri("writers");
    let mut stores: Vec<Store> = (0..5).map(|_| Store::open(&path).unwrap()).collect();
    let mut ids = Vec::new();
    for (k, s) in stores.iter_mut().enumerate() {
        ids.push(s.insert(&LogFields::new("w", "INFO", &format!("m{}", k))).unwrap());
    }
    ids.sort();
    ids.dedup();
    assert_eq!(ids.len(), 5);
    assert_eq!(count(&path), 5);
}

#[test]
fn retention_removes_only_expired_rows() {
    let path = uri("retention");
    let mut store = Store::open(&path).unwrap();
    {
        let c = Connection::open(&path).unwrap();
        for age in ["-25 hours", "-23 hours", "-1 hours"] {
            c.execute(
                "INSERT INTO logs (timestamp, source, severity, message) VALUES (datetime('now', ?1), 's', 'INFO', ?1)",
                [age],
            )
            .unwrap();
        }
    }
    assert_eq!(store.delete_older_than(RETENTION_HOURS), Ok(1));
    let c = Connection::open(&path).unwrap();
    let mut st = c.prepare("SELECT message FROM logs ORDER BY id").unwrap();
    let left: Vec<String> = st.query_map([], |r| r.get(0)).unwrap().map(|x| x.unwrap()).collect();
    assert_eq!(left, vec!["-23 hours".to_string(), "-1 hours".to_string()]);
}

#[test]
fn cleanup_on_fresh_store_deletes_nothing() {
    let report = run_cleanup(&uri("fresh_cleanup")).0.unwrap();
    assert_eq!(report.deleted, 0);
    assert_eq!(report.compaction, Ok(()));
}

#[test]
fn reopening_keeps_rows() {
    let path = uri("reopen");
    let mut first = Store::open(&path).unwrap();
    first.insert(&LogFields::new("d", "INFO", "kept")).unwrap();
    let mut second = Store::open(&path).unwrap();
    assert_eq!(count(&path), 1);
    second.insert(&LogFields::new("o", "INFO", "added")).unwrap();
    assert_eq!(count(&path), 2);
}

#[test]
fn unopenable_store_is_unavailable() {
    assert_eq!(Store::open("/nonexistent-dir/sub/log.db").err(), Some(LogError::StorageUnavailable));
    assert_eq!(run_oneshot("/nonexistent-dir/sub/log.db", "a", "b", "c").0, Err(LogError::StorageUnavailable));
}
