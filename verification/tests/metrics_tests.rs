use orbit::metrics::FunctionMetrics;
use orbit::store::MetricsStore;

fn metrics(name: &str, memory: u64, total: u64, count: u64) -> FunctionMetrics {
    FunctionMetrics {
        name: name.to_string(),
        memory_used_bytes: memory,
        total_execution_time_ms: total,
        execution_count: count,
    }
}

#[test]
fn new_metrics_start_at_zero() {
    let m = FunctionMetrics::new("add.wasm".to_string());
    assert_eq!(m.name, "add.wasm");
    assert_eq!(m.memory_used_bytes, 0);
    assert_eq!(m.total_execution_time_ms, 0);
    assert_eq!(m.execution_count, 0);
}

#[test]
fn update_replaces_memory_and_accumulates() {
    let mut m = FunctionMetrics::new("add.wasm".to_string());
    m.update(1000, 40);
    m.update(700, 2);
    assert_eq!(m.memory_used_bytes, 700);
    assert_eq!(m.total_execution_time_ms, 42);
    assert_eq!(m.execution_count, 2);
    assert_eq!(m.name, "add.wasm");
}

#[test]
fn duplicate_keeps_every_field() {
    let m = metrics("x.wasm", 5, 6, 7);
    let d = m.duplicate();
    assert_eq!(d.name, "x.wasm");
    assert_eq!((d.memory_used_bytes, d.total_execution_time_ms, d.execution_count), (5, 6, 7));
}

#[test]
fn store_records_runs_per_function() {
    let mut store = MetricsStore::new();
    store.record_execution("a.wasm".to_string(), 100, 10);
    store.record_execution("b.wasm".to_string(), 200, 20);
    store.record_execution("a.wasm".to_string(), 300, 5);
    assert_eq!(store.len(), 2);
    let a = store.get(&"a.wasm".to_string()).unwrap();
    assert_eq!(a.name, "a.wasm");
    assert_eq!(a.memory_used_bytes, 300);
    assert_eq!(a.total_execution_time_ms, 15);
    assert_eq!(a.execution_count, 2);
    let b = store.get(&"b.wasm".to_string()).unwrap();
    assert_eq!((b.memory_used_bytes, b.total_execution_time_ms, b.execution_count), (200, 20, 1));
    assert!(store.get(&"c.wasm".to_string()).is_none());
}

#[test]
fn store_keeps_the_name_inside_loaded_metrics() {
    let store = MetricsStore::from_pairs(vec![("k.wasm".to_string(), metrics("other", 1, 2, 3))]);
    let mut store = store;
    store.record_execution("k.wasm".to_string(), 9, 1);
    let k = store.get(&"k.wasm".to_string()).unwrap();
    assert_eq!(k.name, "other");
    assert_eq!((k.memory_used_bytes, k.total_execution_time_ms, k.execution_count), (9, 3, 4));
}

#[test]
fn from_pairs_lets_later_pairs_win() {
    let store = MetricsStore::from_pairs(vec![
        ("a".to_string(), metrics("a", 1, 1, 1)),
        ("b".to_string(), metrics("b", 2, 2, 2)),
        ("a".to_string(), metrics("a", 3, 3, 3)),
    ]);
    assert_eq!(store.len(), 2);
    assert_eq!(store.get(&"a".to_string()).unwrap().execution_count, 3);
    assert_eq!(store.get(&"b".to_string()).unwrap().execution_count, 2);
    assert_eq!(store.pairs().len(), 2);
}

#[test]
fn insert_replaces_existing_metrics() {
    let mut store = MetricsStore::new();
    store.insert("a".to_string(), metrics("a", 1, 1, 1));
    store.insert("a".to_string(), metrics("a", 2, 2, 2));
    assert_eq!(store.len(), 1);
    assert_eq!(store.get(&"a".to_string()).unwrap().memory_used_bytes, 2);
}

#[test]
fn recording_checks_counter_room() {
    let store = MetricsStore::from_pairs(vec![
        ("full".to_string(), metrics("full", 0, u64::MAX - 5, 1)),
        ("many".to_string(), metrics("many", 0, 0, u64::MAX)),
    ]);
    assert!(store.can_record_execution(&"full".to_string(), 5));
    assert!(!store.can_record_execution(&"full".to_string(), 6));
    assert!(!store.can_record_execution(&"many".to_string(), 0));
    assert!(store.can_record_execution(&"fresh".to_string(), u64::MAX));
}

#[test]
fn recording_leaves_other_functions_alone() {
    let mut store = MetricsStore::from_pairs(vec![("b".to_string(), metrics("b", 7, 8, 9))]);
    store.record_execution("a".to_string(), 1, 1);
    let b = store.get(&"b".to_string()).unwrap();
    assert_eq!((b.memory_used_bytes, b.total_execution_time_ms, b.execution_count), (7, 8, 9));
}

#[test]
fn saved_pairs_read_back_unchanged() {
    let mut store = MetricsStore::new();
    store.record_execution("a".to_string(), 1, 2);
    store.record_execution("b".to_string(), 3, 4);
    store.record_execution("a".to_string(), 5, 6);
    let copy: Vec<(String, FunctionMetrics)> =
        store.pairs().iter().map(|(k, v)| (k.clone(), v.duplicate())).collect();
    let reloaded = MetricsStore::from_pairs(copy);
    assert_eq!(reloaded.len(), store.len());
    for (k, v) in store.pairs() {
        let w = reloaded.get(k).unwrap();
        assert_eq!(
            (&w.name, w.memory_used_bytes, w.total_execution_time_ms, w.execution_count),
            (&v.name, v.memory_used_bytes, v.total_execution_time_ms, v.execution_count)
        );
    }
}
