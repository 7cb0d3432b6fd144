use orbit::metrics::FunctionMetrics;
use orbit::runner::{cached_run_result, complete_run, run_output, saved_run_result, wasmtime_arguments, RunOutcome};
use orbit::service::{
    download_request, execute_reply, function_bucket, function_metrics_reply, health_reply, load_metrics,
    metrics_reply, server_port, MetricsFile, Reply,
};
use orbit::store::MetricsStore;

fn exited(success: bool, stdout: &str, stderr: &str, code: Option<i32>) -> RunOutcome {
    RunOutcome::Exited { success, stdout: stdout.to_string(), stderr: stderr.to_string(), code }
}

fn text(r: &Reply) -> (u16, String) {
    match r {
        Reply::Text { status, body } => (*status, body.clone()),
        _ => panic!("not a text reply"),
    }
}

#[test]
fn run_results_of_fetched_modules() {
    assert_eq!(cached_run_result("add.wasm", Some(exited(true, "12", "", Some(0)))), Ok("12".to_string()));
    assert_eq!(
        cached_run_result("add.wasm", None),
        Err("WASM file not found at path: ./src/cache/add.wasm".to_string())
    );
    assert_eq!(
        cached_run_result("add.wasm", Some(RunOutcome::Failed("No such file or directory (os error 2)".to_string()))),
        Err("No such file or directory (os error 2)".to_string())
    );
    assert_eq!(
        cached_run_result("add.wasm", Some(exited(false, "x", "trap", Some(1)))),
        Err("WASM execution error for 'add.wasm': trap".to_string())
    );
    assert_eq!(
        cached_run_result("add.wasm", Some(exited(false, "", "", Some(3)))),
        Err("WASM execution 'add.wasm' failed with code: Some(3)".to_string())
    );
    assert_eq!(
        cached_run_result("add.wasm", Some(exited(false, "", "", None))),
        Err("WASM execution 'add.wasm' failed with code: None".to_string())
    );
}

#[test]
fn run_results_of_saved_modules() {
    assert_eq!(saved_run_result(exited(true, "hi", "", Some(0))), Ok("hi".to_string()));
    assert_eq!(saved_run_result(exited(false, "", "boom", Some(2))), Err("boom".to_string()));
    assert_eq!(
        saved_run_result(exited(false, "", "", Some(-9))),
        Err("WASM execution failed with code: Some(-9)".to_string())
    );
    assert_eq!(saved_run_result(RunOutcome::Failed("gone".to_string())), Err("gone".to_string()));
}

#[test]
fn run_output_prefixes_errors() {
    assert_eq!(run_output(Ok("5".to_string())), "5");
    assert_eq!(run_output(Err("bad".to_string())), "Error running WASM function: bad");
}

#[test]
fn wasmtime_gets_path_then_parameters() {
    let args = wasmtime_arguments("./src/cache/add.wasm".to_string(), &vec!["5".to_string(), "7".to_string()]);
    assert_eq!(args, vec!["./src/cache/add.wasm".to_string(), "5".to_string(), "7".to_string()]);
    assert_eq!(wasmtime_arguments("p".to_string(), &vec![]), vec!["p".to_string()]);
}

#[test]
fn complete_run_answers_and_records() {
    let mut store = MetricsStore::new();
    let out = complete_run("dir/add.wasm", Some(exited(true, "12", "", Some(0))), 30, Some(4096), &mut store);
    assert_eq!(out, ("12".to_string(), true));
    let out = complete_run("dir/add.wasm", None, 2, None, &mut store);
    assert_eq!(
        out,
        ("Error running WASM function: WASM file not found at path: ./src/cache/dir/add.wasm".to_string(), false)
    );
    let m = store.get(&"add.wasm".to_string()).unwrap();
    assert_eq!(m.name, "add.wasm");
    assert_eq!((m.memory_used_bytes, m.total_execution_time_ms, m.execution_count), (0, 32, 2));
    assert_eq!(store.len(), 1);
}

#[test]
fn port_setting() {
    assert_eq!(server_port(None), Some(8080));
    assert_eq!(server_port(Some("3000".to_string())), Some(3000));
    assert_eq!(server_port(Some("port".to_string())), None);
}

#[test]
fn health_check_text() {
    let r = health_reply(8080);
    assert_eq!(r.status(), 200);
    assert_eq!(text(&r), (200, "The server is alive and running at port 8080!".to_string()));
}

#[test]
fn execute_replies() {
    assert_eq!(text(&execute_reply(None)), (404, "Function not found".to_string()));
    assert_eq!(text(&execute_reply(Some(Ok("12".to_string())))), (200, "12".to_string()));
    assert_eq!(text(&execute_reply(Some(Err("io".to_string())))), (500, "io".to_string()));
}

#[test]
fn downloads_go_to_the_cache() {
    let d = download_request(&"add.wasm".to_string());
    assert_eq!(d.bucket, "neelabucket");
    assert_eq!(d.object, "add.wasm");
    assert_eq!(d.path, "./src/cache/add.wasm");
    assert_eq!(function_bucket(), "neelabucket");
}

fn stored() -> MetricsStore {
    let mut s = MetricsStore::new();
    s.record_execution("add.wasm".to_string(), 10, 3);
    s
}

#[test]
fn metrics_listing_falls_back_to_empty() {
    assert_eq!(load_metrics(MetricsFile::Unreadable).len(), 0);
    assert_eq!(load_metrics(MetricsFile::Unparsable).len(), 0);
    assert_eq!(load_metrics(MetricsFile::Parsed(stored())).len(), 1);
    match metrics_reply(MetricsFile::Parsed(stored())) {
        Reply::AllMetrics(s) => assert_eq!(s.len(), 1),
        _ => panic!("expected all metrics"),
    }
    let r = metrics_reply(MetricsFile::Unreadable);
    assert_eq!(r.status(), 200);
}

#[test]
fn metrics_of_one_function() {
    assert_eq!(
        text(&function_metrics_reply(MetricsFile::Unreadable, "add.wasm".to_string())),
        (404, "Metrics data not found".to_string())
    );
    assert_eq!(
        text(&function_metrics_reply(MetricsFile::Unparsable, "add.wasm".to_string())),
        (404, "No metrics found for function: add.wasm".to_string())
    );
    assert_eq!(
        text(&function_metrics_reply(MetricsFile::Parsed(stored()), "sub.wasm".to_string())),
        (404, "No metrics found for function: sub.wasm".to_string())
    );
    match function_metrics_reply(MetricsFile::Parsed(stored()), "add.wasm".to_string()) {
        Reply::Metrics(FunctionMetrics { name, memory_used_bytes, total_execution_time_ms, execution_count }) => {
            assert_eq!(name, "add.wasm");
            assert_eq!((memory_used_bytes, total_execution_time_ms, execution_count), (10, 3, 1));
        },
        _ => panic!("expected metrics"),
    }
}
