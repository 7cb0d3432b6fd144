use orbit::flow::{ExecuteAction, ExecuteEvent, ExecuteFlow, ExecuteStage, UploadAction, UploadFlow, UploadStage};
use orbit::service::Reply;
use orbit::upload::{FormField, UploadForm};

fn text(r: &Reply) -> (u16, String) {
    match r {
        Reply::Text { status, body } => (*status, body.clone()),
        _ => panic!("not a text reply"),
    }
}

fn answer(a: ExecuteAction) -> (u16, String) {
    match a {
        ExecuteAction::Answer(r) => text(&r),
        _ => panic!("expected an answer"),
    }
}

#[test]
fn run_request_runs_removes_then_answers() {
    let (mut flow, action) = ExecuteFlow::begin("add.wasm".to_string(), vec!["5".to_string(), "7".to_string()]);
    match action {
        ExecuteAction::Download(d) => {
            assert_eq!((d.bucket.as_str(), d.object.as_str(), d.path.as_str()), ("neelabucket", "add.wasm", "./src/cache/add.wasm"));
        },
        _ => panic!("expected a download"),
    }
    match flow.advance(ExecuteEvent::Downloaded) {
        ExecuteAction::CheckFile { path } => assert_eq!(path, "./src/cache/add.wasm"),
        _ => panic!("expected a check"),
    }
    match flow.advance(ExecuteEvent::FileChecked(true)) {
        ExecuteAction::Run { name, params } => {
            assert_eq!(name, "add.wasm");
            assert_eq!(params, vec!["5".to_string(), "7".to_string()]);
        },
        _ => panic!("expected a run"),
    }
    match flow.advance(ExecuteEvent::Ran(Ok("12".to_string()))) {
        ExecuteAction::RemoveFile { path } => assert_eq!(path, "./src/cache/add.wasm"),
        _ => panic!("expected a removal"),
    }
    assert!(matches!(flow.stage, ExecuteStage::RemovingCopy(_)));
    assert_eq!(answer(flow.advance(ExecuteEvent::Removed)), (200, "12".to_string()));
    assert!(matches!(flow.stage, ExecuteStage::Answered));
}

#[test]
fn run_request_for_missing_module_is_not_found() {
    let (mut flow, _) = ExecuteFlow::begin("gone.wasm".to_string(), vec![]);
    flow.advance(ExecuteEvent::Downloaded);
    assert_eq!(answer(flow.advance(ExecuteEvent::FileChecked(false))), (404, "Function not found".to_string()));
}

#[test]
fn run_request_failure_is_a_server_error() {
    let (mut flow, _) = ExecuteFlow::begin("f.wasm".to_string(), vec![]);
    flow.advance(ExecuteEvent::Downloaded);
    flow.advance(ExecuteEvent::FileChecked(true));
    flow.advance(ExecuteEvent::Ran(Err("broken pipe".to_string())));
    assert_eq!(answer(flow.advance(ExecuteEvent::Removed)), (500, "broken pipe".to_string()));
}

fn job() -> UploadFlow {
    let mut form = UploadForm::new();
    form.accept(&FormField::FunctionName, b"add.wasm");
    form.end_field(&FormField::FunctionName);
    form.accept(&FormField::WasmFile, &[0, 97, 115, 109]);
    form.end_field(&FormField::WasmFile);
    let job = match form.finish() {
        Ok(job) => job,
        Err(_) => panic!("expected a job"),
    };
    let (flow, action) = UploadFlow::begin(job);
    match action {
        UploadAction::CreateDirectory { path } => assert_eq!(path, "./src/cache/add.wasm"),
        _ => panic!("expected a directory"),
    }
    flow
}

fn upload_answer(a: UploadAction) -> (u16, String) {
    match a {
        UploadAction::Answer(r) => text(&r),
        _ => panic!("expected an answer"),
    }
}

#[test]
fn upload_stores_removes_then_answers() {
    let mut flow = job();
    match flow.advance(Ok(())) {
        UploadAction::WriteFile { path } => assert_eq!(path, "./src/cache/add.wasm"),
        _ => panic!("expected a write"),
    }
    assert_eq!(flow.job.wasm_data, vec![0, 97, 115, 109]);
    match flow.advance(Ok(())) {
        UploadAction::StoreObject { bucket, object, path } => {
            assert_eq!((bucket.as_str(), object.as_str(), path.as_str()), ("neelabucket", "add.wasm", "./src/cache/add.wasm"));
        },
        _ => panic!("expected a store"),
    }
    match flow.advance(Ok(())) {
        UploadAction::RemoveFile { path } => assert_eq!(path, "./src/cache/add.wasm"),
        _ => panic!("expected a removal"),
    }
    assert_eq!(upload_answer(flow.advance(Ok(()))), (200, "Function 'add.wasm' uploaded successfully".to_string()));
    assert!(matches!(flow.stage, UploadStage::Answered));
}

#[test]
fn upload_failures_are_server_errors() {
    let mut flow = job();
    assert_eq!(
        upload_answer(flow.advance(Err("denied".to_string()))),
        (500, "Failed to create directory: denied".to_string())
    );
    let mut flow = job();
    flow.advance(Ok(()));
    assert_eq!(upload_answer(flow.advance(Err("full".to_string()))), (500, "Failed to write file: full".to_string()));
    let mut flow = job();
    flow.advance(Ok(()));
    flow.advance(Ok(()));
    assert_eq!(
        upload_answer(flow.advance(Err("down".to_string()))),
        (500, "Failed to upload file to MinIO: down".to_string())
    );
}
