use orbit::service::Reply;
use orbit::storage::{default_minio_settings, MinioSettings, SettingsError};
use orbit::upload::{form_field, upload_reply, FormField, UploadForm, UploadOutcome};

fn text(r: &Reply) -> (u16, String) {
    match r {
        Reply::Text { status, body } => (*status, body.clone()),
        _ => panic!("not a text reply"),
    }
}

#[test]
fn form_fields_by_name() {
    assert!(matches!(form_field("fn_name"), FormField::FunctionName));
    assert!(matches!(form_field("wasm_file"), FormField::WasmFile));
    assert!(matches!(form_field("other"), FormField::Other));
    assert!(matches!(form_field(""), FormField::Other));
}

#[test]
fn form_collects_name_and_module() {
    let mut form = UploadForm::new();
    form.accept(&FormField::FunctionName, b"first.wasm");
    form.end_field(&FormField::FunctionName);
    form.accept(&FormField::FunctionName, b"add.");
    form.accept(&FormField::FunctionName, b"wasm");
    assert_eq!(form.fn_name, "first.wasm");
    form.end_field(&FormField::FunctionName);
    assert_eq!(form.fn_name, "add.wasm");
    assert!(form.name_bytes.is_empty());
    form.accept(&FormField::FunctionName, &[0xff, 0xfe]);
    form.end_field(&FormField::FunctionName);
    form.accept(&FormField::WasmFile, &[0, 97, 115]);
    form.accept(&FormField::WasmFile, &[109]);
    form.end_field(&FormField::WasmFile);
    form.accept(&FormField::Other, &[1, 2, 3]);
    form.end_field(&FormField::Other);
    assert_eq!(form.fn_name, "add.wasm");
    assert_eq!(form.wasm_data, vec![0, 97, 115, 109]);
    let job = match form.finish() {
        Ok(job) => job,
        Err(_) => panic!("expected a job"),
    };
    assert_eq!(job.fn_name, "add.wasm");
    assert_eq!(job.path, "./src/cache/add.wasm");
    assert_eq!(job.bucket, "neelabucket");
    assert_eq!(job.wasm_data, vec![0, 97, 115, 109]);
}

#[test]
fn name_field_split_into_chunks_keeps_whole_text() {
    let mut form = UploadForm::new();
    form.accept(&FormField::FunctionName, b"a");
    form.accept(&FormField::FunctionName, b"b");
    form.end_field(&FormField::FunctionName);
    assert_eq!(form.fn_name, "ab");
}

#[test]
fn form_decodes_utf8_names() {
    let mut form = UploadForm::new();
    let bytes = "façade.wasm".as_bytes();
    form.accept(&FormField::FunctionName, &bytes[..3]);
    form.accept(&FormField::FunctionName, &bytes[3..]);
    form.end_field(&FormField::FunctionName);
    assert_eq!(form.fn_name, "façade.wasm");
    form.accept(&FormField::FunctionName, &[0xc3]);
    form.end_field(&FormField::FunctionName);
    assert_eq!(form.fn_name, "façade.wasm");
}

#[test]
fn incomplete_forms_are_refused() {
    let missing = (400, "Missing function name or empty WASM file".to_string());
    let form = UploadForm::new();
    assert_eq!(text(&form.finish().err().unwrap()), missing);
    let mut form = UploadForm::new();
    form.accept(&FormField::FunctionName, b"a.wasm");
    form.end_field(&FormField::FunctionName);
    assert_eq!(text(&form.finish().err().unwrap()), missing);
    let mut form = UploadForm::new();
    form.accept(&FormField::WasmFile, &[1]);
    assert_eq!(text(&form.finish().err().unwrap()), missing);
}

#[test]
fn upload_replies() {
    let name = "add.wasm".to_string();
    assert_eq!(
        text(&upload_reply(&name, UploadOutcome::Stored)),
        (200, "Function 'add.wasm' uploaded successfully".to_string())
    );
    assert_eq!(
        text(&upload_reply(&name, UploadOutcome::DirectoryFailed("denied".to_string()))),
        (500, "Failed to create directory: denied".to_string())
    );
    assert_eq!(
        text(&upload_reply(&name, UploadOutcome::WriteFailed("full".to_string()))),
        (500, "Failed to write file: full".to_string())
    );
    assert_eq!(
        text(&upload_reply(&name, UploadOutcome::StoreFailed("down".to_string()))),
        (500, "Failed to upload file to MinIO: down".to_string())
    );
}

#[test]
fn minio_settings() {
    let s = default_minio_settings().ok().unwrap();
    assert_eq!(s.endpoint, "http://localhost:9000");
    assert_eq!(s.access_key, "minioadmin");
    assert_eq!(s.secret_key, "minioadmin");
    assert_eq!(s.bucket, "wasm-functions");
    assert_eq!(s.region, "us-east-1");
    let s = MinioSettings::new("http://store:9000", "k", "s", "b", Some("eu-west-1")).ok().unwrap();
    assert_eq!(s.region, "eu-west-1");
}

#[test]
fn bad_endpoints_are_refused() {
    assert!(matches!(MinioSettings::new("", "k", "s", "b", None), Err(SettingsError::InvalidEndpoint(_))));
    assert!(MinioSettings::new("http://[::1", "k", "s", "b", None).is_err());
    assert!(MinioSettings::new("http://exa mple.com", "k", "s", "b", None).is_err());
}
