use orbit::decimal::{format_decimal, format_option_code, format_signed, parse_u16};
use orbit::paths::{cache_path, function_name, saved_function_path, upload_path};
use orbit::template::add;
use orbit::text::text_equals;

#[test]
fn decimal_formatting() {
    assert_eq!(format_decimal(0), "0");
    assert_eq!(format_decimal(7), "7");
    assert_eq!(format_decimal(8080), "8080");
    assert_eq!(format_decimal(u64::MAX), u64::MAX.to_string());
    assert_eq!(format_signed(-42), "-42");
    assert_eq!(format_signed(i32::MIN), "-2147483648");
    assert_eq!(format_signed(13), "13");
}

#[test]
fn option_code_formatting_matches_debug() {
    for code in [Some(1), Some(-1), Some(0), Some(i32::MAX), Some(i32::MIN), None] {
        assert_eq!(format_option_code(code), format!("{:?}", code));
    }
}

#[test]
fn port_parsing_follows_from_str() {
    let cases = ["8080", "+80", "", "+", "-1", "65535", "65536", "12a", "007", "99999999999", "٣"];
    for case in cases {
        assert_eq!(parse_u16(case), case.parse::<u16>().ok(), "case {:?}", case);
    }
}

#[test]
fn port_roundtrip() {
    for port in [0u16, 1, 80, 8080, 65535] {
        assert_eq!(parse_u16(&format_decimal(port as u64)), Some(port));
    }
}

#[test]
fn function_name_is_last_segment() {
    assert_eq!(function_name("add.wasm"), "add.wasm");
    assert_eq!(function_name("dir/sub/add.wasm"), "add.wasm");
    assert_eq!(function_name("dir/"), "");
    assert_eq!(function_name(""), "");
    assert_eq!(function_name("/abs/x"), "x");
    assert_eq!(function_name(&function_name("a/b")), "b");
}

#[test]
fn module_paths() {
    assert_eq!(cache_path("add.wasm"), "./src/cache/add.wasm");
    assert_eq!(saved_function_path("add.wasm"), "./src/savedWasmFunctions/add.wasm");
    assert_eq!(upload_path("add.wasm"), "./src/cache/add.wasm");
    assert_eq!(upload_path("/tmp/x.wasm"), "/tmp/x.wasm");
    assert_eq!(upload_path("d/x.wasm"), "./src/cache/d/x.wasm");
}

#[test]
fn upload_path_agrees_with_path_join() {
    for name in ["a.wasm", "/x/y", "sub/dir/f.wasm"] {
        let joined = std::path::Path::new("./src/cache").join(name);
        assert_eq!(upload_path(name), joined.to_str().unwrap());
    }
}

#[test]
fn texts_compare_by_characters() {
    assert!(text_equals("fn_name", "fn_name"));
    assert!(!text_equals("fn_name", "fn_nam"));
    assert!(!text_equals("a", "b"));
    assert!(text_equals("", ""));
}

#[test]
fn template_adds() {
    assert_eq!(add(2, 3), 5);
    assert_eq!(add(-7, 7), 0);
}
