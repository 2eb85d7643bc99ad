use mdx::update::{
    decimal_string, detect_target, extract_json_string, release_url, strip_v, temp_dir_name,
};

#[test]
fn extract_tag_name() {
    let body = r#"{"url":"x","tag_name":"v1.4.0","name":"Release 1.4.0"}"#;
    assert_eq!(extract_json_string(body, "tag_name").as_deref(), Some("v1.4.0"));
}

#[test]
fn extract_with_whitespace() {
    let body = "{\n  \"tag_name\" :\t \"v2.0.1\",\n  \"draft\": false\n}";
    assert_eq!(extract_json_string(body, "tag_name").as_deref(), Some("v2.0.1"));
}

#[test]
fn extract_missing_key() {
    assert_eq!(extract_json_string(r#"{"name":"v1"}"#, "tag_name"), None);
}

#[test]
fn extract_non_string_value() {
    assert_eq!(extract_json_string(r#"{"tag_name": 12}"#, "tag_name"), None);
}

#[test]
fn extract_without_colon() {
    assert_eq!(extract_json_string(r#"["tag_name", "v1"]"#, "tag_name"), None);
}

#[test]
fn extract_unterminated_value() {
    assert_eq!(extract_json_string(r#"{"tag_name": "v1"#, "tag_name"), None);
}

#[test]
fn extract_uses_first_occurrence() {
    let body = r#"{"tag_name": "v1", "tag_name": "v2"}"#;
    assert_eq!(extract_json_string(body, "tag_name").as_deref(), Some("v1"));
}

#[test]
fn extract_non_ascii() {
    let body = "{\"名前\": \"ü-é\"}";
    assert_eq!(extract_json_string(body, "名前").as_deref(), Some("ü-é"));
}

#[test]
fn strip_leading_v() {
    assert_eq!(strip_v("v1.2.3"), "1.2.3");
    assert_eq!(strip_v("1.2.3"), "1.2.3");
    assert_eq!(strip_v("vv1"), "v1");
    assert_eq!(strip_v(""), "");
}

#[test]
fn targets_of_supported_platforms() {
    assert_eq!(detect_target("macos", "aarch64", false), Ok("aarch64-apple-darwin"));
    assert_eq!(detect_target("macos", "x86_64", false), Ok("x86_64-apple-darwin"));
    assert_eq!(detect_target("linux", "aarch64", false), Ok("aarch64-unknown-linux-gnu"));
    assert_eq!(detect_target("linux", "aarch64", true), Ok("aarch64-unknown-linux-musl"));
    assert_eq!(detect_target("linux", "x86_64", false), Ok("x86_64-unknown-linux-gnu"));
    assert_eq!(detect_target("linux", "x86_64", true), Ok("x86_64-unknown-linux-musl"));
    assert_eq!(detect_target("linux", "arm", false), Ok("armv7-unknown-linux-gnueabihf"));
    assert_eq!(detect_target("windows", "x86_64", false), Ok("x86_64-pc-windows-msvc"));
    assert_eq!(detect_target("windows", "aarch64", false), Ok("aarch64-pc-windows-msvc"));
}

#[test]
fn unsupported_platform() {
    assert_eq!(
        detect_target("freebsd", "x86_64", false),
        Err("Unsupported platform: freebsd/x86_64. Pre-built binaries available for: linux (x86_64, aarch64, armv7), macOS (x86_64, aarch64), Windows (x86_64, aarch64)".to_string())
    );
}

#[test]
fn download_address() {
    assert_eq!(
        release_url("v1.4.0", "x86_64-unknown-linux-gnu"),
        "https://github.com/Harsh-2002/MD/releases/download/v1.4.0/mdx-x86_64-unknown-linux-gnu.tar.gz"
    );
}

#[test]
fn decimal_notation() {
    assert_eq!(decimal_string(0), "0");
    assert_eq!(decimal_string(7), "7");
    assert_eq!(decimal_string(10), "10");
    assert_eq!(decimal_string(4294967295), "4294967295");
    assert_eq!(temp_dir_name(31337), "mdx-update-31337");
}
