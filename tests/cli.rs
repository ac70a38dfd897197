use rcli::{
    check_dir, check_file, directory_listing, parse_duration, check_input_file, output_path, parse_b64format, parse_format,
    parse_jwt_alg, parse_output_format, verify_chacha_key, verify_file, verify_input_file,
    verify_path, B64Format, JwtAlg, JwtClaims, OutputFormat, TextSignFormat,
};

#[test]
fn test_verify_input_file() {
    assert_eq!(verify_file("-"), Ok("-".to_string()));
    assert_eq!(verify_file("tests/cli.rs"), Ok("tests/cli.rs".to_string()));
    assert_eq!(verify_file("nonexistent"), Err("file not found"));
}

#[test]
fn check_file_decides_on_existence() {
    assert_eq!(check_file("-", false), Ok("-".to_string()));
    assert_eq!(check_file("a.txt", true), Ok("a.txt".to_string()));
    assert_eq!(check_file("a.txt", false), Err("file not found"));
    assert_eq!(check_input_file("-", false), Err("file not found"));
    assert_eq!(check_input_file("b", true), Ok("b".to_string()));
    assert_eq!(verify_input_file("tests/cli.rs"), Ok("tests/cli.rs".to_string()));
    assert_eq!(verify_input_file("-"), Err("file not found"));
}

#[test]
fn check_dir_needs_an_existing_directory() {
    assert_eq!(check_dir("d", true, true), Ok("d".to_string()));
    assert_eq!(check_dir("d", true, false), Err("path not found or not a directory"));
    assert_eq!(check_dir("d", false, false), Err("path not found or not a directory"));
    assert_eq!(verify_path("."), Ok(".".to_string()));
    assert_eq!(verify_path("tests"), Ok("tests".to_string()));
    assert_eq!(verify_path("tests/cli.rs"), Err("path not found or not a directory"));
    assert_eq!(verify_path("no/such/dir"), Err("path not found or not a directory"));
}

#[test]
fn formats_parse_by_name() {
    assert_eq!(parse_b64format("std"), Ok(B64Format::Std));
    assert_eq!(parse_b64format("url"), Ok(B64Format::Url));
    assert_eq!(parse_b64format("hex"), Err("invalid base64 format"));
    assert_eq!(parse_format("blake3"), Ok(TextSignFormat::Blake3));
    assert_eq!(parse_format("ed25519"), Ok(TextSignFormat::Ed25519));
    assert_eq!(parse_format("Blake3"), Err("invalid format"));
    assert_eq!(parse_output_format("json"), Ok(OutputFormat::Json));
    assert_eq!(parse_output_format("yaml"), Ok(OutputFormat::Yaml));
    assert_eq!(parse_output_format("toml"), Err("invalid format"));
    assert_eq!(TextSignFormat::Blake3.as_str(), "blake3");
    assert_eq!(TextSignFormat::Ed25519.as_str(), "ed25519");
    assert_eq!(OutputFormat::Yaml.as_str(), "yaml");
}

#[test]
fn jwt_algorithms_parse_by_name() {
    assert_eq!(parse_jwt_alg("HS256"), Ok(JwtAlg::HS256));
    assert_eq!(parse_jwt_alg("RS384"), Ok(JwtAlg::RS384));
    assert_eq!(parse_jwt_alg("ES512"), Ok(JwtAlg::ES512));
    assert_eq!(parse_jwt_alg("hs256"), Err("invalid JWT algorithm"));
    assert_eq!(parse_jwt_alg(""), Err("invalid JWT algorithm"));
    let claims = JwtClaims::new("aud".to_string(), "sub".to_string(), 10000000000);
    assert_eq!(claims.aud, "aud");
    assert_eq!(claims.sub, "sub");
    assert_eq!(claims.exp, 10000000000);
}

#[test]
fn chacha_key_must_be_32_bytes() {
    let key = "0123456789abcdef0123456789abcdef";
    assert_eq!(verify_chacha_key(key), Ok(key.to_string()));
    assert_eq!(verify_chacha_key("short"), Err("key length must be 32 bytes"));
    assert_eq!(verify_chacha_key(""), Err("key length must be 32 bytes"));
}

#[test]
fn output_path_defaults_to_format_name() {
    assert_eq!(output_path(None, OutputFormat::Json), "output.json");
    assert_eq!(output_path(None, OutputFormat::Yaml), "output.yaml");
    assert_eq!(output_path(Some("x.out".to_string()), OutputFormat::Json), "x.out");
}

#[test]
fn durations_parse_into_seconds() {
    assert_eq!(parse_duration("15m"), Ok(900));
    assert_eq!(parse_duration("2h"), Ok(7200));
    assert_eq!(parse_duration("1d"), Ok(86400));
    assert_eq!(parse_duration("-1d"), Ok(-86400));
    assert_eq!(parse_duration("+3m"), Ok(180));
    assert_eq!(parse_duration("0h"), Ok(0));
}

#[test]
fn malformed_durations_are_refused() {
    assert_eq!(parse_duration(""), Err("invalid duration"));
    assert_eq!(parse_duration("m"), Err("invalid duration"));
    assert_eq!(parse_duration("-m"), Err("invalid duration"));
    assert_eq!(parse_duration("x5m"), Err("invalid duration"));
    assert_eq!(parse_duration("1.5h"), Err("invalid duration"));
    assert_eq!(parse_duration("5x"), Err("invalid duration unit"));
    assert_eq!(parse_duration("5"), Err("invalid duration"));
    assert_eq!(parse_duration("55"), Err("invalid duration unit"));
    assert_eq!(parse_duration("99999999999999999999m"), Err("invalid duration"));
    assert_eq!(parse_duration("9223372036854775807d"), Err("invalid duration"));
    assert_eq!(parse_duration("-9223372036854775808m"), Err("invalid duration"));
    assert_eq!(parse_duration("153722867280912931m"), Err("invalid duration"));
    assert_eq!(parse_duration("153722867280912930h"), Err("invalid duration"));
    assert_eq!(parse_duration("153722867280912930m"), Ok(9223372036854775800));
}

#[test]
fn directory_listing_links_each_entry() {
    assert_eq!(directory_listing(&vec![]), "<ul></ul>");
    let entries = vec![
        ("dir/a.txt".to_string(), "a.txt".to_string()),
        ("dir/sub".to_string(), "sub".to_string()),
    ];
    assert_eq!(
        directory_listing(&entries),
        "<ul><li><a href=\"/dir/a.txt\">a.txt</a></li><li><a href=\"/dir/sub\">sub</a></li></ul>"
    );
}
