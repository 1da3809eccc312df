use image_cli::parser::Command;
use image_cli::report::{failure_line, parse_error_line, success_line, usage_text};
use image_cli::text::{is_float_token, parse_i32, parse_u32, usize_to_string};

#[test]
fn u32_tokens_parse_to_their_value() {
    assert_eq!(parse_u32("0"), Some(0));
    assert_eq!(parse_u32("360"), Some(360));
    assert_eq!(parse_u32("+7"), Some(7));
    assert_eq!(parse_u32("4294967295"), Some(4294967295));
}

#[test]
fn u32_rejects_malformed_and_overflowing_tokens() {
    assert_eq!(parse_u32(""), None);
    assert_eq!(parse_u32("+"), None);
    assert_eq!(parse_u32("-1"), None);
    assert_eq!(parse_u32("12a"), None);
    assert_eq!(parse_u32(" 12"), None);
    assert_eq!(parse_u32("4294967296"), None);
    assert_eq!(parse_u32("99999999999999999999"), None);
}

#[test]
fn i32_tokens_parse_to_their_value() {
    assert_eq!(parse_i32("0"), Some(0));
    assert_eq!(parse_i32("-25"), Some(-25));
    assert_eq!(parse_i32("+5"), Some(5));
    assert_eq!(parse_i32("2147483647"), Some(2147483647));
    assert_eq!(parse_i32("-2147483648"), Some(-2147483648));
}

#[test]
fn i32_rejects_malformed_and_overflowing_tokens() {
    assert_eq!(parse_i32(""), None);
    assert_eq!(parse_i32("-"), None);
    assert_eq!(parse_i32("--5"), None);
    assert_eq!(parse_i32("2.5"), None);
    assert_eq!(parse_i32("2147483648"), None);
    assert_eq!(parse_i32("-2147483649"), None);
}

#[test]
fn float_tokens_cover_sign_point_and_exponent() {
    assert!(is_float_token("2.5"));
    assert!(is_float_token("2"));
    assert!(is_float_token(".5"));
    assert!(is_float_token("5."));
    assert!(is_float_token("-2.5"));
    assert!(is_float_token("+0.125"));
    assert!(is_float_token("1e5"));
    assert!(is_float_token("1.5e-3"));
    assert!(is_float_token("3.E2"));
}

#[test]
fn float_tokens_accepted_here_parse_as_rust_floats() {
    for t in ["2.5", "2", ".5", "5.", "-2.5", "+0.125", "1e5", "1.5e-3", "3.E2"] {
        assert!(is_float_token(t));
        assert!(t.parse::<f32>().is_ok());
    }
}

#[test]
fn float_tokens_reject_malformed_text() {
    assert!(!is_float_token(""));
    assert!(!is_float_token("."));
    assert!(!is_float_token("+."));
    assert!(!is_float_token("-"));
    assert!(!is_float_token("e5"));
    assert!(!is_float_token("1e"));
    assert!(!is_float_token("1e+"));
    assert!(!is_float_token("1.2.3"));
    assert!(!is_float_token("notanumber"));
    assert!(!is_float_token("2,5"));
}

#[test]
fn numbers_render_in_decimal() {
    assert_eq!(usize_to_string(0).as_str(), "0");
    assert_eq!(usize_to_string(7).as_str(), "7");
    assert_eq!(usize_to_string(10).as_str(), "10");
    assert_eq!(usize_to_string(12345).as_str(), "12345");
    assert_eq!(usize_to_string(4294967295).as_str(), "4294967295");
}

#[test]
fn report_lines_name_the_command() {
    assert_eq!(success_line(Command::Blur).as_str(), "[SUC] Operation <Blur> Success!");
    assert_eq!(success_line(Command::Grayscale).as_str(), "[SUC] Operation <Grayscale> Success!");
    assert_eq!(failure_line(Command::Rotate).as_str(), "[ERR] Operation <Rotate> Fail!");
}

#[test]
fn parse_error_line_wraps_the_message() {
    let e = image_cli::parser::ParseError::MissingSubcommand;
    assert_eq!(parse_error_line(&e).as_str(), "[ERR] Parsing Error! Missing subcommand argument!");
}

#[test]
fn usage_text_is_fixed() {
    let lines = usage_text();
    assert_eq!(lines.len(), 3);
    assert_eq!(
        lines[0].as_str(),
        "USAGE (when in doubt, use a .png extension on your filenames)"
    );
    assert_eq!(lines[1].as_str(), "blur INFILE OUTFILE");
    assert_eq!(lines[2].as_str(), "fractal OUTFILE");
}
