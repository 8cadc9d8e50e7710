use speng_hunter::logfile::log_file_name;
use speng_hunter::text::{is_whitespace_char, parse_body_code, title_names_space_engine};

#[test]
fn parse_code_from_log() {
    let log = "Loading...\nBody full def: RS 0-3-397-1581-20880-7-556321-30 A3\nDone\n";
    assert_eq!(
        parse_body_code(log).as_deref(),
        Some("RS 0-3-397-1581-20880-7-556321-30 A3")
    );
}

#[test]
fn parse_code_takes_last_marker() {
    let log = "Body full def: OLD\nother\nBody full def:   NEW \r\nrest";
    assert_eq!(parse_body_code(log).as_deref(), Some("NEW"));
}

#[test]
fn parse_code_without_marker() {
    assert_eq!(parse_body_code("nothing here"), None);
    assert_eq!(parse_body_code(""), None);
}

#[test]
fn parse_code_marker_at_end() {
    assert_eq!(parse_body_code("x Body full def:"), None);
}

#[test]
fn parse_code_empty_line() {
    assert_eq!(parse_body_code("Body full def:\nnext").as_deref(), Some(""));
    assert_eq!(parse_body_code("Body full def: \u{3000}\t").as_deref(), Some(""));
}

#[test]
fn parse_code_unicode_spaces() {
    assert_eq!(
        parse_body_code("Body full def:\u{a0}Sol\u{2003}b\u{2029}").as_deref(),
        Some("Sol\u{2003}b")
    );
}

#[test]
fn whitespace_matches_std() {
    for c in ['\t', '\n', '\u{b}', '\u{c}', '\r', ' ', '\u{85}', '\u{a0}', '\u{1680}', '\u{2000}',
        '\u{200a}', '\u{2028}', '\u{2029}', '\u{202f}', '\u{205f}', '\u{3000}', 'a', '\u{200b}',
        '\u{180e}', '0', '\u{feff}']
    {
        assert_eq!(is_whitespace_char(c), c.is_whitespace(), "{:?}", c);
    }
}

#[test]
fn space_engine_titles() {
    assert!(title_names_space_engine("SpaceEngine"));
    assert!(title_names_space_engine("SpaceEngine 0.990.45.1945"));
    assert!(title_names_space_engine("x SpaceEngine"));
    assert!(!title_names_space_engine("Space Engine"));
    assert!(!title_names_space_engine("spaceengine"));
    assert!(!title_names_space_engine(""));
}

#[test]
fn log_names() {
    assert_eq!(log_file_name(0), "hunter.log");
    assert_eq!(log_file_name(1), "hunter-1.log");
    assert_eq!(log_file_name(10), "hunter-10.log");
    assert_eq!(log_file_name(12345), "hunter-12345.log");
    assert_eq!(log_file_name(u32::MAX), "hunter-4294967295.log");
}

#[test]
fn law_log_names_distinct_on_examples() {
    let names: Vec<String> = (0..200).map(log_file_name).collect();
    for i in 0..names.len() {
        for j in (i + 1)..names.len() {
            assert_ne!(names[i], names[j]);
        }
    }
}
