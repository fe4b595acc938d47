use ffmpeg_sys::version::{decimal, parse_u8, source_dir_name, version, VersionError};

#[test]
fn parse_u8_accepts_digits_and_plus() {
    assert_eq!(parse_u8("0"), Some(0));
    assert_eq!(parse_u8("255"), Some(255));
    assert_eq!(parse_u8("+7"), Some(7));
    assert_eq!(parse_u8("007"), Some(7));
}

#[test]
fn parse_u8_rejects_others() {
    assert_eq!(parse_u8(""), None);
    assert_eq!(parse_u8("+"), None);
    assert_eq!(parse_u8("256"), None);
    assert_eq!(parse_u8("1000"), None);
    assert_eq!(parse_u8("-1"), None);
    assert_eq!(parse_u8("1a"), None);
    assert_eq!(parse_u8(" 1"), None);
}

#[test]
fn parse_u8_agrees_with_std() {
    for s in ["0", "9", "10", "99", "100", "199", "254", "255", "256", "+", "++1", "+0", "", "x", "12x"] {
        assert_eq!(parse_u8(s), s.parse::<u8>().ok(), "{}", s);
    }
}

#[test]
fn decimal_writes_shortest_text() {
    assert_eq!(decimal(0), "0");
    assert_eq!(decimal(7), "7");
    assert_eq!(decimal(10), "10");
    assert_eq!(decimal(120), "120");
    assert_eq!(decimal(u64::MAX), "18446744073709551615");
}

#[test]
fn version_joins_major_and_minor() {
    assert_eq!(version("0", "1"), Ok("0.1".to_string()));
    assert_eq!(version("+12", "007"), Ok("12.7".to_string()));
    assert_eq!(version("255", "255"), Ok("255.255".to_string()));
}

#[test]
fn version_reports_bad_major_first() {
    assert_eq!(version("256", "1"), Err(VersionError::Major));
    assert_eq!(version("", "x"), Err(VersionError::Major));
    assert_eq!(version("1", "x"), Err(VersionError::Minor));
    assert_eq!(version("1", "300"), Err(VersionError::Minor));
}

#[test]
fn source_dir_name_prefixes_ffmpeg() {
    assert_eq!(source_dir_name("0.1"), "ffmpeg-0.1");
    assert_eq!(source_dir_name(""), "ffmpeg-");
}
