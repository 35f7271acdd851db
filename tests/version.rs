use mktcb::error::Error;
use mktcb::linux::parse_marker;
use mktcb::version::{make_version, Version};

fn v(maj: usize, min: usize, mic: usize) -> Version {
    Version { maj, min, mic }
}

#[test]
fn two_field_version_has_micro_zero() {
    assert_eq!(make_version("5.4"), Ok(v(5, 4, 0)));
}

#[test]
fn three_field_version() {
    assert_eq!(make_version("5.4.2"), Ok(v(5, 4, 2)));
}

#[test]
fn render_then_parse_gives_the_version() {
    for ver in [v(5, 4, 0), v(5, 4, 2), v(1, 0, 255), v(6, 12, 10), v(usize::MAX, 0, usize::MAX)] {
        let text = ver.render();
        assert_eq!(make_version(&text), Ok(ver));
    }
}

#[test]
fn render_forms() {
    assert_eq!(v(5, 4, 2).render(), "5.4.2");
    assert_eq!(v(5, 4, 2).render_short(), "5.4");
    assert_eq!(v(5, 4, 0).patch_dir_name(), "5.4");
    assert_eq!(v(5, 4, 3).patch_dir_name(), "5.4.3");
}

#[test]
fn wrong_arity_is_a_format_error() {
    assert_eq!(make_version("5"), Err(Error::InvalidVersionFormat { orig: "5".to_string() }));
    assert_eq!(make_version("1.2.3.4"), Err(Error::InvalidVersionFormat { orig: "1.2.3.4".to_string() }));
    assert_eq!(make_version(""), Err(Error::InvalidVersionFormat { orig: "".to_string() }));
}

#[test]
fn non_numeric_field_is_a_number_error() {
    assert_eq!(make_version("5.x"), Err(Error::InvalidVersionNumber { string: "x".to_string() }));
    assert_eq!(make_version("a.4.1"), Err(Error::InvalidVersionNumber { string: "a".to_string() }));
    assert_eq!(make_version("5.4."), Err(Error::InvalidVersionNumber { string: "".to_string() }));
    assert_eq!(make_version("5.-4"), Err(Error::InvalidVersionNumber { string: "-4".to_string() }));
}

#[test]
fn major_zero_is_rejected() {
    assert_eq!(make_version("0.4"), Err(Error::InvalidVersionNumber { string: "0".to_string() }));
    assert_eq!(make_version("00.4.1"), Err(Error::InvalidVersionNumber { string: "00".to_string() }));
    assert_eq!(parse_marker("0.0.0\n"), Err(Error::InvalidVersionNumber { string: "0".to_string() }));
    assert_eq!(make_version("1.0"), Ok(v(1, 0, 0)));
}

#[test]
fn marker_ignores_trailing_white_space() {
    assert_eq!(parse_marker("5.4.2\n"), Ok(v(5, 4, 2)));
    assert_eq!(parse_marker("5.4.2 \t\r\n"), Ok(v(5, 4, 2)));
}

#[test]
fn empty_or_partial_marker_is_rejected() {
    assert_eq!(parse_marker(""), Err(Error::InvalidVersionFormat { orig: "".to_string() }));
    assert_eq!(parse_marker("5.4.\n"), Err(Error::InvalidVersionNumber { string: "".to_string() }));
    assert_eq!(parse_marker("5.4 2"), Err(Error::InvalidVersionNumber { string: "4 2".to_string() }));
}
