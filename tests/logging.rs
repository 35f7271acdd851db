use mktcb::logging::{enabled, Color, LevelFilter, Severity};

#[test]
fn labels_and_colors() {
    assert_eq!(Severity::Error.label(), "error");
    assert_eq!(Severity::Warn.label(), "warning");
    assert_eq!(Severity::Trace.label(), "trace");
    assert_eq!(Severity::Error.color(), Color::Red);
    assert_eq!(Severity::Info.color(), Color::Green);
}

#[test]
fn filtering() {
    assert!(enabled(Severity::Error, LevelFilter::Error));
    assert!(!enabled(Severity::Warn, LevelFilter::Error));
    assert!(enabled(Severity::Trace, LevelFilter::Trace));
    assert!(!enabled(Severity::Error, LevelFilter::Off));
}
