use clikit::terminal::args::{AccountArg, ConfigPathsArg, JsonFlag, LogFlags};
use clikit::terminal::log::Logger;
use clikit::terminal::printer::Message;

#[test]
fn message_wraps_text() {
    let m = Message::new("1 action done");
    assert_eq!(m.text(), "1 action done");
    let copy = m.clone();
    assert_eq!(copy.text(), "1 action done");
}

#[test]
fn log_directives_follow_the_flags() {
    let quiet = LogFlags {
        quiet: true,
        debug: false,
        trace: false,
    };
    let d = Logger::directives(&quiet);
    assert_eq!(d.filter, Some("off"));
    assert!(!d.backtrace);

    let debug = LogFlags {
        quiet: false,
        debug: true,
        trace: false,
    };
    let d = Logger::directives(&debug);
    assert_eq!(d.filter, Some("debug"));
    assert!(!d.backtrace);

    let trace = LogFlags {
        quiet: false,
        debug: false,
        trace: true,
    };
    let d = Logger::directives(&trace);
    assert_eq!(d.filter, Some("trace"));
    assert!(d.backtrace);

    let none = LogFlags::default();
    let d = Logger::directives(&none);
    assert_eq!(d.filter, None);
    assert!(!d.backtrace);
}

#[test]
fn log_directives_quiet_wins() {
    let conflicting = LogFlags {
        quiet: true,
        debug: true,
        trace: true,
    };
    let d = Logger::directives(&conflicting);
    assert_eq!(d.filter, Some("off"));
    assert!(!d.backtrace);
}

#[test]
fn flag_defaults_are_all_off() {
    assert_eq!(ConfigPathsArg::default().paths.len(), 0);
    assert!(AccountArg::default().name.is_none());
    assert!(!JsonFlag::default().enabled);
    let flags = LogFlags::default();
    assert!(!flags.quiet && !flags.debug && !flags.trace);
}
