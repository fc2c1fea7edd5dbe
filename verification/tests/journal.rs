use charge_control::{journal_line, log_style, LogStyle, Severity};

#[test]
fn journal_priorities() {
    assert_eq!(3, Severity::Error.journal_priority());
    assert_eq!(4, Severity::Warn.journal_priority());
    assert_eq!(6, Severity::Info.journal_priority());
    assert_eq!(7, Severity::Debug.journal_priority());
    assert_eq!(7, Severity::Trace.journal_priority());
}

#[test]
fn journal_lines() {
    assert_eq!(
        "<6>charge_control: Starting up. Current charge behaviour is auto",
        journal_line(
            Severity::Info,
            "charge_control",
            "Starting up. Current charge behaviour is auto"
        )
    );
    assert_eq!("<3>t: m", journal_line(Severity::Error, "t", "m"));
    assert_eq!("<4>t: m", journal_line(Severity::Warn, "t", "m"));
    assert_eq!("<7>t: m", journal_line(Severity::Debug, "t", "m"));
    assert_eq!("<7>t: m", journal_line(Severity::Trace, "t", "m"));
    assert_eq!("<6>: ", journal_line(Severity::Info, "", ""));
    assert_eq!("<6>a::b: é: <7>", journal_line(Severity::Info, "a::b", "é: <7>"));
}

#[test]
fn journal_line_begins_with_the_priority() {
    for s in [
        Severity::Error,
        Severity::Warn,
        Severity::Info,
        Severity::Debug,
        Severity::Trace,
    ] {
        let expected = format!("<{}>{}: {}", s.journal_priority(), "target", "message");
        assert_eq!(expected, journal_line(s, "target", "message"));
    }
}

#[test]
fn only_the_exact_toggle_selects_the_journal() {
    assert_eq!(LogStyle::Journal, log_style(Some("SYSTEMD")));
    assert_eq!(LogStyle::Plain, log_style(None));
    for v in ["", "systemd", "Systemd", "SYSTEMD ", " SYSTEMD", "SYSTEMD\n", "JOURNAL", "auto", "1"] {
        assert_eq!(LogStyle::Plain, log_style(Some(v)), "{v:?}");
    }
}
