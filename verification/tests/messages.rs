//! The wording of the failures.

use termux_clipboard::error::{Error, Step};
use termux_clipboard::utility::Utility;

fn description(error: &Error) -> &str {
    match error {
        Error::BackendUnavailable { description } => description,
        Error::Unknown { description } => description,
        Error::ConversionFailure | Error::BackendUnsupported => "",
    }
}

#[test]
fn utilities_have_their_names() {
    assert_eq!(Utility::Reader.name(), "termux-clipboard-get");
    assert_eq!(Utility::Writer.name(), "termux-clipboard-set");
}

#[test]
fn openings_by_step() {
    assert_eq!(Step::Probe.opening(), "Error while testing for '");
    assert_eq!(Step::Kill.opening(), "Failed to kill test process for '");
    assert_eq!(Step::Execute.opening(), "Failed to execute '");
    assert_eq!(Step::Write.opening(), "Failed to write to stdin of '");
    assert_eq!(Step::Wait.opening(), "Failed to wait for '");
}

#[test]
fn unavailable_names_the_utility_and_the_remedy() {
    assert_eq!(
        Error::unavailable(Utility::Reader),
        Error::BackendUnavailable {
            description: "'termux-clipboard-get' command not found. Please install Termux:API."
                .to_string(),
        }
    );
    assert_eq!(
        Error::unavailable(Utility::Writer),
        Error::BackendUnavailable {
            description: "'termux-clipboard-set' command not found. Please install Termux:API."
                .to_string(),
        }
    );
}

#[test]
fn refusals_quote_the_cause() {
    assert_eq!(
        Error::refused(Step::Execute, Utility::Reader, "out of memory"),
        Error::Unknown {
            description: "Failed to execute 'termux-clipboard-get': out of memory".to_string(),
        }
    );
    assert_eq!(
        Error::refused(Step::Wait, Utility::Writer, ""),
        Error::Unknown { description: "Failed to wait for 'termux-clipboard-set': ".to_string() }
    );
}

#[test]
fn exits_with_and_without_diagnostics() {
    assert_eq!(
        Error::exit_diagnostics(Utility::Reader, "no service"),
        Error::Unknown {
            description: "'termux-clipboard-get' exited with non-zero status: no service"
                .to_string(),
        }
    );
    assert_eq!(
        Error::exit_status(Utility::Writer),
        Error::Unknown {
            description: "'termux-clipboard-set' exited with non-zero status.".to_string(),
        }
    );
}

#[test]
fn every_message_names_its_utility() {
    for utility in [Utility::Reader, Utility::Writer] {
        let name = utility.name();
        assert!(description(&Error::unavailable(utility)).contains(name));
        assert!(description(&Error::exit_diagnostics(utility, "x")).contains(name));
        assert!(description(&Error::exit_status(utility)).contains(name));
        for step in [Step::Probe, Step::Kill, Step::Execute, Step::Write, Step::Wait] {
            assert!(description(&Error::refused(step, utility, "x")).contains(name));
        }
    }
}
