use eyre::{BoxedError, Report};
use std::cell::Cell;

fn bail_literal() -> Result<(), Report> {
    Err(Report::msg("oh no!"))
}

fn bail_fmt() -> Result<(), Report> {
    Err(Report::msg(format!("{} {}!", "oh", "no")))
}

fn bail_error() -> Result<(), Report> {
    Err(Report::new(BoxedError::new("oh no!".to_string(), vec![])))
}

#[test]
fn test_messages() {
    assert_eq!("oh no!", bail_literal().unwrap_err().to_string().as_str());
    assert_eq!("oh no!", bail_fmt().unwrap_err().to_string().as_str());
    assert_eq!("oh no!", bail_error().unwrap_err().to_string().as_str());
}

#[test]
fn test_ensure() {
    let f = || -> Result<(), Report> {
        if !(1 + 1 == 2) {
            return Err(Report::msg("This is correct".to_string()));
        }
        Ok(())
    };
    assert!(f().is_ok());

    let v = 1;
    let f = || -> Result<(), Report> {
        if !(v + v == 2) {
            return Err(Report::msg(format!("This is correct, v: {}", v)));
        }
        Ok(())
    };
    assert!(f().is_ok());

    let f = || -> Result<(), Report> {
        if !(v + v == 1) {
            return Err(Report::msg(format!("This is not correct, v: {}", v)));
        }
        Ok(())
    };
    assert!(f().is_err());
}

#[test]
fn test_temporaries() {
    fn require_send_sync(_: impl Send + Sync) {}

    require_send_sync(async {
        // If the report constructor held on to any temporary that is not
        // Send, it would stick around until the semicolon, which is on the
        // other side of the await point, making the enclosing future
        // non-Send.
        std::future::ready(Report::msg("...")).await;
    });

    fn message(cell: Cell<&str>) -> &str {
        cell.get()
    }

    require_send_sync(async {
        std::future::ready(Report::msg(message(Cell::new("...")).to_string())).await;
    });
}

#[test]
fn test_capture_format_args() {
    let var = 42;
    let err = Report::msg(format!("interpolate {var}"));
    assert_eq!("interpolate 42", err.to_string().as_str());
}

#[test]
fn test_brace_escape() {
    let err = Report::msg(format!("unterminated ${{..}} expression"));
    assert_eq!("unterminated ${..} expression", err.to_string().as_str());
}
