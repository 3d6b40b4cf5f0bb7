use eyre::{BoxedError, ErrorValue, Report};

struct MyError {
    source_text: String,
}

impl ErrorValue for MyError {
    fn key() -> u64 {
        100
    }

    fn render(&self) -> String {
        "outer".to_string()
    }

    fn source_texts(&self) -> Vec<String> {
        vec![self.source_text.clone()]
    }
}

#[test]
fn test_boxed_str() {
    let error = BoxedError::new("oh no!".to_string(), vec![]);
    let error: Report = Report::from_boxed(error);
    assert_eq!("oh no!", error.to_string().as_str());
    assert_eq!(
        "oh no!",
        error.downcast_ref::<BoxedError>().unwrap().to_string().as_str()
    );
}

#[test]
fn test_boxed_thiserror() {
    let error = MyError {
        source_text: std::io::Error::new(std::io::ErrorKind::Other, "oh no!").to_string(),
    };
    let error = Report::new(error);
    let mut chain = error.chain();
    let _ = chain.next();
    assert_eq!("oh no!", chain.next().unwrap().as_str());
}

#[test]
fn test_boxed_eyre() {
    let error = Report::msg("oh no!").wrap_err("it failed");
    let mut chain = error.chain();
    let _ = chain.next();
    assert_eq!("oh no!", chain.next().unwrap().as_str());
}
