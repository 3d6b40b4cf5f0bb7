use eyre::help::{Help, HelpInfo};
use eyre::kind::{AdhocKind, BoxedKind, TraitKind};
use eyre::{BoxedError, ErrorValue, Report, WrapErr};
use std::sync::atomic::{AtomicUsize, Ordering};
use std::sync::Arc;

#[derive(Debug, PartialEq)]
struct Code(u32);

impl ErrorValue for Code {
    fn key() -> u64 {
        200
    }

    fn render(&self) -> String {
        format!("code {}", self.0)
    }

    fn source_texts(&self) -> Vec<String> {
        vec![]
    }
}

#[derive(Debug, PartialEq)]
struct Marker(&'static str);

impl ErrorValue for Marker {
    fn key() -> u64 {
        201
    }

    fn render(&self) -> String {
        self.0.to_string()
    }

    fn source_texts(&self) -> Vec<String> {
        vec![]
    }
}

struct CountsDrops {
    label: &'static str,
    drops: Arc<AtomicUsize>,
}

impl Drop for CountsDrops {
    fn drop(&mut self) {
        self.drops.fetch_add(1, Ordering::SeqCst);
    }
}

impl ErrorValue for CountsDrops {
    fn key() -> u64 {
        202
    }

    fn render(&self) -> String {
        self.label.to_string()
    }

    fn source_texts(&self) -> Vec<String> {
        vec![]
    }
}

struct CountsDropsMsg {
    label: &'static str,
    drops: Arc<AtomicUsize>,
}

impl Drop for CountsDropsMsg {
    fn drop(&mut self) {
        self.drops.fetch_add(1, Ordering::SeqCst);
    }
}

impl ErrorValue for CountsDropsMsg {
    fn key() -> u64 {
        203
    }

    fn render(&self) -> String {
        self.label.to_string()
    }

    fn source_texts(&self) -> Vec<String> {
        vec![]
    }
}

#[test]
fn roundtrip_construction_downcast() {
    // A report built from a value downcasts back to that value.
    let report = Report::new(Code(7));
    let recovered = report.downcast::<Code>().ok().unwrap();
    assert_eq!(Code(7), recovered);

    let report = Report::msg("just text".to_string());
    let recovered = report.downcast::<String>().ok().unwrap();
    assert_eq!("just text", recovered.as_str());
}

#[test]
fn downcast_failure_leaves_report_usable() {
    let report = Report::new(Code(9)).wrap_err("outer");
    let before_text = report.to_string();
    let before_chain = report.chain().collect_strings();

    let report = match report.downcast::<Marker>() {
        Ok(_) => panic!("downcast to a type the report does not hold"),
        Err(report) => report,
    };

    assert_eq!(before_text, report.to_string());
    assert_eq!(before_chain, report.chain().collect_strings());
    // The report still downcasts to what it does hold.
    assert!(report.is::<Code>());
}

#[test]
fn wrap_chain_message_ordering() {
    // The concrete scenario: two wraps over a message root.
    let report = Report::msg("root cause")
        .wrap_err("layer one")
        .wrap_err("layer two");
    let chain = report.chain().collect_strings();
    assert_eq!(
        chain,
        vec![
            "layer two".to_string(),
            "layer one".to_string(),
            "root cause".to_string(),
        ]
    );

    // The reversed chain yields the exact reverse.
    let reversed = report.chain().rev().collect_strings();
    assert_eq!(
        reversed,
        vec![
            "root cause".to_string(),
            "layer one".to_string(),
            "layer two".to_string(),
        ]
    );

    // Walking from the back yields the same elements as the reverse.
    let mut chain = report.chain();
    assert_eq!("root cause", chain.next_back().unwrap().as_str());
    assert_eq!("layer two", chain.next().unwrap().as_str());
    assert_eq!("layer one", chain.next().unwrap().as_str());
    assert!(chain.next().is_none());
}

#[test]
fn cross_layer_downcast() {
    // Each wrap layer's type and the root error's type stay reachable.
    let report = Report::new(Code(3))
        .wrap_err(Marker("mid"))
        .wrap_err("top".to_string());

    assert_eq!("top", report.downcast_ref::<String>().unwrap().as_str());
    assert_eq!(&Marker("mid"), report.downcast_ref::<Marker>().unwrap());
    assert_eq!(&Code(3), report.downcast_ref::<Code>().unwrap());
    assert!(report.is::<Code>());
    assert!(report.is::<Marker>());
    assert!(report.is::<String>());
    assert!(!report.is::<BoxedError>());
}

#[test]
fn root_cause_is_last_chain_element() {
    // Depth zero: a single leaf error.
    let report = Report::msg("alone");
    assert_eq!("alone", report.root_cause().as_str());
    assert_eq!(
        report.root_cause(),
        report.chain().collect_strings().last().unwrap().clone()
    );

    // A leaf with its own causes.
    let report = Report::new(BoxedError::new(
        "outer".to_string(),
        vec!["middle".to_string(), "inner".to_string()],
    ));
    assert_eq!("inner", report.root_cause().as_str());

    // Wrapped several times.
    let report = report.wrap_err("w1").wrap_err("w2").wrap_err("w3");
    assert_eq!("inner", report.root_cause().as_str());
    assert_eq!(6, report.chain().len());
}

#[test]
fn downcast_by_value_drops_rest_exactly_once() {
    let root_drops = Arc::new(AtomicUsize::new(0));
    let msg_drops = Arc::new(AtomicUsize::new(0));

    let report = Report::new(CountsDrops {
        label: "root",
        drops: root_drops.clone(),
    })
    .wrap_err(CountsDropsMsg {
        label: "wrap",
        drops: msg_drops.clone(),
    });

    let recovered = report.downcast::<CountsDrops>().ok().unwrap();

    // The recovered value was moved out, not dropped; the wrap layer was
    // dropped exactly once.
    assert_eq!(0, root_drops.load(Ordering::SeqCst));
    assert_eq!(1, msg_drops.load(Ordering::SeqCst));

    drop(recovered);
    assert_eq!(1, root_drops.load(Ordering::SeqCst));
    assert_eq!(1, msg_drops.load(Ordering::SeqCst));
}

#[test]
fn wrap_with_message_over_error() {
    // A message wrapped directly over a concrete error: both downcastable,
    // chain lists message then error then the error's causes.
    let report = Report::from_msg(
        Marker("context"),
        BoxedError::new("failure".to_string(), vec!["cause".to_string()]),
    );
    assert_eq!(
        report.chain().collect_strings(),
        vec![
            "context".to_string(),
            "failure".to_string(),
            "cause".to_string(),
        ]
    );
    assert!(report.is::<Marker>());
    assert!(report.is::<BoxedError>());
    let recovered = report.downcast::<BoxedError>().ok().unwrap();
    assert_eq!("failure", recovered.to_string().as_str());
}

#[test]
fn wrap_err_on_result() {
    fn fails() -> Result<u32, Code> {
        Err(Code(5))
    }

    let report = fails().wrap_err("while working").unwrap_err();
    assert_eq!(
        report.chain().collect_strings(),
        vec!["while working".to_string(), "code 5".to_string()]
    );
    assert!(report.is::<Code>());

    let ok: Result<u32, Code> = Ok(11);
    assert_eq!(11, ok.wrap_err("unused").ok().unwrap());
}

#[test]
fn help_sections_render_after_chain() {
    let result: Result<(), Report> = Err(Report::msg("broken"));
    let report = result
        .note("a note")
        .warning("a warning")
        .suggestion("try again")
        .unwrap_err();

    let rendered = report.render();
    println!("{}", rendered);
    assert!(rendered.contains("Note: a note"));
    assert!(rendered.contains("Warning: a warning"));
    assert!(rendered.contains("Suggestion: try again"));

    let handler = report.handler();
    assert_eq!(3, handler.sections.len());
    assert!(matches!(handler.sections[0], HelpInfo::Note(_)));
}

#[test]
fn render_format_exact() {
    let report = Report::msg("top").wrap_err("outer");
    assert_eq!(
        report.render(),
        "outer\n\nCaused by:\n   0: top\n\nBacktrace omitted. Run with RUST_BACKTRACE=1 \
         environment variable to display it.\nRun with RUST_BACKTRACE=full to include source \
         snippets."
    );

    let report = Report::msg("alone");
    let rendered = report.render();
    assert!(rendered.starts_with("alone"));
    assert!(!rendered.contains("Caused by:"));
}

#[test]
fn kind_dispatch_paths() {
    // The ad-hoc path, taken by reference.
    let message = "just words".to_string();
    let report = (&message).eyre_kind().new(message.clone());
    assert_eq!("just words", report.to_string().as_str());

    // The error-value path.
    let error = Code(4);
    let report = error.eyre_kind().new(error);
    assert!(report.is::<Code>());

    // The boxed path.
    let boxed = BoxedError::new("boxed".to_string(), vec![]);
    let report = BoxedKind::eyre_kind(&boxed).new(BoxedError::new("boxed".to_string(), vec![]));
    assert_eq!("boxed", report.to_string().as_str());
}
