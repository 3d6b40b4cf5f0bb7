use eyre::config::{
    default_frame_filter, default_printer, eyre_frame_filters, lib_verbosity, panic_verbosity,
    Frame, FrameFilter, Verbosity,
};
use eyre::fmt::{dec_usize, str_contains, str_eq, str_starts_with};
use eyre::writers::{env_section_text, HeaderWriter};
use eyre::{HookBuilder, Section, SectionExt};

fn frame(n: usize, name: &str, filename: Option<&str>) -> Frame {
    Frame {
        n,
        name: Some(name.to_string()),
        lineno: Some(1),
        filename: filename.map(|f| f.to_string()),
    }
}

#[test]
fn frame_predicates() {
    let dep = frame(1, "std::rt::min_stack", None);
    assert!(dep.is_dependency_code());
    let registry = frame(2, "widget::run", Some("/home/user/.cargo/registry/src/widget/lib.rs"));
    assert!(registry.is_dependency_code());
    let own = frame(3, "widget::run", Some("src/main.rs"));
    assert!(!own.is_dependency_code());

    let post = frame(4, "core::panicking::panic_fmt", None);
    assert!(post.is_post_panic_code());
    assert!(!own.is_post_panic_code());

    let init = frame(5, "std::rt::lang_start::h1234", Some("src/rt.rs"));
    assert!(init.is_runtime_init_code());
    let closure = frame(6, "{{closure}}", Some("src/libtest/lib.rs"));
    assert!(closure.is_runtime_init_code());
    assert!(!own.is_runtime_init_code());
}

#[test]
fn default_filter_cuts_panic_and_runtime_frames() {
    let frames = vec![
        frame(1, "core::panicking::panic_fmt", None),
        frame(2, "my_app::explode", Some("src/main.rs")),
        frame(3, "my_app::main", Some("src/main.rs")),
        frame(4, "std::rt::lang_start::h11", Some("rt.rs")),
        frame(5, "_start", None),
    ];
    let kept = default_frame_filter(frames);
    let names: Vec<String> = kept.iter().map(|f| f.name.clone().unwrap()).collect();
    assert_eq!(
        names,
        vec!["my_app::explode".to_string(), "my_app::main".to_string()]
    );
}

#[test]
fn eyre_filter_hides_machinery_frames() {
    let frames = vec![
        frame(1, "eyre::Report::new", None),
        frame(2, "color_eyre::config::x", None),
        frame(3, "my_app::main", None),
        Frame { n: 4, name: None, lineno: None, filename: None },
    ];
    let kept = eyre_frame_filters(frames);
    assert_eq!(1, kept.len());
    assert_eq!("my_app::main", kept[0].name.clone().unwrap().as_str());
}

#[test]
fn prefix_filter_hides_named_frames() {
    let filter = FrameFilter::HidePrefixes(vec!["noisy::".to_string()]);
    let frames = vec![frame(1, "noisy::tick", None), frame(2, "quiet::tock", None)];
    let kept = filter.apply(frames);
    assert_eq!(1, kept.len());
    assert_eq!("quiet::tock", kept[0].name.clone().unwrap().as_str());
}

#[test]
fn verbosity_from_environment_values() {
    assert!(matches!(panic_verbosity(None), Verbosity::Minimal));
    assert!(matches!(panic_verbosity(Some("0".to_string())), Verbosity::Minimal));
    assert!(matches!(panic_verbosity(Some("1".to_string())), Verbosity::Medium));
    assert!(matches!(panic_verbosity(Some("full".to_string())), Verbosity::Full));
    assert!(matches!(
        lib_verbosity(Some("full".to_string()), Some("0".to_string())),
        Verbosity::Full
    ));
    assert!(matches!(lib_verbosity(None, Some("1".to_string())), Verbosity::Medium));
}

#[test]
fn hook_builder_produces_hooks() {
    let (panic_hook, eyre_hook) = HookBuilder::blank()
        .add_default_filters()
        .panic_section("consider reporting the bug".to_string())
        .panic_message("it crashed".to_string())
        .issue_url("https://example.invalid/issues/new".to_string())
        .add_issue_metadata("version".to_string(), "0.1.0".to_string())
        .capture_span_trace_by_default(true)
        .display_env_section(false)
        .into_hooks();

    assert_eq!(2, panic_hook.filters.len());
    assert_eq!("consider reporting the bug", panic_hook.section.clone().unwrap().as_str());
    assert_eq!("it crashed", panic_hook.panic_message.as_str());
    assert_eq!(
        "https://example.invalid/issues/new",
        panic_hook.issue_url.clone().unwrap().as_str()
    );
    assert_eq!(1, panic_hook.issue_metadata.len());
    assert!(panic_hook.capture_span_trace_by_default);
    assert!(!panic_hook.display_env_section);
    assert!(!eyre_hook.display_env_section);
    assert!(eyre_hook.capture_span_trace_by_default);

    assert!(panic_hook.spantrace_capture_enabled(None));
    assert!(!panic_hook.spantrace_capture_enabled(Some("0".to_string())));
    assert!(eyre_hook.spantrace_capture_enabled(Some("1".to_string())));

    let handler = eyre_hook.make_handler(Some("trace text".to_string()), None);
    assert_eq!("trace text", handler.backtrace.clone().unwrap().as_str());
    assert!(!handler.display_env_section);

    let fallback = default_printer();
    assert!(fallback.section.is_none());
    assert!(fallback.display_env_section);
}

#[test]
fn section_renders_indented_body() {
    let section = "body line one\nline two".to_string().header("Stdout:".to_string());
    assert_eq!("Stdout:\n   body line one\n   line two", section.render().as_str());

    let empty = "".to_string().header("Stdout:".to_string());
    assert_eq!("", empty.render().as_str());
}

#[test]
fn header_writer_emits_header_once() {
    let mut w = HeaderWriter::new("\n\n".to_string());
    w.write_str("");
    assert_eq!("", w.buf.as_str());
    w.write_str("first");
    w.write_str(" more");
    w.ready();
    w.write_str("second");
    assert_eq!("\n\nfirst more\n\nsecond", w.buf.as_str());
}

#[test]
fn string_helpers() {
    assert!(str_starts_with("std::rt", "std::"));
    assert!(!str_starts_with("st", "std::"));
    assert!(str_eq("same", "same"));
    assert!(!str_eq("same", "sane"));
    assert!(str_contains("a/.cargo/registry/src/b", "/.cargo/registry/src/"));
    assert!(!str_contains("short", "longer needle"));
    assert_eq!("4095", dec_usize(4095).as_str());
    assert_eq!("0", dec_usize(0).as_str());
}

#[test]
fn backtrace_formatting_keeps_filtered_frames() {
    let hook = HookBuilder::default().into_hooks().0;
    let frames = vec![
        frame(1, "rust_begin_unwind", None),
        frame(2, "my_app::work", Some("src/lib.rs")),
        frame(3, "std::rt::lang_start::h0", Some("rt.rs")),
    ];
    let kept = hook.filter_frames(frames);
    assert_eq!(1, kept.len());
    assert_eq!("my_app::work", kept[0].name.clone().unwrap().as_str());
}

#[test]
fn env_section_names_backtrace_variable() {
    assert!(env_section_text(false).contains("RUST_BACKTRACE=1"));
    assert!(env_section_text(true).contains("COLORBT_SHOW_HIDDEN"));
}
