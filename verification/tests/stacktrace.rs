use eyre::{HookBuilder, Report};

fn foo5() -> Report {
    foo4()
}
fn foo4() -> Report {
    foo3()
}
fn foo3() -> Report {
    foo2()
}
fn foo2() -> Report {
    foo1()
}
fn foo1() -> Report {
    Report::msg("error occured")
}

#[test]
fn stacktrace_forward() {
    let (_, eyre_hook) = HookBuilder::default().display_env_section(true).into_hooks();

    let mut report = foo5();
    *report.handler_mut() = eyre_hook.make_handler(None, None);

    let report = report.render();
    println!("{}", report);
    assert!(report.contains("RUST_BACKTRACE"));
}

#[test]
fn stacktrace_reversed() {
    let (_, eyre_hook) = HookBuilder::default().display_env_section(true).into_hooks();

    let mut report = foo5();
    *report.handler_mut() = eyre_hook.make_handler(None, None);

    let mut reversed = report.chain().rev();
    while let Some(entry) = reversed.next() {
        println!("{}", entry);
    }

    let report = report.render();
    println!("{}", report);
    assert!(report.contains("RUST_BACKTRACE"));
}
