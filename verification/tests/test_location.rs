use eyre::ContextCompat;

#[test]
fn test_option_compat_wrap_err() {
    let err = None::<()>.wrap_err("oopsie").unwrap_err();

    println!("{}", err.render());
}

#[test]
fn test_option_compat_wrap_err_with() {
    let err = None::<()>.wrap_err_with(|| "oopsie").unwrap_err();

    println!("{}", err.render());
}

#[test]
fn test_option_compat_context() {
    let err = None::<()>.context("oopsie").unwrap_err();

    println!("{}", err.render());
}

#[test]
fn test_option_compat_with_context() {
    let err = None::<()>.with_context(|| "oopsie").unwrap_err();

    println!("{}", err.render());
}
