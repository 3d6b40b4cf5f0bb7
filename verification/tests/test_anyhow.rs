use anyhow::Context;
use eyre::{IntoEyre, Report, WrapErr};
use std::fmt::Display;

#[derive(Debug)]
struct RootError;

impl Display for RootError {
    fn fmt(&self, f: &mut std::fmt::Formatter<'_>) -> std::fmt::Result {
        f.write_str("RootError")
    }
}

impl std::error::Error for RootError {
    fn source(&self) -> Option<&(dyn std::error::Error + 'static)> {
        None
    }
}

fn this_function_fails() -> anyhow::Result<()> {
    Err(RootError).context("Ouch!").context("Anyhow context A")
}

fn test_failure() -> Result<(), Report> {
    this_function_fails().context("Anyhow context B").into_eyre()?;

    Ok(())
}

#[test]
fn test_anyhow_anyhow_conversion() {
    let error: Report = test_failure().wrap_err("Eyre context").unwrap_err();

    println!("Error: {}", error.render());

    let chain = error.chain().collect_strings();
    assert_eq!(
        chain,
        vec![
            "Eyre context".to_string(),
            // Anyhow context
            "Anyhow context B".to_string(),
            "Anyhow context A".to_string(),
            // Anyhow error
            "Ouch!".to_string(),
            // Original concrete error, shows up in chain too
            "RootError".to_string(),
        ]
    );
}

fn bubble() -> Result<(), Report> {
    this_function_fails()
        .context("Anyhow context B")
        .into_eyre()
        .wrap_err("Eyre context A")?;

    Ok(())
}

#[test]
fn test_anyhow_compat_anyhow_conversion() {
    let error: Report = bubble().wrap_err("Eyre context B").unwrap_err();

    println!("{}", error.render());

    let chain = error.chain().collect_strings();
    assert_eq!(
        chain,
        vec![
            "Eyre context B".to_string(),
            "Eyre context A".to_string(),
            // Anyhow context
            "Anyhow context B".to_string(),
            "Anyhow context A".to_string(),
            // Anyhow error
            "Ouch!".to_string(),
            // Original concrete error, shows up in chain too
            "RootError".to_string(),
        ]
    );
}
