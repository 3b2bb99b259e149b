use dkdc_md_cli::auth::{read_token_from_reader, resolve_token_or_with, resolve_token_with};
use dkdc_md_cli::errors::CliError;

fn env_with(vars: &[(&str, &str)]) -> Vec<(String, String)> {
    vars.iter().map(|(k, v)| (k.to_string(), v.to_string())).collect()
}

fn no_env() -> Vec<(String, String)> {
    Vec::new()
}

#[test]
fn resolves_env_vars_in_order() {
    // Only lowest-priority var set
    let env = env_with(&[("MOTHERDUCK_API_KEY", "key4")]);
    assert_eq!(resolve_token_with(&env).unwrap(), "key4");

    // Two set -- higher priority wins
    let env = env_with(&[
        ("motherduck_api_key", "key3"),
        ("MOTHERDUCK_API_KEY", "key4"),
    ]);
    assert_eq!(resolve_token_with(&env).unwrap(), "key3");

    // Three set
    let env = env_with(&[
        ("MOTHERDUCK_TOKEN", "key2"),
        ("motherduck_api_key", "key3"),
        ("MOTHERDUCK_API_KEY", "key4"),
    ]);
    assert_eq!(resolve_token_with(&env).unwrap(), "key2");

    // All set -- highest priority wins
    let env = env_with(&[
        ("motherduck_token", "key1"),
        ("MOTHERDUCK_TOKEN", "key2"),
        ("motherduck_api_key", "key3"),
        ("MOTHERDUCK_API_KEY", "key4"),
    ]);
    assert_eq!(resolve_token_with(&env).unwrap(), "key1");
}

#[test]
fn skips_empty_env_vars() {
    let env = env_with(&[("motherduck_token", ""), ("MOTHERDUCK_TOKEN", "real-token")]);
    assert_eq!(resolve_token_with(&env).unwrap(), "real-token");
}

#[test]
fn errors_when_no_token() {
    let err = resolve_token_with(&no_env()).unwrap_err();
    assert!(err.message().contains("No MotherDuck token found"));
}

// -- CLI token flag --

#[test]
fn cli_token_takes_precedence_over_env() {
    let env = env_with(&[("MOTHERDUCK_TOKEN", "env-tok")]);
    let result = resolve_token_or_with(Some("cli-tok"), &env, "");
    assert_eq!(result.unwrap(), "cli-tok");
}

#[test]
fn cli_token_trims_whitespace() {
    let result = resolve_token_or_with(Some("  tok  \n"), &no_env(), "");
    assert_eq!(result.unwrap(), "tok");
}

#[test]
fn cli_token_empty_errors() {
    let result = resolve_token_or_with(Some(""), &no_env(), "");
    assert!(result.unwrap_err().message().contains("must not be empty"));
}

#[test]
fn cli_token_whitespace_only_errors() {
    let result = resolve_token_or_with(Some("   "), &no_env(), "");
    assert!(result.unwrap_err().message().contains("must not be empty"));
}

#[test]
fn cli_token_dash_reads_stdin() {
    let result = resolve_token_or_with(Some("-"), &no_env(), "stdin-token\n");
    assert_eq!(result.unwrap(), "stdin-token");
}

#[test]
fn cli_token_dash_trims_stdin() {
    let result = resolve_token_or_with(Some("-"), &no_env(), "  tok-from-pipe  \n");
    assert_eq!(result.unwrap(), "tok-from-pipe");
}

#[test]
fn cli_token_dash_empty_stdin_errors() {
    let result = resolve_token_or_with(Some("-"), &no_env(), "   \n");
    assert!(result.unwrap_err().message().contains("stdin was empty"));
}

#[test]
fn none_cli_token_falls_through_to_env() {
    let env = env_with(&[("MOTHERDUCK_TOKEN", "env-tok")]);
    let result = resolve_token_or_with(None, &env, "");
    assert_eq!(result.unwrap(), "env-tok");
}

// -- further source combinations --

#[test]
fn cli_beats_every_env_subset() {
    let env = env_with(&[
        ("motherduck_token", "key1"),
        ("MOTHERDUCK_TOKEN", "key2"),
        ("motherduck_api_key", "key3"),
        ("MOTHERDUCK_API_KEY", "key4"),
    ]);
    let result = resolve_token_or_with(Some("cli-tok"), &env, "ignored");
    assert_eq!(result.unwrap(), "cli-tok");
}

#[test]
fn empty_env_var_error_names_all_sources() {
    let env = env_with(&[("MOTHERDUCK_TOKEN", "")]);
    let err = resolve_token_with(&env).unwrap_err();
    assert_eq!(err, CliError::NoCredential);
    let msg = err.message();
    assert!(msg.contains("motherduck_token"));
    assert!(msg.contains("MOTHERDUCK_TOKEN"));
    assert!(msg.contains("motherduck_api_key"));
    assert!(msg.contains("MOTHERDUCK_API_KEY"));
}

#[test]
fn env_values_are_trimmed() {
    let env = env_with(&[("MOTHERDUCK_TOKEN", "  env-tok \n")]);
    assert_eq!(resolve_token_with(&env).unwrap(), "env-tok");
    assert_eq!(resolve_token_or_with(None, &env, "").unwrap(), "env-tok");
}

#[test]
fn whitespace_only_env_vars_are_skipped() {
    let env = env_with(&[("motherduck_token", " \t\n"), ("MOTHERDUCK_TOKEN", "real-token")]);
    assert_eq!(resolve_token_with(&env).unwrap(), "real-token");

    let env = env_with(&[("MOTHERDUCK_TOKEN", "   ")]);
    assert_eq!(resolve_token_with(&env).unwrap_err(), CliError::NoCredential);
}

#[test]
fn read_token_from_reader_trims() {
    assert_eq!(read_token_from_reader("  abc \t\n").unwrap(), "abc");
    assert_eq!(read_token_from_reader("\n").unwrap_err(), CliError::EmptyStdin);
}
