use dkdc_md_cli::confirm::{
    confirm_decision, delete_token_prompt, delete_user_prompt, is_affirmative, needs_prompt,
};
use dkdc_md_cli::errors::CliError;

#[test]
fn affirmative_answers() {
    assert!(is_affirmative("y"));
    assert!(is_affirmative("Y"));
    assert!(is_affirmative("yes"));
    assert!(is_affirmative("YES"));
    assert!(is_affirmative("Yes"));
    assert!(is_affirmative("  yes \n"));
}

#[test]
fn negative_answers() {
    assert!(!is_affirmative(""));
    assert!(!is_affirmative("n"));
    assert!(!is_affirmative("no"));
    assert!(!is_affirmative("yess"));
    assert!(!is_affirmative("ye"));
    assert!(!is_affirmative("y e s"));
}

#[test]
fn gate_bypassed_with_yes_flag() {
    assert!(!needs_prompt(true, true));
    assert!(confirm_decision(true, true, None).is_ok());
}

#[test]
fn gate_bypassed_when_not_interactive() {
    assert!(!needs_prompt(false, false));
    assert!(confirm_decision(false, false, None).is_ok());
}

#[test]
fn gate_accepts_affirmative_answer() {
    assert!(needs_prompt(false, true));
    assert!(confirm_decision(false, true, Some("y\n")).is_ok());
    assert!(confirm_decision(false, true, Some("Yes")).is_ok());
}

#[test]
fn gate_aborts_on_anything_else() {
    assert_eq!(confirm_decision(false, true, Some("")).unwrap_err(), CliError::Aborted);
    assert_eq!(confirm_decision(false, true, Some("no")).unwrap_err(), CliError::Aborted);
    assert_eq!(confirm_decision(false, true, None).unwrap_err(), CliError::Aborted);
    assert_eq!(CliError::Aborted.message(), "aborted");
}

#[test]
fn prompts_name_their_target() {
    assert_eq!(
        delete_user_prompt("svc_test"),
        "Delete service account 'svc_test'? [y/N] "
    );
    assert_eq!(delete_token_prompt("t123"), "Delete token 't123'? [y/N] ");
}
