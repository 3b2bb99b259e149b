//! The destructive-action confirmation gate's decision logic and prompts.
//! Reading the answer and detecting a terminal are the caller's business;
//! the decision itself is pure.
use vstd::prelude::*;

use crate::errors::CliError;
use crate::text::trim_spec;
use vstd::string::*;

verus! {

/// Whether an answer confirms: its trimmed text is `y` or `yes` in any
/// ASCII case mix.
pub open spec fn is_affirmative_spec(ans: Seq<char>) -> bool {
    let t = trim_spec(ans);
    ||| (t.len() == 1 && (t[0] == 'y' || t[0] == 'Y'))
    ||| (t.len() == 3 && (t[0] == 'y' || t[0] == 'Y') && (t[1] == 'e' || t[1] == 'E') && (t[2]
        == 's' || t[2] == 'S'))
}

pub fn is_affirmative(answer: &str) -> (r: bool)
    ensures
        r == is_affirmative_spec(answer@),
{
    let t = crate::text::trim_str(answer);
    let ts = t.as_str();
    let n = ts.unicode_len();
    if n == 1 {
        let c0 = ts.get_char(0);
        c0 == 'y' || c0 == 'Y'
    } else if n == 3 {
        let c0 = ts.get_char(0);
        let c1 = ts.get_char(1);
        let c2 = ts.get_char(2);
        (c0 == 'y' || c0 == 'Y') && (c1 == 'e' || c1 == 'E') && (c2 == 's' || c2 == 'S')
    } else {
        false
    }
}

/// Whether a question must be asked at all: only without `--yes` and only on
/// an interactive stream; batch use never hangs waiting for an answer.
pub open spec fn needs_prompt_spec(yes: bool, interactive: bool) -> bool {
    !yes && interactive
}

pub fn needs_prompt(yes: bool, interactive: bool) -> (r: bool)
    ensures
        r == needs_prompt_spec(yes, interactive),
{
    !yes && interactive
}

/// The confirmation decision: auto-confirmed when no prompt is owed;
/// otherwise only an affirmative answer lets the action proceed, and any
/// other answer (or none) aborts without an API call.
pub fn confirm_decision(yes: bool, interactive: bool, answer: Option<&str>) -> (r: Result<
    (),
    CliError,
>)
    ensures
        !needs_prompt_spec(yes, interactive) ==> r is Ok,
        needs_prompt_spec(yes, interactive) ==> (r is Ok <==> (answer matches Some(a)
            && is_affirmative_spec(a@))),
        r is Err ==> r == Err::<(), CliError>(CliError::Aborted),
{
    if !needs_prompt(yes, interactive) {
        return Ok(());
    }
    match answer {
        Some(a) => {
            if is_affirmative(a) {
                Ok(())
            } else {
                Err(CliError::Aborted)
            }
        },
        None => Err(CliError::Aborted),
    }
}

/// The prompt before deleting a service account.
pub fn delete_user_prompt(username: &str) -> (r: String)
    ensures
        r@ == "Delete service account '"@ + username@ + "'? [y/N] "@,
{
    let mut s: String = "Delete service account '".to_owned();
    s.append(username);
    s.append("'? [y/N] ");
    s
}

/// The prompt before deleting a token.
pub fn delete_token_prompt(token_id: &str) -> (r: String)
    ensures
        r@ == "Delete token '"@ + token_id@ + "'? [y/N] "@,
{
    let mut s: String = "Delete token '".to_owned();
    s.append(token_id);
    s.append("'? [y/N] ");
    s
}

} // verus!
