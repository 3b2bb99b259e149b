//! Credential resolution: a CLI-supplied value (with `-` meaning "taken from
//! standard input") always takes precedence; otherwise a fixed ordered list of
//! environment variables is scanned and the first value that is non-empty
//! after trimming wins. A credential is always whitespace-trimmed before use,
//! whatever its source.
//!
//! The process environment and standard input are read by the caller and
//! handed in as plain values, so resolution itself is pure and verified.
use vstd::prelude::*;

use crate::errors::CliError;
use crate::text::{lemma_trim_idempotent, trim_spec};
use vstd::string::*;

verus! {

/// How many environment variable names are scanned.
pub const ENV_VAR_COUNT: usize = 4;

/// The environment variable names, in descending priority.
pub open spec fn spec_env_var_name(i: int) -> Seq<char> {
    if i == 0 { "motherduck_token"@ }
    else if i == 1 { "MOTHERDUCK_TOKEN"@ }
    else if i == 2 { "motherduck_api_key"@ }
    else { "MOTHERDUCK_API_KEY"@ }
}

pub fn env_var_name(i: usize) -> (r: &'static str)
    requires
        i < ENV_VAR_COUNT,
    ensures
        r@ == spec_env_var_name(i as int),
{
    match i {
        0 => "motherduck_token",
        1 => "MOTHERDUCK_TOKEN",
        2 => "motherduck_api_key",
        _ => "MOTHERDUCK_API_KEY",
    }
}

/// The value under `key` in a name/value list: the first pair whose name
/// matches, as an environment holds each name once.
pub open spec fn pair_lookup(pairs: Seq<(String, String)>, key: Seq<char>) -> Option<Seq<char>>
    decreases pairs.len(),
{
    if pairs.len() == 0 {
        None
    } else if pairs[0].0@ == key {
        Some(pairs[0].1@)
    } else {
        pair_lookup(pairs.drop_first(), key)
    }
}

/// The four looked-up environment values, in priority order.
pub open spec fn env_vals_of(pairs: Seq<(String, String)>) -> Seq<Option<Seq<char>>> {
    Seq::new(ENV_VAR_COUNT as nat, |i: int| pair_lookup(pairs, spec_env_var_name(i)))
}

/// A source that counts as set: present with a value that is non-empty
/// after trimming.
pub open spec fn env_val_set(v: Option<Seq<char>>) -> bool {
    v matches Some(s) && trim_spec(s).len() > 0
}

/// The credential the environment yields: the first source, in priority
/// order, that is set, with its value trimmed. Values that trim to empty
/// are treated as absent and skipped.
pub open spec fn env_choice(vals: Seq<Option<Seq<char>>>) -> Option<Seq<char>>
    decreases vals.len(),
{
    if vals.len() == 0 {
        None
    } else if env_val_set(vals[0]) {
        Some(trim_spec(vals[0]->0))
    } else {
        env_choice(vals.drop_first())
    }
}

/// The index of the source that [`env_choice`] takes, when any is set.
pub open spec fn chosen_slot(vals: Seq<Option<Seq<char>>>) -> Option<int>
    decreases vals.len(),
{
    if vals.len() == 0 {
        None
    } else if env_val_set(vals[0]) {
        Some(0)
    } else {
        match chosen_slot(vals.drop_first()) {
            Some(k) => Some(k + 1),
            None => None,
        }
    }
}

/// `env_choice` returns exactly the trimmed value of the chosen slot.
pub proof fn lemma_env_choice_is_chosen_slot(vals: Seq<Option<Seq<char>>>)
    ensures
        match chosen_slot(vals) {
            Some(k) => 0 <= k < vals.len() && env_val_set(vals[k]) && env_choice(vals)
                == Some(trim_spec(vals[k]->0)),
            None => env_choice(vals) is None,
        },
    decreases vals.len(),
{
    if vals.len() > 0 && !env_val_set(vals[0]) {
        lemma_env_choice_is_chosen_slot(vals.drop_first());
    }
}

/// Among the environment sources, a higher-priority one that is set always
/// wins over every lower-priority one, regardless of which subset is set:
/// whenever slot `i` is set, the chosen slot exists and is at most `i`, and
/// no slot before it is set.
pub proof fn lemma_env_priority(vals: Seq<Option<Seq<char>>>, i: int)
    requires
        0 <= i < vals.len(),
        env_val_set(vals[i]),
    ensures
        chosen_slot(vals) matches Some(k) && 0 <= k <= i && env_val_set(vals[k])
            && env_choice(vals) == Some(trim_spec(vals[k]->0)) && (forall|m: int|
            0 <= m < k ==> !env_val_set(vals[m])),
    decreases vals.len(),
{
    lemma_env_choice_is_chosen_slot(vals);
    if !env_val_set(vals[0]) {
        lemma_env_priority(vals.drop_first(), i - 1);
        let sub = vals.drop_first();
        let k1 = chosen_slot(sub)->0;
        assert(forall|m: int| 0 <= m < k1 + 1 ==> !env_val_set(vals[m])) by {
            assert(forall|m: int| 1 <= m < k1 + 1 ==> vals[m] == sub[m - 1]);
        }
    }
}

/// An environment source holding a value that is empty, or empty after
/// trimming, behaves exactly as if the source were unset.
pub proof fn lemma_empty_env_like_unset(vals: Seq<Option<Seq<char>>>, i: int)
    requires
        0 <= i < vals.len(),
        vals[i] matches Some(s) && trim_spec(s).len() == 0,
    ensures
        env_choice(vals) == env_choice(vals.update(i, None)),
        chosen_slot(vals) == chosen_slot(vals.update(i, None)),
    decreases vals.len(),
{
    let upd = vals.update(i, None);
    if i == 0 {
        assert(upd.drop_first() =~= vals.drop_first());
    } else {
        if !env_val_set(vals[0]) {
            lemma_empty_env_like_unset(vals.drop_first(), i - 1);
            assert(upd.drop_first() =~= vals.drop_first().update(i - 1, None));
        }
    }
}

/// First pair in the list whose name equals `key`.
fn pair_get<'a>(pairs: &'a Vec<(String, String)>, key: &str) -> (r: Option<&'a String>)
    ensures
        r is Some <==> pair_lookup(pairs@, key@) is Some,
        r matches Some(v) ==> pair_lookup(pairs@, key@) == Some(v@),
{
    let n = pairs.len();
    proof {
        assert(pairs@.skip(0) =~= pairs@);
    }
    let mut i: usize = 0;
    while i < n
        invariant
            0 <= i <= n,
            n == pairs@.len(),
            pair_lookup(pairs@, key@) == pair_lookup(pairs@.skip(i as int), key@),
        decreases n - i,
    {
        proof {
            assert(pairs@.skip(i as int)[0] == pairs@[i as int]);
            assert(pairs@.skip(i as int).drop_first() =~= pairs@.skip(i as int + 1));
        }
        if crate::text::str_eq(pairs[i].0.as_str(), key) {
            return Some(&pairs[i].1);
        }
        i += 1;
    }
    proof {
        assert(pairs@.skip(n as int) =~= Seq::<(String, String)>::empty());
    }
    None
}

/// Scan the environment sources in priority order; the first value that is
/// non-empty after trimming is the credential, trimmed.
pub fn resolve_token_with(env_pairs: &Vec<(String, String)>) -> (r: Result<String, CliError>)
    ensures
        match env_choice(env_vals_of(env_pairs@)) {
            Some(s) => r matches Ok(t) && t@ == s,
            None => r == Err::<String, CliError>(CliError::NoCredential),
        },
{
    let ghost vals = env_vals_of(env_pairs@);
    proof {
        assert(vals.skip(0) =~= vals);
    }
    let mut i: usize = 0;
    while i < ENV_VAR_COUNT
        invariant
            0 <= i <= ENV_VAR_COUNT,
            vals == env_vals_of(env_pairs@),
            vals.len() == ENV_VAR_COUNT,
            env_choice(env_vals_of(env_pairs@)) == env_choice(vals.skip(i as int)),
        decreases ENV_VAR_COUNT - i,
    {
        proof {
            assert(vals.skip(i as int)[0] == vals[i as int]);
            assert(vals.skip(i as int).drop_first() =~= vals.skip(i as int + 1));
        }
        let name = env_var_name(i);
        match pair_get(env_pairs, name) {
            Some(v) => {
                let t = crate::text::trim_str(v.as_str());
                if !t.as_str().is_empty() {
                    assert(env_val_set(vals[i as int]));
                    return Ok(t);
                }
            },
            None => {},
        }
        assert(!env_val_set(vals[i as int]));
        i += 1;
    }
    proof {
        assert(vals.skip(ENV_VAR_COUNT as int) =~= Seq::<Option<Seq<char>>>::empty());
    }
    Err(CliError::NoCredential)
}

/// Trim the text that arrived on standard input; an all-whitespace read is
/// an error rather than an empty credential.
pub fn read_token_from_reader(content: &str) -> (r: Result<String, CliError>)
    ensures
        trim_spec(content@).len() == 0 ==> r == Err::<String, CliError>(CliError::EmptyStdin),
        trim_spec(content@).len() > 0 ==> (r matches Ok(t) && t@ == trim_spec(content@)),
{
    let t = crate::text::trim_str(content);
    if t.as_str().is_empty() {
        Err(CliError::EmptyStdin)
    } else {
        Ok(t)
    }
}

/// What resolution returns, given the CLI value, the looked-up environment
/// values and the standard-input text.
pub open spec fn resolve_spec(
    cli: Option<Seq<char>>,
    vals: Seq<Option<Seq<char>>>,
    stdin: Seq<char>,
) -> Result<Seq<char>, CliError> {
    match cli {
        Some(t) => if t == "-"@ {
            if trim_spec(stdin).len() == 0 {
                Err(CliError::EmptyStdin)
            } else {
                Ok(trim_spec(stdin))
            }
        } else {
            if trim_spec(t).len() == 0 {
                Err(CliError::EmptyTokenValue)
            } else {
                Ok(trim_spec(t))
            }
        },
        None => match env_choice(vals) {
            Some(s) => Ok(s),
            None => Err(CliError::NoCredential),
        },
    }
}

/// A CLI-supplied value, when present, always takes precedence: unless it is
/// the stdin sentinel `-`, neither the environment nor standard input can
/// change the outcome, and a value that is non-empty after trimming is chosen.
pub proof fn lemma_cli_flag_precedence(
    t: Seq<char>,
    vals1: Seq<Option<Seq<char>>>,
    vals2: Seq<Option<Seq<char>>>,
    stdin1: Seq<char>,
    stdin2: Seq<char>,
)
    requires
        t != "-"@,
    ensures
        resolve_spec(Some(t), vals1, stdin1) == resolve_spec(Some(t), vals2, stdin2),
        trim_spec(t).len() > 0 ==> resolve_spec(Some(t), vals1, stdin1) == Ok::<
            Seq<char>,
            CliError,
        >(trim_spec(t)),
        trim_spec(t).len() == 0 ==> resolve_spec(Some(t), vals1, stdin1) == Err::<
            Seq<char>,
            CliError,
        >(CliError::EmptyTokenValue),
{
}

/// Whatever the sources hold, a resolved credential is non-empty and
/// whitespace-trimmed: an all-whitespace CLI value or standard input is an
/// error, and environment values that trim to empty are skipped.
pub proof fn lemma_resolved_credential_invariant(
    cli: Option<Seq<char>>,
    vals: Seq<Option<Seq<char>>>,
    stdin: Seq<char>,
)
    ensures
        resolve_spec(cli, vals, stdin) matches Ok(s) ==> s.len() > 0 && s == trim_spec(s),
{
    match cli {
        Some(t) => {
            lemma_trim_idempotent(t);
            lemma_trim_idempotent(stdin);
        },
        None => {
            lemma_env_choice_is_chosen_slot(vals);
            match chosen_slot(vals) {
                Some(k) => lemma_trim_idempotent(vals[k]->0),
                None => {},
            }
        },
    }
}

/// Resolve the credential: CLI value first (with `-` meaning the text read
/// from standard input), then the environment sources in priority order.
pub fn resolve_token_or_with(
    cli_token: Option<&str>,
    env_pairs: &Vec<(String, String)>,
    stdin_content: &str,
) -> (r: Result<String, CliError>)
    ensures
        ({
            let spec_r = resolve_spec(
                match cli_token {
                    Some(t) => Some(t@),
                    None => None,
                },
                env_vals_of(env_pairs@),
                stdin_content@,
            );
            match r {
                Ok(s) => spec_r == Ok::<Seq<char>, CliError>(s@),
                Err(e) => spec_r == Err::<Seq<char>, CliError>(e),
            }
        }),
{
    match cli_token {
        Some(token) => {
            if crate::text::str_eq(token, "-") {
                read_token_from_reader(stdin_content)
            } else {
                let t = crate::text::trim_str(token);
                if t.as_str().is_empty() {
                    Err(CliError::EmptyTokenValue)
                } else {
                    Ok(t)
                }
            }
        },
        None => resolve_token_with(env_pairs),
    }
}

} // verus!
