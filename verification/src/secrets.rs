//! Where a secret comes from: the secrets manager where it answers, and else
//! the environment.

use vstd::prelude::*;
use vstd::string::StringExecFns;

verus! {

/// The address of the secrets manager, unless configured otherwise.
pub fn default_api_url() -> (url: &'static str)
    ensures
        url@ == "https://api.bitwarden.com"@,
{
    "https://api.bitwarden.com"
}

/// The address of a secret.
pub open spec fn secret_address(api_url: Seq<char>, secret_id: Seq<char>) -> Seq<char> {
    api_url + "/secrets/"@ + secret_id
}

/// Builds the address of a secret.
pub fn secret_url(api_url: &str, secret_id: &str) -> (url: String)
    ensures
        url@ == secret_address(api_url@, secret_id@),
{
    let mut url = api_url.to_owned();
    url.append("/secrets/");
    url.append(secret_id);
    url
}

/// The message for a secret that neither source has.
pub open spec fn missing_secret_text(secret_id: Seq<char>, env_fallback: Seq<char>) -> Seq<char> {
    "Secret '"@ + secret_id + "' not found in Bitwarden and env var '"@ + env_fallback
        + "' is not set"@
}

/// Picks the value of a secret. `fetched` is what the manager answered, or
/// `None` where it was not asked; `fallback` is the value of the environment
/// variable, if it is set. The manager's value wins; where the manager was
/// not asked or failed, the variable's value is taken; where that is missing
/// too, the result is an error that names both.
pub fn resolve(
    fetched: Option<Result<String, String>>,
    fallback: Option<String>,
    secret_id: &str,
    env_fallback: &str,
) -> (r: Result<String, String>)
    ensures
        match fetched {
            Some(Ok(value)) => r == Ok::<String, String>(value),
            _ => match fallback {
                Some(value) => r == Ok::<String, String>(value),
                None => r is Err && r->Err_0@ == missing_secret_text(secret_id@, env_fallback@),
            },
        },
{
    match fetched {
        Some(Ok(value)) => Ok(value),
        _ => match fallback {
            Some(value) => Ok(value),
            None => {
                let mut text = "Secret '".to_owned();
                text.append(secret_id);
                text.append("' not found in Bitwarden and env var '");
                text.append(env_fallback);
                text.append("' is not set");
                Err(text)
            },
        },
    }
}

} // verus!
