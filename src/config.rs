use vstd::prelude::*;

use crate::error::PumpError;

verus! {

#[verifier::external_type_specification]
#[verifier::external_body]
pub struct ExUrl(url::Url);

#[verifier::external_type_specification]
#[verifier::external_body]
pub struct ExUrlParseError(url::ParseError);

/// Whether url reads an absolute URL from a text.
pub uninterp spec fn url_accepts(s: Seq<char>) -> bool;

/// Relies on url::Url::parse: it reads an absolute URL, or fails.
#[verifier::external_body]
fn parse_url(s: &str) -> (r: Result<url::Url, url::ParseError>)
    ensures
        r is Ok <==> url_accepts(s@),
{
    url::Url::parse(s)
}

/// Reads the endpoint address once, at startup. An address that is not an
/// absolute URL is the one fatal failure of the pump.
pub fn parse_endpoint(s: &str) -> (r: Result<url::Url, PumpError>)
    ensures
        r is Ok <==> url_accepts(s@),
        r is Err ==> r == Err::<url::Url, PumpError>(PumpError::ConfigurationFailure),
{
    match parse_url(s) {
        Ok(u) => Ok(u),
        Err(_) => Err(PumpError::ConfigurationFailure),
    }
}

/// Resolves one setting: the command-line value wins, then the environment's,
/// then the default.
pub fn resolve_arg(default_val: &str, env_val: Option<String>, cli_arg: Option<String>) -> (r: String)
    ensures
        r@ == match cli_arg {
            Some(c) => c@,
            None => match env_val {
                Some(e) => e@,
                None => default_val@,
            },
        },
{
    match cli_arg {
        Some(c) => c,
        None => match env_val {
            Some(e) => e,
            None => default_val.to_string(),
        },
    }
}

} // verus!
