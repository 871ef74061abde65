//! From a provider name to a request, and from the provider's answer to a
//! result: the decisions of the `configure` and `get` commands.
use vstd::prelude::*;
use crate::credentials::CredentialStore;
use crate::error::WeatherError;
use crate::json::is_json_text;
use crate::provider::{describes, provider_named, Provider, WeatherResult};
use crate::text::{is_space, leading_spaces, trailing_spaces, trim, trimmed};

verus! {

/// Stores `key_input`, trimmed, as the API key of `provider_name`, trimmed.
/// Any name is accepted, known to a strategy or not.
pub fn configure(store: &mut CredentialStore, provider_name: &str, key_input: &str)
    ensures
        final(store)@ == old(store)@.insert(trimmed(provider_name@), trimmed(key_input@)),
{
    store.set(trim(provider_name), trim(key_input));
}

/// The provider that `name` designates, or `UnknownProvider`.
pub fn select_provider(name: &str) -> (r: Result<Provider, WeatherError>)
    ensures
        r matches Ok(p) ==> provider_named(trimmed(name@)) == Some(p),
        r matches Err(e) ==> provider_named(trimmed(name@)) is None && e
            == WeatherError::UnknownProvider,
{
    match Provider::from_name(name) {
        Some(p) => Ok(p),
        None => Err(WeatherError::UnknownProvider),
    }
}

/// The request URL for `provider`, given the key found for it, or
/// `MissingCredential` where none was.
pub fn request_for(provider: Provider, credential: Option<String>, city: &str, days: i32) -> (r:
    Result<String, WeatherError>)
    ensures
        credential matches Some(k) ==> (r matches Ok(url) && url@ == provider.request_url(
            city@,
            days as int,
            k@,
        )),
        credential is None ==> r == Err::<String, WeatherError>(WeatherError::MissingCredential),
{
    match credential {
        Some(k) => Ok(provider.build_request(city, days, k.as_str())),
        None => Err(WeatherError::MissingCredential),
    }
}

/// What the `get` command does for `provider_name`, `city` and `days`, given
/// the keys `creds`: the provider and the URL to fetch, or the reason why no
/// request is due.
pub open spec fn fetch_outcome(
    creds: Map<Seq<char>, Seq<char>>,
    provider_name: Seq<char>,
    city: Seq<char>,
    days: int,
) -> Result<(Provider, Seq<char>), WeatherError> {
    match provider_named(trimmed(provider_name)) {
        None => Err(WeatherError::UnknownProvider),
        Some(p) => if creds.contains_key(p.spec_id()) {
            Ok((p, p.request_url(city, days, creds[p.spec_id()])))
        } else {
            Err(WeatherError::MissingCredential)
        },
    }
}

pub open spec fn plan_view(r: Result<(Provider, String), WeatherError>) -> Result<
    (Provider, Seq<char>),
    WeatherError,
> {
    match r {
        Ok((p, url)) => Ok((p, url@)),
        Err(e) => Err(e),
    }
}

/// What the `get` command sends for `provider_name`, `city` and `days`: the
/// provider and the URL to fetch. No request is due where the provider is
/// unknown (`UnknownProvider`) or has no key in `store`
/// (`MissingCredential`).
pub fn plan_fetch(store: &CredentialStore, provider_name: &str, city: &str, days: i32) -> (r:
    Result<(Provider, String), WeatherError>)
    ensures
        plan_view(r) == fetch_outcome(store@, provider_name@, city@, days as int),
{
    let provider = match select_provider(provider_name) {
        Ok(p) => p,
        Err(e) => {
            return Err(e);
        },
    };
    let credential = store.get(provider.id());
    match request_for(provider, credential, city, days) {
        Ok(url) => Ok((provider, url)),
        Err(e) => Err(e),
    }
}

/// The result of the `get` command from what the fetch of the planned
/// request gave: the body of the answer, or `None` where it failed.
pub fn complete_fetch(provider: Provider, city: &str, days: i32, body: Option<String>) -> (r:
    Result<WeatherResult, WeatherError>)
    ensures
        body is None ==> r == Err::<WeatherResult, WeatherError>(WeatherError::NetworkError),
        body matches Some(raw) ==> {
            &&& r is Err <==> !is_json_text(raw@)
            &&& r matches Err(e) ==> e == WeatherError::ResponseParseError
            &&& r is Ok ==> exists|doc|
                #[trigger] describes(r->Ok_0, provider, doc, city@, days as int)
        },
{
    match body {
        Some(raw) => provider.parse_response(raw.as_str(), city, days),
        None => Err(WeatherError::NetworkError),
    }
}

/// Setting a key for a provider name and then looking that name up, trimmed,
/// gives back the key, trimmed.
pub proof fn lemma_configure_then_get(
    before: Map<Seq<char>, Seq<char>>,
    provider_name: Seq<char>,
    key_input: Seq<char>,
)
    ensures
        ({
            let after = before.insert(trimmed(provider_name), trimmed(key_input));
            after.contains_key(trimmed(provider_name)) && after[trimmed(provider_name)]
                == trimmed(key_input)
        }),
{
}

proof fn lemma_trimmed_plain(s: Seq<char>)
    requires
        s.len() > 0,
        !is_space(s[0]),
        !is_space(s.last()),
    ensures
        trimmed(s) == s,
{
    assert(leading_spaces(s) == 0);
    assert(s.skip(0) =~= s);
    assert(trailing_spaces(s) == 0);
    assert(s.take(s.len() as int) =~= s);
}

/// With no key stored, a request to WeatherAPI is not made: whatever the
/// city and days, the outcome is `MissingCredential`.
pub proof fn lemma_no_key_no_request(city: Seq<char>, days: int)
    ensures
        fetch_outcome(Map::empty(), "weatherapi"@, city, days) == Err::<(Provider, Seq<char>), WeatherError>(
            WeatherError::MissingCredential,
        ),
{
    reveal_strlit("weatherapi");
    reveal_strlit("openweather");
    lemma_trimmed_plain("weatherapi"@);
    assert("weatherapi"@.len() != "openweather"@.len());
}

/// A name that no provider answers to gives `UnknownProvider`, which is not
/// fatal, and no request, whatever keys are stored.
pub proof fn lemma_unknown_provider_no_request(
    creds: Map<Seq<char>, Seq<char>>,
    city: Seq<char>,
    days: int,
)
    ensures
        fetch_outcome(creds, "bogus"@, city, days) == Err::<(Provider, Seq<char>), WeatherError>(
            WeatherError::UnknownProvider,
        ),
        !WeatherError::UnknownProvider.spec_is_fatal(),
{
    reveal_strlit("bogus");
    reveal_strlit("weatherapi");
    reveal_strlit("openweather");
    lemma_trimmed_plain("bogus"@);
    assert("bogus"@.len() != "openweather"@.len());
    assert("bogus"@.len() != "weatherapi"@.len());
}

} // verus!
