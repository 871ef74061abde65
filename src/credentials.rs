//! The store of API keys, one per provider name, kept in a
//! `system_config::Config`. Reading it from disk and writing it back is left
//! to the caller; the store itself only looks keys up and sets them.
use vstd::prelude::*;

verus! {

/// The configuration of `system_config`: a map from strings to strings and
/// the path of its file.
#[verifier::external_type_specification]
#[verifier::external_body]
pub struct ExConfig(system_config::Config);

/// The key/value pairs that a configuration holds.
pub uninterp spec fn config_entries(c: system_config::Config) -> Map<Seq<char>, Seq<char>>;

/// Relies on `system_config::Config::get`: it looks `key` up in the map of
/// the configuration and hands back a copy of the value.
#[verifier::external_body]
fn config_get(c: &system_config::Config, key: &str) -> (r: Option<String>)
    ensures
        r is Some <==> config_entries(*c).contains_key(key@),
        r matches Some(v) ==> v@ == config_entries(*c)[key@],
{
    c.get(key)
}

/// Relies on `system_config::Config::insert`: it sets `key` to `value` in the
/// map of the configuration and touches nothing else.
#[verifier::external_body]
fn config_insert(c: &mut system_config::Config, key: &str, value: &str)
    ensures
        config_entries(*final(c)) == config_entries(*old(c)).insert(key@, value@),
{
    c.insert(key, value)
}

/// API keys by provider name. A name maps to at most one key; setting it
/// again replaces the key.
pub struct CredentialStore {
    config: system_config::Config,
}

impl View for CredentialStore {
    type V = Map<Seq<char>, Seq<char>>;

    closed spec fn view(&self) -> Map<Seq<char>, Seq<char>> {
        config_entries(self.config)
    }
}

impl CredentialStore {
    /// The store over a configuration that was loaded.
    pub fn from_config(config: system_config::Config) -> (r: CredentialStore)
        ensures
            r@ == config_entries(config),
    {
        CredentialStore { config }
    }

    /// The configuration under the store, to be written back.
    pub fn config(&self) -> (r: &system_config::Config)
        ensures
            config_entries(*r) == self@,
    {
        &self.config
    }

    /// The API key of `provider`, if one was set.
    pub fn get(&self, provider: &str) -> (r: Option<String>)
        ensures
            r is Some <==> self@.contains_key(provider@),
            r matches Some(k) ==> k@ == self@[provider@],
    {
        config_get(&self.config, provider)
    }

    /// Sets the API key of `provider` to `key`, replacing any earlier one.
    pub fn set(&mut self, provider: &str, key: &str)
        ensures
            final(self)@ == old(self)@.insert(provider@, key@),
    {
        config_insert(&mut self.config, provider, key);
    }
}

} // verus!
