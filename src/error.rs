//! The ways an operation of the library can fail.
use vstd::prelude::*;

verus! {

#[derive(Clone, Copy, Debug, PartialEq, Eq, Structural)]
pub enum WeatherError {
    /// The configuration store could not be read.
    ConfigUnreadable,
    /// The configuration store could not be written.
    ConfigWriteFailed,
    /// No strategy answers to the provider name given.
    UnknownProvider,
    /// The provider has no API key in the configuration store.
    MissingCredential,
    /// The request did not reach the provider, or its answer could not be read.
    NetworkError,
    /// The provider's answer is not a JSON document.
    ResponseParseError,
}

impl WeatherError {
    pub open spec fn spec_is_fatal(self) -> bool {
        self != WeatherError::UnknownProvider
    }

    /// Whether the failure ends the run with an error; an unknown provider is
    /// only reported.
    pub fn is_fatal(&self) -> (r: bool)
        ensures
            r == self.spec_is_fatal(),
    {
        !matches!(self, WeatherError::UnknownProvider)
    }

    /// A short description of the failure.
    pub fn message(&self) -> &'static str {
        match self {
            WeatherError::ConfigUnreadable => "the configuration file could not be read",
            WeatherError::ConfigWriteFailed => "the configuration file could not be written",
            WeatherError::UnknownProvider => "unknown provider",
            WeatherError::MissingCredential => "empty configuration file",
            WeatherError::NetworkError => "the weather provider could not be reached",
            WeatherError::ResponseParseError => "the weather provider's answer is not JSON",
        }
    }
}

} // verus!
