//! The providers of weather data that this library knows by name.

use vstd::prelude::*;
use vstd::string::StrSliceExecFns;

verus! {

/// What can go wrong with the choice of a provider.
#[derive(Clone, Copy, Debug, PartialEq, Eq, Structural)]
pub enum ProviderError {
    /// No provider has the name that was given.
    ProviderNotFound,
    /// The provider is known, but there is no client for it.
    ProviderNotImplemented,
}

/// A provider of weather data. There are clients for OpenWeather and for
/// WeatherAPI; the other two are known by name only.
#[derive(Clone, Copy, Debug, PartialEq, Eq, Hash, Structural)]
pub enum Provider {
    OpenWeather,
    WeatherApi,
    AccuWeather,
    AerisWeather,
}

/// A character with an ASCII capital letter made small.
pub open spec fn ascii_lower(c: char) -> char {
    if 'A' <= c && c <= 'Z' {
        ((c as u8) + 32) as char
    } else {
        c
    }
}

/// A text with its ASCII capital letters made small.
pub open spec fn ascii_lowercase(text: Seq<char>) -> Seq<char> {
    text.map_values(|c: char| ascii_lower(c))
}

/// Makes an ASCII capital letter small.
fn to_ascii_lower(c: char) -> (r: char)
    ensures
        r == ascii_lower(c),
{
    if 'A' <= c && c <= 'Z' {
        ((c as u8) + 32) as char
    } else {
        c
    }
}

/// Tells whether a text, with its ASCII capital letters made small, is the
/// given name.
fn is_name(text: &str, name: &str) -> (r: bool)
    ensures
        r == (ascii_lowercase(text@) == name@),
{
    let length = text.unicode_len();
    if length != name.unicode_len() {
        return false;
    }
    let mut at: usize = 0;
    while at < length
        invariant
            at <= length,
            length == text@.len(),
            length == name@.len(),
            forall|i: int| 0 <= i < at ==> ascii_lower(text@[i]) == name@[i],
        decreases length - at,
    {
        if to_ascii_lower(text.get_char(at)) != name.get_char(at) {
            return false;
        }
        at = at + 1;
    }
    assert(ascii_lowercase(text@) =~= name@);
    true
}

impl Provider {
    /// The name by which a provider is chosen and shown.
    pub open spec fn name(self) -> Seq<char> {
        match self {
            Provider::OpenWeather => "open-weather"@,
            Provider::WeatherApi => "weather-api"@,
            Provider::AccuWeather => "accu-weather"@,
            Provider::AerisWeather => "aeris-weather"@,
        }
    }

    /// Whether there is a client for the provider.
    pub open spec fn implemented(self) -> bool {
        self == Provider::OpenWeather || self == Provider::WeatherApi
    }

    /// The provider of a name. ASCII capital letters in it count as small
    /// ones.
    pub fn from_str(s: &str) -> (r: Result<Provider, ProviderError>)
        ensures
            match r {
                Ok(provider) => ascii_lowercase(s@) == provider.name(),
                Err(error) => error == ProviderError::ProviderNotFound && forall|
                    provider: Provider,
                | ascii_lowercase(s@) != #[trigger] provider.name(),
            },
    {
        if is_name(s, "open-weather") {
            Ok(Provider::OpenWeather)
        } else if is_name(s, "weather-api") {
            Ok(Provider::WeatherApi)
        } else if is_name(s, "accu-weather") {
            Ok(Provider::AccuWeather)
        } else if is_name(s, "aeris-weather") {
            Ok(Provider::AerisWeather)
        } else {
            Err(ProviderError::ProviderNotFound)
        }
    }

    /// The name of the provider.
    pub fn to_string(&self) -> (r: String)
        ensures
            r@ == self.name(),
    {
        match self {
            Provider::OpenWeather => "open-weather".to_owned(),
            Provider::WeatherApi => "weather-api".to_owned(),
            Provider::AccuWeather => "accu-weather".to_owned(),
            Provider::AerisWeather => "aeris-weather".to_owned(),
        }
    }

    /// All providers, in the order in which they are listed.
    pub fn get_all_variants() -> (r: [Provider; 4])
        ensures
            r@ == seq![
                Provider::OpenWeather,
                Provider::WeatherApi,
                Provider::AccuWeather,
                Provider::AerisWeather,
            ],
    {
        [
            Provider::OpenWeather,
            Provider::WeatherApi,
            Provider::AccuWeather,
            Provider::AerisWeather,
        ]
    }

    /// The providers that have no client, in the order in which providers are
    /// listed.
    pub fn not_implemented_providers() -> (r: Vec<Provider>)
        ensures
            r@ == seq![Provider::AccuWeather, Provider::AerisWeather],
            forall|provider: Provider| r@.contains(provider) <==> !provider.implemented(),
    {
        let mut providers: Vec<Provider> = Vec::new();
        providers.push(Provider::AccuWeather);
        providers.push(Provider::AerisWeather);
        assert(providers@ =~= seq![Provider::AccuWeather, Provider::AerisWeather]);
        providers
    }

    /// Tells whether there is a client for the provider.
    pub fn is_implemented(&self) -> (r: bool)
        ensures
            r == self.implemented(),
    {
        match self {
            Provider::OpenWeather => true,
            Provider::WeatherApi => true,
            Provider::AccuWeather => false,
            Provider::AerisWeather => false,
        }
    }
}

impl Default for Provider {
    /// OpenWeather, unless another provider is selected.
    fn default() -> (r: Provider)
        ensures
            r == Provider::OpenWeather,
    {
        Provider::OpenWeather
    }
}

} // verus!
