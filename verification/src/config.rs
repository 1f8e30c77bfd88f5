//! The configuration: which provider is selected, and where and with which
//! key each provider is asked.

use crate::providers::Provider;
use crate::services::{trim_url, trimmed_url};
use vstd::prelude::*;

verus! {

/// What can go wrong with the configuration.
#[derive(Debug, PartialEq)]
pub enum ConfigError {
    /// The provider named first lacks what a client needs; the configuration
    /// file is named second.
    ProviderConfig(String, String),
}

/// Where a provider is asked, and with which key, if one has been given.
#[derive(Debug, PartialEq)]
pub struct ProviderConfig {
    /// The base URL, kept without the path separator that may have ended it.
    pub url: String,
    pub api_key: Option<String>,
}

/// The whole configuration.
#[derive(Debug, PartialEq)]
pub struct MainConfig {
    /// The provider that is asked unless a request names another.
    pub selected_provider: Provider,
    pub open_weather: ProviderConfig,
    pub weather_api: ProviderConfig,
    pub accu_weather: ProviderConfig,
    pub aeris_weather: ProviderConfig,
}

/// The configuration of a provider as a value.
pub struct ProviderConfigView {
    pub url: Seq<char>,
    pub api_key: Option<Seq<char>>,
}

/// The whole configuration as a value.
pub struct MainConfigView {
    pub selected_provider: Provider,
    pub open_weather: ProviderConfigView,
    pub weather_api: ProviderConfigView,
    pub accu_weather: ProviderConfigView,
    pub aeris_weather: ProviderConfigView,
}

impl View for ProviderConfig {
    type V = ProviderConfigView;

    open spec fn view(&self) -> ProviderConfigView {
        ProviderConfigView {
            url: self.url@,
            api_key: match self.api_key {
                Some(key) => Some(key@),
                None => None,
            },
        }
    }
}

impl View for MainConfig {
    type V = MainConfigView;

    open spec fn view(&self) -> MainConfigView {
        MainConfigView {
            selected_provider: self.selected_provider,
            open_weather: self.open_weather@,
            weather_api: self.weather_api@,
            accu_weather: self.accu_weather@,
            aeris_weather: self.aeris_weather@,
        }
    }
}

impl MainConfigView {
    /// The configuration of one provider.
    pub open spec fn of(self, provider: Provider) -> ProviderConfigView {
        match provider {
            Provider::OpenWeather => self.open_weather,
            Provider::WeatherApi => self.weather_api,
            Provider::AccuWeather => self.accu_weather,
            Provider::AerisWeather => self.aeris_weather,
        }
    }

    /// The configuration with that of one provider replaced.
    pub open spec fn with(self, provider: Provider, config: ProviderConfigView) -> MainConfigView {
        match provider {
            Provider::OpenWeather => MainConfigView { open_weather: config, ..self },
            Provider::WeatherApi => MainConfigView { weather_api: config, ..self },
            Provider::AccuWeather => MainConfigView { accu_weather: config, ..self },
            Provider::AerisWeather => MainConfigView { aeris_weather: config, ..self },
        }
    }

    /// The providers that have a key, in the order in which providers are
    /// listed.
    pub open spec fn configured(self) -> Seq<Provider> {
        let first: Seq<Provider> = if self.open_weather.api_key is Some {
            seq![Provider::OpenWeather]
        } else {
            seq![]
        };
        let second: Seq<Provider> = if self.weather_api.api_key is Some {
            first.push(Provider::WeatherApi)
        } else {
            first
        };
        let third: Seq<Provider> = if self.accu_weather.api_key is Some {
            second.push(Provider::AccuWeather)
        } else {
            second
        };
        if self.aeris_weather.api_key is Some {
            third.push(Provider::AerisWeather)
        } else {
            third
        }
    }
}

/// The configured providers are those that have a key, each listed once.
pub proof fn lemma_configured_are_those_with_key(config: MainConfigView)
    ensures
        forall|provider: Provider|
            config.configured().contains(provider) <==> (#[trigger] config.of(provider)).api_key
                is Some,
        config.configured().no_duplicates(),
{
    let listed = config.configured();
    let first: Seq<Provider> = if config.open_weather.api_key is Some {
        seq![Provider::OpenWeather]
    } else {
        seq![]
    };
    let second: Seq<Provider> = if config.weather_api.api_key is Some {
        first.push(Provider::WeatherApi)
    } else {
        first
    };
    let third: Seq<Provider> = if config.accu_weather.api_key is Some {
        second.push(Provider::AccuWeather)
    } else {
        second
    };
    assert forall|provider: Provider|
        listed.contains(provider) <==> (#[trigger] config.of(provider)).api_key is Some by {
        if config.of(provider).api_key is Some {
            match provider {
                Provider::OpenWeather => {
                    assert(listed[0] == provider);
                },
                Provider::WeatherApi => {
                    assert(listed[second.len() - 1] == provider);
                },
                Provider::AccuWeather => {
                    assert(listed[third.len() - 1] == provider);
                },
                Provider::AerisWeather => {
                    assert(listed[listed.len() - 1] == provider);
                },
            }
        }
    }
}

impl Default for ProviderConfig {
    /// No URL and no key.
    fn default() -> (r: ProviderConfig)
        ensures
            r@.url.len() == 0,
            r@.api_key is None,
    {
        ProviderConfig { url: String::new(), api_key: None }
    }
}

impl Default for MainConfig {
    /// OpenWeather is selected; every provider has its public URL and no
    /// key.
    fn default() -> (r: MainConfig)
        ensures
            r@.selected_provider == Provider::OpenWeather,
            r@.open_weather.url == "https://api.openweathermap.org/data/2.5/weather"@,
            r@.weather_api.url == "https://api.weatherapi.com/v1"@,
            r@.accu_weather.url == "http://dataservice.accuweather.com/currentconditions/v1"@,
            r@.aeris_weather.url == "https://api.aerisapi.com/conditions"@,
            forall|provider: Provider| (#[trigger] r@.of(provider)).api_key is None,
    {
        MainConfig {
            selected_provider: Provider::OpenWeather,
            open_weather: ProviderConfig {
                url: "https://api.openweathermap.org/data/2.5/weather".to_owned(),
                api_key: None,
            },
            weather_api: ProviderConfig {
                url: "https://api.weatherapi.com/v1".to_owned(),
                api_key: None,
            },
            accu_weather: ProviderConfig {
                url: "http://dataservice.accuweather.com/currentconditions/v1".to_owned(),
                api_key: None,
            },
            aeris_weather: ProviderConfig {
                url: "https://api.aerisapi.com/conditions".to_owned(),
                api_key: None,
            },
        }
    }
}

impl ProviderConfig {
    /// The configuration with a URL and a key. One path separator at the end
    /// of the URL is dropped.
    pub fn new(url: String, api_key: Option<String>) -> (r: ProviderConfig)
        ensures
            r@.url == trimmed_url(url@),
            r.api_key == api_key,
    {
        ProviderConfig { url: trim_url(url), api_key }
    }
}

impl MainConfig {
    /// The configuration of one provider.
    pub fn provider_config(&self, provider: &Provider) -> (r: &ProviderConfig)
        ensures
            r@ == self@.of(*provider),
    {
        match provider {
            Provider::OpenWeather => &self.open_weather,
            Provider::WeatherApi => &self.weather_api,
            Provider::AccuWeather => &self.accu_weather,
            Provider::AerisWeather => &self.aeris_weather,
        }
    }

    /// The providers that have a key.
    pub fn configured_providers(&self) -> (r: Vec<Provider>)
        ensures
            r@ == self@.configured(),
    {
        let mut configured: Vec<Provider> = Vec::new();
        if self.open_weather.api_key.is_some() {
            configured.push(Provider::OpenWeather);
        }
        if self.weather_api.api_key.is_some() {
            configured.push(Provider::WeatherApi);
        }
        if self.accu_weather.api_key.is_some() {
            configured.push(Provider::AccuWeather);
        }
        if self.aeris_weather.api_key.is_some() {
            configured.push(Provider::AerisWeather);
        }
        configured
    }
}

} // verus!
