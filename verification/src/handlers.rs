//! What the commands do to the configuration, and how the client of a
//! provider is chosen.

use crate::config::{ConfigError, MainConfig, MainConfigView, ProviderConfig, ProviderConfigView};
use crate::models::WeatherData;
use crate::openweather_service::OpenWeatherApiService;
use crate::providers::{Provider, ProviderError};
use crate::services::{
    trimmed_url, ApiRequest, ApiRequestView, ClientView, Reading, ServiceError, WeatherApi,
    WeatherApiError,
};
use crate::weatherapi_service::WeatherApiService;
use vstd::prelude::*;

verus! {

/// The configuration file, below the user's configuration directory.
pub const CONFIG_FILE: &'static str = "weather-rs/config.toml";

/// Any failure of a command.
#[derive(Debug)]
pub enum HandlerError {
    Config(ConfigError),
    Provider(ProviderError),
    Service(ServiceError),
}

/// The client of one of the providers that have one. Whoever holds it asks
/// for the weather without knowing which provider answers.
#[derive(Debug)]
pub enum WeatherService {
    OpenWeather(OpenWeatherApiService),
    WeatherApi(WeatherApiService),
}

/// What the list of providers says of one of them.
#[derive(Clone, Copy, Debug, PartialEq, Eq, Structural)]
pub enum ProviderStatus {
    /// There is no client for it.
    NotSupported,
    /// There is a client, and it has a key.
    Configured,
    /// There is a client, and it has no key.
    NotConfigured,
}

/// One line of the list of providers.
#[derive(Clone, Copy, Debug, PartialEq, Eq, Structural)]
pub struct ProviderEntry {
    pub provider: Provider,
    pub status: ProviderStatus,
    /// Whether this is the provider that is asked by default.
    pub selected: bool,
}

/// The line for one provider: that it has no client counts before that it has
/// a key.
pub open spec fn entry_for(
    provider: Provider,
    selected: Provider,
    configured: Seq<Provider>,
    not_implemented: Seq<Provider>,
) -> ProviderEntry {
    ProviderEntry {
        provider,
        status: if not_implemented.contains(provider) {
            ProviderStatus::NotSupported
        } else if configured.contains(provider) {
            ProviderStatus::Configured
        } else {
            ProviderStatus::NotConfigured
        },
        selected: provider == selected,
    }
}

/// The providers in the order of the list.
pub open spec fn all_providers() -> Seq<Provider> {
    seq![Provider::OpenWeather, Provider::WeatherApi, Provider::AccuWeather, Provider::AerisWeather]
}

/// The configuration after a provider has been given a key: its URL is the
/// new one if there is one, without the path separator that may end it, else
/// the one it had.
pub open spec fn configured_with(
    config: MainConfigView,
    provider: Provider,
    url: Option<Seq<char>>,
    api_key: Seq<char>,
) -> MainConfigView {
    config.with(
        provider,
        ProviderConfigView {
            url: match url {
                Some(url) => trimmed_url(url),
                None => config.of(provider).url,
            },
            api_key: Some(api_key),
        },
    )
}

/// Tells whether a list holds a provider.
fn holds(list: &Vec<Provider>, provider: Provider) -> (r: bool)
    ensures
        r == list@.contains(provider),
{
    let mut at: usize = 0;
    while at < list.len()
        invariant
            at <= list.len(),
            forall|i: int| 0 <= i < at ==> list@[i] != provider,
        decreases list.len() - at,
    {
        if list[at] == provider {
            return true;
        }
        at = at + 1;
    }
    false
}

/// Lists the providers: of each whether it has a client and a key, and which
/// one is selected.
pub fn provider_list(
    selected_provider: &Provider,
    configured_providers: &Vec<Provider>,
    not_implemented_providers: &Vec<Provider>,
) -> (r: Vec<ProviderEntry>)
    ensures
        r@ == all_providers().map_values(
            |provider: Provider|
                entry_for(
                    provider,
                    *selected_provider,
                    configured_providers@,
                    not_implemented_providers@,
                ),
        ),
{
    let providers = Provider::get_all_variants();
    let mut entries: Vec<ProviderEntry> = Vec::new();
    let mut at: usize = 0;
    while at < 4
        invariant
            at <= 4,
            providers@ == all_providers(),
            entries.len() == at,
            forall|i: int|
                0 <= i < at ==> entries@[i] == entry_for(
                    all_providers()[i],
                    *selected_provider,
                    configured_providers@,
                    not_implemented_providers@,
                ),
        decreases 4 - at,
    {
        let provider = providers[at];
        let status = if holds(not_implemented_providers, provider) {
            ProviderStatus::NotSupported
        } else if holds(configured_providers, provider) {
            ProviderStatus::Configured
        } else {
            ProviderStatus::NotConfigured
        };
        entries.push(ProviderEntry { provider, status, selected: provider == *selected_provider });
        at = at + 1;
    }
    entries
}

/// Gives a provider its key, and another URL if one is given. The
/// configuration is changed here and stored elsewhere.
pub fn configure_provider(
    cfg: &mut MainConfig,
    provider: &Provider,
    url: Option<String>,
    api_key: String,
)
    ensures
        final(cfg)@ == configured_with(
            old(cfg)@,
            *provider,
            match url {
                Some(url) => Some(url@),
                None => None,
            },
            api_key@,
        ),
{
    let provider_config = match url {
        Some(url) => ProviderConfig::new(url, Some(api_key)),
        None => ProviderConfig {
            url: cfg.provider_config(provider).url.clone(),
            api_key: Some(api_key),
        },
    };
    match provider {
        Provider::OpenWeather => {
            cfg.open_weather = provider_config;
        },
        Provider::WeatherApi => {
            cfg.weather_api = provider_config;
        },
        Provider::AccuWeather => {
            cfg.accu_weather = provider_config;
        },
        Provider::AerisWeather => {
            cfg.aeris_weather = provider_config;
        },
    }
}

/// Makes a provider the one that is asked by default. The configuration is
/// changed here and stored elsewhere.
pub fn select_provider(cfg: &mut MainConfig, provider: Provider)
    ensures
        final(cfg)@ == (MainConfigView { selected_provider: provider, ..old(cfg)@ }),
{
    cfg.selected_provider = provider;
}

/// The provider to ask: the one that the request names, else the selected
/// one.
pub fn provider_to_ask(requested: Option<Provider>, cfg: &MainConfig) -> (r: Provider)
    ensures
        r == match requested {
            Some(provider) => provider,
            None => cfg@.selected_provider,
        },
{
    match requested {
        Some(provider) => provider,
        None => cfg.selected_provider,
    }
}

/// Makes the client of a provider from the configuration. A provider
/// without a client is refused before anything else is looked at; one
/// without a key is refused next; then the client is made, which fails where
/// the URL or the key is empty. Nothing is sent.
pub fn weather_service(client: reqwest::Client, provider: &Provider, config: MainConfig) -> (r:
    Result<WeatherService, HandlerError>)
    ensures
        if !provider.implemented() {
            r matches Err(HandlerError::Provider(ProviderError::ProviderNotImplemented))
        } else {
            match config@.of(*provider).api_key {
                None => r matches Err(
                    HandlerError::Config(ConfigError::ProviderConfig(name, file)),
                ) && name@ == provider.name() && file@ == CONFIG_FILE@,
                Some(key) => if config@.of(*provider).url.len() == 0 || key.len() == 0 {
                    r matches Err(
                        HandlerError::Service(ServiceError::Api(WeatherApiError::Creation)),
                    )
                } else {
                    &&& r matches Ok(service)
                    &&& service.provider() == *provider
                    &&& service@.url == trimmed_url(config@.of(*provider).url)
                    &&& service@.api_key == key
                    &&& service.transport() == client
                },
            }
        },
{
    match provider {
        Provider::OpenWeather => {
            let open_weather = config.open_weather;
            match open_weather.api_key {
                Some(api_key) => match OpenWeatherApiService::new(
                    client,
                    open_weather.url,
                    api_key,
                ) {
                    Ok(service) => Ok(WeatherService::OpenWeather(service)),
                    Err(error) => Err(HandlerError::Service(ServiceError::Api(error))),
                },
                None => Err(
                    HandlerError::Config(
                        ConfigError::ProviderConfig(provider.to_string(), CONFIG_FILE.to_owned()),
                    ),
                ),
            }
        },
        Provider::WeatherApi => {
            let weather_api = config.weather_api;
            match weather_api.api_key {
                Some(api_key) => match WeatherApiService::new(client, weather_api.url, api_key) {
                    Ok(service) => Ok(WeatherService::WeatherApi(service)),
                    Err(error) => Err(HandlerError::Service(ServiceError::Api(error))),
                },
                None => Err(
                    HandlerError::Config(
                        ConfigError::ProviderConfig(provider.to_string(), CONFIG_FILE.to_owned()),
                    ),
                ),
            }
        },
        Provider::AccuWeather => Err(
            HandlerError::Provider(ProviderError::ProviderNotImplemented),
        ),
        Provider::AerisWeather => Err(
            HandlerError::Provider(ProviderError::ProviderNotImplemented),
        ),
    }
}

impl WeatherApi for WeatherService {
    open spec fn request_for(&self, address: Seq<char>, timestamp: Option<i64>) -> ApiRequestView {
        match self {
            WeatherService::OpenWeather(service) => service.request_for(address, timestamp),
            WeatherService::WeatherApi(service) => service.request_for(address, timestamp),
        }
    }

    open spec fn label(&self) -> Seq<char> {
        match self {
            WeatherService::OpenWeather(service) => service.label(),
            WeatherService::WeatherApi(service) => service.label(),
        }
    }

    fn provider_label(&self) -> (r: String) {
        match self {
            WeatherService::OpenWeather(service) => service.provider_label(),
            WeatherService::WeatherApi(service) => service.provider_label(),
        }
    }

    open spec fn reading_of(
        &self,
        historical: bool,
        status: u16,
        document: Option<serde_json::Value>,
    ) -> Reading {
        match self {
            WeatherService::OpenWeather(service) => service.reading_of(
                historical,
                status,
                document,
            ),
            WeatherService::WeatherApi(service) => service.reading_of(historical, status, document),
        }
    }

    fn request_at(&self, address: &str, timestamp: Option<i64>) -> (r: ApiRequest) {
        match self {
            WeatherService::OpenWeather(service) => service.request_at(address, timestamp),
            WeatherService::WeatherApi(service) => service.request_at(address, timestamp),
        }
    }

    fn read_document(
        &self,
        historical: bool,
        status: u16,
        document: Option<serde_json::Value>,
    ) -> (r: Result<WeatherData, ServiceError>) {
        match self {
            WeatherService::OpenWeather(service) => service.read_document(
                historical,
                status,
                document,
            ),
            WeatherService::WeatherApi(service) => service.read_document(
                historical,
                status,
                document,
            ),
        }
    }
}

impl View for WeatherService {
    type V = ClientView;

    open spec fn view(&self) -> ClientView {
        match self {
            WeatherService::OpenWeather(service) => service@,
            WeatherService::WeatherApi(service) => service@,
        }
    }
}

impl WeatherService {
    /// The provider that the client asks.
    pub open spec fn provider(&self) -> Provider {
        match self {
            WeatherService::OpenWeather(_) => Provider::OpenWeather,
            WeatherService::WeatherApi(_) => Provider::WeatherApi,
        }
    }

    /// The HTTP client that the service was made with.
    pub open spec fn transport(&self) -> reqwest::Client {
        match self {
            WeatherService::OpenWeather(service) => service.transport(),
            WeatherService::WeatherApi(service) => service.transport(),
        }
    }

    /// The HTTP client to send requests through.
    pub fn client(&self) -> (r: &reqwest::Client)
        ensures
            *r == self.transport(),
    {
        match self {
            WeatherService::OpenWeather(service) => service.client(),
            WeatherService::WeatherApi(service) => service.client(),
        }
    }
}

} // verus!
