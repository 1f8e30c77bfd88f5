use weather_rs::config::{ConfigError, MainConfig, ProviderConfig};
use weather_rs::handlers::{
    configure_provider, provider_list, provider_to_ask, select_provider, weather_service,
    HandlerError, ProviderEntry, ProviderStatus, WeatherService, CONFIG_FILE,
};
use weather_rs::providers::{Provider, ProviderError};
use weather_rs::services::{ServiceError, WeatherApi, WeatherApiError};

fn with_key(provider: Provider, url: Option<&str>, api_key: &str) -> MainConfig {
    let mut config = MainConfig::default();
    configure_provider(&mut config, &provider, url.map(|u| u.to_string()), api_key.to_string());
    config
}

#[test]
fn test_configure_provider() {
    for (url, api_key) in [
        (Some("https://example.com".to_owned()), "api_key".to_owned()),
        (Some("".to_owned()), "api_key".to_owned()),
    ] {
        let mut config = MainConfig::default();
        let provider = Provider::OpenWeather;

        configure_provider(&mut config, &provider, url.clone(), api_key.clone());

        match provider {
            Provider::OpenWeather => {
                assert_eq!(
                    config.open_weather,
                    ProviderConfig { url: url.unwrap(), api_key: Some(api_key.clone()) }
                );
            }
            _ => panic!("Unexpected provider selection"),
        }
    }
}

#[test]
fn test_configure_provider_keeps_url_and_the_rest() {
    for provider in Provider::get_all_variants() {
        let mut config = MainConfig::default();
        let mut expected = MainConfig::default();
        configure_provider(&mut config, &provider, None, "secret".to_string());
        match provider {
            Provider::OpenWeather => expected.open_weather.api_key = Some("secret".to_string()),
            Provider::WeatherApi => expected.weather_api.api_key = Some("secret".to_string()),
            Provider::AccuWeather => expected.accu_weather.api_key = Some("secret".to_string()),
            Provider::AerisWeather => expected.aeris_weather.api_key = Some("secret".to_string()),
        }
        assert_eq!(config, expected);
    }
}

#[test]
fn test_configure_provider_stores_url_without_trailing_separator() {
    let mut config = MainConfig::default();
    configure_provider(
        &mut config,
        &Provider::WeatherApi,
        Some("https://api.weatherapi.com/v1/".to_string()),
        "k".to_string(),
    );
    assert_eq!(
        config.weather_api,
        ProviderConfig { url: "https://api.weatherapi.com/v1".to_string(), api_key: Some("k".to_string()) }
    );
    configure_provider(&mut config, &Provider::WeatherApi, Some("/".to_string()), "k".to_string());
    assert_eq!(config.weather_api.url, "");
}

#[test]
fn test_select_provider() {
    let mut config = MainConfig::default();
    let provider = Provider::WeatherApi;

    select_provider(&mut config, provider.clone());

    assert_eq!(config.selected_provider, provider);
}

#[test]
fn test_select_provider_changes_nothing_else() {
    let mut config = with_key(Provider::WeatherApi, Some("https://w.example"), "k");
    let mut expected = with_key(Provider::WeatherApi, Some("https://w.example"), "k");
    select_provider(&mut config, Provider::AerisWeather);
    expected.selected_provider = Provider::AerisWeather;
    assert_eq!(config, expected);
}

#[test]
fn test_provider_to_ask() {
    let mut config = MainConfig::default();
    select_provider(&mut config, Provider::WeatherApi);
    assert_eq!(provider_to_ask(None, &config), Provider::WeatherApi);
    assert_eq!(provider_to_ask(Some(Provider::AccuWeather), &config), Provider::AccuWeather);
}

#[test]
fn test_provider_list() {
    let entries = provider_list(
        &Provider::WeatherApi,
        &vec![Provider::WeatherApi, Provider::AccuWeather],
        &vec![Provider::AccuWeather, Provider::AerisWeather],
    );
    assert_eq!(
        entries,
        vec![
            ProviderEntry {
                provider: Provider::OpenWeather,
                status: ProviderStatus::NotConfigured,
                selected: false
            },
            ProviderEntry {
                provider: Provider::WeatherApi,
                status: ProviderStatus::Configured,
                selected: true
            },
            ProviderEntry {
                provider: Provider::AccuWeather,
                status: ProviderStatus::NotSupported,
                selected: false
            },
            ProviderEntry {
                provider: Provider::AerisWeather,
                status: ProviderStatus::NotSupported,
                selected: false
            },
        ]
    );
}

#[test]
fn test_provider_list_of_default_configuration() {
    let config = MainConfig::default();
    let entries = provider_list(&config.selected_provider, &config.configured_providers(), &vec![]);
    assert_eq!(entries.len(), 4);
    assert!(entries.iter().all(|entry| entry.status == ProviderStatus::NotConfigured));
    assert_eq!(
        entries.iter().map(|entry| entry.selected).collect::<Vec<bool>>(),
        vec![true, false, false, false]
    );
}

#[test]
fn test_not_implemented_providers_are_refused() {
    for provider in [Provider::AccuWeather, Provider::AerisWeather] {
        // Neither a missing key nor a complete configuration makes a difference.
        for config in [MainConfig::default(), with_key(provider, Some("https://a.example"), "k")] {
            let result = weather_service(reqwest::Client::new(), &provider, config);
            assert!(matches!(
                result,
                Err(HandlerError::Provider(ProviderError::ProviderNotImplemented))
            ));
        }
    }
}

#[test]
fn test_weather_service_needs_a_key() {
    for provider in [Provider::OpenWeather, Provider::WeatherApi] {
        match weather_service(reqwest::Client::new(), &provider, MainConfig::default()) {
            Err(HandlerError::Config(error)) => assert_eq!(
                error,
                ConfigError::ProviderConfig(provider.to_string(), CONFIG_FILE.to_string())
            ),
            other => panic!("{:?}", other),
        }
    }
    assert_eq!(CONFIG_FILE, "weather-rs/config.toml");
}

#[test]
fn test_weather_service_needs_url_and_key_that_are_not_empty() {
    for provider in [Provider::OpenWeather, Provider::WeatherApi] {
        for (url, api_key) in [("", "k"), ("https://x.example", ""), ("", "")] {
            let config = with_key(provider, Some(url), api_key);
            let result = weather_service(reqwest::Client::new(), &provider, config);
            assert!(matches!(
                result,
                Err(HandlerError::Service(ServiceError::Api(WeatherApiError::Creation)))
            ));
        }
    }
}

#[test]
fn test_weather_service_of_each_provider() {
    let config = with_key(Provider::OpenWeather, None, "ow-key");
    match weather_service(reqwest::Client::new(), &Provider::OpenWeather, config).unwrap() {
        WeatherService::OpenWeather(service) => {
            assert_eq!(service.get_url(), "https://api.openweathermap.org/data/2.5/weather");
            let request = service.build_request("Oslo", &None).unwrap();
            assert_eq!(request.params[2], ("appid".to_string(), "ow-key".to_string()));
        }
        other => panic!("{:?}", other),
    }
    let config = with_key(Provider::WeatherApi, Some("https://api.weatherapi.com/v1/"), "wa-key");
    match weather_service(reqwest::Client::new(), &Provider::WeatherApi, config).unwrap() {
        WeatherService::WeatherApi(service) => {
            assert_eq!(service.get_url(), "https://api.weatherapi.com/v1");
            let request = service.build_request("Oslo", &None).unwrap();
            assert_eq!(request.params[1], ("key".to_string(), "wa-key".to_string()));
        }
        other => panic!("{:?}", other),
    }
}

#[test]
fn test_weather_service_answers_for_its_provider() {
    let config = with_key(Provider::WeatherApi, None, "wa-key");
    let service =
        weather_service(reqwest::Client::new(), &Provider::WeatherApi, config).unwrap();
    let request = service.build_request("Oslo", &Some("2023-10-15".to_string())).unwrap();
    assert_eq!(request.url, "https://api.weatherapi.com/v1/history.json");
    assert_eq!(request.params[2], ("unixdt".to_string(), "1697328000".to_string()));
    let refusal = "{\"error\":{\"code\":1006,\"message\":\"No matching location found.\"}}";
    match service.read_response(&Some("2023-10-15".to_string()), 400, refusal) {
        Err(ServiceError::Api(WeatherApiError::Server(message))) => {
            assert_eq!(message, "No matching location found.")
        }
        other => panic!("{:?}", other),
    }
    let _ = service.client();
    assert_eq!(service.provider_label(), "Weather API");

    let config = with_key(Provider::OpenWeather, None, "ow-key");
    let service =
        weather_service(reqwest::Client::new(), &Provider::OpenWeather, config).unwrap();
    let request = service.request_at("Oslo", Some(5));
    assert_eq!(request.url, "https://api.openweathermap.org/data/2.5/weather");
    assert_eq!(request.params[3], ("dt".to_string(), "5".to_string()));
    let refusal: serde_json::Value =
        serde_json::from_str("{\"cod\":\"404\",\"message\":\"city not found\"}").unwrap();
    match service.read_document(false, 404, Some(refusal)) {
        Err(ServiceError::Api(WeatherApiError::Server(message))) => {
            assert_eq!(message, "city not found")
        }
        other => panic!("{:?}", other),
    }
}
