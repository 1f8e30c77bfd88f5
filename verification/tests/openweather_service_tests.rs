use weather_rs::decimal::Decimal;
use weather_rs::models::{WeatherData, WeatherDataError};
use weather_rs::openweather_service::OpenWeatherApiService;
use weather_rs::services::{
    ApiRequest, DateTimeError, Exchange, ServiceError, WeatherApi, WeatherApiError,
};

fn decimal(value: f64) -> Decimal {
    Decimal::from_double_bits(value.to_bits()).unwrap()
}

fn pair(name: &str, value: &str) -> (String, String) {
    (name.to_string(), value.to_string())
}

fn service(url: &str, api_key: &str) -> OpenWeatherApiService {
    OpenWeatherApiService::new(reqwest::Client::new(), url.to_string(), api_key.to_string())
        .unwrap()
}

fn open_weather_body(
    temp: f32,
    humidity: u8,
    pressure: u16,
    wind_speed: f32,
    visibility: u16,
    description: &str,
) -> String {
    format!(
        "{{\"main\":{{\"temp\":{:?},\"humidity\":{},\"pressure\":{}}},\"wind\":{{\"speed\":{:?}}},\
         \"visibility\":{},\"weather\":[{{\"description\":\"{}\"}}]}}",
        temp as f64, humidity, pressure, wind_speed as f64, visibility, description
    )
}

fn check_current(
    address: &str,
    temp: f32,
    humidity: u8,
    pressure: u16,
    wind_speed: f32,
    visibility: u16,
    description: &str,
) {
    let api_key = "SomeApiKey";
    let api = service("http://127.0.0.1:1234/data/2.5/weather", api_key);

    let request = api.build_request(address, &None).unwrap();
    assert_eq!(
        request,
        ApiRequest {
            url: "http://127.0.0.1:1234/data/2.5/weather".to_string(),
            params: vec![pair("q", address), pair("units", "metric"), pair("appid", api_key)],
        }
    );

    let body = open_weather_body(temp, humidity, pressure, wind_speed, visibility, description);
    let result = api.read_response(&None, 200, &body).unwrap();
    assert_eq!(result.temp, decimal(temp as f64));
    assert_eq!(result.humidity, humidity);
    assert_eq!(result.pressure, pressure);
    assert_eq!(result.wind_speed, decimal(wind_speed as f64));
    assert_eq!(result.visibility, visibility);
    assert_eq!(result.description, description);
}

fn check_with_date(
    address: &str,
    date: &str,
    timestamp: &str,
    temp: f32,
    humidity: u8,
    pressure: u16,
    wind_speed: f32,
    visibility: u16,
    description: &str,
) {
    let api_key = "SomeApiKey";
    let api = service("http://127.0.0.1:1234/data/2.5/weather", api_key);

    let request = api.build_request(address, &Some(date.to_owned())).unwrap();
    assert_eq!(request.url, "http://127.0.0.1:1234/data/2.5/weather");
    assert_eq!(
        request.params,
        vec![
            pair("q", address),
            pair("units", "metric"),
            pair("appid", api_key),
            pair("dt", timestamp)
        ]
    );

    let body = open_weather_body(temp, humidity, pressure, wind_speed, visibility, description);
    let result = api.read_response(&Some("2023-10-15".to_string()), 200, &body).unwrap();
    assert_eq!(result.temp, decimal(temp as f64));
    assert_eq!(result.humidity, humidity);
    assert_eq!(result.pressure, pressure);
    assert_eq!(result.wind_speed, decimal(wind_speed as f64));
    assert_eq!(result.visibility, visibility);
    assert_eq!(result.description, description);
}

#[test]
fn test_openweather_api_creation() {
    let cases = [
        ("https://api.openweathermap.org/", "my_openweather_api_key", "https://api.openweathermap.org"),
        ("https://example.com", "my_example_api_key", "https://example.com"),
    ];
    for (url, api_key, expected_url) in cases {
        let api = service(url, api_key);
        assert_eq!(api.get_url(), expected_url);
        let request = api.build_request("x", &None).unwrap();
        assert_eq!(request.params[2], pair("appid", api_key));
    }
}

#[test]
fn test_openweather_get_url_method() {
    let api = service("https://api.openweathermap.org", "my_openweather_api_key");
    assert_eq!(api.get_url(), "https://api.openweathermap.org");
}

#[test]
fn test_openweather_api_with_empty_url_and_api_key() {
    for (url, api_key) in [("", ""), ("", "some key"), ("some url", "")] {
        let api =
            OpenWeatherApiService::new(reqwest::Client::new(), url.to_string(), api_key.to_string())
                .unwrap_err();
        assert!(matches!(api, WeatherApiError::Creation));
    }
}

#[test]
fn test_openweather_url_with_and_without_trailing_separator() {
    let with = service("https://api.openweathermap.org/data/2.5/weather/", "k");
    let without = service("https://api.openweathermap.org/data/2.5/weather", "k");
    assert_eq!(with.get_url(), without.get_url());
    assert_eq!(with.get_url(), "https://api.openweathermap.org/data/2.5/weather");
}

#[test]
fn test_openweather_only_one_trailing_separator_is_dropped() {
    assert_eq!(service("https://example.com//", "k").get_url(), "https://example.com/");
    assert_eq!(service("/", "k").get_url(), "");
    assert_eq!(service("https://example.com/é", "k").get_url(), "https://example.com/é");
}

#[test]
fn openweather_service_test_get_weather_data() {
    check_current("CityName", 200.0, 50, 1013, 5.0, 10000, "Cloudy");
    check_current("FourthCity", 18.5, 45, 1015, 6.5, 9500, "Partly Cloudy");
}

#[test]
fn openweather_service_test_get_weather_data_with_date() {
    check_with_date("AnotherCity", "2023-10-15 00:00", "1697328000", 22.0, 60, 1005, 12.0, 8000, "Rainy");
    check_with_date("ThirdCity", "2023-10-16 00:00", "1697414400", 25.0, 70, 1010, 8.0, 12000, "Sunny");
    check_with_date("FifthCity", "2023-10-17 00:00", "1697500800", 30.5, 80, 1002, 15.0, 6000, "Stormy");
}

#[test]
fn openweather_service_test_get_weather_data_date_parse_error() {
    let api = service("http://127.0.0.1:1234/data/2.5/weather", "SomeApiKey");
    let result = api.build_request("AnotherCity", &Some("InvalidDate".to_string())).unwrap_err();
    assert!(matches!(result, DateTimeError::Parse(_)));
    let DateTimeError::Parse(refused) = result;
    assert_eq!(refused, "InvalidDate");
}

#[test]
fn openweather_service_test_get_weather_data_json_parse_error() {
    let api = service("http://127.0.0.1:1234/data/2.5/weather", "123");
    let request = api.build_request("SomeCity", &None).unwrap();
    assert_eq!(
        request.params,
        vec![pair("q", "SomeCity"), pair("units", "metric"), pair("appid", "123")]
    );
    let result = api.read_response(&None, 200, "invalid json").unwrap_err();
    assert!(matches!(result, ServiceError::Data(WeatherDataError::JsonParse)));
}

#[test]
fn openweather_service_test_get_weather_data_server_response_error() {
    let api = service("http://127.0.0.1:1234/data/2.5/weather", "123");
    let request = api.build_request("Invalid City", &None).unwrap();
    assert_eq!(request.params[0], pair("q", "Invalid City"));
    let body = "{\"cod\":\"404\",\"message\":\"city not found\"}";
    let result = api.read_response(&None, 404, body).unwrap_err();
    assert!(matches!(result, ServiceError::Api(WeatherApiError::Server(_))));
    match result {
        ServiceError::Api(WeatherApiError::Server(message)) => {
            assert_eq!(message, "city not found")
        }
        _ => unreachable!(),
    }
}

#[test]
fn test_openweather_date_is_sent_as_utc_midnight() {
    let api = service("https://api.openweathermap.org/data/2.5/weather", "k");
    let request = api.build_request("Kyiv", &Some("2023-10-15".to_string())).unwrap();
    assert_eq!(request.params[3], pair("dt", "1697328000"));
    let request = api.build_request("Kyiv", &Some("10/15/2023".to_string())).unwrap();
    assert_eq!(request.params[3], pair("dt", "1697328000"));
    let request = api.build_request("Kyiv", &Some("2023-10-15 13:45".to_string())).unwrap();
    assert_eq!(request.params[3], pair("dt", "1697377500"));
    let request = api.build_request("Kyiv", &Some("1969-12-31 23:59:59".to_string())).unwrap();
    assert_eq!(request.params[3], pair("dt", "-1"));
}

#[test]
fn test_openweather_request_at() {
    let api = service("https://example.com/", "key");
    assert_eq!(
        api.request_at("Paris", Some(0)),
        ApiRequest {
            url: "https://example.com".to_string(),
            params: vec![
                pair("q", "Paris"),
                pair("units", "metric"),
                pair("appid", "key"),
                pair("dt", "0")
            ],
        }
    );
    assert_eq!(api.request_at("Paris", Some(i64::MIN)).params[3], pair("dt", "-9223372036854775808"));
    assert_eq!(api.request_at("Paris", None).params.len(), 3);
}

#[test]
fn test_openweather_status_decides_the_schema() {
    let api = service("https://example.com", "key");
    let report = open_weather_body(1.0, 2, 3, 4.0, 5, "Six");
    let refusal = "{\"cod\":\"401\",\"message\":\"Invalid API key\"}";
    // A report is read with status 200 only.
    assert!(api.read_response(&None, 200, &report).is_ok());
    for status in [201, 204, 301, 400, 404, 500] {
        assert!(matches!(
            api.read_response(&None, status, &report),
            Err(ServiceError::Data(WeatherDataError::JsonParse))
        ));
        assert!(matches!(
            api.read_response(&None, status, refusal),
            Err(ServiceError::Api(WeatherApiError::Server(_)))
        ));
    }
    assert!(matches!(
        api.read_response(&None, 200, refusal),
        Err(ServiceError::Data(WeatherDataError::JsonParse))
    ));
    assert!(matches!(
        api.read_response(&None, 500, "<html>"),
        Err(ServiceError::Data(WeatherDataError::JsonParse))
    ));
}

#[test]
fn test_openweather_read_document() {
    let api = service("https://example.com", "key");
    let report: serde_json::Value =
        serde_json::from_str(&open_weather_body(25.5, 50, 1010, 10.0, 10000, "Partly Cloudy"))
            .unwrap();
    assert_eq!(
        api.read_document(false, 200, Some(report)).unwrap(),
        WeatherData {
            temp: decimal(25.5),
            humidity: 50,
            pressure: 1010,
            wind_speed: decimal(10.0),
            visibility: 10000,
            description: "Partly Cloudy".to_string(),
        }
    );
    assert!(matches!(
        api.read_document(false, 200, None),
        Err(ServiceError::Data(WeatherDataError::JsonParse))
    ));
    assert!(matches!(
        api.read_document(false, 404, None),
        Err(ServiceError::Data(WeatherDataError::JsonParse))
    ));
}

#[test]
fn test_openweather_same_body_gives_same_record() {
    let api = service("https://example.com", "key");
    let body = open_weather_body(-3.25, 97, 998, 7.75, 300, "Snow");
    assert_eq!(
        api.read_response(&None, 200, &body).unwrap(),
        api.read_response(&None, 200, &body).unwrap()
    );
}

fn transport_failure() -> reqwest::Error {
    reqwest::Client::new().get("no url").build().unwrap_err()
}

#[test]
fn openweather_service_test_get_weather_data_request_error() {
    let address = "SomeCity";
    let api_key = "123";
    let url = "http://invalid-url";
    let api = service(&(url.to_string() + "/data/2.5/weather"), api_key);

    let request = api.build_request(address, &None).unwrap();
    assert_eq!(request.url, "http://invalid-url/data/2.5/weather");

    let result = api.conclude(&None, Exchange::NotSent(transport_failure())).unwrap_err();
    assert!(matches!(result, ServiceError::Api(WeatherApiError::Request(..))));
    match result {
        ServiceError::Api(WeatherApiError::Request(source, provider)) => {
            assert!(source.is_builder());
            assert_eq!(provider, "Open Weather");
        }
        _ => unreachable!(),
    }
}

#[test]
fn test_openweather_conclude() {
    let api = service("https://example.com", "key");
    assert_eq!(api.provider_label(), "Open Weather");
    for date in [None, Some("2023-10-15".to_string())] {
        assert!(matches!(
            api.conclude(&date, Exchange::NoBody(transport_failure())),
            Err(ServiceError::Api(WeatherApiError::BodyText(_)))
        ));
    }
    let body = open_weather_body(25.5, 50, 1010, 10.0, 10000, "Partly Cloudy");
    let result = api.conclude(&None, Exchange::Received { status: 200, body: body.clone() });
    assert_eq!(result.unwrap(), api.read_response(&None, 200, &body).unwrap());
    let refusal = "{\"cod\":\"429\",\"message\":\"Too many requests\"}".to_string();
    match api.conclude(&None, Exchange::Received { status: 429, body: refusal }) {
        Err(ServiceError::Api(WeatherApiError::Server(message))) => {
            assert_eq!(message, "Too many requests")
        }
        other => panic!("{:?}", other),
    }
    assert!(matches!(
        api.conclude(&None, Exchange::Received { status: 200, body: String::new() }),
        Err(ServiceError::Data(WeatherDataError::JsonParse))
    ));
}
