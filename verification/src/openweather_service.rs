//! The client of the OpenWeather API.

use crate::models::openweather_model::{OpenWeatherData, OpenWeatherErrorData};
use crate::models::{canonical_open_weather, WeatherData, WeatherDataError};
use crate::services::{
    names_differ, trim_url, trimmed_url, ApiRequest, ApiRequestView, ClientView, Reading,
    ServiceError, WeatherApi, WeatherApiError, STATUS_OK,
};
use crate::timestamp::{integer_text, timestamp_text};
use vstd::prelude::*;

verus! {

/// A client of the OpenWeather API: where to ask, the key to ask with, and the
/// HTTP client to ask through.
#[derive(Debug)]
pub struct OpenWeatherApiService {
    url: String,
    api_key: String,
    client: reqwest::Client,
}

impl View for OpenWeatherApiService {
    type V = ClientView;

    closed spec fn view(&self) -> ClientView {
        ClientView { url: self.url@, api_key: self.api_key@ }
    }
}

/// The parameters of an OpenWeather query: the address, metric units, the
/// key, and the moment if one is asked for.
pub open spec fn open_weather_params(
    address: Seq<char>,
    api_key: Seq<char>,
    timestamp: Option<i64>,
) -> Seq<(Seq<char>, Seq<char>)> {
    let always = seq![("q"@, address), ("units"@, "metric"@), ("appid"@, api_key)];
    match timestamp {
        Some(moment) => always.push(("dt"@, integer_text(moment as int))),
        None => always,
    }
}

/// What an OpenWeather response comes to.
pub open spec fn open_weather_reading(status: u16, document: Option<serde_json::Value>) -> Reading {
    match document {
        Some(document) => if status == STATUS_OK {
            match OpenWeatherData::of_json(document) {
                Some(report) => Reading::Weather(canonical_open_weather(report)),
                None => Reading::Unreadable,
            }
        } else {
            match OpenWeatherErrorData::of_json(document) {
                Some(report) => Reading::Refused(report.message),
                None => Reading::Unreadable,
            }
        },
        None => Reading::Unreadable,
    }
}

/// No parameter of an OpenWeather query is named twice.
pub proof fn lemma_open_weather_names_differ(
    address: Seq<char>,
    api_key: Seq<char>,
    timestamp: Option<i64>,
)
    ensures
        names_differ(open_weather_params(address, api_key, timestamp)),
{
    reveal_strlit("q");
    reveal_strlit("units");
    reveal_strlit("appid");
    reveal_strlit("dt");
    let params = open_weather_params(address, api_key, timestamp);
    assert(params[0].0.len() == 1);
    assert(params[1].0.len() == 5 && params[1].0[0] == 'u');
    assert(params[2].0.len() == 5 && params[2].0[0] == 'a');
}

/// A body that is no JSON is never read as a report, whatever the status.
pub proof fn lemma_open_weather_needs_json(status: u16)
    ensures
        open_weather_reading(status, None) == Reading::Unreadable,
{
}

/// With any status but 200, the message of the error report in the body is
/// what comes back, letter for letter.
pub proof fn lemma_open_weather_refusal_keeps_message(status: u16, document: serde_json::Value)
    requires
        status != STATUS_OK,
        OpenWeatherErrorData::of_json(document) is Some,
    ensures
        open_weather_reading(status, Some(document)) == Reading::Refused(
            OpenWeatherErrorData::of_json(document)->0.message,
        ),
{
}

impl OpenWeatherApiService {
    /// The HTTP client that the service was made with.
    pub closed spec fn transport(&self) -> reqwest::Client {
        self.client
    }

    /// Makes a client. Neither the URL nor the key may be empty. One path
    /// separator at the end of the URL is dropped. Nothing is sent.
    pub fn new(client: reqwest::Client, url: String, api_key: String) -> (r: Result<
        Self,
        WeatherApiError,
    >)
        ensures
            if url@.len() == 0 || api_key@.len() == 0 {
                r matches Err(WeatherApiError::Creation)
            } else {
                &&& r matches Ok(service)
                &&& service@.url == trimmed_url(url@)
                &&& service@.api_key == api_key@
                &&& service.transport() == client
            },
    {
        if url.as_str().is_empty() || api_key.as_str().is_empty() {
            return Err(WeatherApiError::Creation);
        }
        Ok(OpenWeatherApiService { client, url: trim_url(url), api_key })
    }

    /// The URL that requests go to.
    pub fn get_url(&self) -> (r: &str)
        ensures
            r@ == self@.url,
    {
        self.url.as_str()
    }

    /// The HTTP client to send requests through.
    pub fn client(&self) -> (r: &reqwest::Client)
        ensures
            *r == self.transport(),
    {
        &self.client
    }
}

impl WeatherApi for OpenWeatherApiService {
    /// One endpoint serves both kinds of request: a moment is one more
    /// parameter.
    open spec fn request_for(&self, address: Seq<char>, timestamp: Option<i64>) -> ApiRequestView {
        ApiRequestView {
            url: self@.url,
            params: open_weather_params(address, self@.api_key, timestamp),
        }
    }

    open spec fn label(&self) -> Seq<char> {
        "Open Weather"@
    }

    fn provider_label(&self) -> (r: String) {
        "Open Weather".to_owned()
    }

    open spec fn reading_of(
        &self,
        historical: bool,
        status: u16,
        document: Option<serde_json::Value>,
    ) -> Reading {
        open_weather_reading(status, document)
    }

    fn request_at(&self, address: &str, timestamp: Option<i64>) -> (r: ApiRequest) {
        let mut params: Vec<(String, String)> = Vec::new();
        params.push(("q".to_owned(), address.to_owned()));
        params.push(("units".to_owned(), "metric".to_owned()));
        params.push(("appid".to_owned(), self.api_key.clone()));
        match timestamp {
            Some(moment) => {
                params.push(("dt".to_owned(), timestamp_text(moment)));
            },
            None => {},
        }
        let request = ApiRequest { url: self.url.clone(), params };
        assert(request@.params =~= open_weather_params(address@, self@.api_key, timestamp));
        request
    }

    fn read_document(
        &self,
        historical: bool,
        status: u16,
        document: Option<serde_json::Value>,
    ) -> (r: Result<WeatherData, ServiceError>) {
        match document {
            Some(document) => if status == STATUS_OK {
                match OpenWeatherData::from_json(&document) {
                    Some(report) => Ok(WeatherData::from_open_weather(report)),
                    None => Err(ServiceError::Data(WeatherDataError::JsonParse)),
                }
            } else {
                match OpenWeatherErrorData::from_json(&document) {
                    Some(report) => Err(ServiceError::Api(WeatherApiError::Server(report.message))),
                    None => Err(ServiceError::Data(WeatherDataError::JsonParse)),
                }
            },
            None => Err(ServiceError::Data(WeatherDataError::JsonParse)),
        }
    }
}

} // verus!
