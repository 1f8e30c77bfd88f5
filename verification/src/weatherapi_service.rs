//! The client of the WeatherAPI service.

use crate::models::weatherapi_model::{WeatherApiData, WeatherApiErrorData, WeatherApiHistoryData};
use crate::models::{canonical_current, canonical_history, WeatherData, WeatherDataError};
use crate::services::{
    names_differ, trim_url, trimmed_url, ApiRequest, ApiRequestView, ClientView, Reading,
    ServiceError, WeatherApi, WeatherApiError, STATUS_OK,
};
use crate::timestamp::{integer_text, timestamp_text};
use vstd::prelude::*;
use vstd::string::StringExecFns;

verus! {

/// A client of WeatherAPI: where to ask, the key to ask with, and the HTTP
/// client to ask through.
#[derive(Debug)]
pub struct WeatherApiService {
    url: String,
    api_key: String,
    client: reqwest::Client,
}

impl View for WeatherApiService {
    type V = ClientView;

    closed spec fn view(&self) -> ClientView {
        ClientView { url: self.url@, api_key: self.api_key@ }
    }
}

/// The endpoint of a WeatherAPI query below the client's URL: the history
/// where a moment is asked for, the current conditions where none is.
pub open spec fn weather_api_endpoint(timestamp: Option<i64>) -> Seq<char> {
    match timestamp {
        Some(_) => "/history.json"@,
        None => "/current.json"@,
    }
}

/// The parameters of a WeatherAPI query: the address, the key, and the moment
/// if one is asked for.
pub open spec fn weather_api_params(
    address: Seq<char>,
    api_key: Seq<char>,
    timestamp: Option<i64>,
) -> Seq<(Seq<char>, Seq<char>)> {
    let always = seq![("q"@, address), ("key"@, api_key)];
    match timestamp {
        Some(moment) => always.push(("unixdt"@, integer_text(moment as int))),
        None => always,
    }
}

/// What a WeatherAPI response comes to. A report of past days is read by the
/// first hour of its last day.
pub open spec fn weather_api_reading(
    historical: bool,
    status: u16,
    document: Option<serde_json::Value>,
) -> Reading {
    match document {
        Some(document) => if status == STATUS_OK {
            if historical {
                match WeatherApiHistoryData::of_json(document) {
                    Some(days) => match canonical_history(days) {
                        Some(record) => Reading::Weather(record),
                        None => Reading::Unreadable,
                    },
                    None => Reading::Unreadable,
                }
            } else {
                match WeatherApiData::of_json(document) {
                    Some(current) => Reading::Weather(canonical_current(current)),
                    None => Reading::Unreadable,
                }
            }
        } else {
            match WeatherApiErrorData::of_json(document) {
                Some(error) => Reading::Refused(error.message),
                None => Reading::Unreadable,
            }
        },
        None => Reading::Unreadable,
    }
}

/// No parameter of a WeatherAPI query is named twice.
pub proof fn lemma_weather_api_names_differ(
    address: Seq<char>,
    api_key: Seq<char>,
    timestamp: Option<i64>,
)
    ensures
        names_differ(weather_api_params(address, api_key, timestamp)),
{
    reveal_strlit("q");
    reveal_strlit("key");
    reveal_strlit("unixdt");
    let params = weather_api_params(address, api_key, timestamp);
    assert(params[0].0.len() == 1);
    assert(params[1].0.len() == 3);
}

/// A body that is no JSON is never read as a report, whatever the status and
/// the kind of request.
pub proof fn lemma_weather_api_needs_json(historical: bool, status: u16)
    ensures
        weather_api_reading(historical, status, None) == Reading::Unreadable,
{
}

/// With any status but 200, the message of the error report in the body is
/// what comes back, letter for letter.
pub proof fn lemma_weather_api_refusal_keeps_message(
    historical: bool,
    status: u16,
    document: serde_json::Value,
)
    requires
        status != STATUS_OK,
        WeatherApiErrorData::of_json(document) is Some,
    ensures
        weather_api_reading(historical, status, Some(document)) == Reading::Refused(
            WeatherApiErrorData::of_json(document)->0.message,
        ),
{
}

/// A history report that has a day, and an hour in its last day, is read by
/// that day's first hour.
pub proof fn lemma_weather_api_history_reading(status: u16, document: serde_json::Value)
    requires
        status == STATUS_OK,
        WeatherApiHistoryData::of_json(document) matches Some(days) && days.len() > 0
            && days.last().len() > 0,
    ensures
        weather_api_reading(true, status, Some(document)) == Reading::Weather(
            canonical_current(WeatherApiHistoryData::of_json(document)->0.last()[0]),
        ),
{
}

impl WeatherApiService {
    /// The HTTP client that the service was made with.
    pub closed spec fn transport(&self) -> reqwest::Client {
        self.client
    }

    /// Makes a client. Neither the URL nor the key may be empty. One path
    /// separator at the end of the URL is dropped. Nothing is sent.
    pub fn new(client: reqwest::Client, url: String, api_key: String) -> (r: Result<
        Self,
        WeatherApiError,
    >)
        ensures
            if url@.len() == 0 || api_key@.len() == 0 {
                r matches Err(WeatherApiError::Creation)
            } else {
                &&& r matches Ok(service)
                &&& service@.url == trimmed_url(url@)
                &&& service@.api_key == api_key@
                &&& service.transport() == client
            },
    {
        if url.as_str().is_empty() || api_key.as_str().is_empty() {
            return Err(WeatherApiError::Creation);
        }
        Ok(WeatherApiService { client, url: trim_url(url), api_key })
    }

    /// The URL below which the endpoints lie.
    pub fn get_url(&self) -> (r: &str)
        ensures
            r@ == self@.url,
    {
        self.url.as_str()
    }

    /// The HTTP client to send requests through.
    pub fn client(&self) -> (r: &reqwest::Client)
        ensures
            *r == self.transport(),
    {
        &self.client
    }
}

impl WeatherApi for WeatherApiService {
    /// The current conditions and the history have an endpoint each.
    open spec fn request_for(&self, address: Seq<char>, timestamp: Option<i64>) -> ApiRequestView {
        ApiRequestView {
            url: self@.url + weather_api_endpoint(timestamp),
            params: weather_api_params(address, self@.api_key, timestamp),
        }
    }

    open spec fn label(&self) -> Seq<char> {
        "Weather API"@
    }

    fn provider_label(&self) -> (r: String) {
        "Weather API".to_owned()
    }

    open spec fn reading_of(
        &self,
        historical: bool,
        status: u16,
        document: Option<serde_json::Value>,
    ) -> Reading {
        weather_api_reading(historical, status, document)
    }

    fn request_at(&self, address: &str, timestamp: Option<i64>) -> (r: ApiRequest) {
        let mut params: Vec<(String, String)> = Vec::new();
        params.push(("q".to_owned(), address.to_owned()));
        params.push(("key".to_owned(), self.api_key.clone()));
        let url = match timestamp {
            Some(moment) => {
                params.push(("unixdt".to_owned(), timestamp_text(moment)));
                self.url.clone().concat("/history.json")
            },
            None => self.url.clone().concat("/current.json"),
        };
        let request = ApiRequest { url, params };
        assert(request@.params =~= weather_api_params(address@, self@.api_key, timestamp));
        request
    }

    fn read_document(
        &self,
        historical: bool,
        status: u16,
        document: Option<serde_json::Value>,
    ) -> (r: Result<WeatherData, ServiceError>) {
        match document {
            Some(document) => if status == STATUS_OK {
                if historical {
                    match WeatherApiHistoryData::from_json(&document) {
                        Some(report) => match WeatherData::from_weather_api_history(report) {
                            Ok(record) => Ok(record),
                            Err(error) => Err(ServiceError::Data(error)),
                        },
                        None => Err(ServiceError::Data(WeatherDataError::JsonParse)),
                    }
                } else {
                    match WeatherApiData::from_json(&document) {
                        Some(report) => Ok(WeatherData::from_weather_api(report)),
                        None => Err(ServiceError::Data(WeatherDataError::JsonParse)),
                    }
                }
            } else {
                match WeatherApiErrorData::from_json(&document) {
                    Some(report) => Err(
                        ServiceError::Api(WeatherApiError::Server(report.error.message)),
                    ),
                    None => Err(ServiceError::Data(WeatherDataError::JsonParse)),
                }
            },
            None => Err(ServiceError::Data(WeatherDataError::JsonParse)),
        }
    }
}

} // verus!
