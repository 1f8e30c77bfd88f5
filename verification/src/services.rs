//! What every provider client offers, and what it can fail with.

use crate::json::{json_document, parse_document};
use crate::models::{WeatherData, WeatherDataError, WeatherDataView};
use crate::timestamp::{ends_in_wide_offset, timestamp_of};
use vstd::prelude::*;
use vstd::string::StrSliceExecFns;

verus! {

/// `reqwest::Client`, the HTTP client that a provider client owns. It is
/// kept and handed out; nothing is sent from here.
#[verifier::external_type_specification]
#[verifier::external_body]
pub struct ExClient(reqwest::Client);

/// `reqwest::Error`, the failure of a transport. It is kept inside the error
/// that reports it.
#[verifier::external_type_specification]
#[verifier::external_body]
pub struct ExTransportError(reqwest::Error);

/// The status of a response that carries a report.
pub const STATUS_OK: u16 = 200;

/// A date that could not be read.
#[derive(Debug)]
pub enum DateTimeError {
    /// No date format matches the text, which is kept here.
    Parse(String),
}

/// What can go wrong between a client and its provider.
#[derive(Debug)]
pub enum WeatherApiError {
    /// A client cannot be made without a URL, or without an API key.
    Creation,
    /// The request did not reach the provider, whose name stands second.
    Request(reqwest::Error, String),
    /// The provider refused the request, with this message.
    Server(String),
    /// The body of the response could not be read as text.
    BodyText(reqwest::Error),
    /// The provider lacks the feature of this name.
    Feature(String),
}

/// Any failure of a provider client.
#[derive(Debug)]
pub enum ServiceError {
    DateTime(DateTimeError),
    Api(WeatherApiError),
    Data(WeatherDataError),
}

/// One HTTP GET: the address to ask, and the parameters of the query in
/// their order. No parameter is named twice.
#[derive(Debug, PartialEq)]
pub struct ApiRequest {
    pub url: String,
    pub params: Vec<(String, String)>,
}

/// A request as a value.
pub struct ApiRequestView {
    pub url: Seq<char>,
    pub params: Seq<(Seq<char>, Seq<char>)>,
}

impl View for ApiRequest {
    type V = ApiRequestView;

    open spec fn view(&self) -> ApiRequestView {
        ApiRequestView {
            url: self.url@,
            params: self.params@.map_values(|param: (String, String)| (param.0@, param.1@)),
        }
    }
}

/// Whether no two parameters of a query have the same name.
pub open spec fn names_differ(params: Seq<(Seq<char>, Seq<char>)>) -> bool {
    forall|i: int, j: int| 0 <= i < j < params.len() ==> params[i].0 != params[j].0
}

/// What a client was made with.
pub struct ClientView {
    pub url: Seq<char>,
    pub api_key: Seq<char>,
}

/// How the sending of a request ended.
#[derive(Debug)]
pub enum Exchange {
    /// The request did not reach the provider.
    NotSent(reqwest::Error),
    /// A response came, but its body could not be read as text.
    NoBody(reqwest::Error),
    /// A response came, with this status and this body.
    Received { status: u16, body: String },
}

/// What a response comes to.
pub enum Reading {
    /// The weather that the provider reports.
    Weather(WeatherDataView),
    /// The message with which the provider refuses.
    Refused(Seq<char>),
    /// Neither: the body is no JSON, or not of the schema that the status
    /// calls for.
    Unreadable,
}

/// Whether a client's answer is the one that a reading calls for: the record,
/// the provider's message as a `Server` error, or a `JsonParse` error.
pub open spec fn answers(r: Result<WeatherData, ServiceError>, reading: Reading) -> bool {
    match reading {
        Reading::Weather(record) => r matches Ok(found) && found@ == record,
        Reading::Refused(message) => r matches Err(ServiceError::Api(WeatherApiError::Server(found)))
            && found@ == message,
        Reading::Unreadable => r matches Err(ServiceError::Data(WeatherDataError::JsonParse)),
    }
}

/// Whether two answers are the same: the same record, the same message of
/// the provider, or both times a `JsonParse` error.
pub open spec fn same_answer(
    first: Result<WeatherData, ServiceError>,
    second: Result<WeatherData, ServiceError>,
) -> bool {
    match (first, second) {
        (Ok(one), Ok(other)) => one@ == other@,
        (
            Err(ServiceError::Api(WeatherApiError::Server(one))),
            Err(ServiceError::Api(WeatherApiError::Server(other))),
        ) => one@ == other@,
        (
            Err(ServiceError::Data(WeatherDataError::JsonParse)),
            Err(ServiceError::Data(WeatherDataError::JsonParse)),
        ) => true,
        _ => false,
    }
}

/// Reading is repeatable: whatever a client answers to one response, it
/// answers again when it is handed the same response once more.
pub proof fn lemma_same_response_same_answer(
    first: Result<WeatherData, ServiceError>,
    second: Result<WeatherData, ServiceError>,
    reading: Reading,
)
    requires
        answers(first, reading),
        answers(second, reading),
    ensures
        same_answer(first, second),
{
}

/// A URL without the one path separator that may end it.
pub open spec fn trimmed_url(url: Seq<char>) -> Seq<char> {
    if url.len() > 0 && url.last() == '/' {
        url.drop_last()
    } else {
        url
    }
}

/// A URL that does not end in a path separator is kept as it is, and with a
/// separator behind it, it is kept without that separator: a client stores
/// the same URL for both.
pub proof fn lemma_trailing_separator_makes_no_difference(url: Seq<char>)
    requires
        url.len() > 0 ==> url.last() != '/',
    ensures
        trimmed_url(url) == url,
        trimmed_url(url.push('/')) == url,
{
}

/// Takes one trailing path separator off a URL, if it has one.
pub fn trim_url(url: String) -> (r: String)
    ensures
        r@ == trimmed_url(url@),
{
    let length = url.as_str().unicode_len();
    if length > 0 && url.as_str().get_char(length - 1) == '/' {
        url.as_str().substring_char(0, length - 1).to_owned()
    } else {
        url
    }
}

/// The provider of weather data behind a client. A caller builds the request,
/// sends it, and hands the response back to be read.
pub trait WeatherApi {
    /// The request for the weather at an address: the current weather, or that
    /// at a moment given in seconds since the Unix epoch.
    spec fn request_for(&self, address: Seq<char>, timestamp: Option<i64>) -> ApiRequestView;

    /// What a response comes to, by its status, by the document in its body
    /// if the body is JSON, and by whether the request named a date.
    spec fn reading_of(
        &self,
        historical: bool,
        status: u16,
        document: Option<serde_json::Value>,
    ) -> Reading;

    /// The name of the provider, as a message shows it.
    spec fn label(&self) -> Seq<char>;

    /// The name of the provider, as a message shows it.
    fn provider_label(&self) -> (r: String)
        ensures
            r@ == self.label(),
    ;

    /// Builds the request for the weather at an address, now or at a moment.
    fn request_at(&self, address: &str, timestamp: Option<i64>) -> (r: ApiRequest)
        ensures
            r@ == self.request_for(address@, timestamp),
    ;

    /// Reads a response whose body has been parsed.
    fn read_document(
        &self,
        historical: bool,
        status: u16,
        document: Option<serde_json::Value>,
    ) -> (r: Result<WeatherData, ServiceError>)
        ensures
            answers(r, self.reading_of(historical, status, document)),
    ;

    /// Builds the request for the weather at an address, on a date if one is
    /// given. Without a date this is the request for the current weather. A
    /// date is read first: where it names a moment, the request is the one for
    /// that moment; where it names none, the date comes back in the error and
    /// there is no request to send.
    fn build_request(&self, address: &str, date: &Option<String>) -> (r: Result<
        ApiRequest,
        DateTimeError,
    >)
        ensures
            match *date {
                None => r matches Ok(request) && request@ == self.request_for(address@, None),
                Some(given) => match r {
                    Ok(request) => !ends_in_wide_offset(given@) && exists|timestamp: i64|
                        request@ == #[trigger] self.request_for(address@, Some(timestamp)),
                    Err(DateTimeError::Parse(refused)) => refused@ == given@,
                },
            },
    {
        match date {
            None => Ok(self.request_at(address, None)),
            Some(given) => match timestamp_of(given.as_str()) {
                Some(timestamp) => Ok(self.request_at(address, Some(timestamp))),
                None => Err(DateTimeError::Parse(given.clone())),
            },
        }
    }

    /// Reads the response to a request, which named a date or none: with
    /// status 200 its body must hold a report, which becomes the weather
    /// record; with any other status it must hold an error report, whose
    /// message comes back as a `Server` error. A body that holds neither gives
    /// a `JsonParse` error.
    fn read_response(&self, date: &Option<String>, status: u16, body: &str) -> (r: Result<
        WeatherData,
        ServiceError,
    >)
        ensures
            answers(r, self.reading_of(*date is Some, status, json_document(body@))),
    {
        self.read_document(date.is_some(), status, parse_document(body))
    }

    /// Says what the sending of a request has come to. A request that did
    /// not reach the provider gives a `Request` error, which keeps the
    /// failure of the transport and names the provider; a body that could not
    /// be read gives a `BodyText` error with the failure; a response is read.
    fn conclude(&self, date: &Option<String>, exchange: Exchange) -> (r: Result<
        WeatherData,
        ServiceError,
    >)
        ensures
            match exchange {
                Exchange::NotSent(failure) => r matches Err(
                    ServiceError::Api(WeatherApiError::Request(source, provider)),
                ) && source == failure && provider@ == self.label(),
                Exchange::NoBody(failure) => r matches Err(
                    ServiceError::Api(WeatherApiError::BodyText(source)),
                ) && source == failure,
                Exchange::Received { status, body } => answers(
                    r,
                    self.reading_of(*date is Some, status, json_document(body@)),
                ),
            },
    {
        match exchange {
            Exchange::NotSent(failure) => Err(
                ServiceError::Api(WeatherApiError::Request(failure, self.provider_label())),
            ),
            Exchange::NoBody(failure) => Err(ServiceError::Api(WeatherApiError::BodyText(failure))),
            Exchange::Received { status, body } => self.read_response(date, status, body.as_str()),
        }
    }
}

} // verus!
