//! What WeatherAPI answers: current conditions, the hours of past days, and
//! the error report.

use crate::decimal::Decimal;
use crate::json::{
    json_member, member, member_decimal, member_items, member_text, member_unsigned,
    read_member_decimal, read_member_items, read_member_text, read_member_unsigned,
};
use vstd::prelude::*;

verus! {

/// The text of a WeatherAPI weather condition.
#[derive(Debug, PartialEq)]
pub struct WeatherCondition {
    pub text: String,
}

/// The conditions at one moment, as WeatherAPI reports them.
#[derive(Debug, PartialEq)]
pub struct WeatherCurrent {
    /// In degrees Celsius.
    pub temp_c: Decimal,
    pub condition: WeatherCondition,
    /// In kilometres per hour.
    pub wind_kph: Decimal,
    /// In millibar.
    pub pressure_mb: Decimal,
    /// In percent.
    pub humidity: u8,
    /// In kilometres.
    pub vis_km: Decimal,
}

/// WeatherAPI's report of the current conditions.
#[derive(Debug, PartialEq)]
pub struct WeatherApiData {
    pub current: WeatherCurrent,
}

/// One past day of a WeatherAPI history report: its hours.
#[derive(Debug, PartialEq)]
pub struct HistoryForecastDay {
    pub hour: Vec<WeatherCurrent>,
}

/// The days of a WeatherAPI history report.
#[derive(Debug, PartialEq)]
pub struct HistoryForecast {
    pub forecastday: Vec<HistoryForecastDay>,
}

/// WeatherAPI's report of past days.
#[derive(Debug, PartialEq)]
pub struct WeatherApiHistoryData {
    pub forecast: HistoryForecast,
}

/// The code and the message of a WeatherAPI error.
#[derive(Debug, PartialEq)]
pub struct DataError {
    pub code: u16,
    pub message: String,
}

/// What WeatherAPI answers when it refuses a request.
#[derive(Debug, PartialEq)]
pub struct WeatherApiErrorData {
    pub error: DataError,
}

/// The conditions at one moment as a value.
pub struct WeatherCurrentView {
    pub temp_c: Decimal,
    pub condition: Seq<char>,
    pub wind_kph: Decimal,
    pub pressure_mb: Decimal,
    pub humidity: u8,
    pub vis_km: Decimal,
}

/// A WeatherAPI error as a value.
pub struct DataErrorView {
    pub code: u16,
    pub message: Seq<char>,
}

impl View for WeatherCondition {
    type V = Seq<char>;

    open spec fn view(&self) -> Seq<char> {
        self.text@
    }
}

impl View for WeatherCurrent {
    type V = WeatherCurrentView;

    open spec fn view(&self) -> WeatherCurrentView {
        WeatherCurrentView {
            temp_c: self.temp_c,
            condition: self.condition@,
            wind_kph: self.wind_kph,
            pressure_mb: self.pressure_mb,
            humidity: self.humidity,
            vis_km: self.vis_km,
        }
    }
}

impl View for WeatherApiData {
    type V = WeatherCurrentView;

    open spec fn view(&self) -> WeatherCurrentView {
        self.current@
    }
}

impl View for HistoryForecastDay {
    type V = Seq<WeatherCurrentView>;

    open spec fn view(&self) -> Seq<WeatherCurrentView> {
        self.hour@.map_values(|hour: WeatherCurrent| hour@)
    }
}

impl View for HistoryForecast {
    type V = Seq<Seq<WeatherCurrentView>>;

    open spec fn view(&self) -> Seq<Seq<WeatherCurrentView>> {
        self.forecastday@.map_values(|day: HistoryForecastDay| day@)
    }
}

impl View for WeatherApiHistoryData {
    type V = Seq<Seq<WeatherCurrentView>>;

    open spec fn view(&self) -> Seq<Seq<WeatherCurrentView>> {
        self.forecast@
    }
}

impl View for DataError {
    type V = DataErrorView;

    open spec fn view(&self) -> DataErrorView {
        DataErrorView { code: self.code, message: self.message@ }
    }
}

impl View for WeatherApiErrorData {
    type V = DataErrorView;

    open spec fn view(&self) -> DataErrorView {
        self.error@
    }
}

/// The hours that a list of documents holds: each must be the conditions at
/// one moment.
pub open spec fn hour_list(items: Seq<serde_json::Value>) -> Option<Seq<WeatherCurrentView>> {
    if forall|i: int|
        0 <= i < items.len() ==> (#[trigger] WeatherCurrent::of_json(items[i])) is Some {
        Some(Seq::new(items.len(), |i: int| WeatherCurrent::of_json(items[i])->0))
    } else {
        None
    }
}

/// The days that a list of documents holds: each must be a day.
pub open spec fn day_list(items: Seq<serde_json::Value>) -> Option<Seq<Seq<WeatherCurrentView>>> {
    if forall|i: int|
        0 <= i < items.len() ==> (#[trigger] HistoryForecastDay::of_json(items[i])) is Some {
        Some(Seq::new(items.len(), |i: int| HistoryForecastDay::of_json(items[i])->0))
    } else {
        None
    }
}

impl WeatherCondition {
    /// The condition that a document holds: an object with a string `text`.
    pub open spec fn of_json(value: serde_json::Value) -> Option<Seq<char>> {
        member_text(value, "text"@)
    }

    /// Reads a condition from a document.
    pub fn from_json(value: &serde_json::Value) -> (r: Option<WeatherCondition>)
        ensures
            match Self::of_json(*value) {
                Some(condition) => r matches Some(found) && found@ == condition,
                None => r is None,
            },
    {
        match read_member_text(value, "text") {
            Some(text) => Some(WeatherCondition { text }),
            None => None,
        }
    }
}

impl WeatherCurrent {
    /// The conditions that a document holds: an object with the numbers
    /// `temp_c`, `wind_kph`, `pressure_mb` and `vis_km`, a condition under
    /// `condition` and an integer `humidity` of at most 255. Other members do
    /// not count.
    pub open spec fn of_json(value: serde_json::Value) -> Option<WeatherCurrentView> {
        match (
            member_decimal(value, "temp_c"@),
            json_member(value, "condition"@),
            member_decimal(value, "wind_kph"@),
            member_decimal(value, "pressure_mb"@),
            member_unsigned(value, "humidity"@, 0xff),
            member_decimal(value, "vis_km"@),
        ) {
            (
                Some(temp_c),
                Some(condition),
                Some(wind_kph),
                Some(pressure_mb),
                Some(humidity),
                Some(vis_km),
            ) => match WeatherCondition::of_json(condition) {
                Some(condition) => Some(
                    WeatherCurrentView {
                        temp_c,
                        condition,
                        wind_kph,
                        pressure_mb,
                        humidity: humidity as u8,
                        vis_km,
                    },
                ),
                None => None,
            },
            _ => None,
        }
    }

    /// Reads the conditions at one moment from a document.
    pub fn from_json(value: &serde_json::Value) -> (r: Option<WeatherCurrent>)
        ensures
            match Self::of_json(*value) {
                Some(current) => r matches Some(found) && found@ == current,
                None => r is None,
            },
    {
        let temp_c = read_member_decimal(value, "temp_c");
        let condition = match member(value, "condition") {
            Some(found) => WeatherCondition::from_json(found),
            None => None,
        };
        let wind_kph = read_member_decimal(value, "wind_kph");
        let pressure_mb = read_member_decimal(value, "pressure_mb");
        let humidity = read_member_unsigned(value, "humidity", 0xff);
        let vis_km = read_member_decimal(value, "vis_km");
        match (temp_c, condition, wind_kph, pressure_mb, humidity, vis_km) {
            (
                Some(temp_c),
                Some(condition),
                Some(wind_kph),
                Some(pressure_mb),
                Some(humidity),
                Some(vis_km),
            ) => Some(
                WeatherCurrent {
                    temp_c,
                    condition,
                    wind_kph,
                    pressure_mb,
                    humidity: humidity as u8,
                    vis_km,
                },
            ),
            _ => None,
        }
    }

    /// Reads a list of hours from a list of documents.
    pub fn list_from_json(items: &Vec<serde_json::Value>) -> (r: Option<Vec<WeatherCurrent>>)
        ensures
            match hour_list(items@) {
                Some(hours) => r matches Some(found) && found@.map_values(
                    |hour: WeatherCurrent| hour@,
                ) == hours,
                None => r is None,
            },
    {
        let mut hours: Vec<WeatherCurrent> = Vec::new();
        let mut next: usize = 0;
        while next < items.len()
            invariant
                next <= items.len(),
                hours.len() == next,
                forall|i: int|
                    0 <= i < next ==> (#[trigger] WeatherCurrent::of_json(items@[i])) is Some
                        && hours@[i]@ == WeatherCurrent::of_json(items@[i])->0,
            decreases items.len() - next,
        {
            match WeatherCurrent::from_json(&items[next]) {
                Some(hour) => {
                    hours.push(hour);
                },
                None => {
                    return None;
                },
            }
            next = next + 1;
        }
        Some(hours)
    }
}

impl WeatherApiData {
    /// The report that a document holds: an object with the conditions under
    /// `current`.
    pub open spec fn of_json(value: serde_json::Value) -> Option<WeatherCurrentView> {
        match json_member(value, "current"@) {
            Some(current) => WeatherCurrent::of_json(current),
            None => None,
        }
    }

    /// Reads a report of the current conditions from a document.
    pub fn from_json(value: &serde_json::Value) -> (r: Option<WeatherApiData>)
        ensures
            match Self::of_json(*value) {
                Some(report) => r matches Some(found) && found@ == report,
                None => r is None,
            },
    {
        match member(value, "current") {
            Some(found) => match WeatherCurrent::from_json(found) {
                Some(current) => Some(WeatherApiData { current }),
                None => None,
            },
            None => None,
        }
    }
}

impl HistoryForecastDay {
    /// The day that a document holds: an object with a list of hours under
    /// `hour`.
    pub open spec fn of_json(value: serde_json::Value) -> Option<Seq<WeatherCurrentView>> {
        match member_items(value, "hour"@) {
            Some(items) => hour_list(items),
            None => None,
        }
    }

    /// Reads a day from a document.
    pub fn from_json(value: &serde_json::Value) -> (r: Option<HistoryForecastDay>)
        ensures
            match Self::of_json(*value) {
                Some(day) => r matches Some(found) && found@ == day,
                None => r is None,
            },
    {
        match read_member_items(value, "hour") {
            Some(found) => match WeatherCurrent::list_from_json(found) {
                Some(hour) => Some(HistoryForecastDay { hour }),
                None => None,
            },
            None => None,
        }
    }

    /// Reads a list of days from a list of documents.
    pub fn list_from_json(items: &Vec<serde_json::Value>) -> (r: Option<Vec<HistoryForecastDay>>)
        ensures
            match day_list(items@) {
                Some(days) => r matches Some(found) && found@.map_values(
                    |day: HistoryForecastDay| day@,
                ) == days,
                None => r is None,
            },
    {
        let mut days: Vec<HistoryForecastDay> = Vec::new();
        let mut next: usize = 0;
        while next < items.len()
            invariant
                next <= items.len(),
                days.len() == next,
                forall|i: int|
                    0 <= i < next ==> (#[trigger] HistoryForecastDay::of_json(items@[i])) is Some
                        && days@[i]@ == HistoryForecastDay::of_json(items@[i])->0,
            decreases items.len() - next,
        {
            match HistoryForecastDay::from_json(&items[next]) {
                Some(day) => {
                    days.push(day);
                },
                None => {
                    return None;
                },
            }
            next = next + 1;
        }
        Some(days)
    }
}

impl HistoryForecast {
    /// The days that a document holds: an object with a list of days under
    /// `forecastday`.
    pub open spec fn of_json(value: serde_json::Value) -> Option<Seq<Seq<WeatherCurrentView>>> {
        match member_items(value, "forecastday"@) {
            Some(items) => day_list(items),
            None => None,
        }
    }

    /// Reads the days of a history report from a document.
    pub fn from_json(value: &serde_json::Value) -> (r: Option<HistoryForecast>)
        ensures
            match Self::of_json(*value) {
                Some(days) => r matches Some(found) && found@ == days,
                None => r is None,
            },
    {
        match read_member_items(value, "forecastday") {
            Some(found) => match HistoryForecastDay::list_from_json(found) {
                Some(forecastday) => Some(HistoryForecast { forecastday }),
                None => None,
            },
            None => None,
        }
    }
}

impl WeatherApiHistoryData {
    /// The history report that a document holds: an object with the days
    /// under `forecast`.
    pub open spec fn of_json(value: serde_json::Value) -> Option<Seq<Seq<WeatherCurrentView>>> {
        match json_member(value, "forecast"@) {
            Some(forecast) => HistoryForecast::of_json(forecast),
            None => None,
        }
    }

    /// Reads a history report from a document.
    pub fn from_json(value: &serde_json::Value) -> (r: Option<WeatherApiHistoryData>)
        ensures
            match Self::of_json(*value) {
                Some(report) => r matches Some(found) && found@ == report,
                None => r is None,
            },
    {
        match member(value, "forecast") {
            Some(found) => match HistoryForecast::from_json(found) {
                Some(forecast) => Some(WeatherApiHistoryData { forecast }),
                None => None,
            },
            None => None,
        }
    }
}

impl DataError {
    /// The error that a document holds: an object with an integer `code` of at
    /// most 65535 and a string `message`.
    pub open spec fn of_json(value: serde_json::Value) -> Option<DataErrorView> {
        match (member_unsigned(value, "code"@, 0xffff), member_text(value, "message"@)) {
            (Some(code), Some(message)) => Some(DataErrorView { code: code as u16, message }),
            _ => None,
        }
    }

    /// Reads an error from a document.
    pub fn from_json(value: &serde_json::Value) -> (r: Option<DataError>)
        ensures
            match Self::of_json(*value) {
                Some(error) => r matches Some(found) && found@ == error,
                None => r is None,
            },
    {
        let code = read_member_unsigned(value, "code", 0xffff);
        let message = read_member_text(value, "message");
        match (code, message) {
            (Some(code), Some(message)) => Some(DataError { code: code as u16, message }),
            _ => None,
        }
    }
}

impl WeatherApiErrorData {
    /// The error report that a document holds: an object with the error under
    /// `error`.
    pub open spec fn of_json(value: serde_json::Value) -> Option<DataErrorView> {
        match json_member(value, "error"@) {
            Some(error) => DataError::of_json(error),
            None => None,
        }
    }

    /// Reads an error report from a document.
    pub fn from_json(value: &serde_json::Value) -> (r: Option<WeatherApiErrorData>)
        ensures
            match Self::of_json(*value) {
                Some(report) => r matches Some(found) && found@ == report,
                None => r is None,
            },
    {
        match member(value, "error") {
            Some(found) => match DataError::from_json(found) {
                Some(error) => Some(WeatherApiErrorData { error }),
                None => None,
            },
            None => None,
        }
    }
}

} // verus!
