//! What OpenWeather answers: the weather report and the error report.

use crate::decimal::Decimal;
use crate::json::{
    json_member, member, member_decimal, member_items, member_text, member_unsigned,
    read_member_decimal, read_member_items, read_member_text, read_member_unsigned,
};
use vstd::prelude::*;

verus! {

/// The main measurements of an OpenWeather report.
#[derive(Clone, Copy, Debug, PartialEq)]
pub struct WeatherMain {
    /// In degrees Celsius.
    pub temp: Decimal,
    /// In percent.
    pub humidity: u8,
    /// In hectopascal.
    pub pressure: u16,
}

/// One weather condition of an OpenWeather report.
#[derive(Debug, PartialEq)]
pub struct Weather {
    pub description: String,
}

/// The wind of an OpenWeather report.
#[derive(Clone, Copy, Debug, PartialEq)]
pub struct Wind {
    /// In metres per second.
    pub speed: Decimal,
}

/// An OpenWeather report.
#[derive(Debug, PartialEq)]
pub struct OpenWeatherData {
    pub main: WeatherMain,
    pub weather: Vec<Weather>,
    /// In metres.
    pub visibility: u16,
    pub wind: Wind,
}

/// What OpenWeather answers when it refuses a request.
#[derive(Debug, PartialEq)]
pub struct OpenWeatherErrorData {
    pub cod: String,
    pub message: String,
}

/// An OpenWeather report as a value: each condition is its description.
pub struct OpenWeatherView {
    pub main: WeatherMain,
    pub weather: Seq<Seq<char>>,
    pub visibility: u16,
    pub wind: Wind,
}

/// An OpenWeather error report as a value.
pub struct OpenWeatherErrorView {
    pub cod: Seq<char>,
    pub message: Seq<char>,
}

impl View for Weather {
    type V = Seq<char>;

    open spec fn view(&self) -> Seq<char> {
        self.description@
    }
}

impl View for OpenWeatherData {
    type V = OpenWeatherView;

    open spec fn view(&self) -> OpenWeatherView {
        OpenWeatherView {
            main: self.main,
            weather: self.weather@.map_values(|condition: Weather| condition@),
            visibility: self.visibility,
            wind: self.wind,
        }
    }
}

impl View for OpenWeatherErrorData {
    type V = OpenWeatherErrorView;

    open spec fn view(&self) -> OpenWeatherErrorView {
        OpenWeatherErrorView { cod: self.cod@, message: self.message@ }
    }
}

/// The conditions that a list of documents holds: each must be a condition.
pub open spec fn weather_list(items: Seq<serde_json::Value>) -> Option<Seq<Seq<char>>> {
    if forall|i: int| 0 <= i < items.len() ==> (#[trigger] Weather::of_json(items[i])) is Some {
        Some(Seq::new(items.len(), |i: int| Weather::of_json(items[i])->0))
    } else {
        None
    }
}

impl WeatherMain {
    /// The measurements that a document holds: an object with a number `temp`,
    /// an integer `humidity` of at most 255 and an integer `pressure` of at
    /// most 65535.
    pub open spec fn of_json(value: serde_json::Value) -> Option<WeatherMain> {
        match (
            member_decimal(value, "temp"@),
            member_unsigned(value, "humidity"@, 0xff),
            member_unsigned(value, "pressure"@, 0xffff),
        ) {
            (Some(temp), Some(humidity), Some(pressure)) => Some(
                WeatherMain { temp, humidity: humidity as u8, pressure: pressure as u16 },
            ),
            _ => None,
        }
    }

    /// Reads the measurements from a document.
    pub fn from_json(value: &serde_json::Value) -> (r: Option<WeatherMain>)
        ensures
            r == Self::of_json(*value),
    {
        let temp = read_member_decimal(value, "temp");
        let humidity = read_member_unsigned(value, "humidity", 0xff);
        let pressure = read_member_unsigned(value, "pressure", 0xffff);
        match (temp, humidity, pressure) {
            (Some(temp), Some(humidity), Some(pressure)) => Some(
                WeatherMain { temp, humidity: humidity as u8, pressure: pressure as u16 },
            ),
            _ => None,
        }
    }
}

impl Weather {
    /// The condition that a document holds: an object with a string
    /// `description`.
    pub open spec fn of_json(value: serde_json::Value) -> Option<Seq<char>> {
        member_text(value, "description"@)
    }

    /// Reads a condition from a document.
    pub fn from_json(value: &serde_json::Value) -> (r: Option<Weather>)
        ensures
            match Self::of_json(*value) {
                Some(condition) => r matches Some(found) && found@ == condition,
                None => r is None,
            },
    {
        match read_member_text(value, "description") {
            Some(description) => Some(Weather { description }),
            None => None,
        }
    }

    /// Reads a list of conditions from a list of documents.
    pub fn list_from_json(items: &Vec<serde_json::Value>) -> (r: Option<Vec<Weather>>)
        ensures
            match weather_list(items@) {
                Some(conditions) => r matches Some(found) && found@.map_values(
                    |condition: Weather| condition@,
                ) == conditions,
                None => r is None,
            },
    {
        let mut conditions: Vec<Weather> = Vec::new();
        let mut next: usize = 0;
        while next < items.len()
            invariant
                next <= items.len(),
                conditions.len() == next,
                forall|i: int|
                    0 <= i < next ==> (#[trigger] Weather::of_json(items@[i])) is Some
                        && conditions@[i]@ == Weather::of_json(items@[i])->0,
            decreases items.len() - next,
        {
            match Weather::from_json(&items[next]) {
                Some(condition) => {
                    conditions.push(condition);
                },
                None => {
                    return None;
                },
            }
            next = next + 1;
        }
        Some(conditions)
    }
}

impl Wind {
    /// The wind that a document holds: an object with a number `speed`.
    pub open spec fn of_json(value: serde_json::Value) -> Option<Wind> {
        match member_decimal(value, "speed"@) {
            Some(speed) => Some(Wind { speed }),
            None => None,
        }
    }

    /// Reads the wind from a document.
    pub fn from_json(value: &serde_json::Value) -> (r: Option<Wind>)
        ensures
            r == Self::of_json(*value),
    {
        match read_member_decimal(value, "speed") {
            Some(speed) => Some(Wind { speed }),
            None => None,
        }
    }
}

impl OpenWeatherData {
    /// The report that a document holds: an object with the measurements under
    /// `main`, a list of conditions under `weather`, an integer `visibility`
    /// of at most 65535 and the wind under `wind`. Other members do not count.
    pub open spec fn of_json(value: serde_json::Value) -> Option<OpenWeatherView> {
        match (
            json_member(value, "main"@),
            member_items(value, "weather"@),
            member_unsigned(value, "visibility"@, 0xffff),
            json_member(value, "wind"@),
        ) {
            (Some(main), Some(items), Some(visibility), Some(wind)) => match (
                WeatherMain::of_json(main),
                weather_list(items),
                Wind::of_json(wind),
            ) {
                (Some(main), Some(weather), Some(wind)) => Some(
                    OpenWeatherView { main, weather, visibility: visibility as u16, wind },
                ),
                _ => None,
            },
            _ => None,
        }
    }

    /// Reads a report from a document.
    pub fn from_json(value: &serde_json::Value) -> (r: Option<OpenWeatherData>)
        ensures
            match Self::of_json(*value) {
                Some(report) => r matches Some(found) && found@ == report,
                None => r is None,
            },
    {
        let main = match member(value, "main") {
            Some(found) => WeatherMain::from_json(found),
            None => None,
        };
        let weather = match read_member_items(value, "weather") {
            Some(found) => Weather::list_from_json(found),
            None => None,
        };
        let visibility = read_member_unsigned(value, "visibility", 0xffff);
        let wind = match member(value, "wind") {
            Some(found) => Wind::from_json(found),
            None => None,
        };
        match (main, weather, visibility, wind) {
            (Some(main), Some(weather), Some(visibility), Some(wind)) => Some(
                OpenWeatherData { main, weather, visibility: visibility as u16, wind },
            ),
            _ => None,
        }
    }
}

impl OpenWeatherErrorData {
    /// The error report that a document holds: an object with the strings
    /// `cod` and `message`.
    pub open spec fn of_json(value: serde_json::Value) -> Option<OpenWeatherErrorView> {
        match (member_text(value, "cod"@), member_text(value, "message"@)) {
            (Some(cod), Some(message)) => Some(OpenWeatherErrorView { cod, message }),
            _ => None,
        }
    }

    /// Reads an error report from a document.
    pub fn from_json(value: &serde_json::Value) -> (r: Option<OpenWeatherErrorData>)
        ensures
            match Self::of_json(*value) {
                Some(report) => r matches Some(found) && found@ == report,
                None => r is None,
            },
    {
        let cod = read_member_text(value, "cod");
        let message = read_member_text(value, "message");
        match (cod, message) {
            (Some(cod), Some(message)) => Some(OpenWeatherErrorData { cod, message }),
            _ => None,
        }
    }
}

} // verus!
