//! The weather record that every provider's answer is brought to, and the
//! conversions that bring it there.

pub mod openweather_model;
pub mod weatherapi_model;

use crate::decimal::{saturate_u16, truncating_div, Decimal};
use crate::models::openweather_model::{OpenWeatherData, OpenWeatherView};
use crate::models::weatherapi_model::{WeatherApiData, WeatherApiHistoryData, WeatherCurrentView};
use vstd::prelude::*;

verus! {

/// What can go wrong with the data of a response.
#[derive(Clone, Copy, Debug, PartialEq, Eq, Structural)]
pub enum WeatherDataError {
    /// The body is no JSON, or the document in it is not of the expected
    /// schema.
    JsonParse,
}

/// The weather at a place: the one record that every provider's report is
/// converted into. No field is ever left out.
#[derive(Debug, PartialEq)]
pub struct WeatherData {
    /// In degrees Celsius.
    pub temp: Decimal,
    /// In percent.
    pub humidity: u8,
    /// In hectopascal.
    pub pressure: u16,
    /// In metres per second.
    pub wind_speed: Decimal,
    /// In metres.
    pub visibility: u16,
    pub description: String,
}

/// A weather record as a value.
pub struct WeatherDataView {
    pub temp: Decimal,
    pub humidity: u8,
    pub pressure: u16,
    pub wind_speed: Decimal,
    pub visibility: u16,
    pub description: Seq<char>,
}

impl View for WeatherData {
    type V = WeatherDataView;

    open spec fn view(&self) -> WeatherDataView {
        WeatherDataView {
            temp: self.temp,
            humidity: self.humidity,
            pressure: self.pressure,
            wind_speed: self.wind_speed,
            visibility: self.visibility,
            description: self.description@,
        }
    }
}

/// A speed in metres per second, given in kilometres per hour: multiplied by
/// 1000/3600, and cut off after the sixth fractional digit.
pub open spec fn metres_per_second(km_per_hour: Decimal) -> Decimal {
    Decimal { micros: truncating_div(km_per_hour.micros * 1000, 3600) as i64 }
}

/// A distance in whole metres, given in kilometres: multiplied by 1000, cut
/// down to its whole part and brought into the range of `u16`.
pub open spec fn metres(km: Decimal) -> u16 {
    saturate_u16(truncating_div(km.micros * 1000, 1_000_000))
}

/// The record for an OpenWeather report. The description is that of the last
/// condition, and empty where the report has no condition.
pub open spec fn canonical_open_weather(report: OpenWeatherView) -> WeatherDataView {
    WeatherDataView {
        temp: report.main.temp,
        humidity: report.main.humidity,
        pressure: report.main.pressure,
        wind_speed: report.wind.speed,
        visibility: report.visibility,
        description: if report.weather.len() > 0 {
            report.weather.last()
        } else {
            Seq::empty()
        },
    }
}

/// The record for the conditions that WeatherAPI reports of one moment.
pub open spec fn canonical_current(current: WeatherCurrentView) -> WeatherDataView {
    WeatherDataView {
        temp: current.temp_c,
        humidity: current.humidity,
        pressure: current.pressure_mb.whole_u16(),
        wind_speed: metres_per_second(current.wind_kph),
        visibility: metres(current.vis_km),
        description: current.condition,
    }
}

/// The record for a WeatherAPI history report: that of the first hour of the
/// last day. There is none where the report has no day, or its last day no
/// hour.
pub open spec fn canonical_history(days: Seq<Seq<WeatherCurrentView>>) -> Option<WeatherDataView> {
    if days.len() > 0 && days.last().len() > 0 {
        Some(canonical_current(days.last()[0]))
    } else {
        None
    }
}

/// Converts kilometres per hour to metres per second.
pub fn km_per_hour_to_m_per_sec(km_per_hour: Decimal) -> (r: Decimal)
    ensures
        r == metres_per_second(km_per_hour),
{
    if km_per_hour.micros >= 0 {
        let scaled: u128 = km_per_hour.micros as u128 * 1000;
        Decimal { micros: (scaled / 3600) as i64 }
    } else {
        let magnitude: i128 = -(km_per_hour.micros as i128);
        let scaled: u128 = magnitude as u128 * 1000;
        Decimal { micros: -((scaled / 3600) as i64) }
    }
}

/// Converts kilometres to whole metres.
pub fn km_to_m(km: Decimal) -> (r: u16)
    ensures
        r == metres(km),
{
    if km.micros < 0 {
        0
    } else {
        let scaled: u128 = km.micros as u128 * 1000;
        let whole: u128 = scaled / 1_000_000;
        if whole > 0xffff {
            0xffff
        } else {
            whole as u16
        }
    }
}

impl WeatherData {
    /// Converts an OpenWeather report.
    pub fn from_open_weather(report: OpenWeatherData) -> (r: WeatherData)
        ensures
            r@ == canonical_open_weather(report@),
    {
        let mut weather = report.weather;
        let description = match weather.pop() {
            Some(condition) => condition.description,
            None => String::new(),
        };
        WeatherData {
            temp: report.main.temp,
            humidity: report.main.humidity,
            pressure: report.main.pressure,
            wind_speed: report.wind.speed,
            visibility: report.visibility,
            description,
        }
    }

    /// Converts WeatherAPI's report of the current conditions.
    pub fn from_weather_api(report: WeatherApiData) -> (r: WeatherData)
        ensures
            r@ == canonical_current(report@),
    {
        let current = report.current;
        WeatherData {
            temp: current.temp_c,
            humidity: current.humidity,
            pressure: current.pressure_mb.to_u16(),
            wind_speed: km_per_hour_to_m_per_sec(current.wind_kph),
            visibility: km_to_m(current.vis_km),
            description: current.condition.text,
        }
    }

    /// Converts WeatherAPI's report of past days: the first hour of the last
    /// day counts. A report without a day, or whose last day has no hour, is
    /// refused.
    pub fn from_weather_api_history(report: WeatherApiHistoryData) -> (r: Result<
        WeatherData,
        WeatherDataError,
    >)
        ensures
            match canonical_history(report@) {
                Some(record) => r matches Ok(found) && found@ == record,
                None => r == Err::<WeatherData, WeatherDataError>(WeatherDataError::JsonParse),
            },
    {
        let mut days = report.forecast.forecastday;
        match days.pop() {
            Some(day) => {
                let mut hours = day.hour;
                if hours.len() > 0 {
                    let current = hours.remove(0);
                    Ok(WeatherData::from_weather_api(WeatherApiData { current }))
                } else {
                    Err(WeatherDataError::JsonParse)
                }
            },
            None => Err(WeatherDataError::JsonParse),
        }
    }
}

/// A history report is read by the first hour of its last day alone: two
/// reports that agree there give the same record, whatever their other days
/// and hours hold.
pub proof fn lemma_history_reads_last_day_first_hour(
    one: Seq<Seq<WeatherCurrentView>>,
    other: Seq<Seq<WeatherCurrentView>>,
)
    requires
        one.len() > 0,
        other.len() > 0,
        one.last().len() > 0,
        other.last().len() > 0,
        one.last()[0] == other.last()[0],
    ensures
        canonical_history(one) == canonical_history(other),
        canonical_history(one) == Some(canonical_current(one.last()[0])),
{
}

} // verus!
