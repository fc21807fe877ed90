//! The weather-forecast extension: a metric/command extension whose
//! simulated readings are a pure function of the city name, so every
//! reported number is stated exactly.
//!
//! Quantities that were conceptually fractional travel in hundredths
//! (`Centi`); every simulated reading is a whole number of its unit.

use vstd::prelude::*;
use vstd::string::{StrSliceExecFns, StringSliceAdditionalSpecFns};
use crate::config::{read_i64_field, read_string_field, read_bool_field};
use crate::config::{
    spec_bool_or, spec_clamped_days, spec_i64_field, spec_i64_or, spec_nonneg_i64_or,
    spec_string_or,
};
use crate::errors::ExtensionError;
use crate::json;
use crate::metadata::{ExtensionMetadata, VersionTriple};
use crate::metrics::{ExtensionMetricValue, MetricDataType, MetricDescriptor, ParamMetricValue};
use crate::metrics::{CommandDescriptor, ParameterDefinition, ParameterGroup};
use crate::trusted;

verus! {

/// The hash a city name is folded to: the classic multiply-by-31
/// accumulation over the name's bytes, wrapping in `u32`.
pub open spec fn spec_city_hash(s: Seq<u8>) -> u32
    decreases s.len(),
{
    if s.len() == 0 {
        0u32
    } else {
        vstd::wrapping::u32_specs::wrapping_add(
            vstd::wrapping::u32_specs::wrapping_mul(spec_city_hash(s.drop_last()), 31),
            s.last() as u32,
        )
    }
}

/// Temperature in whole degrees Celsius: between -10 and 29.
pub open spec fn spec_temperature(h: u32) -> int {
    h as int % 40 - 10
}

/// Relative humidity in percent: between 30 and 89.
pub open spec fn spec_humidity(h: u32) -> int {
    30 + h as int % 60
}

/// Wind speed in whole kilometres per hour: between 0 and 19.
pub open spec fn spec_wind(h: u32) -> int {
    h as int % 20
}

/// Cloud cover in percent: between 0 and 99.
pub open spec fn spec_clouds(h: u32) -> int {
    h as int % 100
}

/// The one-word sky description: cloudy above half cover, humid above
/// seventy percent humidity, clear otherwise.
pub open spec fn spec_kind(h: u32) -> WeatherKind {
    if spec_clouds(h) > 50 {
        WeatherKind::Cloudy
    } else if spec_humidity(h) > 70 {
        WeatherKind::Humid
    } else {
        WeatherKind::Clear
    }
}

/// The one-word sky description of a reading.
#[derive(Debug, Clone, Copy, PartialEq, Eq, Structural)]
pub enum WeatherKind {
    Cloudy,
    Humid,
    Clear,
}

impl WeatherKind {
    /// The description word.
    pub fn label(&self) -> (r: String)
        ensures
            r@ == self.spec_label(),
    {
        match self {
            WeatherKind::Cloudy => String::from_str("Cloudy"),
            WeatherKind::Humid => String::from_str("Humid"),
            WeatherKind::Clear => String::from_str("Clear"),
        }
    }

    /// The description word, as characters.
    pub open spec fn spec_label(self) -> Seq<char> {
        match self {
            WeatherKind::Cloudy => "Cloudy"@,
            WeatherKind::Humid => "Humid"@,
            WeatherKind::Clear => "Clear"@,
        }
    }
}

/// One simulated reading for a city, in whole units.
#[derive(Debug, Clone)]
pub struct WeatherReading {
    pub city: String,
    pub temperature_c: i32,
    pub humidity_percent: i32,
    pub wind_speed_kmph: i32,
    pub cloud_cover_percent: i32,
    pub description: WeatherKind,
}

/// A reading is the simulation of the hash `h`.
pub open spec fn reading_of_hash(r: WeatherReading, h: u32) -> bool {
    &&& r.temperature_c == spec_temperature(h)
    &&& r.humidity_percent == spec_humidity(h)
    &&& r.wind_speed_kmph == spec_wind(h)
    &&& r.cloud_cover_percent == spec_clouds(h)
    &&& r.description == spec_kind(h)
}

/// The temperature unit a query asks for.
#[derive(Debug, Clone, Copy, PartialEq, Eq, Structural)]
pub enum TempUnit {
    Celsius,
    Fahrenheit,
    Kelvin,
}

/// Which unit a units argument names; anything but the two recognized
/// words means Celsius.
pub open spec fn spec_unit_of(u: Seq<char>) -> TempUnit {
    if u == "fahrenheit"@ {
        TempUnit::Fahrenheit
    } else if u == "kelvin"@ {
        TempUnit::Kelvin
    } else {
        TempUnit::Celsius
    }
}

/// A whole-degree Celsius temperature in the requested unit, in
/// hundredths: Fahrenheit is `c * 9 / 5 + 32`, Kelvin is `c + 273.15`.
pub open spec fn spec_temp_centi(c: int, u: TempUnit) -> int {
    match u {
        TempUnit::Celsius => c * 100,
        TempUnit::Fahrenheit => c * 180 + 3200,
        TempUnit::Kelvin => c * 100 + 27315,
    }
}

/// The report's numbers are one simulated reading, converted into the
/// report's own echoed unit: no field is invented independently of the
/// others.
pub open spec fn consistent_report(w: WeatherReport) -> bool {
    exists|h: u32|
        {
            &&& w.humidity_percent == #[trigger] spec_humidity(h)
            &&& w.temperature_centi == spec_temp_centi(spec_temperature(h), w.temperature_unit)
            &&& w.wind_speed_kmph == spec_wind(h)
            &&& w.cloud_cover_percent == spec_clouds(h)
            &&& w.description == spec_kind(h)
        }
}

/// The reply to a `query_weather` or `refresh` command.
#[derive(Debug, Clone)]
pub struct WeatherReport {
    pub city: String,
    /// Temperature in the requested unit, in hundredths.
    pub temperature_centi: i64,
    pub temperature_unit: TempUnit,
    pub humidity_percent: i32,
    pub wind_speed_kmph: i32,
    pub cloud_cover_percent: i32,
    pub description: WeatherKind,
    pub units_requested: String,
    pub days_ahead: i64,
    /// Set exactly when the query asked for alerts; the simulated alert
    /// list is always empty.
    pub alerts_enabled: bool,
}

/// One day of a forecast summary.
#[derive(Debug, Clone)]
pub struct DailyForecast {
    pub day: u64,
    pub temperature_c: i32,
    pub humidity_percent: i32,
    pub description: WeatherKind,
}

/// The reply to a `forecast_summary` command.
#[derive(Debug, Clone)]
pub struct ForecastSummary {
    pub city: String,
    pub forecast_days: u64,
    pub detailed: bool,
    pub forecasts: Vec<DailyForecast>,
}

/// The reply to an administrative command of this extension.
#[derive(Debug, Clone)]
pub enum CommandReply {
    Weather(WeatherReport),
    Forecast(ForecastSummary),
}

/// Computes `spec_city_hash` over a byte string.
pub fn city_hash_bytes(bytes: &[u8]) -> (r: u32)
    ensures
        r == spec_city_hash(bytes@),
{
    let mut h: u32 = 0;
    let mut i: usize = 0;
    while i < bytes.len()
        invariant
            0 <= i <= bytes@.len(),
            h == spec_city_hash(bytes@.subrange(0, i as int)),
        decreases bytes@.len() - i,
    {
        h = h.wrapping_mul(31).wrapping_add(bytes[i] as u32);
        i = i + 1;
        proof {
            let sub = bytes@.subrange(0, i as int);
            assert(sub.drop_last() =~= bytes@.subrange(0, i - 1));
            assert(sub.last() == bytes@[i - 1]);
        }
    }
    proof {
        assert(bytes@.subrange(0, bytes@.len() as int) =~= bytes@);
    }
    h
}

/// Computes `spec_city_hash` of a city name's bytes.
pub fn city_hash(city: &str) -> (r: u32)
    ensures
        r == spec_city_hash(city.spec_bytes()),
{
    city_hash_bytes(city.as_bytes())
}

/// Simulates a reading for `city`: every field is the stated function of
/// the city-name hash.
pub fn simulate_reading(city: &str) -> (r: WeatherReading)
    ensures
        r.city@ == city@,
        reading_of_hash(r, spec_city_hash(city.spec_bytes())),
{
    let h = city_hash(city);
    let temperature: i32 = (h % 40) as i32 - 10;
    let humidity: i32 = 30 + (h % 60) as i32;
    let wind: i32 = (h % 20) as i32;
    let clouds: i32 = (h % 100) as i32;
    let description = if clouds > 50 {
        WeatherKind::Cloudy
    } else if humidity > 70 {
        WeatherKind::Humid
    } else {
        WeatherKind::Clear
    };
    WeatherReading {
        city: city.to_owned(),
        temperature_c: temperature,
        humidity_percent: humidity,
        wind_speed_kmph: wind,
        cloud_cover_percent: clouds,
        description,
    }
}

/// The weather-forecast extension: identity, the default city, and the
/// metric collection cache.
#[derive(Debug)]
pub struct WeatherExtension {
    metadata: ExtensionMetadata,
    default_city: String,
    default_city_bytes: Vec<u8>,
    collection_interval_seconds: u64,
    last_collection_timestamp: i64,
    cached: Option<CachedWeather>,
}

/// The cached metric values, in the units the metrics carry.
#[derive(Debug, Clone, Copy, PartialEq, Eq, Structural)]
pub struct CachedWeather {
    pub temperature_centi: i64,
    pub humidity_percent: i64,
    pub wind_centi: i64,
    pub cloud_cover_percent: i64,
}

/// The cache values the simulation yields for hash `h`.
pub open spec fn spec_fresh_cache(h: u32) -> CachedWeather {
    CachedWeather {
        temperature_centi: (spec_temperature(h) * 100) as i64,
        humidity_percent: spec_humidity(h) as i64,
        wind_centi: (spec_wind(h) * 100) as i64,
        cloud_cover_percent: spec_clouds(h) as i64,
    }
}

impl WeatherExtension {
    /// The identity record.
    pub closed spec fn spec_metadata(self) -> ExtensionMetadata {
        self.metadata
    }

    /// The city used when a query names none.
    pub closed spec fn spec_default_city(self) -> Seq<char> {
        self.default_city@
    }

    /// The default city's name bytes, fixed at construction; the metric
    /// cache contract is stated over their hash.
    pub closed spec fn spec_default_city_bytes(self) -> Seq<u8> {
        self.default_city_bytes@
    }

    /// The collection interval in seconds.
    pub closed spec fn spec_interval(self) -> u64 {
        self.collection_interval_seconds
    }

    /// The cached metric values, if a collection has happened.
    pub closed spec fn spec_cached(self) -> Option<CachedWeather> {
        self.cached
    }

    /// The metric cache, when present, holds exactly the fresh simulation
    /// of the (fixed) default city, so reported values are never invented.
    pub open spec fn wf(self) -> bool {
        self.spec_cached() matches Some(c) ==> c == spec_fresh_cache(
            spec_city_hash(self.spec_default_city_bytes()),
        )
    }

    /// Builds the extension from its configuration: the default city
    /// (falling back to Beijing) and the collection interval in minutes
    /// (falling back to an hour; a negative value means the fallback).
    /// Never fails: an empty or malformed configuration yields the
    /// defaults.
    pub fn new(config: &serde_json::Value) -> (r: Result<Self, ExtensionError>)
        ensures
            r matches Ok(ext) && {
                &&& ext.spec_metadata().id@ == "neomind.weather.forecast"@
                &&& ext.spec_metadata().name@ == "Weather Forecast Extension"@
                &&& ext.spec_metadata().version == (VersionTriple {
                    major: 0u64,
                    minor: 5u64,
                    patch: 8u64,
                })
                &&& ext.spec_default_city() == spec_string_or(*config, "default_city"@, "Beijing"@)
                &&& ext.spec_interval() == crate::sat64(
                    spec_nonneg_i64_or(*config, "update_interval_minutes"@, 60) * 60,
                )
                &&& ext.spec_cached() is None
                &&& ext.wf()
            },
    {
        let default_city = match read_string_field(config, "default_city") {
            Some(c) => c,
            None => String::from_str("Beijing"),
        };
        let minutes: u64 = match read_i64_field(config, "update_interval_minutes") {
            Some(m) => if m >= 0 {
                m as u64
            } else {
                60
            },
            None => 60,
        };
        let seconds = match minutes.checked_mul(60) {
            Some(s) => s,
            None => u64::MAX,
        };
        let metadata = ExtensionMetadata::new(
            "neomind.weather.forecast",
            "Weather Forecast Extension",
            VersionTriple::new(0, 5, 8),
        ).with_description("Provides weather data and forecasts for global cities").with_author(
            "CamThink",
        );
        let default_city_bytes = default_city.as_str().as_bytes_vec();
        Ok(
            WeatherExtension {
                metadata,
                default_city,
                default_city_bytes,
                collection_interval_seconds: seconds,
                last_collection_timestamp: 0,
                cached: None,
            },
        )
    }

    /// Capability negotiation: this extension does not accept a stream
    /// at all, so the host must send it no chunks.
    pub fn stream_capability(&self) -> (r: Option<crate::capability::StreamCapability>)
        ensures
            r is None,
    {
        None
    }

    /// The identity record.
    pub fn metadata(&self) -> (r: &ExtensionMetadata)
        ensures
            *r == self.spec_metadata(),
    {
        &self.metadata
    }

    /// The city used when a query names none.
    pub fn default_city(&self) -> (r: &String)
        ensures
            r@ == self.spec_default_city(),
    {
        &self.default_city
    }

    /// Simulates a reading for `city`: every field is the stated function
    /// of the city-name hash.
    pub fn simulate_weather(&self, city: &str) -> (r: WeatherReading)
        ensures
            r.city@ == city@,
            reading_of_hash(r, spec_city_hash(city.spec_bytes())),
    {
        simulate_reading(city)
    }

    /// Builds the reply to a weather query: the simulated reading for the
    /// city, the temperature converted into the requested unit, and the
    /// echoed query parameters.
    pub fn weather_report(
        &self,
        city: &str,
        units: &str,
        include_alerts: bool,
        days_ahead: i64,
    ) -> (r: WeatherReport)
        ensures
            r.city@ == city@,
            r.temperature_unit == spec_unit_of(units@),
            r.temperature_centi == spec_temp_centi(
                spec_temperature(spec_city_hash(city.spec_bytes())),
                spec_unit_of(units@),
            ),
            r.humidity_percent == spec_humidity(spec_city_hash(city.spec_bytes())),
            r.wind_speed_kmph == spec_wind(spec_city_hash(city.spec_bytes())),
            r.cloud_cover_percent == spec_clouds(spec_city_hash(city.spec_bytes())),
            r.description == spec_kind(spec_city_hash(city.spec_bytes())),
            r.units_requested@ == units@,
            r.days_ahead == days_ahead,
            r.alerts_enabled == include_alerts,
    {
        let reading = self.simulate_weather(city);
        let unit = if crate::registry::str_eq(units, "fahrenheit") {
            TempUnit::Fahrenheit
        } else if crate::registry::str_eq(units, "kelvin") {
            TempUnit::Kelvin
        } else {
            TempUnit::Celsius
        };
        let c = reading.temperature_c as i64;
        let temperature_centi: i64 = match unit {
            TempUnit::Celsius => c * 100,
            TempUnit::Fahrenheit => c * 180 + 3200,
            TempUnit::Kelvin => c * 100 + 27315,
        };
        WeatherReport {
            city: reading.city,
            temperature_centi,
            temperature_unit: unit,
            humidity_percent: reading.humidity_percent,
            wind_speed_kmph: reading.wind_speed_kmph,
            cloud_cover_percent: reading.cloud_cover_percent,
            description: reading.description,
            units_requested: units.to_owned(),
            days_ahead,
            alerts_enabled: include_alerts,
        }
    }

    /// Builds a multi-day forecast summary: day `d` (counting from one)
    /// is the simulation of the city name with the decimal digits of `d`
    /// appended.
    #[verifier::rlimit(50)]
    pub fn forecast_summary(&self, city: &str, days: u64) -> (r: ForecastSummary)
        requires
            days <= 14,
        ensures
            r.city@ == city@,
            r.forecast_days == days,
            r.detailed,
            r.forecasts@.len() == days,
            forall|d: int|
                0 <= d < days ==> {
                    let h = spec_city_hash(city.spec_bytes() + json::spec_dec_u64((d + 1) as nat));
                    &&& (#[trigger] r.forecasts@[d]).day == d + 1
                    &&& r.forecasts@[d].temperature_c == spec_temperature(h)
                    &&& r.forecasts@[d].humidity_percent == spec_humidity(h)
                    &&& r.forecasts@[d].description == spec_kind(h)
                },
    {
        let mut forecasts: Vec<DailyForecast> = Vec::new();
        let mut day: u64 = 1;
        while day <= days
            invariant
                1 <= day <= days + 1,
                days <= 14,
                forecasts@.len() == day - 1,
                forall|d: int|
                    0 <= d < day - 1 ==> {
                        let h = spec_city_hash(
                            city.spec_bytes() + json::spec_dec_u64((d + 1) as nat),
                        );
                        &&& (#[trigger] forecasts@[d]).day == d + 1
                        &&& forecasts@[d].temperature_c == spec_temperature(h)
                        &&& forecasts@[d].humidity_percent == spec_humidity(h)
                        &&& forecasts@[d].description == spec_kind(h)
                    },
            decreases days + 1 - day,
        {
            let mut name_bytes: Vec<u8> = Vec::new();
            let city_bytes = city.as_bytes_vec();
            json::push_all(&mut name_bytes, &city_bytes);
            json::push_dec_u64(&mut name_bytes, day);
            proof {
                assert(name_bytes@ =~= city.spec_bytes() + json::spec_dec_u64(day as nat));
            }
            let h = city_hash_bytes(name_bytes.as_slice());
            let temperature: i32 = (h % 40) as i32 - 10;
            let humidity: i32 = 30 + (h % 60) as i32;
            let clouds: i32 = (h % 100) as i32;
            let description = if clouds > 50 {
                WeatherKind::Cloudy
            } else if humidity > 70 {
                WeatherKind::Humid
            } else {
                WeatherKind::Clear
            };
            forecasts.push(
                DailyForecast {
                    day,
                    temperature_c: temperature,
                    humidity_percent: humidity,
                    description,
                },
            );
            day = day + 1;
            proof {
                assert forall|d: int| 0 <= d < day - 1 implies {
                    let hh = spec_city_hash(city.spec_bytes() + json::spec_dec_u64((d + 1) as nat));
                    &&& (#[trigger] forecasts@[d]).day == d + 1
                    &&& forecasts@[d].temperature_c == spec_temperature(hh)
                    &&& forecasts@[d].humidity_percent == spec_humidity(hh)
                    &&& forecasts@[d].description == spec_kind(hh)
                } by {
                    if d < day - 2 {
                        assert(forecasts@[d] == forecasts@.subrange(0, forecasts@.len() - 1)[d]);
                    }
                }
            }
        }
        ForecastSummary { city: city.to_owned(), forecast_days: days, detailed: true, forecasts }
    }

    /// Dispatches an administrative command. `query_weather` and
    /// `forecast_summary` read their arguments (falling back to the
    /// default city, Celsius, and three days); `refresh` reports the
    /// default city afresh; anything else is `CommandNotFound`.
    #[verifier::rlimit(80)]
    pub fn execute_command(&self, command: &str, args: &serde_json::Value) -> (r: Result<
        CommandReply,
        ExtensionError,
    >)
        ensures
            (command@ == "query_weather"@ || command@ == "refresh"@ || command@
                == "forecast_summary"@) <==> r is Ok,
            command@ == "query_weather"@ ==> (r matches Ok(reply) && reply matches
                CommandReply::Weather(w) && {
                &&& w.city@ == spec_string_or(*args, "city"@, self.spec_default_city())
                &&& w.units_requested@ == spec_string_or(*args, "units"@, "celsius"@)
                &&& w.temperature_unit == spec_unit_of(w.units_requested@)
                &&& w.days_ahead == spec_i64_or(*args, "days_ahead"@, 1)
                &&& w.alerts_enabled == spec_bool_or(*args, "include_alerts"@, false)
                &&& consistent_report(w)
            }),
            command@ == "refresh"@ ==> (r matches Ok(reply) && reply matches CommandReply::Weather(
                w,
            ) && w.city@ == self.spec_default_city() && w.temperature_unit is Celsius
                && consistent_report(w)),
            command@ == "forecast_summary"@ ==> (r matches Ok(reply) && reply matches
                CommandReply::Forecast(f) && {
                &&& f.city@ == spec_string_or(*args, "city"@, self.spec_default_city())
                &&& f.forecast_days == spec_clamped_days(spec_i64_field(*args, "days"@), 3, 14)
                &&& f.detailed
                &&& f.forecasts@.len() == f.forecast_days
            }),
            r matches Err(e) ==> e matches ExtensionError::CommandNotFound(c) && c@ == command@,
    {
        proof {
            reveal_strlit("query_weather");
            reveal_strlit("refresh");
            reveal_strlit("forecast_summary");
            assert("query_weather"@.len() == 13 && "refresh"@.len() == 7
                && "forecast_summary"@.len() == 16);
        }
        if crate::registry::str_eq(command, "query_weather") {
            let city = match read_string_field(args, "city") {
                Some(c) => c,
                None => self.default_city.clone(),
            };
            let units = match read_string_field(args, "units") {
                Some(u) => u,
                None => String::from_str("celsius"),
            };
            let include_alerts = match read_bool_field(args, "include_alerts") {
                Some(b) => b,
                None => false,
            };
            let days_ahead = match read_i64_field(args, "days_ahead") {
                Some(d) => d,
                None => 1,
            };
            let city_str = city.as_str();
            let units_str = units.as_str();
            let report = self.weather_report(city_str, units_str, include_alerts, days_ahead);
            proof {
                let h0 = spec_city_hash(city_str.spec_bytes());
                assert(report.humidity_percent == spec_humidity(h0));
                assert(consistent_report(report));
            }
            Ok(CommandReply::Weather(report))
        } else if crate::registry::str_eq(command, "refresh") {
            proof {
                reveal_strlit("celsius");
                reveal_strlit("fahrenheit");
                reveal_strlit("kelvin");
                assert("celsius"@.len() == 7 && "fahrenheit"@.len() == 10 && "kelvin"@.len()
                    == 6);
                assert(spec_unit_of("celsius"@) is Celsius);
            }
            let city_string = self.default_city.clone();
            let city_str = city_string.as_str();
            let report = self.weather_report(city_str, "celsius", false, 1);
            proof {
                let h0 = spec_city_hash(city_str.spec_bytes());
                assert(report.humidity_percent == spec_humidity(h0));
                assert(consistent_report(report));
                assert(report.city@ == self.spec_default_city());
                assert(report.temperature_unit is Celsius);
            }
            Ok(CommandReply::Weather(report))
        } else if crate::registry::str_eq(command, "forecast_summary") {
            let city = match read_string_field(args, "city") {
                Some(c) => c,
                None => self.default_city.clone(),
            };
            let days_arg = match read_i64_field(args, "days") {
                Some(d) => d,
                None => 3,
            };
            let days: u64 = if days_arg < 0 {
                0
            } else if days_arg > 14 {
                14
            } else {
                days_arg as u64
            };
            Ok(CommandReply::Forecast(self.forecast_summary(city.as_str(), days)))
        } else {
            Err(ExtensionError::CommandNotFound(command.to_owned()))
        }
    }

    /// Whether the collection interval has elapsed since the last
    /// collection; when it has, the last-collection timestamp advances.
    /// The clock decides the outcome, so only the frame is stated: a
    /// negative answer changes nothing, a positive one changes only the
    /// timestamp.
    pub fn should_collect_metrics(&mut self) -> (r: bool)
        ensures
            !r ==> *final(self) == *old(self),
            final(self).spec_metadata() == old(self).spec_metadata(),
            final(self).spec_default_city() == old(self).spec_default_city(),
            final(self).spec_default_city_bytes() == old(self).spec_default_city_bytes(),
            final(self).spec_interval() == old(self).spec_interval(),
            final(self).spec_cached() == old(self).spec_cached(),
    {
        let now_ms = trusted::now_millis();
        let now_s: i64 = now_ms / 1000;
        if collection_due(now_s, self.last_collection_timestamp, self.collection_interval_seconds) {
            self.last_collection_timestamp = now_s;
            true
        } else {
            false
        }
    }

    /// A metric snapshot. When the interval has elapsed (or nothing is
    /// cached yet) the values are computed fresh from the default city
    /// and cached; otherwise the cached values are reported. Either way
    /// the four values reported are exactly the (new) cache.
    #[verifier::rlimit(50)]
    pub fn produce_metrics(&mut self) -> (r: Result<Vec<ExtensionMetricValue>, ExtensionError>)
        requires
            old(self).wf(),
        ensures
            final(self).wf(),
            final(self).spec_metadata() == old(self).spec_metadata(),
            final(self).spec_default_city() == old(self).spec_default_city(),
            final(self).spec_default_city_bytes() == old(self).spec_default_city_bytes(),
            final(self).spec_interval() == old(self).spec_interval(),
            final(self).spec_cached() matches Some(cache) && {
                &&& cache == spec_fresh_cache(
                    spec_city_hash(old(self).spec_default_city_bytes()),
                )
                &&& -5000 <= cache.temperature_centi <= 6000
                &&& 0 <= cache.humidity_percent <= 100
                &&& cache.wind_centi >= 0
                &&& 0 <= cache.cloud_cover_percent <= 100
                &&& r matches Ok(v) && {
                    &&& v@.len() == 4
                    &&& v@[0].name@ == "temperature_c"@
                    &&& v@[0].value == ParamMetricValue::Centi(cache.temperature_centi)
                    &&& v@[1].name@ == "humidity_percent"@
                    &&& v@[1].value == ParamMetricValue::Integer(cache.humidity_percent)
                    &&& v@[2].name@ == "wind_speed_kmph"@
                    &&& v@[2].value == ParamMetricValue::Centi(cache.wind_centi)
                    &&& v@[3].name@ == "cloud_cover_percent"@
                    &&& v@[3].value == ParamMetricValue::Integer(cache.cloud_cover_percent)
                    &&& v@[0].timestamp == v@[1].timestamp
                    &&& v@[1].timestamp == v@[2].timestamp
                    &&& v@[2].timestamp == v@[3].timestamp
                }
            },
    {
        let due = self.should_collect_metrics();
        let cache: CachedWeather = if due || self.cached.is_none() {
            let h = city_hash_bytes(self.default_city_bytes.as_slice());
            let fresh = CachedWeather {
                temperature_centi: ((h % 40) as i64 - 10) * 100,
                humidity_percent: 30 + (h % 60) as i64,
                wind_centi: (h % 20) as i64 * 100,
                cloud_cover_percent: (h % 100) as i64,
            };
            proof {
                assert(h == spec_city_hash(old(self).spec_default_city_bytes()));
                assert(fresh == spec_fresh_cache(h));
            }
            self.cached = Some(fresh);
            fresh
        } else {
            match self.cached {
                Some(c) => c,
                None => {
                    return Err(ExtensionError::InvalidInput(String::from_str("no cache")));
                },
            }
        };
        let ts = trusted::now_millis();
        let mut out: Vec<ExtensionMetricValue> = Vec::new();
        out.push(
            ExtensionMetricValue::new(
                "temperature_c",
                ParamMetricValue::Centi(cache.temperature_centi),
                ts,
            ),
        );
        out.push(
            ExtensionMetricValue::new(
                "humidity_percent",
                ParamMetricValue::Integer(cache.humidity_percent),
                ts,
            ),
        );
        out.push(
            ExtensionMetricValue::new(
                "wind_speed_kmph",
                ParamMetricValue::Centi(cache.wind_centi),
                ts,
            ),
        );
        out.push(
            ExtensionMetricValue::new(
                "cloud_cover_percent",
                ParamMetricValue::Integer(cache.cloud_cover_percent),
                ts,
            ),
        );
        Ok(out)
    }

    /// This extension is always healthy.
    pub fn health_check(&self) -> (r: Result<bool, ExtensionError>)
        ensures
            r == Result::<bool, ExtensionError>::Ok(true),
    {
        Ok(true)
    }

    /// The four metrics this extension declares.
    pub fn metrics(&self) -> (r: Vec<MetricDescriptor>)
        ensures
            r@.len() == 4,
            r@[0].name@ == "temperature_c"@,
            r@[0].display_name@ == "Temperature"@,
            r@[0].data_type is Float,
            r@[0].unit@ == "degC"@,
            r@[0].min == Some(-50i64) && r@[0].max == Some(60i64),
            r@[1].name@ == "humidity_percent"@,
            r@[1].display_name@ == "Humidity"@,
            r@[1].data_type is Integer,
            r@[1].unit@ == "%"@,
            r@[1].min == Some(0i64) && r@[1].max == Some(100i64),
            r@[2].name@ == "wind_speed_kmph"@,
            r@[2].display_name@ == "Wind Speed"@,
            r@[2].data_type is Float,
            r@[2].unit@ == "km/h"@,
            r@[2].min == Some(0i64) && r@[2].max == Some(200i64),
            r@[3].name@ == "cloud_cover_percent"@,
            r@[3].display_name@ == "Cloud Cover"@,
            r@[3].data_type is Integer,
            r@[3].unit@ == "%"@,
            r@[3].min == Some(0i64) && r@[3].max == Some(100i64),
    {
        let mut out: Vec<MetricDescriptor> = Vec::new();
        out.push(
            MetricDescriptor {
                name: String::from_str("temperature_c"),
                display_name: String::from_str("Temperature"),
                data_type: MetricDataType::Float,
                unit: String::from_str("degC"),
                min: Some(-50),
                max: Some(60),
                required: false,
            },
        );
        out.push(
            MetricDescriptor {
                name: String::from_str("humidity_percent"),
                display_name: String::from_str("Humidity"),
                data_type: MetricDataType::Integer,
                unit: String::from_str("%"),
                min: Some(0),
                max: Some(100),
                required: false,
            },
        );
        out.push(
            MetricDescriptor {
                name: String::from_str("wind_speed_kmph"),
                display_name: String::from_str("Wind Speed"),
                data_type: MetricDataType::Float,
                unit: String::from_str("km/h"),
                min: Some(0),
                max: Some(200),
                required: false,
            },
        );
        out.push(
            MetricDescriptor {
                name: String::from_str("cloud_cover_percent"),
                display_name: String::from_str("Cloud Cover"),
                data_type: MetricDataType::Integer,
                unit: String::from_str("%"),
                min: Some(0),
                max: Some(100),
                required: false,
            },
        );
        out
    }

    /// The three commands this extension declares, with their parameter
    /// declarations, samples and parameter groups.
    pub fn commands(&self) -> (r: Vec<CommandDescriptor>)
        ensures
            r@.len() == 3,
            r@[0].name@ == "query_weather"@,
            r@[0].display_name@ == "Query Weather"@,
            r@[0].parameters@.len() == 4,
            r@[0].parameters@[0].name@ == "city"@ && r@[0].parameters@[0].param_type is Text
                && r@[0].parameters@[0].required,
            r@[0].parameters@[1].name@ == "units"@ && !r@[0].parameters@[1].required,
            r@[0].parameters@[1].param_type matches MetricDataType::Enum { options }
                && options@.len() == 3 && options@[0]@ == "celsius"@ && options@[1]@
                == "fahrenheit"@ && options@[2]@ == "kelvin"@,
            r@[0].parameters@[2].name@ == "days_ahead"@ && r@[0].parameters@[2].param_type
                is Integer && r@[0].parameters@[2].min == Some(1i64) && r@[0].parameters@[2].max
                == Some(7i64),
            r@[0].parameters@[3].name@ == "include_alerts"@ && r@[0].parameters@[3].param_type
                is Boolean,
            r@[0].samples@.len() == 2,
            r@[0].parameter_groups@.len() == 2,
            r@[0].parameter_groups@[0].name@ == "location"@
                && r@[0].parameter_groups@[0].parameters@.len() == 1
                && r@[0].parameter_groups@[0].parameters@[0]@ == "city"@,
            r@[0].parameter_groups@[1].name@ == "options"@
                && r@[0].parameter_groups@[1].parameters@.len() == 3
                && r@[0].parameter_groups@[1].parameters@[0]@ == "units"@
                && r@[0].parameter_groups@[1].parameters@[1]@ == "days_ahead"@
                && r@[0].parameter_groups@[1].parameters@[2]@ == "include_alerts"@,
            r@[1].name@ == "refresh"@,
            r@[1].display_name@ == "Refresh Weather Data"@,
            r@[2].name@ == "forecast_summary"@,
            r@[2].display_name@ == "Forecast Summary"@,
            r@[2].parameters@.len() == 1,
            r@[2].parameters@[0].name@ == "days"@ && r@[2].parameters@[0].param_type is Integer
                && r@[2].parameters@[0].min == Some(1i64) && r@[2].parameters@[0].max == Some(
                14i64,
            ),
            r@[2].fixed_values@.len() == 1 && r@[2].fixed_values@[0].0@ == "detailed"@,
    {
        let mut out: Vec<CommandDescriptor> = Vec::new();
        out.push(query_weather_descriptor());
        out.push(refresh_descriptor());
        out.push(forecast_summary_descriptor());
        out
    }
}

/// Whether the collection interval has elapsed: the difference between
/// now and the last collection, in seconds, has reached the interval.
pub fn collection_due(now_s: i64, last_s: i64, interval_s: u64) -> (r: bool)
    ensures
        r == (now_s - last_s >= interval_s),
{
    let diff: i128 = now_s as i128 - last_s as i128;
    diff >= interval_s as i128
}

/// The `query_weather` command: city, units, days ahead and alerts.
fn query_weather_descriptor() -> (r: CommandDescriptor)
    ensures
        r.name@ == "query_weather"@,
        r.display_name@ == "Query Weather"@,
        r.parameters@.len() == 4,
        r.parameters@[0].name@ == "city"@,
        r.parameters@[0].param_type is Text,
        r.parameters@[0].required,
        r.parameters@[1].name@ == "units"@,
        !r.parameters@[1].required,
        r.parameters@[1].param_type matches MetricDataType::Enum { options } && options@.len()
            == 3 && options@[0]@ == "celsius"@ && options@[1]@ == "fahrenheit"@ && options@[2]@
            == "kelvin"@,
        r.parameters@[2].name@ == "days_ahead"@,
        r.parameters@[2].param_type is Integer,
        r.parameters@[2].min == Some(1i64) && r.parameters@[2].max == Some(7i64),
        r.parameters@[3].name@ == "include_alerts"@,
        r.parameters@[3].param_type is Boolean,
        r.samples@.len() == 2,
        r.parameter_groups@.len() == 2,
        r.parameter_groups@[0].name@ == "location"@,
        r.parameter_groups@[0].parameters@.len() == 1,
        r.parameter_groups@[0].parameters@[0]@ == "city"@,
        r.parameter_groups@[1].name@ == "options"@,
        r.parameter_groups@[1].parameters@.len() == 3,
        r.parameter_groups@[1].parameters@[0]@ == "units"@,
        r.parameter_groups@[1].parameters@[1]@ == "days_ahead"@,
        r.parameter_groups@[1].parameters@[2]@ == "include_alerts"@,
{
    let mut parameters: Vec<ParameterDefinition> = Vec::new();
    let mut city_options: Vec<String> = Vec::new();
    parameters.push(
        ParameterDefinition {
            name: String::from_str("city"),
            display_name: String::from_str("City"),
            description: String::from_str("Name of the city to query weather for"),
            param_type: MetricDataType::Text,
            required: true,
            default_value: Some(ParamMetricValue::Text(String::from_str("Beijing"))),
            min: None,
            max: None,
            options: city_options,
        },
    );
    let mut unit_options: Vec<String> = Vec::new();
    unit_options.push(String::from_str("celsius"));
    unit_options.push(String::from_str("fahrenheit"));
    unit_options.push(String::from_str("kelvin"));
    let mut unit_options_copy: Vec<String> = Vec::new();
    unit_options_copy.push(String::from_str("celsius"));
    unit_options_copy.push(String::from_str("fahrenheit"));
    unit_options_copy.push(String::from_str("kelvin"));
    parameters.push(
        ParameterDefinition {
            name: String::from_str("units"),
            display_name: String::from_str("Units"),
            description: String::from_str("Temperature units to use"),
            param_type: MetricDataType::Enum { options: unit_options },
            required: false,
            default_value: Some(ParamMetricValue::Text(String::from_str("celsius"))),
            min: None,
            max: None,
            options: unit_options_copy,
        },
    );
    parameters.push(
        ParameterDefinition {
            name: String::from_str("days_ahead"),
            display_name: String::from_str("Days Ahead"),
            description: String::from_str("Number of days ahead for forecast (1-7)"),
            param_type: MetricDataType::Integer,
            required: false,
            default_value: Some(ParamMetricValue::Integer(1)),
            min: Some(1),
            max: Some(7),
            options: Vec::new(),
        },
    );
    parameters.push(
        ParameterDefinition {
            name: String::from_str("include_alerts"),
            display_name: String::from_str("Include Alerts"),
            description: String::from_str("Whether to include weather alerts in response"),
            param_type: MetricDataType::Boolean,
            required: false,
            default_value: Some(ParamMetricValue::Boolean(false)),
            min: None,
            max: None,
            options: Vec::new(),
        },
    );
    let mut samples: Vec<String> = Vec::new();
    samples.push(String::from_str("{\"city\": \"Tokyo\", \"units\": \"celsius\"}"));
    samples.push(
        String::from_str("{\"city\": \"New York\", \"units\": \"fahrenheit\", \"days_ahead\": 3}"),
    );
    let mut groups: Vec<ParameterGroup> = Vec::new();
    let mut location_params: Vec<String> = Vec::new();
    location_params.push(String::from_str("city"));
    groups.push(
        ParameterGroup {
            name: String::from_str("location"),
            display_name: String::from_str("Location"),
            description: String::from_str("Location parameters for the weather query"),
            parameters: location_params,
        },
    );
    let mut option_params: Vec<String> = Vec::new();
    option_params.push(String::from_str("units"));
    option_params.push(String::from_str("days_ahead"));
    option_params.push(String::from_str("include_alerts"));
    groups.push(
        ParameterGroup {
            name: String::from_str("options"),
            display_name: String::from_str("Options"),
            description: String::from_str("Optional parameters for customizing the response"),
            parameters: option_params,
        },
    );
    CommandDescriptor {
        name: String::from_str("query_weather"),
        display_name: String::from_str("Query Weather"),
        payload_template: String::from_str("{\"city\": \"{{city}}\", \"units\": \"{{units}}\"}"),
        parameters,
        fixed_values: Vec::new(),
        samples,
        llm_hints: String::from_str(
            "Query current weather for any city. Returns temperature, humidity, wind speed, and cloud cover. Specify units as 'celsius', 'fahrenheit', or 'kelvin'. Use days_ahead for forecasts (1-7 days).",
        ),
        parameter_groups: groups,
    }
}

/// The parameterless `refresh` command.
fn refresh_descriptor() -> (r: CommandDescriptor)
    ensures
        r.name@ == "refresh"@,
        r.display_name@ == "Refresh Weather Data"@,
{
    CommandDescriptor {
        name: String::from_str("refresh"),
        display_name: String::from_str("Refresh Weather Data"),
        payload_template: String::from_str("{}"),
        parameters: Vec::new(),
        fixed_values: Vec::new(),
        samples: Vec::new(),
        llm_hints: String::from_str("Refresh the cached weather data for the default city."),
        parameter_groups: Vec::new(),
    }
}

/// The `forecast_summary` command: one day-count parameter and a fixed
/// detailed flag.
fn forecast_summary_descriptor() -> (r: CommandDescriptor)
    ensures
        r.name@ == "forecast_summary"@,
        r.display_name@ == "Forecast Summary"@,
        r.parameters@.len() == 1,
        r.parameters@[0].name@ == "days"@,
        r.parameters@[0].param_type is Integer,
        r.parameters@[0].min == Some(1i64) && r.parameters@[0].max == Some(14i64),
        r.fixed_values@.len() == 1,
        r.fixed_values@[0].0@ == "detailed"@,
        r.samples@.len() == 2,
{
    let mut parameters: Vec<ParameterDefinition> = Vec::new();
    parameters.push(
        ParameterDefinition {
            name: String::from_str("days"),
            display_name: String::from_str("Days"),
            description: String::from_str("Number of days to forecast (1-14)"),
            param_type: MetricDataType::Integer,
            required: false,
            default_value: Some(ParamMetricValue::Integer(3)),
            min: Some(1),
            max: Some(14),
            options: Vec::new(),
        },
    );
    let mut fixed: Vec<(String, String)> = Vec::new();
    fixed.push((String::from_str("detailed"), String::from_str("true")));
    let mut samples: Vec<String> = Vec::new();
    samples.push(String::from_str("{\"days\": 5}"));
    samples.push(String::from_str("{}"));
    CommandDescriptor {
        name: String::from_str("forecast_summary"),
        display_name: String::from_str("Forecast Summary"),
        payload_template: String::from_str("{\"city\": \"{{city}}\", \"days\": {{days}}}"),
        parameters,
        fixed_values: fixed,
        samples,
        llm_hints: String::from_str(
            "Get a forecast summary for the specified number of days. Defaults to 3 days.",
        ),
        parameter_groups: Vec::new(),
    }
}

} // verus!
