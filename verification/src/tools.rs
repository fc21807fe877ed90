//! The tool-facing weather extension: the same simulated weather behind a
//! capability-set interface. A host dispatches on the declared
//! capabilities (tools for agent use, commands for administration)
//! instead of trying operations and catching errors.

use vstd::prelude::*;
use vstd::string::StringSliceAdditionalSpecFns;
use crate::config::{read_i64_field, read_string_field};
use crate::config::{spec_clamped_days, spec_i64_field, spec_nonneg_i64_or, spec_string_field, spec_string_or};
use crate::errors::ExtensionError;
use crate::metadata::{ExtensionMetadata, VersionTriple};
use crate::metrics::{ExtensionMetricValue, MetricDataType, MetricDescriptor, ParamMetricValue};
use crate::trusted;
use crate::weather::{
    reading_of_hash, simulate_reading, spec_city_hash, spec_humidity, spec_temperature,
    WeatherReading,
};

verus! {

/// The kind of a declared capability.
#[derive(Debug, Clone, Copy, PartialEq, Eq, Structural)]
pub enum ExtensionCapabilityType {
    Tool,
    Command,
}

/// One declared capability: an identifier a host dispatches on, and an
/// optional JSON schema (as text) for its arguments.
#[derive(Debug, Clone)]
pub struct ExtensionCapabilityDescriptor {
    pub id: String,
    pub name: String,
    pub description: String,
    pub capability_type: ExtensionCapabilityType,
    pub config_schema: Option<String>,
}

/// One day of the simulated forecast a tool call returns.
#[derive(Debug, Clone)]
pub struct ForecastDay {
    pub day: u64,
    /// The day's temperature: the city's base reading warmed by two
    /// degrees per day out.
    pub temperature_c: i64,
    pub humidity_percent: i32,
    pub description: crate::weather::WeatherKind,
}

/// The reply to a tool call.
#[derive(Debug, Clone)]
pub enum ToolReply {
    /// The current weather for one city.
    Weather(WeatherReading),
    /// A multi-day forecast for one city.
    Forecast { city: String, days: Vec<ForecastDay> },
}

/// The reply to an administrative command.
#[derive(Debug, Clone)]
pub enum AdminReply {
    /// The refreshed reading now cached.
    Refreshed(WeatherReading),
    /// Acknowledges a default-city change request.
    CityAck { city: String },
}

/// The tool-facing weather extension: configuration and the reading
/// cache.
#[derive(Debug)]
pub struct WeatherExtension {
    api_key: String,
    default_city: String,
    units: String,
    timeout_seconds: u64,
    cached: Option<WeatherReading>,
    last_update: Option<i64>,
}

impl WeatherExtension {
    /// The city used when a query names none.
    pub closed spec fn spec_default_city(self) -> Seq<char> {
        self.default_city@
    }

    /// The cached reading, if a refresh has happened.
    pub closed spec fn spec_cached(self) -> Option<WeatherReading> {
        self.cached
    }

    /// The configured request timeout in seconds.
    pub closed spec fn spec_timeout_seconds(self) -> u64 {
        self.timeout_seconds
    }

    /// Builds the extension from its configuration: API key (falling
    /// back to the demo key; an environment-variable fallback is the
    /// boundary layer's concern), default city, unit system and timeout.
    /// Never fails.
    pub fn new(config: &serde_json::Value) -> (r: Result<Self, ExtensionError>)
        ensures
            r matches Ok(ext) && {
                &&& ext.spec_cached() is None
                &&& ext.spec_default_city() == spec_string_or(*config, "default_city"@, "Beijing"@)
                &&& ext.spec_timeout_seconds() == spec_nonneg_i64_or(
                    *config,
                    "timeout_seconds"@,
                    10,
                )
            },
    {
        let api_key = match read_string_field(config, "api_key") {
            Some(k) => k,
            None => String::from_str("demo_key"),
        };
        let default_city = match read_string_field(config, "default_city") {
            Some(c) => c,
            None => String::from_str("Beijing"),
        };
        let units = match read_string_field(config, "units") {
            Some(u) => u,
            None => String::from_str("metric"),
        };
        let timeout_seconds: u64 = match read_i64_field(config, "timeout_seconds") {
            Some(t) => if t >= 0 {
                t as u64
            } else {
                10
            },
            None => 10,
        };
        Ok(
            WeatherExtension {
                api_key,
                default_city,
                units,
                timeout_seconds,
                cached: None,
                last_update: None,
            },
        )
    }

    /// Capability negotiation: this extension exposes tools and
    /// commands, not a stream, so the host must send it no chunks.
    pub fn stream_capability(&self) -> (r: Option<crate::capability::StreamCapability>)
        ensures
            r is None,
    {
        None
    }

    /// The identity record.
    pub fn metadata(&self) -> (r: ExtensionMetadata)
        ensures
            r.id@ == "neomind.weather.forecast"@,
            r.name@ == "Weather Forecast Extension"@,
            r.license matches Some(l) && l@ == "MIT"@,
            r.homepage is Some,
    {
        let mut m = ExtensionMetadata::new(
            "neomind.weather.forecast",
            "Weather Forecast Extension",
            VersionTriple::new(0, 1, 0),
        ).with_description("Provides weather data and forecasts for global cities").with_author(
            "NeoMind Team",
        );
        m.license = Some(String::from_str("MIT"));
        m.homepage = Some(
            String::from_str("https://github.com/neomind/neomind-weather-extension"),
        );
        m
    }

    /// The four declared capabilities: two tools and two commands.
    pub fn capabilities(&self) -> (r: Vec<ExtensionCapabilityDescriptor>)
        ensures
            r@.len() == 4,
            r@[0].id@ == "query_weather"@ && r@[0].capability_type is Tool
                && r@[0].config_schema is Some,
            r@[1].id@ == "query_forecast"@ && r@[1].capability_type is Tool
                && r@[1].config_schema is Some,
            r@[2].id@ == "refresh"@ && r@[2].capability_type is Command
                && r@[2].config_schema is None,
            r@[3].id@ == "set_city"@ && r@[3].capability_type is Command
                && r@[3].config_schema is Some,
    {
        let mut out: Vec<ExtensionCapabilityDescriptor> = Vec::new();
        out.push(
            ExtensionCapabilityDescriptor {
                id: String::from_str("query_weather"),
                name: String::from_str("Query Weather"),
                description: String::from_str("Get current weather for any city"),
                capability_type: ExtensionCapabilityType::Tool,
                config_schema: Some(
                    String::from_str(
                        "{\"type\": \"object\", \"properties\": {\"city\": {\"type\": \"string\", \"description\": \"City name (e.g., Beijing, Shanghai, Tokyo)\"}}, \"required\": [\"city\"]}",
                    ),
                ),
            },
        );
        out.push(
            ExtensionCapabilityDescriptor {
                id: String::from_str("query_forecast"),
                name: String::from_str("Query Forecast"),
                description: String::from_str("Get 3-day weather forecast"),
                capability_type: ExtensionCapabilityType::Tool,
                config_schema: Some(
                    String::from_str(
                        "{\"type\": \"object\", \"properties\": {\"city\": {\"type\": \"string\", \"description\": \"City name\"}, \"days\": {\"type\": \"integer\", \"description\": \"Number of days (1-7)\", \"default\": 3, \"minimum\": 1, \"maximum\": 7}}, \"required\": [\"city\"]}",
                    ),
                ),
            },
        );
        out.push(
            ExtensionCapabilityDescriptor {
                id: String::from_str("refresh"),
                name: String::from_str("Refresh"),
                description: String::from_str("Force refresh cached weather data"),
                capability_type: ExtensionCapabilityType::Command,
                config_schema: None,
            },
        );
        out.push(
            ExtensionCapabilityDescriptor {
                id: String::from_str("set_city"),
                name: String::from_str("Set Default City"),
                description: String::from_str("Change the default city for queries"),
                capability_type: ExtensionCapabilityType::Command,
                config_schema: Some(
                    String::from_str(
                        "{\"type\": \"object\", \"properties\": {\"city\": {\"type\": \"string\", \"description\": \"New default city name\"}}, \"required\": [\"city\"]}",
                    ),
                ),
            },
        );
        out
    }

    /// The five metrics this extension declares.
    pub fn metrics(&self) -> (r: Vec<MetricDescriptor>)
        ensures
            r@.len() == 5,
            r@[0].name@ == "temperature_c"@,
            r@[1].name@ == "humidity_percent"@,
            r@[2].name@ == "wind_speed_kmph"@,
            r@[3].name@ == "cloud_cover_percent"@,
            r@[4].name@ == "last_update_time"@,
    {
        let mut out: Vec<MetricDescriptor> = Vec::new();
        out.push(
            plain_metric("temperature_c", "Temperature", MetricDataType::Float, "degC"),
        );
        out.push(plain_metric("humidity_percent", "Humidity", MetricDataType::Integer, "%"));
        out.push(plain_metric("wind_speed_kmph", "Wind Speed", MetricDataType::Float, "km/h"));
        out.push(
            plain_metric("cloud_cover_percent", "Cloud Cover", MetricDataType::Integer, "%"),
        );
        out.push(
            plain_metric("last_update_time", "Last Update", MetricDataType::Integer, "unix_ts"),
        );
        out
    }

    /// The weather for `city`. The demo build simulates; a build with a
    /// real key would fetch, so only the simulated outcome is stated.
    pub fn fetch_weather(&self, city: &str) -> (r: Result<WeatherReading, ExtensionError>)
        ensures
            r matches Ok(reading) && reading.city@ == city@ && reading_of_hash(
                reading,
                spec_city_hash(city.spec_bytes()),
            ),
    {
        Ok(simulate_reading(city))
    }

    /// Dispatches an administrative command: `refresh` refetches the
    /// named (or default) city and caches the reading; `set_city`
    /// acknowledges the requested default-city change; anything else is
    /// `CommandNotFound`. A `set_city` without a city argument is
    /// `InvalidInput`.
    pub fn execute_command(&mut self, command: &str, args: &serde_json::Value) -> (r: Result<
        AdminReply,
        ExtensionError,
    >)
        ensures
            command@ == "refresh"@ ==> (r matches Ok(reply) && reply matches AdminReply::Refreshed(
                w,
            ) && final(self).spec_cached() matches Some(c) && w.city@ == spec_string_or(
                *args,
                "city"@,
                old(self).spec_default_city(),
            ) && c.city@ == w.city@ && c.temperature_c == w.temperature_c && c.humidity_percent
                == w.humidity_percent && c.wind_speed_kmph == w.wind_speed_kmph
                && c.cloud_cover_percent == w.cloud_cover_percent && c.description
                == w.description),
            command@ != "refresh"@ && command@ != "set_city"@ ==> ((r matches Err(e) && e matches
                ExtensionError::CommandNotFound(c) && c@ == command@) && *final(self) == *old(self)),
            command@ == "set_city"@ ==> (*final(self) == *old(self) && match spec_string_field(
                *args,
                "city"@,
            ) {
                None => r matches Err(e) && e is InvalidInput,
                Some(requested) => r matches Ok(reply) && reply matches AdminReply::CityAck {
                    city,
                } && city@ == requested,
            }),
            r matches Err(e) ==> (e is CommandNotFound || e is InvalidInput),
    {
        proof {
            reveal_strlit("refresh");
            reveal_strlit("set_city");
            assert("refresh"@.len() == 7 && "set_city"@.len() == 8);
        }
        if crate::registry::str_eq(command, "refresh") {
            let city = match read_string_field(args, "city") {
                Some(c) => c,
                None => self.default_city.clone(),
            };
            let reading = simulate_reading(city.as_str());
            self.cached = Some(reading.clone_reading());
            self.last_update = Some(trusted::now_millis());
            Ok(AdminReply::Refreshed(reading))
        } else if crate::registry::str_eq(command, "set_city") {
            let city = match read_string_field(args, "city") {
                Some(c) => c,
                None => {
                    return Err(ExtensionError::InvalidInput(String::from_str("city is required")));
                },
            };
            Ok(AdminReply::CityAck { city })
        } else {
            Err(ExtensionError::CommandNotFound(command.to_owned()))
        }
    }

    /// Dispatches a tool call: `query_weather` needs a string `city`
    /// argument and returns that city's reading; `query_forecast` needs
    /// one too and returns its forecast for the requested days (three by
    /// default, at most seven); a missing city is `InvalidInput` and any
    /// other tool name is `ToolNotFound`.
    pub fn execute_tool(&self, tool: &str, args: &serde_json::Value) -> (r: Result<
        ToolReply,
        ExtensionError,
    >)
        ensures
            tool@ == "query_weather"@ ==> match spec_string_field(*args, "city"@) {
                None => r matches Err(e) && e is InvalidInput,
                Some(requested) => r matches Ok(reply) && reply matches ToolReply::Weather(w)
                    && w.city@ == requested,
            },
            tool@ == "query_forecast"@ ==> match spec_string_field(*args, "city"@) {
                None => r matches Err(e) && e is InvalidInput,
                Some(requested) => r matches Ok(reply) && reply matches ToolReply::Forecast {
                    city,
                    days,
                } && city@ == requested && days@.len() == spec_clamped_days(
                    spec_i64_field(*args, "days"@),
                    3,
                    7,
                ),
            },
            !command_known(tool@) ==> (r matches Err(e) && e matches ExtensionError::ToolNotFound(
                t,
            ) && t@ == tool@),
            r matches Err(e) ==> (e is ToolNotFound || e is InvalidInput),
    {
        proof {
            reveal_strlit("query_weather");
            reveal_strlit("query_forecast");
            assert("query_weather"@.len() == 13 && "query_forecast"@.len() == 14);
        }
        if crate::registry::str_eq(tool, "query_weather") {
            let city = match read_string_field(args, "city") {
                Some(c) => c,
                None => {
                    return Err(ExtensionError::InvalidInput(String::from_str("city is required")));
                },
            };
            Ok(ToolReply::Weather(simulate_reading(city.as_str())))
        } else if crate::registry::str_eq(tool, "query_forecast") {
            let city = match read_string_field(args, "city") {
                Some(c) => c,
                None => {
                    return Err(ExtensionError::InvalidInput(String::from_str("city is required")));
                },
            };
            let days_arg = match read_i64_field(args, "days") {
                Some(d) => d,
                None => 3,
            };
            let days: u64 = if days_arg < 0 {
                0
            } else if days_arg > 7 {
                7
            } else {
                days_arg as u64
            };
            Ok(self.forecast_reply(city.as_str(), days))
        } else {
            Err(ExtensionError::ToolNotFound(tool.to_owned()))
        }
    }

    /// Builds the forecast reply: day `d` (counting from one) carries the
    /// city's base temperature warmed by two degrees per day beyond the
    /// first, with the base humidity and description.
    pub fn forecast_reply(&self, city: &str, days: u64) -> (r: ToolReply)
        requires
            days <= 7,
        ensures
            r matches ToolReply::Forecast { city: c, days: list } && {
                &&& c@ == city@
                &&& list@.len() == days
                &&& forall|d: int|
                    0 <= d < days ==> (#[trigger] list@[d]).day == d + 1 && list@[d].temperature_c
                        == spec_temperature(spec_city_hash(city.spec_bytes())) + 2 * d
                        && list@[d].humidity_percent == spec_humidity(
                        spec_city_hash(city.spec_bytes()),
                    )
            },
    {
        let base = simulate_reading(city);
        let mut list: Vec<ForecastDay> = Vec::new();
        let mut day: u64 = 1;
        while day <= days
            invariant
                1 <= day <= days + 1,
                days <= 7,
                list@.len() == day - 1,
                base.city@ == city@,
                reading_of_hash(base, spec_city_hash(city.spec_bytes())),
                forall|d: int|
                    0 <= d < day - 1 ==> (#[trigger] list@[d]).day == d + 1
                        && list@[d].temperature_c
                        == spec_temperature(spec_city_hash(city.spec_bytes())) + 2 * d
                        && list@[d].humidity_percent == spec_humidity(
                        spec_city_hash(city.spec_bytes()),
                    ),
            decreases days + 1 - day,
        {
            list.push(
                ForecastDay {
                    day,
                    temperature_c: base.temperature_c as i64 + 2 * (day as i64 - 1),
                    humidity_percent: base.humidity_percent,
                    description: base.description,
                },
            );
            day = day + 1;
        }
        ToolReply::Forecast { city: city.to_owned(), days: list }
    }

    /// A metric snapshot for the default city: the simulated reading's
    /// four values, each labelled with the city.
    pub fn produce_metrics(&self) -> (r: Vec<ExtensionMetricValue>)
        ensures
            r@.len() == 4,
            r@[0].name@ == "temperature_c"@,
            r@[1].name@ == "humidity_percent"@,
            r@[2].name@ == "wind_speed_kmph"@,
            r@[3].name@ == "cloud_cover_percent"@,
    {
        let reading = simulate_reading(self.default_city.clone().as_str());
        let ts = trusted::now_millis();
        let mut out: Vec<ExtensionMetricValue> = Vec::new();
        out.push(
            labelled_metric(
                "temperature_c",
                ParamMetricValue::Centi(reading.temperature_c as i64 * 100),
                ts,
                reading.city.clone(),
            ),
        );
        out.push(
            labelled_metric(
                "humidity_percent",
                ParamMetricValue::Integer(reading.humidity_percent as i64),
                ts,
                reading.city.clone(),
            ),
        );
        out.push(
            labelled_metric(
                "wind_speed_kmph",
                ParamMetricValue::Centi(reading.wind_speed_kmph as i64 * 100),
                ts,
                reading.city.clone(),
            ),
        );
        out.push(
            labelled_metric(
                "cloud_cover_percent",
                ParamMetricValue::Integer(reading.cloud_cover_percent as i64),
                ts,
                reading.city,
            ),
        );
        out
    }

    /// Healthy exactly when a fetch for the default city answers; the
    /// simulated fetch always does.
    pub fn health_check(&self) -> (r: Result<bool, ExtensionError>)
        ensures
            r == Result::<bool, ExtensionError>::Ok(true),
    {
        let _ = self.fetch_weather(self.default_city.clone().as_str());
        Ok(true)
    }
}

/// Whether the tool name is one this extension declares.
pub open spec fn command_known(t: Seq<char>) -> bool {
    t == "query_weather"@ || t == "query_forecast"@
}

impl WeatherReading {
    /// An exact copy of the reading.
    pub fn clone_reading(&self) -> (r: WeatherReading)
        ensures
            r.city@ == self.city@,
            r.temperature_c == self.temperature_c,
            r.humidity_percent == self.humidity_percent,
            r.wind_speed_kmph == self.wind_speed_kmph,
            r.cloud_cover_percent == self.cloud_cover_percent,
            r.description == self.description,
    {
        WeatherReading {
            city: self.city.clone(),
            temperature_c: self.temperature_c,
            humidity_percent: self.humidity_percent,
            wind_speed_kmph: self.wind_speed_kmph,
            cloud_cover_percent: self.cloud_cover_percent,
            description: self.description,
        }
    }
}

/// A metric descriptor with only a name, display name, type and unit.
fn plain_metric(name: &str, display_name: &str, data_type: MetricDataType, unit: &str) -> (r:
    MetricDescriptor)
    ensures
        r.name@ == name@,
        r.display_name@ == display_name@,
{
    MetricDescriptor {
        name: name.to_owned(),
        display_name: display_name.to_owned(),
        data_type,
        unit: unit.to_owned(),
        min: None,
        max: None,
        required: false,
    }
}

/// A metric sample labelled with its city.
fn labelled_metric(name: &str, value: ParamMetricValue, timestamp: i64, city: String) -> (r:
    ExtensionMetricValue)
    ensures
        r.name@ == name@,
        r.value == value,
        r.timestamp == timestamp,
        r.labels@.len() == 1,
{
    let mut labels: Vec<(String, String)> = Vec::new();
    labels.push((String::from_str("city"), city));
    ExtensionMetricValue { name: name.to_owned(), value, timestamp, labels }
}

} // verus!
