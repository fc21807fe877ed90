//! Tests of the tool-facing weather extension: capability declarations,
//! tool dispatch, administrative commands, and labelled metrics.

use neomind_extensions::errors::ExtensionError;
use neomind_extensions::tools::{
    AdminReply, ExtensionCapabilityType, ToolReply, WeatherExtension,
};

fn json(text: &str) -> serde_json::Value {
    serde_json::from_str(text).unwrap()
}

fn create() -> WeatherExtension {
    WeatherExtension::new(&json("{}")).unwrap()
}

#[test]
fn test_tool_metadata() {
    let ext = create();
    let m = ext.metadata();
    assert_eq!(m.id, "neomind.weather.forecast");
    assert_eq!(m.name, "Weather Forecast Extension");
    assert_eq!(m.license.as_deref(), Some("MIT"));
    assert!(m.homepage.is_some());
}

#[test]
fn test_capability_declarations() {
    let ext = create();
    let caps = ext.capabilities();
    assert_eq!(caps.len(), 4);
    assert_eq!(caps[0].id, "query_weather");
    assert_eq!(caps[0].capability_type, ExtensionCapabilityType::Tool);
    assert_eq!(caps[1].id, "query_forecast");
    assert_eq!(caps[1].capability_type, ExtensionCapabilityType::Tool);
    assert_eq!(caps[2].id, "refresh");
    assert_eq!(caps[2].capability_type, ExtensionCapabilityType::Command);
    assert_eq!(caps[3].id, "set_city");
    assert_eq!(caps[3].capability_type, ExtensionCapabilityType::Command);
    // the declared tool schemas are themselves valid JSON
    for cap in &caps {
        if let Some(schema) = &cap.config_schema {
            let parsed: Result<serde_json::Value, _> = serde_json::from_str(schema);
            assert!(parsed.is_ok());
        }
    }
}

#[test]
fn test_query_weather_tool() {
    let ext = create();
    let reply = ext.execute_tool("query_weather", &json("{\"city\": \"Lyon\"}")).unwrap();
    match reply {
        ToolReply::Weather(reading) => {
            assert_eq!(reading.city, "Lyon");
            assert!(reading.temperature_c >= -10 && reading.temperature_c < 30);
        }
        _ => panic!("expected a weather reply"),
    }
}

#[test]
fn test_query_weather_tool_requires_city() {
    let ext = create();
    match ext.execute_tool("query_weather", &json("{}")) {
        Err(ExtensionError::InvalidInput(_)) => {}
        _ => panic!("expected InvalidInput"),
    }
}

#[test]
fn test_query_forecast_tool() {
    let ext = create();
    let reply = ext
        .execute_tool("query_forecast", &json("{\"city\": \"Oslo\", \"days\": 4}"))
        .unwrap();
    match reply {
        ToolReply::Forecast { city, days } => {
            assert_eq!(city, "Oslo");
            assert_eq!(days.len(), 4);
            assert_eq!(days[0].day, 1);
            // each day out is two degrees warmer than the last
            assert_eq!(days[1].temperature_c, days[0].temperature_c + 2);
            assert_eq!(days[3].temperature_c, days[0].temperature_c + 6);
        }
        _ => panic!("expected a forecast reply"),
    }
}

#[test]
fn test_unknown_tool() {
    let ext = create();
    match ext.execute_tool("translate", &json("{}")) {
        Err(ExtensionError::ToolNotFound(name)) => assert_eq!(name, "translate"),
        _ => panic!("expected ToolNotFound"),
    }
}

#[test]
fn test_refresh_command_updates_cache() {
    let mut ext = create();
    let reply = ext.execute_command("refresh", &json("{\"city\": \"Cairo\"}")).unwrap();
    match reply {
        AdminReply::Refreshed(reading) => assert_eq!(reading.city, "Cairo"),
        _ => panic!("expected a refreshed reading"),
    }
}

#[test]
fn test_set_city_command() {
    let mut ext = create();
    let reply = ext.execute_command("set_city", &json("{\"city\": \"Quito\"}")).unwrap();
    match reply {
        AdminReply::CityAck { city } => assert_eq!(city, "Quito"),
        _ => panic!("expected a city acknowledgement"),
    }
    match ext.execute_command("set_city", &json("{}")) {
        Err(ExtensionError::InvalidInput(_)) => {}
        _ => panic!("expected InvalidInput without a city"),
    }
}

#[test]
fn test_tool_metrics_are_labelled() {
    let ext = create();
    let metrics = ext.produce_metrics();
    assert_eq!(metrics.len(), 4);
    for m in &metrics {
        assert_eq!(m.labels.len(), 1);
        assert_eq!(m.labels[0].0, "city");
        assert_eq!(m.labels[0].1, "Beijing");
    }
}

#[test]
fn test_tool_metric_declarations() {
    let ext = create();
    let metrics = ext.metrics();
    assert_eq!(metrics.len(), 5);
    assert_eq!(metrics[4].name, "last_update_time");
}

#[test]
fn test_tool_health_check() {
    let ext = create();
    assert_eq!(ext.health_check().unwrap(), true);
}
