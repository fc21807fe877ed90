//! Tests of the weather-forecast extension: identity, descriptors, the
//! simulated readings, command dispatch, and metric production.

use neomind_extensions::errors::ExtensionError;
use neomind_extensions::metadata::VersionTriple;
use neomind_extensions::metrics::{MetricDataType, ParamMetricValue};
use neomind_extensions::weather::{CommandReply, WeatherExtension, WeatherKind};

fn json(text: &str) -> serde_json::Value {
    serde_json::from_str(text).unwrap()
}

fn create_test_extension() -> WeatherExtension {
    WeatherExtension::new(&json("{}")).unwrap()
}

fn create_extension_with_config(config: serde_json::Value) -> WeatherExtension {
    WeatherExtension::new(&config).unwrap()
}

#[test]
fn test_extension_creation() {
    let ext = create_test_extension();
    assert_eq!(ext.metadata().id, "neomind.weather.forecast");
    assert_eq!(ext.metadata().name, "Weather Forecast Extension");
    assert_eq!(ext.metadata().version, VersionTriple::new(0, 5, 8));
}

#[test]
fn test_extension_with_custom_city() {
    let ext = create_extension_with_config(json("{\"default_city\": \"Shanghai\"}"));
    assert_eq!(ext.default_city(), "Shanghai");
}

#[test]
fn test_metrics_count() {
    let ext = create_test_extension();
    assert_eq!(ext.metrics().len(), 4);
}

#[test]
fn test_metrics_content() {
    let ext = create_test_extension();
    let metrics = ext.metrics();

    assert_eq!(metrics[0].name, "temperature_c");
    assert_eq!(metrics[0].display_name, "Temperature");
    assert_eq!(metrics[0].data_type, MetricDataType::Float);
    assert_eq!(metrics[0].unit, "degC");
    assert_eq!(metrics[0].min, Some(-50));
    assert_eq!(metrics[0].max, Some(60));

    assert_eq!(metrics[1].name, "humidity_percent");
    assert_eq!(metrics[1].data_type, MetricDataType::Integer);

    assert_eq!(metrics[2].name, "wind_speed_kmph");

    assert_eq!(metrics[3].name, "cloud_cover_percent");
}

#[test]
fn test_commands_count() {
    let ext = create_test_extension();
    assert_eq!(ext.commands().len(), 3);
}

#[test]
fn test_commands_content() {
    let ext = create_test_extension();
    let commands = ext.commands();

    assert_eq!(commands[0].name, "query_weather");
    assert_eq!(commands[0].display_name, "Query Weather");
    assert!(!commands[0].llm_hints.is_empty());

    assert_eq!(commands[1].name, "refresh");
    assert_eq!(commands[1].display_name, "Refresh Weather Data");

    assert_eq!(commands[2].name, "forecast_summary");
    assert_eq!(commands[2].display_name, "Forecast Summary");
}

#[test]
fn test_query_weather_default_city() {
    let ext = create_test_extension();
    let result = ext.execute_command("query_weather", &json("{}"));
    assert!(result.is_ok());
    match result.unwrap() {
        CommandReply::Weather(data) => {
            assert_eq!(data.city, "Beijing");
            assert!(data.humidity_percent >= 30);
        }
        _ => panic!("expected a weather reply"),
    }
}

#[test]
fn test_query_weather_custom_city() {
    let ext = create_test_extension();
    let result = ext.execute_command("query_weather", &json("{\"city\": \"Tokyo\"}"));
    assert!(result.is_ok());
    match result.unwrap() {
        CommandReply::Weather(data) => assert_eq!(data.city, "Tokyo"),
        _ => panic!("expected a weather reply"),
    }
}

#[test]
fn test_refresh_command() {
    let ext = create_test_extension();
    let result = ext.execute_command("refresh", &json("{}"));
    assert!(result.is_ok());
    match result.unwrap() {
        CommandReply::Weather(data) => assert_eq!(data.city, "Beijing"),
        _ => panic!("expected a weather reply"),
    }
}

#[test]
fn test_unknown_command() {
    let ext = create_test_extension();
    let result = ext.execute_command("unknown_command", &json("{}"));
    assert!(result.is_err());
    match result.unwrap_err() {
        ExtensionError::CommandNotFound(cmd) => assert_eq!(cmd, "unknown_command"),
        _ => panic!("Expected CommandNotFound error"),
    }
}

#[test]
fn test_produce_metrics() {
    let mut ext = create_test_extension();
    let metrics = ext.produce_metrics().unwrap();
    assert_eq!(metrics.len(), 4);

    let metric_names: Vec<&str> = metrics.iter().map(|m| m.name.as_str()).collect();
    assert!(metric_names.contains(&"temperature_c"));
    assert!(metric_names.contains(&"humidity_percent"));
    assert!(metric_names.contains(&"wind_speed_kmph"));
    assert!(metric_names.contains(&"cloud_cover_percent"));
}

#[test]
fn test_produce_metrics_types() {
    let mut ext = create_test_extension();
    let metrics = ext.produce_metrics().unwrap();

    assert!(matches!(metrics[0].value, ParamMetricValue::Centi(_)));
    assert!(matches!(metrics[1].value, ParamMetricValue::Integer(_)));
    assert!(matches!(metrics[2].value, ParamMetricValue::Centi(_)));
    assert!(matches!(metrics[3].value, ParamMetricValue::Integer(_)));
}

#[test]
fn test_health_check() {
    let ext = create_test_extension();
    let healthy = ext.health_check().unwrap();
    assert!(healthy);
}

#[test]
fn test_simulate_weather_consistency() {
    let ext = create_test_extension();
    let data1 = ext.simulate_weather("Paris");
    let data2 = ext.simulate_weather("Paris");

    // Same city produces the same data (hash-based)
    assert_eq!(data1.temperature_c, data2.temperature_c);
    assert_eq!(data1.humidity_percent, data2.humidity_percent);
}

#[test]
fn test_simulate_weather_different_cities() {
    let ext = create_test_extension();
    let data1 = ext.simulate_weather("Paris");
    let data2 = ext.simulate_weather("London");

    assert_eq!(data1.city, "Paris");
    assert_eq!(data2.city, "London");

    assert!(data1.temperature_c >= -10 && data1.temperature_c < 30);
    assert!(data2.temperature_c >= -10 && data2.temperature_c < 30);
}

#[test]
fn test_simulate_weather_all_fields_present() {
    let ext = create_test_extension();
    let data = ext.simulate_weather("TestCity");

    assert_eq!(data.city, "TestCity");
    assert!(data.temperature_c >= -10 && data.temperature_c < 30);
    assert!(data.humidity_percent >= 30 && data.humidity_percent < 90);
    assert!(data.wind_speed_kmph >= 0 && data.wind_speed_kmph < 20);
    assert!(data.cloud_cover_percent >= 0 && data.cloud_cover_percent < 100);
    assert!(!data.description.label().is_empty());
}

#[test]
fn test_simulate_weather_description_logic() {
    let ext = create_test_extension();

    let humid_city = format!("H{}", 100);
    let data = ext.simulate_weather(&humid_city);
    if data.cloud_cover_percent <= 50 && data.humidity_percent > 70 {
        assert_eq!(data.description, WeatherKind::Humid);
    }

    let cloudy_city = format!("C{}", 200);
    let data2 = ext.simulate_weather(&cloudy_city);
    if data2.cloud_cover_percent > 50 {
        assert_eq!(data2.description, WeatherKind::Cloudy);
    }
}

#[test]
fn test_with_custom_default_city() {
    let ext = create_extension_with_config(json("{\"default_city\": \"New York\"}"));

    let result = ext.execute_command("query_weather", &json("{}"));
    assert!(result.is_ok());
    match result.unwrap() {
        CommandReply::Weather(data) => assert_eq!(data.city, "New York"),
        _ => panic!("expected a weather reply"),
    }

    let result2 = ext.execute_command("refresh", &json("{}"));
    assert!(result2.is_ok());
    match result2.unwrap() {
        CommandReply::Weather(data) => assert_eq!(data.city, "New York"),
        _ => panic!("expected a weather reply"),
    }
}

#[test]
fn test_metric_ranges() {
    let mut ext = create_test_extension();
    let metrics = ext.produce_metrics().unwrap();

    // Temperature is between -50 and 60 degrees, in hundredths
    if let ParamMetricValue::Centi(temp) = metrics[0].value {
        assert!(temp >= -5000 && temp <= 6000, "Temperature out of range: {}", temp);
    } else {
        panic!("Temperature should be Centi");
    }

    if let ParamMetricValue::Integer(humidity) = metrics[1].value {
        assert!(humidity >= 0 && humidity <= 100, "Humidity out of range: {}", humidity);
    } else {
        panic!("Humidity should be Integer");
    }

    if let ParamMetricValue::Centi(wind) = metrics[2].value {
        assert!(wind >= 0, "Wind speed should be non-negative: {}", wind);
    }

    if let ParamMetricValue::Integer(clouds) = metrics[3].value {
        assert!(clouds >= 0 && clouds <= 100, "Cloud cover out of range: {}", clouds);
    } else {
        panic!("Cloud cover should be Integer");
    }
}

#[test]
fn test_query_weather_with_units() {
    let ext = create_test_extension();

    let result = ext.execute_command(
        "query_weather",
        &json("{\"city\": \"Tokyo\", \"units\": \"fahrenheit\"}"),
    );
    assert!(result.is_ok());
    match result.unwrap() {
        CommandReply::Weather(data) => {
            assert_eq!(data.city, "Tokyo");
            assert_eq!(data.units_requested, "fahrenheit");
            // converted from Celsius to Fahrenheit, in hundredths
            assert!(data.temperature_centi > 3000, "Fahrenheit temperature should be higher");
        }
        _ => panic!("expected a weather reply"),
    }

    let result = ext.execute_command(
        "query_weather",
        &json("{\"city\": \"Tokyo\", \"units\": \"kelvin\"}"),
    );
    assert!(result.is_ok());
    match result.unwrap() {
        CommandReply::Weather(data) => {
            assert_eq!(data.units_requested, "kelvin");
            assert_eq!(data.temperature_unit, neomind_extensions::weather::TempUnit::Kelvin);
        }
        _ => panic!("expected a weather reply"),
    }
}

#[test]
fn test_query_weather_with_alerts() {
    let ext = create_test_extension();

    let result = ext.execute_command(
        "query_weather",
        &json("{\"city\": \"London\", \"include_alerts\": true}"),
    );
    assert!(result.is_ok());
    match result.unwrap() {
        CommandReply::Weather(data) => assert!(data.alerts_enabled),
        _ => panic!("expected a weather reply"),
    }
}

#[test]
fn test_query_weather_with_days_ahead() {
    let ext = create_test_extension();

    let result = ext.execute_command(
        "query_weather",
        &json("{\"city\": \"Paris\", \"days_ahead\": 5}"),
    );
    assert!(result.is_ok());
    match result.unwrap() {
        CommandReply::Weather(data) => assert_eq!(data.days_ahead, 5),
        _ => panic!("expected a weather reply"),
    }
}

#[test]
fn test_forecast_summary_default() {
    let ext = create_test_extension();

    let result = ext.execute_command("forecast_summary", &json("{}"));
    assert!(result.is_ok());
    match result.unwrap() {
        CommandReply::Forecast(data) => {
            assert_eq!(data.city, "Beijing");
            assert_eq!(data.forecast_days, 3);
            assert!(data.detailed);
            assert_eq!(data.forecasts.len(), 3);
        }
        _ => panic!("expected a forecast reply"),
    }
}

#[test]
fn test_forecast_summary_custom_days() {
    let ext = create_test_extension();

    let result = ext.execute_command(
        "forecast_summary",
        &json("{\"city\": \"Osaka\", \"days\": 5}"),
    );
    assert!(result.is_ok());
    match result.unwrap() {
        CommandReply::Forecast(data) => {
            assert_eq!(data.city, "Osaka");
            assert_eq!(data.forecast_days, 5);
            assert_eq!(data.forecasts.len(), 5);
        }
        _ => panic!("expected a forecast reply"),
    }
}

#[test]
fn test_commands_have_parameters() {
    let ext = create_test_extension();
    let commands = ext.commands();

    let query_cmd = commands.iter().find(|c| c.name == "query_weather").unwrap();
    assert_eq!(query_cmd.parameters.len(), 4);

    let city_param = &query_cmd.parameters[0];
    assert_eq!(city_param.name, "city");
    assert_eq!(city_param.param_type, MetricDataType::Text);
    assert!(city_param.required);

    let units_param = &query_cmd.parameters[1];
    assert_eq!(units_param.name, "units");
    assert!(!units_param.required);
    assert!(matches!(units_param.param_type, MetricDataType::Enum { .. }));

    let days_param = &query_cmd.parameters[2];
    assert_eq!(days_param.name, "days_ahead");
    assert_eq!(days_param.min, Some(1));
    assert_eq!(days_param.max, Some(7));

    let alerts_param = &query_cmd.parameters[3];
    assert_eq!(alerts_param.name, "include_alerts");
    assert!(matches!(alerts_param.param_type, MetricDataType::Boolean));
}

#[test]
fn test_commands_have_samples() {
    let ext = create_test_extension();
    let commands = ext.commands();

    let query_cmd = commands.iter().find(|c| c.name == "query_weather").unwrap();
    assert_eq!(query_cmd.samples.len(), 2);
}

#[test]
fn test_commands_have_parameter_groups() {
    let ext = create_test_extension();
    let commands = ext.commands();

    let query_cmd = commands.iter().find(|c| c.name == "query_weather").unwrap();
    assert_eq!(query_cmd.parameter_groups.len(), 2);

    let location_group = &query_cmd.parameter_groups[0];
    assert_eq!(location_group.name, "location");
    assert_eq!(location_group.parameters.len(), 1);
    assert!(location_group.parameters.contains(&"city".to_string()));

    let options_group = &query_cmd.parameter_groups[1];
    assert_eq!(options_group.name, "options");
    assert_eq!(options_group.parameters.len(), 3);
}

#[test]
fn test_forecast_summary_command() {
    let ext = create_test_extension();

    let result = ext.execute_command("forecast_summary", &json("{\"days\": 2}"));
    assert!(result.is_ok());
    match result.unwrap() {
        CommandReply::Forecast(data) => assert_eq!(data.forecast_days, 2),
        _ => panic!("expected a forecast reply"),
    }
}

#[test]
fn test_commands_count_updated() {
    let ext = create_test_extension();
    assert_eq!(ext.commands().len(), 3);
}

#[test]
fn test_produce_metrics_caches_between_collections() {
    let mut ext = create_extension_with_config(json("{\"update_interval_minutes\": 60}"));
    let first = ext.produce_metrics().unwrap();
    let second = ext.produce_metrics().unwrap();
    // within one interval the cached values are reported unchanged
    assert_eq!(first[0].value, second[0].value);
    assert_eq!(first[3].value, second[3].value);
}
