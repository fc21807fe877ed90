//! Tests of the template extension: identity, descriptors, the echo
//! command, and metric production.

use neomind_extensions::errors::ExtensionError;
use neomind_extensions::metadata::VersionTriple;
use neomind_extensions::metrics::{MetricDataType, ParamMetricValue};
use neomind_extensions::template::TemplateExtension;

fn json(text: &str) -> serde_json::Value {
    serde_json::from_str(text).unwrap()
}

#[test]
fn lib_test_extension_creation() {
    let ext = TemplateExtension::new(&json("{}")).unwrap();
    assert_eq!(ext.metadata().id, "com.example.template");
}

#[test]
fn lib_test_metrics_count() {
    let ext = TemplateExtension::new(&json("{}")).unwrap();
    assert_eq!(ext.metrics().len(), 1);
}

#[test]
fn lib_test_commands_count() {
    let ext = TemplateExtension::new(&json("{}")).unwrap();
    assert_eq!(ext.commands().len(), 1);
}

#[test]
fn test_command_execution() {
    let ext = TemplateExtension::new(&json("{}")).unwrap();
    let result = ext.execute_command("example_command", &json("{\"input\": \"Hello World\"}"));
    assert!(result.is_ok());
    let result_value = result.unwrap();
    assert!(result_value.message.contains("Hello World"));
}

#[test]
fn test_metrics_production() {
    let mut ext = TemplateExtension::new(&json("{}")).unwrap();
    let metrics = ext.produce_metrics().unwrap();
    assert_eq!(metrics.len(), 1);
    assert_eq!(metrics[0].name, "example_metric");
}

#[test]
fn lib_test_health_check() {
    let ext = TemplateExtension::new(&json("{}")).unwrap();
    let healthy = ext.health_check().unwrap();
    assert!(healthy);
}

#[test]
fn test_extension_with_config() {
    let config = json("{\"config_value\": \"test_value\"}");
    let ext = TemplateExtension::new(&config).unwrap();
    assert_eq!(ext.config_value(), "test_value");
}

#[test]
fn test_metadata_fields() {
    let ext = TemplateExtension::new(&json("{}")).unwrap();
    assert_eq!(ext.metadata().id, "com.example.template");
    assert_eq!(ext.metadata().name, "Template Extension");
    assert_eq!(ext.metadata().version, VersionTriple::new(0, 5, 8));
    assert!(ext.metadata().description.is_some());
    assert!(ext.metadata().author.is_some());
}

#[test]
fn test_metric_descriptor() {
    let ext = TemplateExtension::new(&json("{}")).unwrap();
    let metrics = ext.metrics();
    assert_eq!(metrics[0].name, "example_metric");
    assert_eq!(metrics[0].display_name, "Example Metric");
    assert_eq!(metrics[0].data_type, MetricDataType::Float);
    assert_eq!(metrics[0].unit, "units");
    assert_eq!(metrics[0].min, Some(0));
    assert_eq!(metrics[0].max, Some(100));
}

#[test]
fn test_command_descriptor() {
    let ext = TemplateExtension::new(&json("{}")).unwrap();
    let commands = ext.commands();
    assert_eq!(commands[0].name, "example_command");
    assert_eq!(commands[0].display_name, "Example Command");
    assert!(!commands[0].payload_template.is_empty());
    assert!(!commands[0].llm_hints.is_empty());
}

#[test]
fn test_command_execution_with_config() {
    let config = json("{\"config_value\": \"custom_value\"}");
    let ext = TemplateExtension::new(&config).unwrap();
    let result = ext.execute_command("example_command", &json("{\"input\": \"test\"}"));
    assert!(result.is_ok());
    let result_value = result.unwrap();
    assert_eq!(result_value.config_value, "custom_value");
}

#[test]
fn test_command_execution_default_input() {
    let ext = TemplateExtension::new(&json("{}")).unwrap();
    let result = ext.execute_command("example_command", &json("{}"));
    assert!(result.is_ok());
    let result_value = result.unwrap();
    assert!(result_value.message.contains("no input"));
}

#[test]
fn lib_test_unknown_command() {
    let ext = TemplateExtension::new(&json("{}")).unwrap();
    let result = ext.execute_command("unknown_command", &json("{}"));
    assert!(result.is_err());
    match result.unwrap_err() {
        ExtensionError::CommandNotFound(cmd) => assert_eq!(cmd, "unknown_command"),
        _ => panic!("Expected CommandNotFound error"),
    }
}

#[test]
fn test_metric_value_type() {
    let mut ext = TemplateExtension::new(&json("{}")).unwrap();
    let metrics = ext.produce_metrics().unwrap();
    assert_eq!(metrics.len(), 1);
    assert!(matches!(metrics[0].value, ParamMetricValue::Centi(_)));
}

#[test]
fn test_metric_has_timestamp() {
    let mut ext = TemplateExtension::new(&json("{}")).unwrap();
    let metrics = ext.produce_metrics().unwrap();
    assert!(metrics[0].timestamp > 0);
}

#[test]
fn test_configure_method() {
    let mut ext = TemplateExtension::new(&json("{}")).unwrap();
    let new_config = json("{\"config_value\": \"updated\"}");
    let result = ext.configure(&new_config);
    assert!(result.is_ok());
}

#[test]
fn test_extension_with_empty_config() {
    let ext = TemplateExtension::new(&json("{}")).unwrap();
    assert_eq!(ext.config_value(), "default_value");
}

#[test]
fn test_extension_with_complex_config() {
    let config = json(
        "{\"config_value\": \"complex\", \"extra_field\": \"ignored\", \"number_field\": 42}",
    );
    let ext = TemplateExtension::new(&config).unwrap();
    assert_eq!(ext.config_value(), "complex");
}

#[test]
fn test_config_parameter_declarations() {
    let ext = TemplateExtension::new(&json("{}")).unwrap();
    let params = ext.config_parameters();
    assert_eq!(params.len(), 3);
    assert_eq!(params[0].name, "config_value");
    assert_eq!(params[1].name, "enable_logging");
    assert_eq!(params[2].name, "collection_interval_seconds");
    assert_eq!(params[2].min, Some(10));
    assert_eq!(params[2].max, Some(86400));
}
