//! The metric and command registries' descriptor types, and the values a
//! metric snapshot carries.
//!
//! Quantities that are conceptually fractional (a confidence, an average
//! rate, a temperature) are carried in hundredths of their unit, so that
//! every value here is an exact integer.

use vstd::prelude::*;

verus! {

/// The declared kind of a metric or parameter value. `Float` marks a
/// conceptually fractional quantity; its values travel as hundredths in
/// `ParamMetricValue::Centi`.
#[derive(Debug, Clone, PartialEq, Eq)]
pub enum MetricDataType {
    Integer,
    Float,
    Text,
    Boolean,
    Enum { options: Vec<String> },
}

/// One metric or parameter value.
#[derive(Debug, Clone, PartialEq, Eq)]
pub enum ParamMetricValue {
    /// A whole number in the declared unit.
    Integer(i64),
    /// A fractional number, in hundredths of the declared unit.
    Centi(i64),
    /// A string value.
    Text(String),
    /// A truth value.
    Boolean(bool),
}

/// Declares one metric an extension can produce. Bounds are in whole
/// declared units.
#[derive(Debug, Clone)]
pub struct MetricDescriptor {
    pub name: String,
    pub display_name: String,
    pub data_type: MetricDataType,
    pub unit: String,
    pub min: Option<i64>,
    pub max: Option<i64>,
    pub required: bool,
}

/// One produced metric sample.
#[derive(Debug, Clone)]
pub struct ExtensionMetricValue {
    pub name: String,
    pub value: ParamMetricValue,
    /// Epoch milliseconds at which the sample was taken.
    pub timestamp: i64,
    /// Optional qualifying labels, as name/value pairs.
    pub labels: Vec<(String, String)>,
}

impl ExtensionMetricValue {
    /// A sample with the given name and value, no labels.
    pub fn new(name: &str, value: ParamMetricValue, timestamp: i64) -> (r: ExtensionMetricValue)
        ensures
            r.name@ == name@,
            r.value == value,
            r.timestamp == timestamp,
            r.labels@.len() == 0,
    {
        ExtensionMetricValue { name: name.to_owned(), value, timestamp, labels: Vec::new() }
    }
}

/// Declares one parameter of an administrative command.
#[derive(Debug, Clone)]
pub struct ParameterDefinition {
    pub name: String,
    pub display_name: String,
    pub description: String,
    pub param_type: MetricDataType,
    pub required: bool,
    pub default_value: Option<ParamMetricValue>,
    pub min: Option<i64>,
    pub max: Option<i64>,
    pub options: Vec<String>,
}

/// Groups related parameters of a command for presentation.
#[derive(Debug, Clone)]
pub struct ParameterGroup {
    pub name: String,
    pub display_name: String,
    pub description: String,
    pub parameters: Vec<String>,
}

/// Declares one administrative command. `payload_template`, the sample
/// payloads and the fixed values are JSON texts.
#[derive(Debug, Clone)]
pub struct CommandDescriptor {
    pub name: String,
    pub display_name: String,
    pub payload_template: String,
    pub parameters: Vec<ParameterDefinition>,
    pub fixed_values: Vec<(String, String)>,
    pub samples: Vec<String>,
    pub llm_hints: String,
    pub parameter_groups: Vec<ParameterGroup>,
}

} // verus!
