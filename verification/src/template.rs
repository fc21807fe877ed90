//! A minimal metric/command extension: one echoing command, one metric
//! whose value follows the clock, and the same interval-gated metric
//! collection the weather extension uses.

use vstd::prelude::*;
use crate::config::{read_i64_field, read_string_field};
use crate::config::{spec_nonneg_i64_or, spec_string_or};
use crate::errors::ExtensionError;
use crate::metadata::{ExtensionMetadata, VersionTriple};
use crate::metrics::{ExtensionMetricValue, MetricDataType, MetricDescriptor, ParamMetricValue};
use crate::metrics::{CommandDescriptor, ParameterDefinition, ParameterGroup};
use crate::trusted;

verus! {

/// The reply to the `example_command`.
#[derive(Debug, Clone)]
pub struct TemplateReply {
    /// The echoed input, prefixed.
    pub message: String,
    /// The configured value the extension was created with.
    pub config_value: String,
    /// Epoch milliseconds of the reply.
    pub timestamp: i64,
}

/// The template extension: a configured value, and the metric collection
/// cache.
#[derive(Debug)]
pub struct TemplateExtension {
    metadata: ExtensionMetadata,
    config_value: String,
    collection_interval_seconds: u64,
    last_collection_timestamp: i64,
    /// The cached metric value, in hundredths.
    cached_centi: i64,
}

impl TemplateExtension {
    /// The identity record.
    pub closed spec fn spec_metadata(self) -> ExtensionMetadata {
        self.metadata
    }

    /// The configured value.
    pub closed spec fn spec_config_value(self) -> Seq<char> {
        self.config_value@
    }

    /// The collection interval in seconds.
    pub closed spec fn spec_interval(self) -> u64 {
        self.collection_interval_seconds
    }

    /// The cached metric value, in hundredths.
    pub closed spec fn spec_cached_centi(self) -> i64 {
        self.cached_centi
    }

    /// Builds the extension from its configuration: the configured value
    /// (falling back to its documented default) and the collection
    /// interval in seconds (falling back to a minute; a negative value
    /// means the fallback). Never fails.
    pub fn new(config: &serde_json::Value) -> (r: Result<Self, ExtensionError>)
        ensures
            r matches Ok(ext) && {
                &&& ext.spec_metadata().id@ == "com.example.template"@
                &&& ext.spec_metadata().name@ == "Template Extension"@
                &&& ext.spec_metadata().version == (VersionTriple {
                    major: 0u64,
                    minor: 5u64,
                    patch: 8u64,
                })
                &&& ext.spec_metadata().description is Some
                &&& ext.spec_metadata().author is Some
                &&& ext.spec_config_value() == spec_string_or(
                    *config,
                    "config_value"@,
                    "default_value"@,
                )
                &&& ext.spec_interval() == spec_nonneg_i64_or(
                    *config,
                    "collection_interval_seconds"@,
                    60,
                )
                &&& ext.spec_cached_centi() == 4200
            },
    {
        let config_value = match read_string_field(config, "config_value") {
            Some(v) => v,
            None => String::from_str("default_value"),
        };
        let interval: u64 = match read_i64_field(config, "collection_interval_seconds") {
            Some(s) => if s >= 0 {
                s as u64
            } else {
                60
            },
            None => 60,
        };
        let now = trusted::now_millis();
        let metadata = ExtensionMetadata::new(
            "com.example.template",
            "Template Extension",
            VersionTriple::new(0, 5, 8),
        ).with_description("A template extension for NeoMind").with_author("CamThink");
        Ok(
            TemplateExtension {
                metadata,
                config_value,
                collection_interval_seconds: interval,
                last_collection_timestamp: now / 1000,
                cached_centi: 4200,
            },
        )
    }

    /// Capability negotiation: this extension does not accept a stream
    /// at all, so the host must send it no chunks.
    pub fn stream_capability(&self) -> (r: Option<crate::capability::StreamCapability>)
        ensures
            r is None,
    {
        None
    }

    /// The identity record.
    pub fn metadata(&self) -> (r: &ExtensionMetadata)
        ensures
            *r == self.spec_metadata(),
    {
        &self.metadata
    }

    /// The configured value.
    pub fn config_value(&self) -> (r: &String)
        ensures
            r@ == self.spec_config_value(),
    {
        &self.config_value
    }

    /// The three configuration parameters this extension declares.
    pub fn config_parameters(&self) -> (r: Vec<ParameterDefinition>)
        ensures
            r@.len() == 3,
            r@[0].name@ == "config_value"@,
            r@[1].name@ == "enable_logging"@,
            r@[2].name@ == "collection_interval_seconds"@,
    {
        let mut out: Vec<ParameterDefinition> = Vec::new();
        out.push(
            ParameterDefinition {
                name: String::from_str("config_value"),
                display_name: String::from_str("Config Value"),
                description: String::from_str(
                    "A sample configuration value for the template extension",
                ),
                param_type: MetricDataType::Text,
                required: false,
                default_value: Some(ParamMetricValue::Text(String::from_str("default_value"))),
                min: None,
                max: None,
                options: Vec::new(),
            },
        );
        out.push(
            ParameterDefinition {
                name: String::from_str("enable_logging"),
                display_name: String::from_str("Enable Logging"),
                description: String::from_str("Whether to log extension activities"),
                param_type: MetricDataType::Boolean,
                required: false,
                default_value: Some(ParamMetricValue::Boolean(false)),
                min: None,
                max: None,
                options: Vec::new(),
            },
        );
        out.push(
            ParameterDefinition {
                name: String::from_str("collection_interval_seconds"),
                display_name: String::from_str("Collection Interval (seconds)"),
                description: String::from_str(
                    "How often to generate fresh metric values. Between collections, cached values are returned.",
                ),
                param_type: MetricDataType::Integer,
                required: false,
                default_value: Some(ParamMetricValue::Integer(60)),
                min: Some(10),
                max: Some(86400),
                options: Vec::new(),
            },
        );
        out
    }

    /// Builds the echo reply for `example_command`: the message is the
    /// input with the fixed prefix, beside the configured value.
    pub fn example_reply(&self, input: &str) -> (r: TemplateReply)
        ensures
            r.message@ == "You said: "@ + input@,
            r.config_value@ == self.spec_config_value(),
    {
        let mut message = String::from_str("You said: ");
        message.append(input);
        let ts = trusted::now_millis();
        TemplateReply { message, config_value: self.config_value.clone(), timestamp: ts }
    }

    /// Dispatches an administrative command: `example_command` echoes its
    /// `input` argument (or a fixed placeholder); any other name is
    /// `CommandNotFound`.
    pub fn execute_command(&self, command: &str, args: &serde_json::Value) -> (r: Result<
        TemplateReply,
        ExtensionError,
    >)
        ensures
            command@ == "example_command"@ <==> r is Ok,
            r matches Ok(reply) ==> reply.config_value@ == self.spec_config_value()
                && reply.message@ == "You said: "@ + spec_string_or(
                *args,
                "input"@,
                "no input"@,
            ),
            r matches Err(e) ==> e matches ExtensionError::CommandNotFound(c) && c@ == command@,
    {
        if crate::registry::str_eq(command, "example_command") {
            let input = match read_string_field(args, "input") {
                Some(s) => s,
                None => String::from_str("no input"),
            };
            Ok(self.example_reply(input.as_str()))
        } else {
            Err(ExtensionError::CommandNotFound(command.to_owned()))
        }
    }

    /// Whether the collection interval has elapsed; a positive answer
    /// advances the last-collection timestamp and changes nothing else.
    pub fn should_collect_metrics(&mut self) -> (r: bool)
        ensures
            !r ==> *final(self) == *old(self),
            final(self).spec_metadata() == old(self).spec_metadata(),
            final(self).spec_config_value() == old(self).spec_config_value(),
            final(self).spec_interval() == old(self).spec_interval(),
            final(self).spec_cached_centi() == old(self).spec_cached_centi(),
    {
        let now_ms = trusted::now_millis();
        let now_s: i64 = now_ms / 1000;
        if crate::weather::collection_due(
            now_s,
            self.last_collection_timestamp,
            self.collection_interval_seconds,
        ) {
            self.last_collection_timestamp = now_s;
            true
        } else {
            false
        }
    }

    /// A snapshot of the one metric. When the interval has elapsed a
    /// fresh value (the fixed base plus a clock-derived remainder, in
    /// hundredths) is computed and cached; otherwise the cached value is
    /// reported. Either way the reported value is exactly the (new)
    /// cache.
    pub fn produce_metrics(&mut self) -> (r: Result<Vec<ExtensionMetricValue>, ExtensionError>)
        ensures
            final(self).spec_metadata() == old(self).spec_metadata(),
            final(self).spec_config_value() == old(self).spec_config_value(),
            final(self).spec_interval() == old(self).spec_interval(),
            r matches Ok(v) && {
                &&& v@.len() == 1
                &&& v@[0].name@ == "example_metric"@
                &&& v@[0].value == ParamMetricValue::Centi(final(self).spec_cached_centi())
                &&& (final(self).spec_cached_centi() == old(self).spec_cached_centi() || 3200
                    < final(self).spec_cached_centi() < 5200)
            },
    {
        let due = self.should_collect_metrics();
        if due {
            let ts = trusted::now_millis();
            let remainder: i64 = ts % 1000;
            self.cached_centi = 4200 + remainder;
        }
        let ts = trusted::now_millis();
        let mut out: Vec<ExtensionMetricValue> = Vec::new();
        out.push(
            ExtensionMetricValue::new(
                "example_metric",
                ParamMetricValue::Centi(self.cached_centi),
                ts,
            ),
        );
        Ok(out)
    }

    /// Accepts a configuration update; the update carries no supported
    /// keys yet, so the state is unchanged.
    pub fn configure(&mut self, _config: &serde_json::Value) -> (r: Result<(), ExtensionError>)
        ensures
            *final(self) == *old(self),
            r is Ok,
    {
        Ok(())
    }

    /// This extension is always healthy.
    pub fn health_check(&self) -> (r: Result<bool, ExtensionError>)
        ensures
            r == Result::<bool, ExtensionError>::Ok(true),
    {
        Ok(true)
    }

    /// The one metric this extension declares.
    pub fn metrics(&self) -> (r: Vec<MetricDescriptor>)
        ensures
            r@.len() == 1,
            r@[0].name@ == "example_metric"@,
            r@[0].display_name@ == "Example Metric"@,
    {
        let mut out: Vec<MetricDescriptor> = Vec::new();
        out.push(
            MetricDescriptor {
                name: String::from_str("example_metric"),
                display_name: String::from_str("Example Metric"),
                data_type: MetricDataType::Float,
                unit: String::from_str("units"),
                min: Some(0),
                max: Some(100),
                required: false,
            },
        );
        out
    }

    /// The one administrative command this extension declares.
    pub fn commands(&self) -> (r: Vec<CommandDescriptor>)
        ensures
            r@.len() == 1,
            r@[0].name@ == "example_command"@,
            r@[0].display_name@ == "Example Command"@,
    {
        let mut out: Vec<CommandDescriptor> = Vec::new();
        let groups: Vec<ParameterGroup> = Vec::new();
        out.push(
            CommandDescriptor {
                name: String::from_str("example_command"),
                display_name: String::from_str("Example Command"),
                payload_template: String::from_str("{\"input\": \"{{input}}\"}"),
                parameters: Vec::new(),
                fixed_values: Vec::new(),
                samples: Vec::new(),
                llm_hints: String::from_str(
                    "This is an example command that echoes back the input.",
                ),
                parameter_groups: groups,
            },
        );
        out
    }
}

} // verus!
