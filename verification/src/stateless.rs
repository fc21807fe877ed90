//! The stateless stream engine: each chunk is processed independently of
//! any other, with no session. The only shared state is a set of
//! monotonic counters, updated only after a chunk has been processed
//! successfully, so a failing chunk never leaves them half-updated.

use vstd::prelude::*;
use crate::capability::{FlowControl, StreamCapability, StreamDirection, StreamMode};
use crate::chunk::{DataChunk, StreamDataType, StreamResult};
use crate::detect::BoundingBox;
use crate::errors::ExtensionError;
use crate::json;
use crate::metadata::{ExtensionMetadata, VersionTriple};
use crate::metrics::{ExtensionMetricValue, MetricDataType, MetricDescriptor, ParamMetricValue};
use crate::metrics::{CommandDescriptor, ParameterDefinition, ParameterGroup};
use crate::trusted;
use crate::{sat64, sat_cast_i64, sat_i64};

verus! {

/// The hard bound on one image's byte length: ten megabytes.
pub const IMAGE_MAX_CHUNK: usize = 10 * 1024 * 1024;

/// The preferred chunk size: one megabyte.
pub const IMAGE_PREFERRED_CHUNK: usize = 1024 * 1024;

/// The advisory session bound carried in the capability; meaningless for
/// a stateless engine.
pub const IMAGE_MAX_SESSIONS: usize = 10;

/// One detected object in a single image. Confidence is in hundredths.
#[derive(Debug, Clone)]
pub struct Detection {
    pub label: String,
    pub confidence_centi: u32,
    pub bbox: Option<BoundingBox>,
}

/// What analyzing one image yields.
#[derive(Debug, Clone)]
pub struct AnalysisResult {
    pub objects: Vec<Detection>,
    /// The gray placeholder, when the payload carries a known signature.
    pub dominant_color: Option<String>,
    pub estimated_size: SizeClass,
    /// Wall-clock cost of the analysis, in milliseconds.
    pub processing_time_ms: u64,
}

/// The size category of an image payload.
#[derive(Debug, Clone, Copy, PartialEq, Eq, Structural)]
pub enum SizeClass {
    Small,
    Medium,
    Large,
    VeryLarge,
}

impl SizeClass {
    /// The category's name.
    pub fn label(&self) -> (r: String)
        ensures
            r@ == self.spec_label(),
    {
        match self {
            SizeClass::Small => String::from_str("small"),
            SizeClass::Medium => String::from_str("medium"),
            SizeClass::Large => String::from_str("large"),
            SizeClass::VeryLarge => String::from_str("very_large"),
        }
    }

    /// The category's name, as characters.
    pub open spec fn spec_label(self) -> Seq<char> {
        match self {
            SizeClass::Small => "small"@,
            SizeClass::Medium => "medium"@,
            SizeClass::Large => "large"@,
            SizeClass::VeryLarge => "very_large"@,
        }
    }

    /// The category's name, as payload bytes.
    pub open spec fn spec_bytes(self) -> Seq<u8> {
        match self {
            SizeClass::Small => json::lit_small(),
            SizeClass::Medium => json::lit_medium(),
            SizeClass::Large => json::lit_large(),
            SizeClass::VeryLarge => json::lit_very_large(),
        }
    }
}

/// The stateless engine's shared counters.
#[derive(Debug, Clone, Copy, PartialEq, Eq, Structural)]
pub struct ImageStats {
    pub images_processed: u64,
    pub total_processing_time_ms: u64,
    pub detections_found: u64,
}

/// Whether the declared type is an image of a supported format.
pub open spec fn spec_image_type_ok(t: StreamDataType) -> bool {
    t matches StreamDataType::Image { format } && (format@ == "jpeg"@ || format@ == "png"@
        || format@ == "webp"@)
}

/// Chunk validity for the stateless image engine: within the byte bound
/// and of a supported image type.
pub open spec fn spec_image_chunk_ok(chunk: DataChunk) -> bool {
    chunk.data@.len() <= IMAGE_MAX_CHUNK && spec_image_type_ok(chunk.data_type)
}

/// The size category by payload length: below ten kilobytes small, below
/// a hundred kilobytes medium, below a megabyte (decimal) large, then
/// very large.
pub open spec fn spec_size_class(len: nat) -> SizeClass {
    if len < 10000 {
        SizeClass::Small
    } else if len < 100000 {
        SizeClass::Medium
    } else if len < 1000000 {
        SizeClass::Large
    } else {
        SizeClass::VeryLarge
    }
}

/// Whether a dominant color is reported: only for payloads of at least a
/// hundred bytes that begin with the JPEG or PNG signature (the reported
/// color is then the gray placeholder).
pub open spec fn spec_has_dominant_color(data: Seq<u8>) -> bool {
    &&& data.len() >= 100
    &&& {
        ||| (data[0] == 0xff && data[1] == 0xd8 && data[2] == 0xff)
        ||| (data[0] == 0x89 && data[1] == 0x50 && data[2] == 0x4e && data[3] == 0x47)
    }
}

/// The exact bytes of the stateless result payload: a JSON object with
/// the number of objects (always one), the dominant color (the gray
/// placeholder or null), the size category, and the processing cost.
pub open spec fn spec_analysis_payload(data: Seq<u8>, processing: nat) -> Seq<u8> {
    json::lit_objects_obj() + json::spec_dec_u64(1) + json::lit_dominant() + (
    if spec_has_dominant_color(data) {
        json::lit_color_gray()
    } else {
        json::lit_null()
    }) + json::lit_size_prefix() + spec_size_class(data.len()).spec_bytes() + json::lit_quote()
        + json::lit_processing() + json::spec_dec_u64(processing) + json::lit_close()
}

/// The effect of processing one chunk statelessly: success exactly for a
/// valid chunk; the result answers the chunk one to one, numbered by the
/// chunk's own sequence; a rejection leaves the counters untouched.
pub open spec fn stateless_transition(
    pre: ImageStats,
    post: ImageStats,
    chunk: DataChunk,
    r: Result<StreamResult, ExtensionError>,
) -> bool {
    &&& (r is Ok <==> spec_image_chunk_ok(chunk))
    &&& !spec_image_chunk_ok(chunk) ==> ((r matches Err(e) && e is InvalidStreamData) && post
        == pre)
    &&& spec_image_chunk_ok(chunk) ==> (r matches Ok(res) && {
        &&& res.input_sequence == Some(chunk.sequence)
        &&& res.output_sequence == chunk.sequence
        &&& res.data_type is Json
        &&& res.error is None
        &&& res.data@ == spec_analysis_payload(chunk.data@, res.processing_ms as nat)
        &&& post.images_processed == sat64(pre.images_processed + 1)
        &&& post.total_processing_time_ms == sat64(
            pre.total_processing_time_ms + res.processing_ms,
        )
        &&& post.detections_found == sat64(pre.detections_found + 1)
    })
}

/// The stateless image-analysis extension.
#[derive(Debug)]
pub struct ImageAnalyzer {
    metadata: ExtensionMetadata,
    stats: ImageStats,
}

impl ImageAnalyzer {
    /// The shared counters.
    pub closed spec fn spec_stats(self) -> ImageStats {
        self.stats
    }

    /// The identity record.
    pub closed spec fn spec_metadata(self) -> ExtensionMetadata {
        self.metadata
    }

    /// A fresh engine with zeroed counters.
    pub fn new() -> (r: Self)
        ensures
            r.spec_stats() == (ImageStats {
                images_processed: 0u64,
                total_processing_time_ms: 0u64,
                detections_found: 0u64,
            }),
            r.spec_metadata().id@ == "image-analyzer"@,
            r.spec_metadata().name@ == "Image Analyzer"@,
            r.spec_metadata().version == (VersionTriple { major: 1u64, minor: 0u64, patch: 0u64 }),
    {
        let metadata = ExtensionMetadata::new(
            "image-analyzer",
            "Image Analyzer",
            VersionTriple::new(1, 0, 0),
        ).with_description(
            "Stateless image analysis extension that detects objects and analyzes image properties",
        ).with_author("NeoMind Team");
        ImageAnalyzer {
            metadata,
            stats: ImageStats {
                images_processed: 0,
                total_processing_time_ms: 0,
                detections_found: 0,
            },
        }
    }

    /// The identity record.
    pub fn metadata(&self) -> (r: &ExtensionMetadata)
        ensures
            *r == self.spec_metadata(),
    {
        &self.metadata
    }

    /// The placeholder object detector: one detection, the example object
    /// at confidence 0.85 with a fixed box.
    pub fn detect_objects(&self, data: &[u8]) -> (r: Vec<Detection>)
        ensures
            r@.len() == 1,
            r@[0].label@ == "example_object"@,
            r@[0].confidence_centi == 85,
            r@[0].bbox == Some(BoundingBox { x: 100u32, y: 100u32, width: 200u32, height: 150u32 }),
    {
        let mut out: Vec<Detection> = Vec::new();
        out.push(
            Detection {
                label: String::from_str("example_object"),
                confidence_centi: 85,
                bbox: Some(BoundingBox { x: 100, y: 100, width: 200, height: 150 }),
            },
        );
        out
    }

    /// The gray placeholder for payloads that carry a JPEG or PNG
    /// signature and are at least a hundred bytes long; `None` otherwise.
    pub fn extract_dominant_color(&self, data: &[u8]) -> (r: Option<String>)
        ensures
            r is Some <==> spec_has_dominant_color(data@),
            r matches Some(c) ==> c@ == "#808080"@,
    {
        if data.len() < 100 {
            return None;
        }
        if data[0] == 0xff && data[1] == 0xd8 && data[2] == 0xff {
            return Some(String::from_str("#808080"));
        }
        if data[0] == 0x89 && data[1] == 0x50 && data[2] == 0x4e && data[3] == 0x47 {
            return Some(String::from_str("#808080"));
        }
        None
    }

    /// The size category of the payload.
    pub fn estimate_image_size(&self, data: &[u8]) -> (r: SizeClass)
        ensures
            r == spec_size_class(data@.len()),
    {
        let size = data.len();
        if size < 10000 {
            SizeClass::Small
        } else if size < 100000 {
            SizeClass::Medium
        } else if size < 1000000 {
            SizeClass::Large
        } else {
            SizeClass::VeryLarge
        }
    }

    /// Analyzes one image payload: the placeholder detections, the
    /// dominant color, the size category, and the measured cost; the
    /// counters advance by the work done.
    pub fn analyze_image(&mut self, data: &[u8]) -> (r: AnalysisResult)
        ensures
            final(self).spec_metadata() == old(self).spec_metadata(),
            r.objects@.len() == 1,
            r.dominant_color is Some <==> spec_has_dominant_color(data@),
            r.estimated_size == spec_size_class(data@.len()),
            final(self).spec_stats().images_processed == sat64(
                old(self).spec_stats().images_processed + 1,
            ),
            final(self).spec_stats().total_processing_time_ms == sat64(
                old(self).spec_stats().total_processing_time_ms + r.processing_time_ms,
            ),
            final(self).spec_stats().detections_found == sat64(
                old(self).spec_stats().detections_found + 1,
            ),
    {
        let start = trusted::now_millis();
        let objects = self.detect_objects(data);
        let dominant_color = self.extract_dominant_color(data);
        let estimated_size = self.estimate_image_size(data);
        let end = trusted::now_millis();
        let elapsed: i128 = end as i128 - start as i128;
        let processing_time_ms: u64 = if elapsed <= 0 {
            0
        } else if elapsed > u64::MAX as i128 {
            u64::MAX
        } else {
            elapsed as u64
        };
        self.stats.images_processed = self.stats.images_processed.saturating_add(1);
        self.stats.total_processing_time_ms = self.stats.total_processing_time_ms.saturating_add(
            processing_time_ms,
        );
        self.stats.detections_found = self.stats.detections_found.saturating_add(
            objects.len() as u64,
        );
        AnalysisResult { objects, dominant_color, estimated_size, processing_time_ms }
    }

    /// Emits the analysis payload for a processed chunk.
    fn analysis_payload(&self, data: &[u8], processing: u64) -> (r: Vec<u8>)
        ensures
            r@ == spec_analysis_payload(data@, processing as nat),
    {
        let mut out: Vec<u8> = Vec::new();
        json::push_lit_objects_obj(&mut out);
        json::push_dec_u64(&mut out, 1);
        json::push_lit_dominant(&mut out);
        let color = self.extract_dominant_color(data);
        match color {
            Some(_) => json::push_lit_color_gray(&mut out),
            None => json::push_lit_null(&mut out),
        }
        json::push_lit_size_prefix(&mut out);
        let size = self.estimate_image_size(data);
        match size {
            SizeClass::Small => json::push_lit_small(&mut out),
            SizeClass::Medium => json::push_lit_medium(&mut out),
            SizeClass::Large => json::push_lit_large(&mut out),
            SizeClass::VeryLarge => json::push_lit_very_large(&mut out),
        }
        json::push_lit_quote(&mut out);
        json::push_lit_processing(&mut out);
        json::push_dec_u64(&mut out, processing);
        json::push_lit_close(&mut out);
        proof {
            assert(out@ =~= spec_analysis_payload(data@, processing as nat));
        }
        out
    }

    /// Processes one chunk independently of any other, as
    /// `stateless_transition` describes: a valid chunk succeeds with
    /// `output_sequence` equal to the chunk's own sequence and the
    /// counters advanced; an oversized chunk or one of an unsupported
    /// type is `InvalidStreamData` with the counters untouched.
    pub fn process_chunk(&mut self, chunk: DataChunk) -> (r: Result<StreamResult, ExtensionError>)
        ensures
            final(self).spec_metadata() == old(self).spec_metadata(),
            stateless_transition(old(self).spec_stats(), final(self).spec_stats(), chunk, r),
    {
        let cap = match self.stream_capability() {
            Some(c) => c,
            None => {
                return Err(ExtensionError::InvalidStreamData(String::from_str("no capability")));
            },
        };
        if let Err(e) = cap.validate_chunk(&chunk) {
            return Err(e);
        }
        let analysis = self.analyze_image(chunk.data.as_slice());
        let processing = analysis.processing_time_ms;
        let payload = self.analysis_payload(chunk.data.as_slice(), processing);
        Ok(
            StreamResult {
                input_sequence: Some(chunk.sequence),
                output_sequence: chunk.sequence,
                data: payload,
                data_type: StreamDataType::Json,
                processing_ms: processing,
                error: None,
            },
        )
    }

    /// The streaming capability: stateless upload of JPEG, PNG or WebP
    /// images, ten-megabyte chunks. The descriptor validates exactly the
    /// chunks that `spec_image_chunk_ok` accepts.
    pub fn stream_capability(&self) -> (r: Option<StreamCapability>)
        ensures
            r matches Some(c) && {
                &&& c.direction is Upload
                &&& c.mode is Stateless
                &&& c.wf()
                &&& c.max_chunk_size == IMAGE_MAX_CHUNK
                &&& c.preferred_chunk_size == IMAGE_PREFERRED_CHUNK
                &&& c.max_concurrent_sessions == IMAGE_MAX_SESSIONS
                &&& c.flow_control.window_chunks is None
                &&& c.supported_data_types@.len() == 3
                &&& forall|ch: DataChunk| c.spec_chunk_ok(ch) == spec_image_chunk_ok(ch)
            },
    {
        let mut types: Vec<StreamDataType> = Vec::new();
        types.push(StreamDataType::Image { format: String::from_str("jpeg") });
        types.push(StreamDataType::Image { format: String::from_str("png") });
        types.push(StreamDataType::Image { format: String::from_str("webp") });
        let cap = StreamCapability {
            direction: StreamDirection::Upload,
            mode: StreamMode::Stateless,
            supported_data_types: types,
            max_chunk_size: IMAGE_MAX_CHUNK,
            preferred_chunk_size: IMAGE_PREFERRED_CHUNK,
            max_concurrent_sessions: IMAGE_MAX_SESSIONS,
            flow_control: FlowControl { window_chunks: None },
        };
        proof {
            assert forall|ch: DataChunk| cap.spec_chunk_ok(ch) == spec_image_chunk_ok(ch) by {
                if spec_image_type_ok(ch.data_type) {
                    if ch.data_type matches StreamDataType::Image { format } && format@
                        == "jpeg"@ {
                        assert(cap.supported_data_types@[0].spec_eq(ch.data_type));
                    } else if ch.data_type matches StreamDataType::Image { format } && format@
                        == "png"@ {
                        assert(cap.supported_data_types@[1].spec_eq(ch.data_type));
                    } else {
                        assert(cap.supported_data_types@[2].spec_eq(ch.data_type));
                    }
                }
                if cap.spec_supports(ch.data_type) {
                    let i = choose|i: int|
                        0 <= i < cap.supported_data_types@.len()
                            && cap.supported_data_types@[i].spec_eq(ch.data_type);
                    assert(spec_image_type_ok(ch.data_type));
                }
            }
        }
        Some(cap)
    }

    /// Zeroes the counters and reports that it did.
    pub fn reset_stats(&mut self) -> (r: Result<String, ExtensionError>)
        ensures
            final(self).spec_metadata() == old(self).spec_metadata(),
            final(self).spec_stats() == (ImageStats {
                images_processed: 0u64,
                total_processing_time_ms: 0u64,
                detections_found: 0u64,
            }),
            r matches Ok(s) && s@ == "reset"@,
    {
        self.stats.images_processed = 0;
        self.stats.total_processing_time_ms = 0;
        self.stats.detections_found = 0;
        Ok(String::from_str("reset"))
    }

    /// Dispatches an administrative command: `reset_stats` zeroes the
    /// counters; any other name is `CommandNotFound` and changes nothing.
    pub fn execute_command(&mut self, command: &str, _args: &serde_json::Value) -> (r: Result<
        String,
        ExtensionError,
    >)
        ensures
            final(self).spec_metadata() == old(self).spec_metadata(),
            command@ == "reset_stats"@ ==> ((r matches Ok(s) && s@ == "reset"@)
                && final(self).spec_stats() == (ImageStats {
                images_processed: 0u64,
                total_processing_time_ms: 0u64,
                detections_found: 0u64,
            })),
            command@ != "reset_stats"@ ==> ((r matches Err(e) && e matches
                ExtensionError::CommandNotFound(c) && c@ == command@)
                && *final(self) == *old(self)),
    {
        if crate::registry::str_eq(command, "reset_stats") {
            self.reset_stats()
        } else {
            Err(ExtensionError::CommandNotFound(command.to_owned()))
        }
    }

    /// The three metrics this engine declares.
    pub fn metrics(&self) -> (r: Vec<MetricDescriptor>)
        ensures
            r@.len() == 3,
            r@[0].name@ == "images_processed"@,
            r@[1].name@ == "avg_processing_time_ms"@,
            r@[2].name@ == "total_detections"@,
    {
        let mut out: Vec<MetricDescriptor> = Vec::new();
        out.push(
            MetricDescriptor {
                name: String::from_str("images_processed"),
                display_name: String::from_str("Images Processed"),
                data_type: MetricDataType::Integer,
                unit: String::from_str("count"),
                min: Some(0),
                max: None,
                required: false,
            },
        );
        out.push(
            MetricDescriptor {
                name: String::from_str("avg_processing_time_ms"),
                display_name: String::from_str("Average Processing Time"),
                data_type: MetricDataType::Float,
                unit: String::from_str("ms"),
                min: Some(0),
                max: None,
                required: false,
            },
        );
        out.push(
            MetricDescriptor {
                name: String::from_str("total_detections"),
                display_name: String::from_str("Total Detections"),
                data_type: MetricDataType::Integer,
                unit: String::from_str("count"),
                min: Some(0),
                max: None,
                required: false,
            },
        );
        out
    }

    /// The one administrative command this engine declares.
    pub fn commands(&self) -> (r: Vec<CommandDescriptor>)
        ensures
            r@.len() == 1,
            r@[0].name@ == "reset_stats"@,
    {
        let mut out: Vec<CommandDescriptor> = Vec::new();
        let params: Vec<ParameterDefinition> = Vec::new();
        let fixed: Vec<(String, String)> = Vec::new();
        let samples: Vec<String> = Vec::new();
        let groups: Vec<ParameterGroup> = Vec::new();
        out.push(
            CommandDescriptor {
                name: String::from_str("reset_stats"),
                display_name: String::from_str("Reset Statistics"),
                payload_template: String::from_str("{}"),
                parameters: params,
                fixed_values: fixed,
                samples,
                llm_hints: String::from_str("Resets all processing statistics to zero"),
                parameter_groups: groups,
            },
        );
        out
    }

    /// A snapshot of the counters, without mutating them: the number of
    /// images processed, the average processing cost in hundredths of a
    /// millisecond, and the total detections.
    pub fn produce_metrics(&self) -> (r: Result<Vec<ExtensionMetricValue>, ExtensionError>)
        ensures
            r matches Ok(v) && {
                &&& v@.len() == 3
                &&& v@[0].name@ == "images_processed"@
                &&& v@[0].value == ParamMetricValue::Integer(
                    sat_i64(self.spec_stats().images_processed as int),
                )
                &&& v@[1].name@ == "avg_processing_time_ms"@
                &&& v@[1].value == ParamMetricValue::Centi(
                    spec_avg_centi(
                        self.spec_stats().total_processing_time_ms,
                        self.spec_stats().images_processed,
                    ),
                )
                &&& v@[2].name@ == "total_detections"@
                &&& v@[2].value == ParamMetricValue::Integer(
                    sat_i64(self.spec_stats().detections_found as int),
                )
            },
    {
        let ts = trusted::now_millis();
        let mut out: Vec<ExtensionMetricValue> = Vec::new();
        out.push(
            ExtensionMetricValue::new(
                "images_processed",
                ParamMetricValue::Integer(sat_cast_i64(self.stats.images_processed)),
                ts,
            ),
        );
        out.push(
            ExtensionMetricValue::new(
                "avg_processing_time_ms",
                ParamMetricValue::Centi(
                    avg_centi(self.stats.total_processing_time_ms, self.stats.images_processed),
                ),
                ts,
            ),
        );
        out.push(
            ExtensionMetricValue::new(
                "total_detections",
                ParamMetricValue::Integer(sat_cast_i64(self.stats.detections_found)),
                ts,
            ),
        );
        Ok(out)
    }
}

/// The average of a total over a count, in hundredths: zero for an empty
/// count, clamped into `i64`.
pub open spec fn spec_avg_centi(total: u64, count: u64) -> i64 {
    if count == 0 {
        0i64
    } else {
        sat_i64(total as int * 100 / count as int)
    }
}

/// Computes `spec_avg_centi`.
pub fn avg_centi(total: u64, count: u64) -> (r: i64)
    ensures
        r == spec_avg_centi(total, count),
{
    if count == 0 {
        return 0;
    }
    let wide: u128 = (total as u128) * 100u128 / (count as u128);
    if wide > i64::MAX as u128 {
        i64::MAX
    } else {
        wide as i64
    }
}

} // verus!
