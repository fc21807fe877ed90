//! The stateful stream engine: session-scoped video processing with the
//! lifecycle Init -> Active -> Closed.
//!
//! A session is registered with `init_session`, fed chunks with
//! `process_session_chunk` (each chunk advances the session-local frame
//! counter, which numbers the output stream), and torn down with
//! `close_session`, which removes the record destructively and returns an
//! immutable summary of the final accumulator. Chunks for different
//! sessions never affect each other's accumulator.
//!
//! Every operation's effect is stated as a transition predicate over the
//! abstract engine state, so that facts spanning several calls can be
//! proved from the contracts alone.

use vstd::prelude::*;
use crate::capability::{FlowControl, StreamCapability, StreamDirection, StreamMode};
use crate::chunk::{DataChunk, StreamDataType, StreamResult};
use crate::config::VideoConfig;
use crate::detect;
use crate::errors::ExtensionError;
use crate::json;
use crate::metadata::{ExtensionMetadata, VersionTriple};
use crate::metrics::{ExtensionMetricValue, MetricDataType, MetricDescriptor, ParamMetricValue};
use crate::metrics::{CommandDescriptor, ParameterDefinition, ParameterGroup};
use crate::registry::{SessionEntry, SessionRegistry};
use crate::tally::{clone_tally, tally_bump, tally_get, tally_wf};
use crate::trusted;
use crate::config::{read_string_field, spec_string_field};
use crate::{sat32, sat64, sat_cast_i64, sat_i64};

verus! {

/// The hard bound on one frame's byte length: five megabytes.
pub const VIDEO_MAX_CHUNK: usize = 5 * 1024 * 1024;

/// The preferred frame size: one megabyte.
pub const VIDEO_PREFERRED_CHUNK: usize = 1024 * 1024;

/// The default bound on concurrently active sessions.
pub const VIDEO_MAX_SESSIONS: usize = 5;

/// The per-session running state threaded across the chunks of one
/// session, owned exclusively by the session's registry entry.
#[derive(Debug)]
pub struct VideoAccum {
    /// Frames processed so far; also the session-local output counter.
    pub frame_count: u64,
    /// Total processing cost in milliseconds (saturating).
    pub total_processing_time_ms: u64,
    /// Total detections kept across frames (saturating).
    pub total_detections: u64,
    /// Total payload bytes taken in (saturating).
    pub total_input_bytes: u64,
    /// Total result payload bytes emitted (saturating).
    pub total_output_bytes: u64,
    /// Chunks rejected by validation for this session (saturating).
    pub error_count: u64,
    /// When the last frame was processed, if any.
    pub last_frame_time: Option<i64>,
    /// The configuration the session was initialized with.
    pub config: VideoConfig,
    /// Per-label detection tally.
    pub detected_objects: Vec<(String, u32)>,
}

/// Counters shared by all sessions of one engine instance. Updated only
/// after a chunk has been processed successfully.
#[derive(Debug, Clone, Copy, PartialEq, Eq, Structural)]
pub struct GlobalStats {
    pub sessions_created: u64,
    pub active_sessions: u64,
    pub total_frames_processed: u64,
    pub total_detections: u64,
    pub total_processing_time_ms: u64,
}

/// What a caller supplies to open a session: the identifier and the JSON
/// configuration payload (possibly empty).
#[derive(Debug, Clone)]
pub struct SessionDescriptor {
    pub id: String,
    pub config: Vec<u8>,
}

/// The immutable summary returned by `close_session`, computed from the
/// session's final accumulator.
#[derive(Debug, Clone, Copy, PartialEq, Eq, Structural)]
pub struct SessionStats {
    pub input_chunks: u64,
    pub output_chunks: u64,
    pub input_bytes: u64,
    pub output_bytes: u64,
    pub errors: u64,
    pub last_activity: i64,
}

/// The reply to the `get_session_info` command.
#[derive(Debug, Clone)]
pub struct SessionInfo {
    pub session_id: String,
    pub frame_count: u64,
    pub total_processing_time_ms: u64,
    pub total_detections: u64,
    pub detected_objects: Vec<(String, u32)>,
    pub config: VideoConfig,
}

/// Whether the chunk passes this engine's validation: within the frame
/// byte bound and of one of the four supported types.
pub open spec fn spec_video_type_ok(t: StreamDataType) -> bool {
    ||| t matches StreamDataType::Image { format } && (format@ == "jpeg"@ || format@ == "png"@)
    ||| t matches StreamDataType::Video { codec, width, height, fps } && (codec@ == "h264"@
        || codec@ == "h265"@) && width == 1920 && height == 1080 && fps == 30
}

/// Chunk validity for the stateful video engine.
pub open spec fn spec_video_chunk_ok(chunk: DataChunk) -> bool {
    chunk.data@.len() <= VIDEO_MAX_CHUNK && spec_video_type_ok(chunk.data_type)
}

/// A just-initialized accumulator: all counters zero, no frame seen, no
/// tally entries. The configuration is whatever the session's payload
/// yielded.
pub open spec fn fresh_accum(a: VideoAccum) -> bool {
    &&& a.frame_count == 0
    &&& a.total_processing_time_ms == 0
    &&& a.total_detections == 0
    &&& a.total_input_bytes == 0
    &&& a.total_output_bytes == 0
    &&& a.error_count == 0
    &&& a.last_frame_time is None
    &&& a.detected_objects@.len() == 0
}

/// The stateful video-processing extension: identity, the session
/// registry, and the shared counters.
#[derive(Debug)]
pub struct YoloVideoProcessor {
    metadata: ExtensionMetadata,
    sessions: SessionRegistry<VideoAccum>,
    stats: GlobalStats,
}

impl YoloVideoProcessor {
    /// The registry holding this engine's sessions.
    pub closed spec fn spec_sessions(self) -> SessionRegistry<VideoAccum> {
        self.sessions
    }

    /// The shared counters.
    pub closed spec fn spec_stats(self) -> GlobalStats {
        self.stats
    }

    /// The identity record.
    pub closed spec fn spec_metadata(self) -> ExtensionMetadata {
        self.metadata
    }

    /// Whether a session with this identifier is registered.
    pub open spec fn spec_has_session(self, id: Seq<char>) -> bool {
        self.spec_sessions().contains(id)
    }

    /// The record of the session registered under `id`.
    pub open spec fn spec_session(self, id: Seq<char>) -> SessionEntry<VideoAccum> {
        self.spec_sessions().spec_get(id)
    }

    /// How many sessions are active.
    pub open spec fn spec_active(self) -> nat {
        self.spec_sessions().spec_len()
    }

    /// The bound on simultaneously active sessions.
    pub open spec fn spec_max_sessions(self) -> nat {
        self.spec_sessions().spec_max()
    }

    /// Engine well-formedness: the registry is well formed, the shared
    /// active-session counter mirrors the registry, and every session's
    /// tally has unique labels.
    pub open spec fn wf(self) -> bool {
        &&& self.spec_sessions().wf()
        &&& self.spec_stats().active_sessions == self.spec_active()
        &&& forall|k: Seq<char>|
            self.spec_has_session(k) ==> tally_wf(self.spec_session(k).accum.detected_objects@)
    }

    /// Neither the identity, the capacity bound, nor any session other
    /// than `id` is affected.
    pub open spec fn others_unchanged(pre: Self, post: Self, id: Seq<char>) -> bool {
        &&& post.spec_metadata() == pre.spec_metadata()
        &&& post.spec_max_sessions() == pre.spec_max_sessions()
        &&& forall|k: Seq<char>| k != id ==> post.spec_has_session(k) == pre.spec_has_session(k)
        &&& forall|k: Seq<char>|
            k != id && pre.spec_has_session(k) ==> post.spec_session(k) == pre.spec_session(k)
    }

    /// The effect of `init_session` with identifier `id` and JSON
    /// configuration payload `config`: success exactly when the
    /// identifier is free and there is room, registering a fresh
    /// accumulator configured to exactly what the payload yields
    /// (the documented default where it is malformed); an identifier
    /// collision or a full table is rejected without touching anything,
    /// in particular without touching the already-registered session.
    pub open spec fn init_transition(
        pre: Self,
        post: Self,
        id: Seq<char>,
        config: Seq<u8>,
        r: Result<(), ExtensionError>,
    ) -> bool {
        &&& (r is Ok <==> (!pre.spec_has_session(id) && pre.spec_active()
            < pre.spec_max_sessions()))
        &&& pre.spec_has_session(id) ==> (r matches Err(e) && e matches
            ExtensionError::SessionAlreadyExists(s) && s@ == id)
        &&& (!pre.spec_has_session(id) && pre.spec_active() >= pre.spec_max_sessions()) ==> (
        r matches Err(e) && e is CapacityExceeded)
        &&& r is Err ==> post == pre
        &&& r is Ok ==> {
            &&& Self::others_unchanged(pre, post, id)
            &&& post.spec_has_session(id)
            &&& post.spec_session(id).id@ == id
            &&& fresh_accum(post.spec_session(id).accum)
            &&& post.spec_session(id).accum.config == VideoConfig::spec_of_bytes(config)
            &&& post.spec_active() == pre.spec_active() + 1
            &&& post.spec_stats().sessions_created == sat64(
                pre.spec_stats().sessions_created + 1,
            )
            &&& post.spec_stats().active_sessions == post.spec_active()
            &&& post.spec_stats().total_frames_processed
                == pre.spec_stats().total_frames_processed
            &&& post.spec_stats().total_detections == pre.spec_stats().total_detections
            &&& post.spec_stats().total_processing_time_ms
                == pre.spec_stats().total_processing_time_ms
        }
    }

    /// The successful outcome of `process_session_chunk`: the result
    /// responds to the chunk, is numbered by the advanced frame counter,
    /// and carries the frame's JSON payload; the session's accumulator
    /// advances accordingly — in particular every label's tally grows by
    /// the number of detections of that label kept for the frame — and
    /// the shared counters record the work.
    pub open spec fn process_ok_post(
        pre: Self,
        post: Self,
        id: Seq<char>,
        chunk: DataChunk,
        res: StreamResult,
    ) -> bool {
        let e0 = pre.spec_session(id);
        let a0 = e0.accum;
        let ndet = detect::spec_detections(
            a0.frame_count,
            a0.config.confidence_centi,
            a0.config.max_objects,
        ).len();
        &&& res.input_sequence == Some(chunk.sequence)
        &&& res.output_sequence == a0.frame_count + 1
        &&& res.data@ == json::spec_frame_payload(
            (a0.frame_count + 1) as nat,
            ndet,
            res.processing_ms as nat,
        )
        &&& res.data_type is Json
        &&& res.error is None
        &&& Self::others_unchanged(pre, post, id)
        &&& post.spec_has_session(id)
        &&& post.spec_active() == pre.spec_active()
        &&& post.spec_session(id).id@ == e0.id@
        &&& post.spec_session(id).created_at == e0.created_at
        &&& {
            let a1 = post.spec_session(id).accum;
            &&& a1.frame_count == a0.frame_count + 1
            &&& a1.total_processing_time_ms == sat64(
                a0.total_processing_time_ms + res.processing_ms,
            )
            &&& a1.total_detections == sat64(a0.total_detections + ndet)
            &&& a1.total_input_bytes == sat64(a0.total_input_bytes + chunk.data@.len())
            &&& a1.total_output_bytes == sat64(a0.total_output_bytes + res.data@.len())
            &&& a1.error_count == a0.error_count
            &&& a1.last_frame_time is Some
            &&& a1.config == a0.config
            &&& forall|l: Seq<char>|
                tally_get(a1.detected_objects@, l) == sat32(
                    tally_get(a0.detected_objects@, l) as int + detect::label_count(
                        detect::spec_detections(
                            a0.frame_count,
                            a0.config.confidence_centi,
                            a0.config.max_objects,
                        ),
                        l,
                    ) as int,
                )
        }
        &&& post.spec_stats().sessions_created == pre.spec_stats().sessions_created
        &&& post.spec_stats().active_sessions == pre.spec_stats().active_sessions
        &&& post.spec_stats().total_frames_processed == sat64(
            pre.spec_stats().total_frames_processed + 1,
        )
        &&& post.spec_stats().total_detections == sat64(pre.spec_stats().total_detections + ndet)
        &&& post.spec_stats().total_processing_time_ms == sat64(
            pre.spec_stats().total_processing_time_ms + res.processing_ms,
        )
    }

    /// The effect of `process_session_chunk`: an absent (or closed)
    /// identifier is `SessionNotFound` and changes nothing; an invalid
    /// chunk is `InvalidStreamData`, counted against the session but
    /// corrupting nothing; a valid chunk for a registered session
    /// succeeds (until the frame counter would overflow) as
    /// `process_ok_post` describes.
    pub open spec fn process_transition(
        pre: Self,
        post: Self,
        id: Seq<char>,
        chunk: DataChunk,
        r: Result<StreamResult, ExtensionError>,
    ) -> bool {
        &&& (r is Ok <==> (pre.spec_has_session(id) && spec_video_chunk_ok(chunk)
            && pre.spec_session(id).accum.frame_count < u64::MAX))
        &&& !pre.spec_has_session(id) ==> ((r matches Err(e) && e matches
            ExtensionError::SessionNotFound(s) && s@ == id) && post == pre)
        &&& (pre.spec_has_session(id) && !spec_video_chunk_ok(chunk)) ==> {
            &&& (r matches Err(e) && e is InvalidStreamData)
            &&& Self::others_unchanged(pre, post, id)
            &&& post.spec_has_session(id)
            &&& post.spec_active() == pre.spec_active()
            &&& post.spec_stats() == pre.spec_stats()
            &&& post.spec_session(id).id@ == pre.spec_session(id).id@
            &&& post.spec_session(id).created_at == pre.spec_session(id).created_at
            &&& {
                let a0 = pre.spec_session(id).accum;
                let a1 = post.spec_session(id).accum;
                &&& a1.frame_count == a0.frame_count
                &&& a1.total_processing_time_ms == a0.total_processing_time_ms
                &&& a1.total_detections == a0.total_detections
                &&& a1.total_input_bytes == a0.total_input_bytes
                &&& a1.total_output_bytes == a0.total_output_bytes
                &&& a1.error_count == sat64(a0.error_count + 1)
                &&& a1.last_frame_time == a0.last_frame_time
                &&& a1.config == a0.config
                &&& a1.detected_objects == a0.detected_objects
            }
        }
        &&& (pre.spec_has_session(id) && spec_video_chunk_ok(chunk) && pre.spec_session(
            id,
        ).accum.frame_count == u64::MAX) ==> {
            &&& (r matches Err(e) && e is CapacityExceeded)
            &&& Self::others_unchanged(pre, post, id)
            &&& post.spec_has_session(id)
            &&& post.spec_session(id) == pre.spec_session(id)
            &&& post.spec_active() == pre.spec_active()
            &&& post.spec_stats() == pre.spec_stats()
        }
        &&& (pre.spec_has_session(id) && spec_video_chunk_ok(chunk) && pre.spec_session(
            id,
        ).accum.frame_count < u64::MAX) ==> (r matches Ok(res) && Self::process_ok_post(
            pre,
            post,
            id,
            chunk,
            res,
        ))
    }

    /// The effect of `close_session`: an absent identifier is
    /// `SessionNotFound` and changes nothing; otherwise the record is
    /// removed destructively (the identifier becomes free for reuse) and
    /// the summary reports the final accumulator exactly.
    pub open spec fn close_transition(
        pre: Self,
        post: Self,
        id: Seq<char>,
        r: Result<SessionStats, ExtensionError>,
    ) -> bool {
        &&& (r is Ok <==> pre.spec_has_session(id))
        &&& !pre.spec_has_session(id) ==> ((r matches Err(e) && e matches
            ExtensionError::SessionNotFound(s) && s@ == id) && post == pre)
        &&& pre.spec_has_session(id) ==> (r matches Ok(summary) && {
            let a = pre.spec_session(id).accum;
            &&& summary.input_chunks == a.frame_count
            &&& summary.output_chunks == a.frame_count
            &&& summary.input_bytes == a.total_input_bytes
            &&& summary.output_bytes == a.total_output_bytes
            &&& summary.errors == a.error_count
            &&& summary.last_activity == pre.spec_session(id).last_activity
            &&& Self::others_unchanged(pre, post, id)
            &&& !post.spec_has_session(id)
            &&& post.spec_active() == pre.spec_active() - 1
            &&& post.spec_stats().active_sessions == post.spec_active()
            &&& post.spec_stats().sessions_created == pre.spec_stats().sessions_created
            &&& post.spec_stats().total_frames_processed
                == pre.spec_stats().total_frames_processed
            &&& post.spec_stats().total_detections == pre.spec_stats().total_detections
            &&& post.spec_stats().total_processing_time_ms
                == pre.spec_stats().total_processing_time_ms
        })
    }

    /// A fresh engine with the default session bound.
    pub fn new() -> (r: Self)
        ensures
            r.wf(),
            r.spec_active() == 0,
            r.spec_max_sessions() == VIDEO_MAX_SESSIONS,
            forall|k: Seq<char>| !r.spec_has_session(k),
            r.spec_stats() == (GlobalStats {
                sessions_created: 0u64,
                active_sessions: 0u64,
                total_frames_processed: 0u64,
                total_detections: 0u64,
                total_processing_time_ms: 0u64,
            }),
            r.spec_metadata().id@ == "yolo-video"@,
            r.spec_metadata().name@ == "YOLO Video Processor"@,
            r.spec_metadata().version == (VersionTriple { major: 1u64, minor: 0u64, patch: 0u64 }),
    {
        Self::with_max_sessions(VIDEO_MAX_SESSIONS)
    }

    /// A fresh engine bounded to `max_sessions` concurrently active
    /// sessions.
    pub fn with_max_sessions(max_sessions: usize) -> (r: Self)
        ensures
            r.wf(),
            r.spec_active() == 0,
            r.spec_max_sessions() == max_sessions,
            forall|k: Seq<char>| !r.spec_has_session(k),
            r.spec_stats() == (GlobalStats {
                sessions_created: 0u64,
                active_sessions: 0u64,
                total_frames_processed: 0u64,
                total_detections: 0u64,
                total_processing_time_ms: 0u64,
            }),
            r.spec_metadata().id@ == "yolo-video"@,
            r.spec_metadata().name@ == "YOLO Video Processor"@,
            r.spec_metadata().version == (VersionTriple { major: 1u64, minor: 0u64, patch: 0u64 }),
    {
        let metadata = ExtensionMetadata::new(
            "yolo-video",
            "YOLO Video Processor",
            VersionTriple::new(1, 0, 0),
        ).with_description("Stateful video stream processing with YOLO object detection")
            .with_author("NeoMind Team");
        YoloVideoProcessor {
            metadata,
            sessions: SessionRegistry::new(max_sessions),
            stats: GlobalStats {
                sessions_created: 0,
                active_sessions: 0,
                total_frames_processed: 0,
                total_detections: 0,
                total_processing_time_ms: 0,
            },
        }
    }

    /// The identity record.
    pub fn metadata(&self) -> (r: &ExtensionMetadata)
        ensures
            *r == self.spec_metadata(),
    {
        &self.metadata
    }

    /// The streaming capability: stateful upload of JPEG/PNG stills or
    /// H264/H265 video, five-megabyte frames, with this engine's session
    /// bound. The descriptor validates exactly the chunks that
    /// `spec_video_chunk_ok` accepts.
    pub fn stream_capability(&self) -> (r: Option<StreamCapability>)
        ensures
            r matches Some(c) && {
                &&& c.direction is Upload
                &&& c.mode is Stateful
                &&& c.wf()
                &&& c.max_chunk_size == VIDEO_MAX_CHUNK
                &&& c.preferred_chunk_size == VIDEO_PREFERRED_CHUNK
                &&& c.max_concurrent_sessions == self.spec_max_sessions()
                &&& c.flow_control.window_chunks is None
                &&& c.supported_data_types@.len() == 4
                &&& forall|ch: DataChunk| c.spec_chunk_ok(ch) == spec_video_chunk_ok(ch)
            },
    {
        let mut types: Vec<StreamDataType> = Vec::new();
        types.push(StreamDataType::Image { format: String::from_str("jpeg") });
        types.push(StreamDataType::Image { format: String::from_str("png") });
        types.push(
            StreamDataType::Video {
                codec: String::from_str("h264"),
                width: 1920,
                height: 1080,
                fps: 30,
            },
        );
        types.push(
            StreamDataType::Video {
                codec: String::from_str("h265"),
                width: 1920,
                height: 1080,
                fps: 30,
            },
        );
        let cap = StreamCapability {
            direction: StreamDirection::Upload,
            mode: StreamMode::Stateful,
            supported_data_types: types,
            max_chunk_size: VIDEO_MAX_CHUNK,
            preferred_chunk_size: VIDEO_PREFERRED_CHUNK,
            max_concurrent_sessions: self.sessions.max_sessions(),
            flow_control: FlowControl { window_chunks: None },
        };
        proof {
            assert forall|ch: DataChunk| cap.spec_chunk_ok(ch) == spec_video_chunk_ok(ch) by {
                if spec_video_type_ok(ch.data_type) {
                    if ch.data_type matches StreamDataType::Image { format } && format@
                        == "jpeg"@ {
                        assert(cap.supported_data_types@[0].spec_eq(ch.data_type));
                    } else if ch.data_type matches StreamDataType::Image { format } && format@
                        == "png"@ {
                        assert(cap.supported_data_types@[1].spec_eq(ch.data_type));
                    } else if ch.data_type matches StreamDataType::Video { codec, .. } && codec@
                        == "h264"@ {
                        assert(cap.supported_data_types@[2].spec_eq(ch.data_type));
                    } else {
                        assert(cap.supported_data_types@[3].spec_eq(ch.data_type));
                    }
                }
                if cap.spec_supports(ch.data_type) {
                    let i = choose|i: int|
                        0 <= i < cap.supported_data_types@.len()
                            && cap.supported_data_types@[i].spec_eq(ch.data_type);
                    assert(spec_video_type_ok(ch.data_type));
                }
            }
        }
        Some(cap)
    }

    /// Registers a session under the descriptor's identifier, with a fresh
    /// accumulator configured from the descriptor's JSON payload (a
    /// missing or malformed payload falls back to the default
    /// configuration rather than failing the session).
    pub fn init_session(&mut self, session: &SessionDescriptor) -> (r: Result<(), ExtensionError>)
        requires
            old(self).wf(),
        ensures
            final(self).wf(),
            Self::init_transition(*old(self), *final(self), session.id@, session.config@, r),
    {
        let ghost pre = *self;
        let config = VideoConfig::from_json_bytes(session.config.as_slice());
        let now = trusted::now_millis();
        let accum = VideoAccum {
            frame_count: 0,
            total_processing_time_ms: 0,
            total_detections: 0,
            total_input_bytes: 0,
            total_output_bytes: 0,
            error_count: 0,
            last_frame_time: None,
            config,
            detected_objects: Vec::new(),
        };
        let entry = SessionEntry {
            id: session.id.clone(),
            created_at: now,
            last_activity: now,
            accum,
        };
        match self.sessions.insert(entry) {
            Ok(()) => {
                self.stats.sessions_created = self.stats.sessions_created.saturating_add(1);
                self.stats.active_sessions = self.sessions.len() as u64;
                proof {
                    assert forall|k: Seq<char>| self.spec_has_session(k) implies tally_wf(
                        self.spec_session(k).accum.detected_objects@,
                    ) by {
                        if k == session.id@ {
                            assert(self.spec_session(k).accum.detected_objects@.len() == 0);
                        } else {
                            assert(pre.spec_has_session(k));
                            assert(self.spec_session(k) == pre.spec_session(k));
                        }
                    }
                }
                Ok(())
            },
            Err(e) => Err(e),
        }
    }

    /// Processes one chunk within the session registered under
    /// `session_id`, as `process_transition` describes. The record is
    /// taken out of the registry for the duration of the call, so chunk
    /// processing for one session is exclusive while other sessions
    /// proceed independently.
    pub fn process_session_chunk(&mut self, session_id: &str, chunk: DataChunk) -> (r: Result<
        StreamResult,
        ExtensionError,
    >)
        requires
            old(self).wf(),
        ensures
            final(self).wf(),
            Self::process_transition(*old(self), *final(self), session_id@, chunk, r),
    {
        let ghost pre = *self;
        proof {
            pre.spec_sessions().lemma_len_le_max();
        }
        let entry = match self.sessions.remove(session_id) {
            None => {
                return Err(ExtensionError::SessionNotFound(session_id.to_owned()));
            },
            Some(e) => e,
        };
        let ghost mid = *self;
        let ghost entry_id_view = entry.id@;
        let cap = match self.stream_capability() {
            Some(c) => c,
            None => {
                // stream_capability always answers for this engine
                return Err(ExtensionError::InvalidStreamData(String::from_str("no capability")));
            },
        };
        if let Err(e) = cap.validate_chunk(&chunk) {
            let mut accum = entry.accum;
            accum.error_count = accum.error_count.saturating_add(1);
            let reinserted = SessionEntry {
                id: entry.id,
                created_at: entry.created_at,
                last_activity: entry.last_activity,
                accum,
            };
            let ghost rein = reinserted;
            let ins = self.sessions.insert(reinserted);
            proof {
                assert(ins is Ok);
                assert(entry_id_view == session_id@);
                lemma_compose_frames(pre, mid, *self, session_id@);
                assert forall|k: Seq<char>| self.spec_has_session(k) implies tally_wf(
                    self.spec_session(k).accum.detected_objects@,
                ) by {
                    if k != session_id@ {
                        assert(self.spec_has_session(k) == mid.spec_has_session(k));
                        assert(mid.spec_has_session(k) == pre.spec_has_session(k));
                        assert(pre.spec_has_session(k));
                        assert(mid.spec_session(k) == pre.spec_session(k));
                        assert(self.spec_session(k) == mid.spec_session(k));
                    } else {
                        assert(self.spec_session(k) == rein);
                        assert(pre.spec_has_session(k));
                        assert(rein.accum.detected_objects
                            == pre.spec_session(k).accum.detected_objects);
                        assert(tally_wf(pre.spec_session(k).accum.detected_objects@));
                    }
                }
            }
            return Err(e);
        }
        if entry.accum.frame_count == u64::MAX {
            let ghost ent = entry;
            let ins = self.sessions.insert(entry);
            proof {
                assert(ins is Ok);
                assert(entry_id_view == session_id@);
                lemma_compose_frames(pre, mid, *self, session_id@);
                assert forall|k: Seq<char>| self.spec_has_session(k) implies tally_wf(
                    self.spec_session(k).accum.detected_objects@,
                ) by {
                    if k != session_id@ {
                        assert(self.spec_has_session(k) == mid.spec_has_session(k));
                        assert(mid.spec_has_session(k) == pre.spec_has_session(k));
                        assert(pre.spec_has_session(k));
                        assert(mid.spec_session(k) == pre.spec_session(k));
                        assert(self.spec_session(k) == mid.spec_session(k));
                    } else {
                        assert(self.spec_session(k) == ent);
                        assert(pre.spec_has_session(k));
                        assert(ent == pre.spec_session(k));
                        assert(tally_wf(pre.spec_session(k).accum.detected_objects@));
                    }
                }
            }
            return Err(
                ExtensionError::CapacityExceeded(String::from_str("session frame counter exhausted")),
            );
        }
        let ghost a0 = entry.accum;
        proof {
            assert(pre.spec_has_session(session_id@));
            assert(a0 == pre.spec_session(session_id@).accum);
            assert(tally_wf(a0.detected_objects@));
        }
        let mut accum = entry.accum;
        let start = trusted::now_millis();
        let detections = detect::run_detection(
            accum.frame_count,
            accum.config.confidence_centi,
            accum.config.max_objects,
        );
        let ghost models = detect::spec_detections(
            a0.frame_count,
            a0.config.confidence_centi,
            a0.config.max_objects,
        );
        let mut di: usize = 0;
        while di < detections.len()
            invariant
                0 <= di <= detections@.len(),
                tally_wf(accum.detected_objects@),
                detections@.map_values(|d: detect::ObjectDetection| d.model()) == models,
                forall|l: Seq<char>|
                    #[trigger] tally_get(accum.detected_objects@, l) == sat32(
                        tally_get(a0.detected_objects@, l) as int + detect::label_count(
                            models.take(di as int),
                            l,
                        ) as int,
                    ),
                accum.frame_count == a0.frame_count,
                accum.total_processing_time_ms == a0.total_processing_time_ms,
                accum.total_detections == a0.total_detections,
                accum.total_input_bytes == a0.total_input_bytes,
                accum.total_output_bytes == a0.total_output_bytes,
                accum.error_count == a0.error_count,
                accum.last_frame_time == a0.last_frame_time,
                accum.config == a0.config,
            decreases detections@.len() - di,
        {
            let ghost pre_tally = accum.detected_objects@;
            let ghost dlab = detections@[di as int].label@;
            tally_bump(&mut accum.detected_objects, &detections[di].label);
            proof {
                let k = di as int;
                assert(models[k] == detections@.map_values(
                    |d: detect::ObjectDetection| d.model(),
                )[k]);
                assert(models[k].label == dlab);
                assert(models.take(k + 1).drop_last() =~= models.take(k));
                assert(models.take(k + 1).last() == models[k]);
                assert forall|l: Seq<char>| #[trigger] tally_get(accum.detected_objects@, l)
                    == sat32(
                    tally_get(a0.detected_objects@, l) as int + detect::label_count(
                        models.take(k + 1),
                        l,
                    ) as int,
                ) by {
                    let base = tally_get(a0.detected_objects@, l) as int;
                    if l == dlab {
                        assert(tally_get(accum.detected_objects@, l) == tally_get(
                            pre_tally,
                            l,
                        ).saturating_add(1));
                        assert(detect::label_count(models.take(k + 1), l) == detect::label_count(
                            models.take(k),
                            l,
                        ) + 1);
                    } else {
                        assert(tally_get(accum.detected_objects@, l) == tally_get(pre_tally, l));
                        assert(detect::label_count(models.take(k + 1), l) == detect::label_count(
                            models.take(k),
                            l,
                        ));
                    }
                }
            }
            di = di + 1;
        }
        proof {
            assert(models.take(detections@.len() as int) =~= models);
        }
        let end = trusted::now_millis();
        let elapsed: i128 = end as i128 - start as i128;
        let processing: u64 = if elapsed <= 0 {
            0
        } else if elapsed > u64::MAX as i128 {
            u64::MAX
        } else {
            elapsed as u64
        };
        let ndet = detections.len();
        let new_frame = accum.frame_count + 1;
        let payload = json::frame_payload(new_frame, ndet as u64, processing);
        accum.frame_count = new_frame;
        accum.total_processing_time_ms = accum.total_processing_time_ms.saturating_add(processing);
        accum.total_detections = accum.total_detections.saturating_add(ndet as u64);
        accum.total_input_bytes = accum.total_input_bytes.saturating_add(chunk.data.len() as u64);
        accum.total_output_bytes = accum.total_output_bytes.saturating_add(payload.len() as u64);
        accum.last_frame_time = Some(end);
        let reinserted = SessionEntry {
            id: entry.id,
            created_at: entry.created_at,
            last_activity: end,
            accum,
        };
        let ghost rein = reinserted;
        let ins = self.sessions.insert(reinserted);
        self.stats.total_frames_processed = self.stats.total_frames_processed.saturating_add(1);
        self.stats.total_detections = self.stats.total_detections.saturating_add(ndet as u64);
        self.stats.total_processing_time_ms = self.stats.total_processing_time_ms.saturating_add(
            processing,
        );
        proof {
            assert(ins is Ok);
            assert(detections@.map_values(|d: crate::detect::ObjectDetection| d.model()).len()
                == detections@.len());
            assert(entry_id_view == session_id@);
            lemma_compose_frames(pre, mid, *self, session_id@);
            assert forall|k: Seq<char>| self.spec_has_session(k) implies tally_wf(
                self.spec_session(k).accum.detected_objects@,
            ) by {
                if k != session_id@ {
                    assert(self.spec_has_session(k) == mid.spec_has_session(k));
                    assert(mid.spec_has_session(k) == pre.spec_has_session(k));
                    assert(pre.spec_has_session(k));
                    assert(mid.spec_session(k) == pre.spec_session(k));
                    assert(self.spec_session(k) == mid.spec_session(k));
                } else {
                    assert(self.spec_session(k) == rein);
                }
            }
        }
        Ok(
            StreamResult {
                input_sequence: Some(chunk.sequence),
                output_sequence: new_frame,
                data: payload,
                data_type: StreamDataType::Json,
                processing_ms: processing,
                error: None,
            },
        )
    }

    /// Tears the session down destructively and reports its final
    /// accumulator, as `close_transition` describes.
    pub fn close_session(&mut self, session_id: &str) -> (r: Result<SessionStats, ExtensionError>)
        requires
            old(self).wf(),
        ensures
            final(self).wf(),
            Self::close_transition(*old(self), *final(self), session_id@, r),
    {
        let ghost pre = *self;
        let entry = match self.sessions.remove(session_id) {
            None => {
                return Err(ExtensionError::SessionNotFound(session_id.to_owned()));
            },
            Some(e) => e,
        };
        self.stats.active_sessions = self.sessions.len() as u64;
        proof {
            assert forall|k: Seq<char>| self.spec_has_session(k) implies tally_wf(
                self.spec_session(k).accum.detected_objects@,
            ) by {
                assert(k != session_id@);
                assert(self.spec_has_session(k) == pre.spec_has_session(k));
                assert(pre.spec_has_session(k));
                assert(self.spec_session(k) == pre.spec_session(k));
            }
        }
        Ok(
            SessionStats {
                input_chunks: entry.accum.frame_count,
                output_chunks: entry.accum.frame_count,
                input_bytes: entry.accum.total_input_bytes,
                output_bytes: entry.accum.total_output_bytes,
                errors: entry.accum.error_count,
                last_activity: entry.last_activity,
            },
        )
    }

    /// A read-only snapshot of one session's accumulator, or
    /// `SessionNotFound`.
    pub fn get_session_info(&self, session_id: &str) -> (r: Result<SessionInfo, ExtensionError>)
        requires
            self.wf(),
        ensures
            r is Ok <==> self.spec_has_session(session_id@),
            r matches Ok(info) ==> {
                let e = self.spec_session(session_id@);
                &&& info.session_id@ == session_id@
                &&& info.frame_count == e.accum.frame_count
                &&& info.total_processing_time_ms == e.accum.total_processing_time_ms
                &&& info.total_detections == e.accum.total_detections
                &&& info.detected_objects@ == e.accum.detected_objects@
                &&& info.config == e.accum.config
            },
            r matches Err(e) ==> e matches ExtensionError::SessionNotFound(s) && s@ == session_id@,
    {
        match self.sessions.get(session_id) {
            None => Err(ExtensionError::SessionNotFound(session_id.to_owned())),
            Some(entry) => Ok(
                SessionInfo {
                    session_id: session_id.to_owned(),
                    frame_count: entry.accum.frame_count,
                    total_processing_time_ms: entry.accum.total_processing_time_ms,
                    total_detections: entry.accum.total_detections,
                    detected_objects: clone_tally(&entry.accum.detected_objects),
                    config: entry.accum.config,
                },
            ),
        }
    }

    /// Dispatches an administrative command: anything but
    /// `get_session_info` is `CommandNotFound`; `get_session_info`
    /// without a string `session_id` argument is `InvalidArguments`, and
    /// with one it answers exactly as `get_session_info` does for that
    /// identifier.
    pub fn execute_command(&self, command: &str, args: &serde_json::Value) -> (r: Result<
        SessionInfo,
        ExtensionError,
    >)
        requires
            self.wf(),
        ensures
            command@ != "get_session_info"@ ==> (r matches Err(e) && e matches
                ExtensionError::CommandNotFound(c) && c@ == command@),
            command@ == "get_session_info"@ ==> match spec_string_field(*args, "session_id"@) {
                None => r matches Err(e) && e is InvalidArguments,
                Some(sid) => {
                    &&& (r is Ok <==> self.spec_has_session(sid))
                    &&& (r matches Ok(info) ==> {
                        let entry = self.spec_session(sid);
                        &&& info.session_id@ == sid
                        &&& info.frame_count == entry.accum.frame_count
                        &&& info.total_processing_time_ms == entry.accum.total_processing_time_ms
                        &&& info.total_detections == entry.accum.total_detections
                        &&& info.detected_objects@ == entry.accum.detected_objects@
                        &&& info.config == entry.accum.config
                    })
                    &&& (r matches Err(e) ==> e matches ExtensionError::SessionNotFound(missing)
                        && missing@ == sid)
                },
            },
    {
        if !crate::registry::str_eq(command, "get_session_info") {
            return Err(ExtensionError::CommandNotFound(command.to_owned()));
        }
        let session_id = match read_string_field(args, "session_id") {
            Some(s) => s,
            None => {
                return Err(
                    ExtensionError::InvalidArguments(String::from_str("Missing session_id")),
                );
            },
        };
        self.get_session_info(session_id.as_str())
    }

    /// The three metrics this engine declares.
    pub fn metrics(&self) -> (r: Vec<MetricDescriptor>)
        ensures
            r@.len() == 3,
            r@[0].name@ == "active_sessions"@,
            r@[1].name@ == "total_frames_processed"@,
            r@[2].name@ == "avg_fps"@,
    {
        let mut out: Vec<MetricDescriptor> = Vec::new();
        out.push(
            MetricDescriptor {
                name: String::from_str("active_sessions"),
                display_name: String::from_str("Active Sessions"),
                data_type: MetricDataType::Integer,
                unit: String::from_str("count"),
                min: Some(0),
                max: None,
                required: false,
            },
        );
        out.push(
            MetricDescriptor {
                name: String::from_str("total_frames_processed"),
                display_name: String::from_str("Total Frames Processed"),
                data_type: MetricDataType::Integer,
                unit: String::from_str("frames"),
                min: Some(0),
                max: None,
                required: false,
            },
        );
        out.push(
            MetricDescriptor {
                name: String::from_str("avg_fps"),
                display_name: String::from_str("Average FPS"),
                data_type: MetricDataType::Float,
                unit: String::from_str("fps"),
                min: Some(0),
                max: None,
                required: false,
            },
        );
        out
    }

    /// The one administrative command this engine declares.
    pub fn commands(&self) -> (r: Vec<CommandDescriptor>)
        ensures
            r@.len() == 1,
            r@[0].name@ == "get_session_info"@,
    {
        let mut out: Vec<CommandDescriptor> = Vec::new();
        let params: Vec<ParameterDefinition> = Vec::new();
        let fixed: Vec<(String, String)> = Vec::new();
        let samples: Vec<String> = Vec::new();
        let groups: Vec<ParameterGroup> = Vec::new();
        out.push(
            CommandDescriptor {
                name: String::from_str("get_session_info"),
                display_name: String::from_str("Get Session Info"),
                payload_template: String::from_str("{\"session_id\": \"\"}"),
                parameters: params,
                fixed_values: fixed,
                samples,
                llm_hints: String::from_str(
                    "Get information about an active processing session",
                ),
                parameter_groups: groups,
            },
        );
        out
    }

    /// A snapshot of the shared counters, without mutating them: the
    /// number of active sessions, the total frames processed, and the
    /// average throughput in hundredths of frames per second.
    pub fn produce_metrics(&self) -> (r: Result<Vec<ExtensionMetricValue>, ExtensionError>)
        ensures
            r matches Ok(v) && {
                &&& v@.len() == 3
                &&& v@[0].name@ == "active_sessions"@
                &&& v@[0].value == ParamMetricValue::Integer(
                    sat_i64(self.spec_stats().active_sessions as int),
                )
                &&& v@[1].name@ == "total_frames_processed"@
                &&& v@[1].value == ParamMetricValue::Integer(
                    sat_i64(self.spec_stats().total_frames_processed as int),
                )
                &&& v@[2].name@ == "avg_fps"@
                &&& v@[2].value == ParamMetricValue::Centi(
                    spec_avg_fps_centi(
                        self.spec_stats().total_frames_processed,
                        self.spec_stats().total_processing_time_ms,
                    ),
                )
            },
    {
        let ts = trusted::now_millis();
        let mut out: Vec<ExtensionMetricValue> = Vec::new();
        out.push(
            ExtensionMetricValue::new(
                "active_sessions",
                ParamMetricValue::Integer(sat_cast_i64(self.stats.active_sessions)),
                ts,
            ),
        );
        out.push(
            ExtensionMetricValue::new(
                "total_frames_processed",
                ParamMetricValue::Integer(sat_cast_i64(self.stats.total_frames_processed)),
                ts,
            ),
        );
        out.push(
            ExtensionMetricValue::new(
                "avg_fps",
                ParamMetricValue::Centi(
                    avg_fps_centi(
                        self.stats.total_frames_processed,
                        self.stats.total_processing_time_ms,
                    ),
                ),
                ts,
            ),
        );
        Ok(out)
    }
}

/// The average throughput in hundredths of frames per second:
/// `frames * 100000 / elapsed_ms`, clamped into `i64`; zero when no time
/// has been recorded.
pub open spec fn spec_avg_fps_centi(frames: u64, total_ms: u64) -> i64 {
    if total_ms == 0 {
        0i64
    } else {
        sat_i64(frames as int * 100000 / total_ms as int)
    }
}

/// Computes `spec_avg_fps_centi`.
pub fn avg_fps_centi(frames: u64, total_ms: u64) -> (r: i64)
    ensures
        r == spec_avg_fps_centi(frames, total_ms),
{
    if total_ms == 0 {
        return 0;
    }
    let wide: u128 = (frames as u128) * 100000u128 / (total_ms as u128);
    if wide > i64::MAX as u128 {
        i64::MAX
    } else {
        wide as i64
    }
}

/// Chains the frame conditions of taking a record out of the registry and
/// putting its successor back: every other session is exactly as before.
proof fn lemma_compose_frames(
    pre: YoloVideoProcessor,
    mid: YoloVideoProcessor,
    post: YoloVideoProcessor,
    id: Seq<char>,
)
    requires
        forall|k: Seq<char>| k != id ==> mid.spec_has_session(k) == pre.spec_has_session(k),
        forall|k: Seq<char>|
            k != id && pre.spec_has_session(k) ==> mid.spec_session(k) == pre.spec_session(k),
        forall|k: Seq<char>| k != id ==> post.spec_has_session(k) == mid.spec_has_session(k),
        forall|k: Seq<char>|
            k != id && mid.spec_has_session(k) ==> post.spec_session(k) == mid.spec_session(k),
    ensures
        forall|k: Seq<char>| k != id ==> post.spec_has_session(k) == pre.spec_has_session(k),
        forall|k: Seq<char>|
            k != id && pre.spec_has_session(k) ==> post.spec_session(k) == pre.spec_session(k),
{
}

} // verus!
