//! End-to-end tests of the streaming protocol: capability validation,
//! stateless and stateful processing, session lifecycle, capacity, and
//! the instance-handle ledger.

use neomind_extensions::capability::StreamMode;
use neomind_extensions::chunk::{DataChunk, StreamDataType};
use neomind_extensions::errors::ExtensionError;
use neomind_extensions::json;
use neomind_extensions::lifecycle::HandleTable;
use neomind_extensions::stateful::{SessionDescriptor, YoloVideoProcessor};
use neomind_extensions::stateless::ImageAnalyzer;
use neomind_extensions::{abi_compatible, host_abi_check, ABI_VERSION};

fn image_chunk(format: &str, sequence: u64, data: Vec<u8>) -> DataChunk {
    DataChunk {
        sequence,
        data,
        data_type: StreamDataType::Image { format: format.to_string() },
    }
}

fn video_chunk(codec: &str, sequence: u64, data: Vec<u8>) -> DataChunk {
    DataChunk {
        sequence,
        data,
        data_type: StreamDataType::Video {
            codec: codec.to_string(),
            width: 1920,
            height: 1080,
            fps: 30,
        },
    }
}

fn descriptor(id: &str, config: &str) -> SessionDescriptor {
    SessionDescriptor { id: id.to_string(), config: config.as_bytes().to_vec() }
}

#[test]
fn test_abi_handshake() {
    assert!(abi_compatible(ABI_VERSION, ABI_VERSION));
    assert!(!abi_compatible(ABI_VERSION, ABI_VERSION + 1));
    assert!(host_abi_check(ABI_VERSION).is_ok());
    match host_abi_check(ABI_VERSION + 1) {
        Err(ExtensionError::AbiVersionMismatch { host, extension }) => {
            assert_eq!(host, ABI_VERSION);
            assert_eq!(extension, ABI_VERSION + 1);
        }
        _ => panic!("expected AbiVersionMismatch"),
    }
}

#[test]
fn test_stateless_capability() {
    let ext = ImageAnalyzer::new();
    let cap = ext.stream_capability().unwrap();
    assert!(matches!(cap.mode, StreamMode::Stateless));
    assert_eq!(cap.max_chunk_size, 10 * 1024 * 1024);
    assert_eq!(cap.preferred_chunk_size, 1024 * 1024);
    assert_eq!(cap.supported_data_types.len(), 3);
}

#[test]
fn test_stateful_capability() {
    let ext = YoloVideoProcessor::new();
    let cap = ext.stream_capability().unwrap();
    assert!(matches!(cap.mode, StreamMode::Stateful));
    assert_eq!(cap.max_chunk_size, 5 * 1024 * 1024);
    assert_eq!(cap.max_concurrent_sessions, 5);
    assert_eq!(cap.supported_data_types.len(), 4);
}

#[test]
fn test_process_chunk_echoes_sequence() {
    let mut ext = ImageAnalyzer::new();
    let result = ext.process_chunk(image_chunk("jpeg", 42, vec![1, 2, 3])).unwrap();
    assert_eq!(result.output_sequence, 42);
    assert_eq!(result.input_sequence, Some(42));
    assert!(matches!(result.data_type, StreamDataType::Json));
    assert!(result.error.is_none());
}

#[test]
fn test_process_chunk_payload_is_valid_json() {
    let mut ext = ImageAnalyzer::new();
    let result = ext.process_chunk(image_chunk("png", 1, vec![0u8; 50])).unwrap();
    let parsed: serde_json::Value = serde_json::from_slice(&result.data).unwrap();
    assert_eq!(parsed["objects"], 1);
    assert!(parsed["dominant_color"].is_null());
    assert_eq!(parsed["estimated_size"], "small");
    assert!(parsed["processing_ms"].is_u64());
}

#[test]
fn test_dominant_color_from_jpeg_signature() {
    let mut ext = ImageAnalyzer::new();
    let mut data = vec![0u8; 200];
    data[0] = 0xff;
    data[1] = 0xd8;
    data[2] = 0xff;
    let result = ext.process_chunk(image_chunk("jpeg", 1, data)).unwrap();
    let parsed: serde_json::Value = serde_json::from_slice(&result.data).unwrap();
    assert_eq!(parsed["dominant_color"], "#808080");
}

#[test]
fn test_unsupported_type_rejected() {
    let mut ext = ImageAnalyzer::new();
    let chunk = DataChunk { sequence: 1, data: vec![1], data_type: StreamDataType::Binary };
    match ext.process_chunk(chunk) {
        Err(ExtensionError::InvalidStreamData(_)) => {}
        _ => panic!("expected InvalidStreamData"),
    }
}

#[test]
fn test_image_at_exact_max_chunk_size() {
    let mut ext = ImageAnalyzer::new();
    let max = ext.stream_capability().unwrap().max_chunk_size;
    let ok = ext.process_chunk(image_chunk("jpeg", 7, vec![0u8; max]));
    assert!(ok.is_ok());
    match ext.process_chunk(image_chunk("jpeg", 8, vec![0u8; max + 1])) {
        Err(ExtensionError::InvalidStreamData(_)) => {}
        _ => panic!("expected InvalidStreamData one byte over the limit"),
    }
}

#[test]
fn test_stateless_counters_only_on_success() {
    let mut ext = ImageAnalyzer::new();
    ext.process_chunk(image_chunk("jpeg", 1, vec![1])).unwrap();
    ext.process_chunk(image_chunk("png", 2, vec![2])).unwrap();
    let invalid = DataChunk { sequence: 3, data: vec![3], data_type: StreamDataType::Json };
    assert!(ext.process_chunk(invalid).is_err());
    let metrics = ext.produce_metrics().unwrap();
    assert_eq!(metrics.len(), 3);
    assert_eq!(metrics[0].name, "images_processed");
    assert!(matches!(
        metrics[0].value,
        neomind_extensions::metrics::ParamMetricValue::Integer(2)
    ));
    assert!(matches!(
        metrics[2].value,
        neomind_extensions::metrics::ParamMetricValue::Integer(2)
    ));
}

#[test]
fn test_stateless_reset_and_unknown_command() {
    let mut ext = ImageAnalyzer::new();
    ext.process_chunk(image_chunk("jpeg", 1, vec![1])).unwrap();
    let args: serde_json::Value = serde_json::from_str("{}").unwrap();
    let ack = ext.execute_command("reset_stats", &args).unwrap();
    assert_eq!(ack, "reset");
    let metrics = ext.produce_metrics().unwrap();
    assert!(matches!(
        metrics[0].value,
        neomind_extensions::metrics::ParamMetricValue::Integer(0)
    ));
    match ext.execute_command("no_such_command", &args) {
        Err(ExtensionError::CommandNotFound(name)) => assert_eq!(name, "no_such_command"),
        _ => panic!("expected CommandNotFound"),
    }
}

#[test]
fn test_init_session_twice_rejected() {
    let mut ext = YoloVideoProcessor::new();
    ext.init_session(&descriptor("alpha", "{}")).unwrap();
    ext.process_session_chunk("alpha", image_chunk("jpeg", 1, vec![1])).unwrap();
    match ext.init_session(&descriptor("alpha", "{}")) {
        Err(ExtensionError::SessionAlreadyExists(id)) => assert_eq!(id, "alpha"),
        _ => panic!("expected SessionAlreadyExists"),
    }
    // the first session's accumulator is untouched by the rejection
    let info = ext.get_session_info("alpha").unwrap();
    assert_eq!(info.frame_count, 1);
}

#[test]
fn test_process_after_close_not_found() {
    let mut ext = YoloVideoProcessor::new();
    ext.init_session(&descriptor("s", "{}")).unwrap();
    ext.process_session_chunk("s", image_chunk("jpeg", 1, vec![1])).unwrap();
    ext.close_session("s").unwrap();
    match ext.process_session_chunk("s", image_chunk("jpeg", 2, vec![2])) {
        Err(ExtensionError::SessionNotFound(id)) => assert_eq!(id, "s"),
        _ => panic!("expected SessionNotFound"),
    }
    // the identifier is free for reuse after the destructive close
    assert!(ext.init_session(&descriptor("s", "{}")).is_ok());
}

#[test]
fn test_output_sequence_strictly_increasing() {
    let mut ext = YoloVideoProcessor::new();
    ext.init_session(&descriptor("seq", "{}")).unwrap();
    let r1 = ext.process_session_chunk("seq", image_chunk("jpeg", 1, vec![1])).unwrap();
    let r2 = ext.process_session_chunk("seq", image_chunk("jpeg", 2, vec![2])).unwrap();
    let r3 = ext.process_session_chunk("seq", image_chunk("jpeg", 3, vec![3])).unwrap();
    assert!(r1.output_sequence < r2.output_sequence);
    assert!(r2.output_sequence < r3.output_sequence);
    assert_eq!(r1.input_sequence, Some(1));
    assert_eq!(r3.input_sequence, Some(3));
}

#[test]
fn test_capacity_bound_no_eviction() {
    let mut ext = YoloVideoProcessor::with_max_sessions(2);
    assert!(ext.init_session(&descriptor("a", "{}")).is_ok());
    assert!(ext.init_session(&descriptor("b", "{}")).is_ok());
    match ext.init_session(&descriptor("c", "{}")) {
        Err(ExtensionError::CapacityExceeded(_)) => {}
        _ => panic!("expected CapacityExceeded"),
    }
    // the existing sessions were not evicted
    assert!(ext.get_session_info("a").is_ok());
    assert!(ext.get_session_info("b").is_ok());
    ext.close_session("a").unwrap();
    assert!(ext.init_session(&descriptor("c", "{}")).is_ok());
}

#[test]
fn test_two_sessions_interleaved_independently() {
    let mut ext = YoloVideoProcessor::new();
    ext.init_session(&descriptor("a", "{}")).unwrap();
    ext.init_session(&descriptor("b", "{}")).unwrap();
    for i in 0..100u64 {
        ext.process_session_chunk("a", image_chunk("jpeg", i, vec![1])).unwrap();
        ext.process_session_chunk("b", video_chunk("h264", i, vec![2, 2])).unwrap();
    }
    let info_a = ext.get_session_info("a").unwrap();
    let info_b = ext.get_session_info("b").unwrap();
    assert_eq!(info_a.frame_count, 100);
    assert_eq!(info_b.frame_count, 100);
    let stats_a = ext.close_session("a").unwrap();
    let stats_b = ext.close_session("b").unwrap();
    assert_eq!(stats_a.input_chunks, 100);
    assert_eq!(stats_b.input_chunks, 100);
    // no cross-contamination of byte totals
    assert_eq!(stats_a.input_bytes, 100);
    assert_eq!(stats_b.input_bytes, 200);
}

#[test]
fn test_invalid_chunk_counted_but_session_survives() {
    let mut ext = YoloVideoProcessor::new();
    ext.init_session(&descriptor("s", "{}")).unwrap();
    let invalid = DataChunk { sequence: 1, data: vec![1], data_type: StreamDataType::Json };
    match ext.process_session_chunk("s", invalid) {
        Err(ExtensionError::InvalidStreamData(_)) => {}
        _ => panic!("expected InvalidStreamData"),
    }
    ext.process_session_chunk("s", image_chunk("png", 2, vec![9, 9, 9])).unwrap();
    let summary = ext.close_session("s").unwrap();
    assert_eq!(summary.errors, 1);
    assert_eq!(summary.input_chunks, 1);
    assert_eq!(summary.input_bytes, 3);
}

#[test]
fn test_session_config_parsed_from_json() {
    let mut ext = YoloVideoProcessor::new();
    let config = "{\"confidence_centi\": 60, \"max_objects\": 3, \"target_fps\": 30, \"enable_tracking\": true}";
    ext.init_session(&descriptor("cfg", config)).unwrap();
    let info = ext.get_session_info("cfg").unwrap();
    assert_eq!(info.config.confidence_centi, 60);
    assert_eq!(info.config.max_objects, 3);
    assert_eq!(info.config.target_fps, 30);
    assert!(info.config.enable_tracking);
    // the first frame yields one candidate at confidence 60, which passes
    let result = ext.process_session_chunk("cfg", image_chunk("jpeg", 1, vec![1])).unwrap();
    let parsed: serde_json::Value = serde_json::from_slice(&result.data).unwrap();
    assert_eq!(parsed["frame_number"], 1);
    assert_eq!(parsed["detections"], 1);
    let info = ext.get_session_info("cfg").unwrap();
    assert_eq!(info.total_detections, 1);
    assert_eq!(info.detected_objects, vec![("person".to_string(), 1u32)]);
    // the second frame yields two candidates (person, car), both kept:
    // the per-label tally accumulates accordingly
    ext.process_session_chunk("cfg", image_chunk("jpeg", 2, vec![2])).unwrap();
    let info = ext.get_session_info("cfg").unwrap();
    assert_eq!(info.total_detections, 3);
    assert_eq!(
        info.detected_objects,
        vec![("person".to_string(), 2u32), ("car".to_string(), 1u32)]
    );
}

#[test]
fn test_malformed_session_config_falls_back_to_default() {
    let mut ext = YoloVideoProcessor::new();
    ext.init_session(&descriptor("bad", "this is not json")).unwrap();
    let info = ext.get_session_info("bad").unwrap();
    assert_eq!(info.config.confidence_centi, 0);
    assert_eq!(info.config.max_objects, 0);
    assert!(!info.config.enable_tracking);
}

#[test]
fn test_execute_command_session_info() {
    let mut ext = YoloVideoProcessor::new();
    ext.init_session(&descriptor("q", "{}")).unwrap();
    let args: serde_json::Value = serde_json::from_str("{\"session_id\": \"q\"}").unwrap();
    let info = ext.execute_command("get_session_info", &args).unwrap();
    assert_eq!(info.session_id, "q");
    let empty: serde_json::Value = serde_json::from_str("{}").unwrap();
    match ext.execute_command("get_session_info", &empty) {
        Err(ExtensionError::InvalidArguments(_)) => {}
        _ => panic!("expected InvalidArguments"),
    }
    match ext.execute_command("elsewhere", &args) {
        Err(ExtensionError::CommandNotFound(name)) => assert_eq!(name, "elsewhere"),
        _ => panic!("expected CommandNotFound"),
    }
    let absent: serde_json::Value = serde_json::from_str("{\"session_id\": \"nope\"}").unwrap();
    match ext.execute_command("get_session_info", &absent) {
        Err(ExtensionError::SessionNotFound(id)) => assert_eq!(id, "nope"),
        _ => panic!("expected SessionNotFound"),
    }
}

#[test]
fn test_frame_payload_exact_bytes() {
    let payload = json::frame_payload(7, 2, 5);
    assert_eq!(payload, b"{\"frame_number\":7,\"detections\":2,\"processing_ms\":5}".to_vec());
}

#[test]
fn test_decimal_rendering() {
    let mut out: Vec<u8> = Vec::new();
    json::push_dec_u64(&mut out, 0);
    assert_eq!(out, b"0".to_vec());
    let mut out: Vec<u8> = Vec::new();
    json::push_dec_u64(&mut out, 10);
    assert_eq!(out, b"10".to_vec());
    let mut out: Vec<u8> = Vec::new();
    json::push_dec_u64(&mut out, 12345);
    assert_eq!(out, b"12345".to_vec());
    let mut out: Vec<u8> = Vec::new();
    json::push_dec_u64(&mut out, u64::MAX);
    assert_eq!(out, b"18446744073709551615".to_vec());
}

#[test]
fn test_handle_table_paired_create_destroy() {
    let mut table = HandleTable::new();
    let h = table.create();
    assert_eq!(table.live_count(), 1);
    assert!(table.destroy(h).is_ok());
    assert_eq!(table.live_count(), 0);
    assert_eq!(table.created(), 1);
    assert_eq!(table.destroyed(), 1);
    // a second destroy of the same handle is rejected, not undefined
    match table.destroy(h) {
        Err(ExtensionError::InvalidInput(_)) => {}
        _ => panic!("expected InvalidInput on double destroy"),
    }
    let h2 = table.create();
    assert_ne!(h, h2);
}

#[test]
fn test_video_chunk_type_validation() {
    let mut ext = YoloVideoProcessor::new();
    ext.init_session(&descriptor("v", "{}")).unwrap();
    assert!(ext.process_session_chunk("v", video_chunk("h264", 1, vec![1])).is_ok());
    assert!(ext.process_session_chunk("v", video_chunk("h265", 2, vec![1])).is_ok());
    match ext.process_session_chunk("v", image_chunk("webp", 3, vec![1])) {
        Err(ExtensionError::InvalidStreamData(_)) => {}
        _ => panic!("stateful engine must reject webp"),
    }
}

#[test]
fn test_yolo_metric_and_command_names() {
    let ext = YoloVideoProcessor::new();
    let metrics = ext.metrics();
    assert_eq!(metrics.len(), 3);
    assert_eq!(metrics[0].name, "active_sessions");
    assert_eq!(metrics[1].name, "total_frames_processed");
    assert_eq!(metrics[2].name, "avg_fps");
    let commands = ext.commands();
    assert_eq!(commands.len(), 1);
    assert_eq!(commands[0].name, "get_session_info");
    assert_eq!(ext.metadata().id, "yolo-video");
}

#[test]
fn test_error_context_carries_identifier() {
    let mut ext = YoloVideoProcessor::new();
    match ext.process_session_chunk("ghost", image_chunk("jpeg", 1, vec![1])) {
        Err(e) => assert_eq!(e.context(), "ghost"),
        _ => panic!("expected SessionNotFound"),
    }
    match host_abi_check(ABI_VERSION + 1) {
        Err(e) => assert_eq!(e.context(), ""),
        _ => panic!("expected AbiVersionMismatch"),
    }
}

#[test]
fn test_non_streaming_extensions_negotiate_none() {
    let config: serde_json::Value = serde_json::from_str("{}").unwrap();
    let weather = neomind_extensions::weather::WeatherExtension::new(&config).unwrap();
    assert!(weather.stream_capability().is_none());
    let template = neomind_extensions::template::TemplateExtension::new(&config).unwrap();
    assert!(template.stream_capability().is_none());
    let tools = neomind_extensions::tools::WeatherExtension::new(&config).unwrap();
    assert!(tools.stream_capability().is_none());
}
