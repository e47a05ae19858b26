use arrow::array::Int32Array;
use arrow::datatypes::DataType;
use arrow::datatypes::Field;
use arrow::datatypes::Schema;
use arrow::record_batch::RecordBatch;
use std::sync::Arc;
use zenith_core::engine::PluginOutcome;
use zenith_core::engine::ZenithEngine;
use zenith_core::error::ZenithError;
use zenith_core::event::Payload;
use zenith_core::event::ZenithEvent;
use zenith_core::Engine;

fn make_event(source_id: u32, seq_no: u64) -> ZenithEvent {
    let schema = Arc::new(Schema::new(vec![Field::new("value", DataType::Int32, false)]));
    let values = Int32Array::from(vec![1, 2, 3]);
    let batch = RecordBatch::try_new(schema, vec![Arc::new(values)]).unwrap();
    ZenithEvent::new(source_id, seq_no, Payload { batch })
}

/// A plugin that always answers `verdict` to `on_event`.
fn constant_plugin(verdict: i64) -> Vec<u8> {
    wat::parse_str(format!(
        r#"
        (module
            (func (export "on_event") (param i64 i64) (result i64)
                i64.const {}
            )
        )
        "#,
        verdict
    ))
    .unwrap()
}

/// A plugin whose `on_event` traps at once.
fn trapping_plugin() -> Vec<u8> {
    wat::parse_str(
        r#"
        (module
            (func (export "on_event") (param i64 i64) (result i64)
                unreachable
            )
        )
        "#,
    )
    .unwrap()
}

#[test]
fn test_engine_creation() {
    let result = ZenithEngine::new(1024);
    assert!(result.is_ok(), "Engine creation should succeed");

    let engine = result.unwrap();
    // Verify the engine has a valid ring buffer
    let buffer = engine.get_ring_buffer();
    assert!(buffer.is_empty(), "New engine buffer should be empty");
}

#[test]
fn test_engine_shutdown_sets_flag() {
    let mut engine = ZenithEngine::new(1024).unwrap();

    // Running flag is initially true
    assert!(engine.is_running(), "Engine running flag should be true initially");

    // Shutdown sets running to false
    engine.shutdown();

    assert!(!engine.is_running(), "Engine running flag should be false after shutdown");
}

#[test]
fn test_engine_get_ring_buffer() {
    let engine = ZenithEngine::new(1024).unwrap();

    let buffer1 = engine.get_ring_buffer();
    let buffer2 = engine.get_ring_buffer();

    // Both buffers are clones sharing the same underlying queue
    assert!(buffer1.is_empty());
    assert!(buffer2.is_empty());
}

#[test]
fn test_engine_load_plugin_with_invalid_wasm() {
    let mut engine = ZenithEngine::new(1024).unwrap();

    // Invalid module bytes should fail
    let invalid_wasm = b"not valid wasm bytes";
    let result = engine.load_plugin(invalid_wasm);

    assert!(result.is_err(), "Invalid module should fail to load");
}

#[test]
fn test_engine_multiple_operations() {
    let mut engine = ZenithEngine::new(1024).unwrap();

    // Get buffer and verify it works
    let buffer = engine.get_ring_buffer();
    assert!(buffer.is_empty());

    // Shutdown and verify
    engine.shutdown();
    assert!(!engine.is_running());
}

#[test]
fn test_engine_and_event_reexports() {
    // Engine and Event are re-exported at the crate root
    let engine_result = Engine::new(1024);
    assert!(engine_result.is_ok());
}

#[test]
fn test_engine_rejects_zero_capacity() {
    match ZenithEngine::new(0) {
        Err(e) => assert_eq!(e, ZenithError::InitFailed),
        Ok(_) => panic!("expected InitFailed"),
    }
}

#[test]
fn test_load_plugin_rejects_short_bytes() {
    let mut engine = ZenithEngine::new(16).unwrap();
    // Seven bytes: under the minimal header size, rejected before
    // compilation.
    match engine.load_plugin(&[0x00, 0x61, 0x73, 0x6d, 0x01, 0x00, 0x00]) {
        Err(ZenithError::WasmTooSmall) => {}
        other => panic!("expected WasmTooSmall, got {:?}", other),
    }
    assert_eq!(engine.num_plugins(), 0);
}

#[test]
fn test_load_plugin_rejects_bad_magic() {
    let mut engine = ZenithEngine::new(16).unwrap();
    // Eight bytes, but the magic number is wrong.
    match engine.load_plugin(b"XXXXYYYY") {
        Err(ZenithError::WasmBadMagic) => {}
        other => panic!("expected WasmBadMagic, got {:?}", other),
    }
    assert_eq!(engine.num_plugins(), 0);
}

#[test]
fn test_load_plugin_appends_to_registry() {
    let mut engine = ZenithEngine::new(16).unwrap();
    assert_eq!(engine.num_plugins(), 0);
    engine.load_plugin(&constant_plugin(1)).unwrap();
    assert_eq!(engine.num_plugins(), 1);
    engine.load_plugin(&constant_plugin(0)).unwrap();
    assert_eq!(engine.num_plugins(), 2);
}

#[test]
fn test_dispatch_no_plugins_allows() {
    let engine = ZenithEngine::new(16).unwrap();
    assert!(engine.dispatch_event(1, 1), "with no plugins loaded, the decision is allow");
}

#[test]
fn test_dispatch_all_allow() {
    let mut engine = ZenithEngine::new(16).unwrap();
    engine.load_plugin(&constant_plugin(1)).unwrap();
    engine.load_plugin(&constant_plugin(1)).unwrap();
    assert!(engine.dispatch_event(3, 42), "all plugins allowed, so the event is admitted");
}

#[test]
fn test_dispatch_block_wins() {
    let mut engine = ZenithEngine::new(16).unwrap();
    engine.load_plugin(&constant_plugin(1)).unwrap();
    engine.load_plugin(&constant_plugin(0)).unwrap();
    assert!(!engine.dispatch_event(3, 42), "one explicit block drops the event");
}

#[test]
fn test_dispatch_trap_is_fail_open() {
    let mut engine = ZenithEngine::new(16).unwrap();
    engine.load_plugin(&trapping_plugin()).unwrap();
    // The trapping plugin neither blocks nor admits on its own; dispatch
    // completes and the event is allowed.
    assert!(engine.dispatch_event(9, 7));
}

#[test]
fn test_dispatch_trap_plus_block_drops() {
    let mut engine = ZenithEngine::new(16).unwrap();
    engine.load_plugin(&trapping_plugin()).unwrap();
    engine.load_plugin(&constant_plugin(0)).unwrap();
    // The trap is neutral; the explicit block still drops the event.
    assert!(!engine.dispatch_event(9, 8));
}

#[test]
fn test_dispatch_outcomes_in_registration_order() {
    let mut engine = ZenithEngine::new(16).unwrap();
    engine.load_plugin(&constant_plugin(1)).unwrap();
    engine.load_plugin(&constant_plugin(0)).unwrap();
    engine.load_plugin(&trapping_plugin()).unwrap();
    let (outcomes, allow) = engine.dispatch_event_outcomes(5, 6);
    assert_eq!(
        outcomes,
        vec![PluginOutcome::Allow, PluginOutcome::Block, PluginOutcome::Failed]
    );
    assert!(!allow);
}

#[test]
fn test_process_next_drains_queue() {
    let mut engine = ZenithEngine::new(16).unwrap();
    engine.load_plugin(&constant_plugin(1)).unwrap();
    let buffer = engine.get_ring_buffer();
    buffer.push(make_event(1, 10)).unwrap();
    buffer.push(make_event(1, 11)).unwrap();

    assert_eq!(engine.process_next(), Some(true));
    assert_eq!(engine.process_next(), Some(true));
    assert_eq!(engine.process_next(), None);
    assert!(buffer.is_empty());
}
