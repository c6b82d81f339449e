use micyou_plugin::error::PluginError;
use micyou_plugin::host::PluginLogLevel;
use micyou_plugin::memory::{
    read_at, read_c_str, read_c_string, read_payload, write_at, write_c_str, MemoryError,
};
use micyou_plugin::wasm::{
    check_api_version, check_required_exports, fuel_outcome, memory_export, optional_export,
    parse_config_value, parse_event_payload, permit_import, process_status_from_code,
    require_capability, required_capability, result_from_wasm_code, ExportShape, ModuleExport,
    ProcessStatus, WasmValType, CALL_FUEL_BUDGET, WASM_IMPORT_MODULE,
};

use micyou_plugin::wasm::WasmValType::{F32, F64, I32, I64};

fn granted() -> Vec<String> {
    vec!["config.read".to_string(), "event.emit".to_string()]
}

#[test]
fn capability_gate_admits_only_granted_capabilities() {
    assert!(require_capability(&granted(), "config.read").is_ok());
    assert!(require_capability(&granted(), "event.emit").is_ok());
    let err = require_capability(&granted(), "config.write").unwrap_err();
    assert_eq!(err.code(), 8);
    match err {
        PluginError::PermissionDenied(msg) => {
            assert_eq!(msg, "plugin lacks capability config.write")
        }
        other => panic!("unexpected {other:?}"),
    }
    assert!(require_capability(&Vec::new(), "config.read").is_err());
}

#[test]
fn api_version_gate() {
    assert!(check_api_version(1).is_ok());
    assert!(matches!(
        check_api_version(99),
        Err(PluginError::ApiVersionMismatch { plugin: 99, host: 1 })
    ));
    assert_eq!(check_api_version(0).unwrap_err().code(), 7);
}

#[test]
fn wasm_result_codes() {
    assert!(result_from_wasm_code(0, "init").is_ok());
    match result_from_wasm_code(3, "init") {
        Err(PluginError::Runtime(m)) => assert_eq!(m, "init: plugin returned 3"),
        other => panic!("unexpected {other:?}"),
    }
    match result_from_wasm_code(-42, "handle_event") {
        Err(PluginError::Runtime(m)) => assert_eq!(m, "handle_event: plugin returned -42"),
        other => panic!("unexpected {other:?}"),
    }
    match result_from_wasm_code(i32::MIN, "x") {
        Err(PluginError::Runtime(m)) => assert_eq!(m, "x: plugin returned -2147483648"),
        other => panic!("unexpected {other:?}"),
    }
    match result_from_wasm_code(1234567890, "deinit") {
        Err(PluginError::Runtime(m)) => assert_eq!(m, "deinit: plugin returned 1234567890"),
        other => panic!("unexpected {other:?}"),
    }
}

#[test]
fn process_codes() {
    assert_eq!(process_status_from_code(0).unwrap(), ProcessStatus::Processed);
    assert_eq!(process_status_from_code(1).unwrap(), ProcessStatus::Bypass);
    match process_status_from_code(2) {
        Err(PluginError::Runtime(m)) => assert_eq!(m, "process: plugin returned 2"),
        other => panic!("unexpected {other:?}"),
    }
}

#[test]
fn fuel_accounting() {
    let ok: Result<u32, PluginError> = Ok(5);
    assert_eq!(fuel_outcome(ok.clone(), Some(10)).unwrap(), 5);
    assert_eq!(fuel_outcome(ok.clone(), None).unwrap(), 5);
    match fuel_outcome(ok, Some(0)) {
        Err(PluginError::Runtime(m)) => {
            assert_eq!(m, "wasm fuel exhausted (plugin consumed its execution budget)")
        }
        other => panic!("unexpected {other:?}"),
    }
    let failed: Result<u32, PluginError> = Err(PluginError::Runtime("trap".to_string()));
    match fuel_outcome(failed, Some(0)) {
        Err(PluginError::Runtime(m)) => assert_eq!(m, "trap"),
        other => panic!("unexpected {other:?}"),
    }
    assert_eq!(CALL_FUEL_BUDGET, 100_000);
    assert_eq!(WASM_IMPORT_MODULE, "micyou");
}

#[test]
fn log_levels_from_wasm() {
    assert_eq!(PluginLogLevel::from_wasm_level(0), PluginLogLevel::Error);
    assert_eq!(PluginLogLevel::from_wasm_level(1), PluginLogLevel::Warn);
    assert_eq!(PluginLogLevel::from_wasm_level(2), PluginLogLevel::Info);
    assert_eq!(PluginLogLevel::from_wasm_level(3), PluginLogLevel::Debug);
    assert_eq!(PluginLogLevel::from_wasm_level(4), PluginLogLevel::Trace);
    assert_eq!(PluginLogLevel::from_wasm_level(-1), PluginLogLevel::Trace);
}

#[test]
fn c_string_written_then_read_back() {
    let mut mem = vec![0xAAu8; 64];
    write_c_str(&mut mem, 16, b"hello").unwrap();
    assert_eq!(&mem[16..22], b"hello\0");
    assert_eq!(mem[15], 0xAA);
    assert_eq!(mem[22], 0xAA);
    assert_eq!(read_c_str(&mem, 16).unwrap(), b"hello".to_vec());
    assert_eq!(read_c_string(&mem, 16).unwrap(), "hello");
    // pointer 0 is a valid address
    write_c_str(&mut mem, 0, b"{\"enabled\":true}").unwrap();
    assert_eq!(read_c_string(&mem, 0).unwrap(), "{\"enabled\":true}");
}

#[test]
fn c_string_edges() {
    let mem = vec![b'a', b'b', 0, b'c'];
    assert_eq!(read_c_str(&mem, -1).unwrap(), Vec::<u8>::new());
    assert_eq!(read_c_str(&mem, 2).unwrap(), Vec::<u8>::new());
    // no terminator before the end of memory
    assert_eq!(read_c_str(&mem, 3), Err(MemoryError::OutOfBounds));
    assert_eq!(read_c_str(&mem, 4), Err(MemoryError::OutOfBounds));
    // invalid UTF-8 is replaced
    let bad = vec![0xffu8, b'x', 0];
    assert_eq!(read_c_string(&bad, 0).unwrap(), "\u{fffd}x");
}

#[test]
fn c_string_that_does_not_fit() {
    let mut mem = vec![1u8; 8];
    assert_eq!(write_c_str(&mut mem, -4, b"ab"), Err(MemoryError::OutOfBounds));
    assert_eq!(mem, vec![1u8; 8]);
    assert_eq!(write_c_str(&mut mem, 7, b"ab"), Err(MemoryError::OutOfBounds));
    assert_eq!(mem, vec![1u8; 8]);
    // the text fits but its terminator does not: the text stays written
    assert_eq!(write_c_str(&mut mem, 6, b"ab"), Err(MemoryError::OutOfBounds));
    assert_eq!(mem, vec![1, 1, 1, 1, 1, 1, b'a', b'b']);
}

#[test]
fn raw_buffers() {
    let mut mem = vec![0u8; 8];
    write_at(&mut mem, 2, &[1, 2, 3]).unwrap();
    assert_eq!(mem, vec![0, 0, 1, 2, 3, 0, 0, 0]);
    assert_eq!(read_at(&mem, 2, 3).unwrap(), vec![1, 2, 3]);
    assert_eq!(read_at(&mem, 8, 0).unwrap(), Vec::<u8>::new());
    assert_eq!(read_at(&mem, 6, 3), Err(MemoryError::OutOfBounds));
    assert_eq!(read_at(&mem, -1, 1), Err(MemoryError::OutOfBounds));
    assert_eq!(write_at(&mut mem, 7, &[9, 9]), Err(MemoryError::OutOfBounds));
    assert_eq!(mem, vec![0, 0, 1, 2, 3, 0, 0, 0]);
    assert_eq!(read_payload(&mem, 2, 2).unwrap(), vec![1, 2]);
    assert_eq!(read_payload(&mem, -5, 2).unwrap(), Vec::<u8>::new());
    assert_eq!(read_payload(&mem, 2, 0).unwrap(), Vec::<u8>::new());
    assert_eq!(read_payload(&mem, 2, -3).unwrap(), Vec::<u8>::new());
    assert_eq!(read_payload(&mem, 6, 5), Err(MemoryError::OutOfBounds));
}

#[test]
fn error_codes_follow_the_wire_table() {
    let s = || "m".to_string();
    let cases = [
        (PluginError::NotFound(s()), 1),
        (PluginError::InvalidManifest(s()), 2),
        (PluginError::Validation(s()), 3),
        (PluginError::UnknownPlugin(s()), 4),
        (PluginError::NotLoaded(s()), 5),
        (PluginError::LoadFailed(s()), 6),
        (PluginError::ApiVersionMismatch { plugin: 2, host: 1 }, 7),
        (PluginError::PermissionDenied(s()), 8),
        (PluginError::AlreadyExists(s()), 9),
        (PluginError::Runtime(s()), 10),
        (PluginError::MessageDelivery(s()), 11),
        (PluginError::Io(s()), 12),
    ];
    for (e, code) in cases {
        assert_eq!(e.code(), code);
    }
}

#[test]
fn host_imports_require_their_capabilities() {
    let table = [
        ("get_config", Some("config.read")),
        ("set_config", Some("config.write")),
        ("emit_event", Some("event.emit")),
        ("send_message", Some("message.send")),
        ("audio_state", Some("audio.state")),
        ("play_sound", Some("audio.play")),
        ("connected_devices", Some("device.list")),
        ("log", None),
    ];
    for (import, cap) in table {
        assert_eq!(required_capability(import), cap);
    }
    assert!(permit_import(&granted(), "log").is_ok());
    assert!(permit_import(&Vec::new(), "log").is_ok());
    assert!(permit_import(&granted(), "get_config").is_ok());
    assert!(permit_import(&granted(), "emit_event").is_ok());
    match permit_import(&granted(), "set_config") {
        Err(PluginError::PermissionDenied(m)) => {
            assert_eq!(m, "plugin lacks capability config.write")
        }
        other => panic!("unexpected {other:?}"),
    }
    assert_eq!(permit_import(&granted(), "play_sound").unwrap_err().code(), 8);
}

fn func(name: &str, params: &[WasmValType], results: &[WasmValType]) -> ModuleExport {
    ModuleExport {
        name: name.to_string(),
        shape: ExportShape::Func { params: params.to_vec(), results: results.to_vec() },
    }
}

fn memory(name: &str) -> ModuleExport {
    ModuleExport { name: name.to_string(), shape: ExportShape::Memory }
}

fn complete_exports() -> Vec<ModuleExport> {
    vec![
        memory("memory"),
        func("alloc", &[I32], &[I32]),
        func("dealloc", &[I32, I32], &[]),
        func("init", &[], &[I32]),
    ]
}

fn load_failed(r: Result<(), PluginError>) -> String {
    match r {
        Err(PluginError::LoadFailed(m)) => m,
        other => panic!("unexpected {other:?}"),
    }
}

#[test]
fn module_with_memory_alloc_and_dealloc_loads() {
    assert!(check_required_exports(&complete_exports()).is_ok());
}

#[test]
fn module_without_memory_is_refused_first() {
    let mut exports = complete_exports();
    exports.remove(0);
    exports.remove(0);
    assert_eq!(load_failed(check_required_exports(&exports)), "module must export linear memory");
    // A function called `memory` is no linear memory.
    exports.push(func("memory", &[], &[]));
    assert_eq!(load_failed(check_required_exports(&exports)), "module must export linear memory");
    assert!(check_required_exports(&Vec::new()).is_err());
}

#[test]
fn alloc_must_have_its_signature() {
    let mut exports = complete_exports();
    exports[1] = func("alloc", &[I64], &[I32]);
    assert_eq!(
        load_failed(check_required_exports(&exports)),
        "missing alloc export: expected func (i32) -> i32"
    );
    exports[1] = memory("alloc");
    assert_eq!(
        load_failed(check_required_exports(&exports)),
        "missing alloc export: expected func (i32) -> i32"
    );
}

#[test]
fn dealloc_is_required_too() {
    let mut exports = complete_exports();
    exports.remove(2);
    let err = check_required_exports(&exports).unwrap_err();
    assert_eq!(err.code(), PluginError::LoadFailed(String::new()).code());
    assert_eq!(
        load_failed(Err(err)),
        "missing dealloc export: expected func (i32, i32) -> ()"
    );
    exports.push(func("dealloc", &[I32, I32], &[I32]));
    assert!(check_required_exports(&exports).is_err());
    exports.push(func("dealloc", &[I32, I32], &[]));
    assert!(check_required_exports(&exports).is_ok());
}

#[test]
fn optional_entry_points_need_the_exact_signature() {
    let mut exports = complete_exports();
    exports.push(func("process", &[I32, I32, I32, F64], &[I32]));
    exports.push(func("handle_event", &[I32, I32], &[I32]));
    assert!(optional_export(&exports, "init", &[], &[I32]));
    assert!(!optional_export(&exports, "init", &[], &[]));
    assert!(!optional_export(&exports, "deinit", &[], &[]));
    assert!(optional_export(&exports, "process", &[I32, I32, I32, F64], &[I32]));
    assert!(!optional_export(&exports, "process", &[I32, I32, I32, F32], &[I32]));
    assert!(!optional_export(&exports, "handle_event", &[I32], &[I32]));
    assert!(memory_export(&exports, "memory"));
    assert!(!memory_export(&exports, "alloc"));
}

#[test]
fn guest_json_is_parsed_or_refused() {
    let expected: serde_json::Value = serde_json::from_str("{\"gain\": 1.5, \"on\": true}").unwrap();
    assert_eq!(parse_config_value("{\"gain\": 1.5, \"on\": true}").unwrap(), expected);
    assert_eq!(parse_event_payload("[1, 2, 3]").unwrap(), serde_json::Value::from(vec![1, 2, 3]));
    assert_eq!(parse_event_payload("\"hi\"").unwrap(), serde_json::Value::from("hi"));
    let err = parse_config_value("{not json").unwrap_err();
    assert!(err.starts_with("invalid json config: "), "{err}");
    assert!(err.len() > "invalid json config: ".len());
    let err = parse_event_payload("").unwrap_err();
    assert!(err.starts_with("invalid json payload: "), "{err}");
}
