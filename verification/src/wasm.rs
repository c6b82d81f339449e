//! Decisions of the WASM plugin runtime: capability gating of host imports,
//! API version admission, plugin result codes and fuel accounting.

use vstd::prelude::*;
use crate::error::{error_code, ErrorView, PluginError, PluginResult};
use crate::manifest::{capabilities, HOST_API_VERSION};
use crate::text::{decimal_i64, signed_decimal, str_eq};

verus! {

/// Fuel granted to a plugin call before the engine traps it.
pub const CALL_FUEL_BUDGET: u64 = 100_000;

/// Module name under which a WASM plugin imports the host functions.
pub const WASM_IMPORT_MODULE: &'static str = "micyou";

/// Outcome of a DSP `process` call.
#[derive(Debug, Clone, Copy, PartialEq, Eq, Structural)]
pub enum ProcessStatus {
    /// The plugin processed the buffer.
    Processed,
    /// The plugin left the buffer alone.
    Bypass,
}

/// Whether `granted` holds capability `cap`.
pub open spec fn grants(granted: Seq<String>, cap: Seq<char>) -> bool {
    exists|i: int| 0 <= i < granted.len() && (#[trigger] granted[i])@ == cap
}

/// Admits a host import only when the plugin was granted `capability`;
/// otherwise the call is denied with `PermissionDenied` (wire code 8).
pub fn require_capability(granted: &Vec<String>, capability: &str) -> (r: PluginResult<()>)
    ensures
        r is Ok <==> grants(granted@, capability@),
        r matches Err(e) ==> e@ == ErrorView::PermissionDenied(
            "plugin lacks capability "@ + capability@,
        ) && error_code(e@) == 8,
{
    let n = granted.len();
    let mut i: usize = 0;
    while i < n
        invariant
            n == granted@.len(),
            i <= n,
            forall|j: int| 0 <= j < i ==> (#[trigger] granted@[j])@ != capability@,
        decreases n - i,
    {
        if str_eq(granted[i].as_str(), capability) {
            return Ok(());
        }
        i += 1;
    }
    let mut msg = String::from_str("plugin lacks capability ");
    msg.append(capability);
    Err(PluginError::PermissionDenied(msg))
}

/// The capability a host import of the `micyou` module requires: `get_config`
/// config.read, `set_config` config.write, `emit_event` event.emit,
/// `send_message` message.send, `audio_state` audio.state, `play_sound`
/// audio.play, `connected_devices` device.list; `log` (and any other name)
/// requires none.
pub open spec fn import_capability(import: Seq<char>) -> Option<Seq<char>> {
    if import == "get_config"@ {
        Some(capabilities::CONFIG_READ@)
    } else if import == "set_config"@ {
        Some(capabilities::CONFIG_WRITE@)
    } else if import == "emit_event"@ {
        Some(capabilities::EVENT_EMIT@)
    } else if import == "send_message"@ {
        Some(capabilities::MESSAGE_SEND@)
    } else if import == "audio_state"@ {
        Some(capabilities::AUDIO_STATE@)
    } else if import == "play_sound"@ {
        Some(capabilities::AUDIO_PLAY@)
    } else if import == "connected_devices"@ {
        Some(capabilities::DEVICE_LIST@)
    } else {
        None
    }
}

/// The capability that host import `import` requires (see
/// [`import_capability`]).
pub fn required_capability(import: &str) -> (r: Option<&'static str>)
    ensures
        match r {
            Some(c) => import_capability(import@) == Some(c@),
            None => import_capability(import@) is None,
        },
{
    if str_eq(import, "get_config") {
        Some(capabilities::CONFIG_READ)
    } else if str_eq(import, "set_config") {
        Some(capabilities::CONFIG_WRITE)
    } else if str_eq(import, "emit_event") {
        Some(capabilities::EVENT_EMIT)
    } else if str_eq(import, "send_message") {
        Some(capabilities::MESSAGE_SEND)
    } else if str_eq(import, "audio_state") {
        Some(capabilities::AUDIO_STATE)
    } else if str_eq(import, "play_sound") {
        Some(capabilities::AUDIO_PLAY)
    } else if str_eq(import, "connected_devices") {
        Some(capabilities::DEVICE_LIST)
    } else {
        None
    }
}

/// Admits a call of host import `import` by a plugin granted `granted`: an
/// import that requires no capability is always admitted; one that requires a
/// capability is admitted exactly when it was granted, and otherwise denied
/// with `PermissionDenied` (wire code 8).
pub fn permit_import(granted: &Vec<String>, import: &str) -> (r: PluginResult<()>)
    ensures
        match import_capability(import@) {
            None => r is Ok,
            Some(c) => ((r is Ok) <==> grants(granted@, c)) && (r matches Err(e) ==> e@
                == ErrorView::PermissionDenied("plugin lacks capability "@ + c) && error_code(
                e@,
            ) == 8),
        },
{
    match required_capability(import) {
        Some(c) => require_capability(granted, c),
        None => Ok(()),
    }
}

/// Refuses a plugin built against another host API version.
pub fn check_api_version(api_version: u32) -> (r: PluginResult<()>)
    ensures
        api_version == HOST_API_VERSION <==> (r is Ok),
        r matches Err(e) ==> e@ == (ErrorView::ApiVersionMismatch {
            plugin: api_version,
            host: HOST_API_VERSION,
        }),
{
    if api_version != HOST_API_VERSION {
        return Err(PluginError::ApiVersionMismatch { plugin: api_version, host: HOST_API_VERSION });
    }
    Ok(())
}

/// The message of a non-zero plugin result code.
pub open spec fn code_message(context: Seq<char>, code: i32) -> Seq<char> {
    context + ": plugin returned "@ + signed_decimal(code as int)
}

/// Maps a plugin entry point's result code: 0 is success, anything else a
/// runtime error naming the entry point and the code.
pub fn result_from_wasm_code(code: i32, context: &str) -> (r: PluginResult<()>)
    ensures
        (r is Ok) <==> code == 0,
        r matches Err(e) ==> e@ == ErrorView::Runtime(code_message(context@, code)),
{
    if code == 0 {
        Ok(())
    } else {
        let mut msg = context.to_owned();
        msg.append(": plugin returned ");
        let digits = decimal_i64(code as i64);
        msg.append(digits.as_str());
        Err(PluginError::Runtime(msg))
    }
}

/// Maps the result code of the DSP `process` entry point: 1 means bypass,
/// 0 means processed, anything else is a runtime error.
pub fn process_status_from_code(code: i32) -> (r: PluginResult<ProcessStatus>)
    ensures
        code == 1 ==> r == Ok::<ProcessStatus, PluginError>(ProcessStatus::Bypass),
        code == 0 ==> r == Ok::<ProcessStatus, PluginError>(ProcessStatus::Processed),
        code != 0 && code != 1 ==> (r matches Err(e) && e@ == ErrorView::Runtime(
            code_message("process"@, code),
        )),
{
    if code == 1 {
        Ok(ProcessStatus::Bypass)
    } else {
        match result_from_wasm_code(code, "process") {
            Ok(()) => Ok(ProcessStatus::Processed),
            Err(e) => Err(e),
        }
    }
}

/// The message of a call that used up its whole fuel budget.
pub open spec fn fuel_exhausted_message() -> Seq<char> {
    "wasm fuel exhausted (plugin consumed its execution budget)"@
}

/// Settles a fuel-metered call: a successful call that left no fuel at all
/// (`remaining == Some(0)`) counts as exhausted; otherwise the call's own
/// result stands (`None`: the remaining fuel could not be read).
pub fn fuel_outcome<T>(result: PluginResult<T>, remaining: Option<u64>) -> (r: PluginResult<T>)
    ensures
        (result is Ok && remaining == Some(0u64)) ==> (r matches Err(e) && e@
            == ErrorView::Runtime(fuel_exhausted_message())),
        !(result is Ok && remaining == Some(0u64)) ==> r == result,
{
    match (&result, remaining) {
        (Ok(_), Some(0)) => Err(
            PluginError::Runtime(
                String::from_str("wasm fuel exhausted (plugin consumed its execution budget)"),
            ),
        ),
        _ => result,
    }
}

/// A WebAssembly value type, as far as the loader tells types apart.
#[derive(Debug, Clone, Copy, PartialEq, Eq, Structural)]
pub enum WasmValType {
    I32,
    I64,
    F32,
    F64,
    /// Any other type (vectors, references).
    Other,
}

/// What kind of item a module exports, with a function's signature.
#[derive(Debug, Clone)]
pub enum ExportShape {
    Memory,
    Func { params: Vec<WasmValType>, results: Vec<WasmValType> },
    /// Globals and tables.
    Other,
}

/// One export of a WebAssembly module.
#[derive(Debug, Clone)]
pub struct ModuleExport {
    pub name: String,
    pub shape: ExportShape,
}

/// Whether `shape` is a function with exactly these parameter and result
/// types.
pub open spec fn is_func_shape(shape: ExportShape, params: Seq<WasmValType>, results: Seq<WasmValType>) -> bool {
    match shape {
        ExportShape::Func { params: p, results: q } => p@ == params && q@ == results,
        _ => false,
    }
}

/// Whether the module exports a linear memory named `name`.
pub open spec fn has_memory(exports: Seq<ModuleExport>, name: Seq<char>) -> bool {
    exists|i: int|
        0 <= i < exports.len() && (#[trigger] exports[i]).name@ == name && exports[i].shape is Memory
}

/// Whether the module exports a function named `name` with exactly this
/// signature.
pub open spec fn has_func(
    exports: Seq<ModuleExport>,
    name: Seq<char>,
    params: Seq<WasmValType>,
    results: Seq<WasmValType>,
) -> bool {
    exists|i: int|
        0 <= i < exports.len() && (#[trigger] exports[i]).name@ == name && is_func_shape(
            exports[i].shape,
            params,
            results,
        )
}

fn same_types(a: &Vec<WasmValType>, b: &[WasmValType]) -> (r: bool)
    ensures
        r == (a@ == b@),
{
    if a.len() != b.len() {
        return false;
    }
    let n = a.len();
    let mut i: usize = 0;
    while i < n
        invariant
            n == a@.len(),
            n == b@.len(),
            i <= n,
            forall|j: int| 0 <= j < i ==> a@[j] == b@[j],
        decreases n - i,
    {
        if a[i] != b[i] {
            return false;
        }
        i += 1;
    }
    assert(a@ =~= b@);
    true
}

/// Whether the module exports a function `name` of exactly this signature;
/// the loader binds an optional entry point (`init`, `deinit`, `process`,
/// `handle_event`, `handle_message`) only then.
pub fn optional_export(
    exports: &Vec<ModuleExport>,
    name: &str,
    params: &[WasmValType],
    results: &[WasmValType],
) -> (b: bool)
    ensures
        b == has_func(exports@, name@, params@, results@),
{
    let n = exports.len();
    let mut i: usize = 0;
    while i < n
        invariant
            n == exports@.len(),
            i <= n,
            forall|j: int|
                0 <= j < i ==> !((#[trigger] exports@[j]).name@ == name@ && is_func_shape(
                    exports@[j].shape,
                    params@,
                    results@,
                )),
        decreases n - i,
    {
        let e = &exports[i];
        if str_eq(e.name.as_str(), name) {
            match &e.shape {
                ExportShape::Func { params: p, results: q } => {
                    if same_types(p, params) && same_types(q, results) {
                        return true;
                    }
                },
                _ => {},
            }
        }
        i += 1;
    }
    false
}

/// Whether the module exports a linear memory named `name`.
pub fn memory_export(exports: &Vec<ModuleExport>, name: &str) -> (b: bool)
    ensures
        b == has_memory(exports@, name@),
{
    let n = exports.len();
    let mut i: usize = 0;
    while i < n
        invariant
            n == exports@.len(),
            i <= n,
            forall|j: int|
                0 <= j < i ==> !((#[trigger] exports@[j]).name@ == name@ && exports@[j].shape is Memory),
        decreases n - i,
    {
        let e = &exports[i];
        if str_eq(e.name.as_str(), name) {
            match &e.shape {
                ExportShape::Memory => {
                    return true;
                },
                _ => {},
            }
        }
        i += 1;
    }
    false
}

/// The loader's refusal of a module that lacks a required export, checked in
/// the order memory, alloc, dealloc.
pub open spec fn missing_export_error(exports: Seq<ModuleExport>) -> Option<ErrorView> {
    if !has_memory(exports, "memory"@) {
        Some(ErrorView::LoadFailed("module must export linear memory"@))
    } else if !has_func(exports, "alloc"@, seq![WasmValType::I32], seq![WasmValType::I32]) {
        Some(ErrorView::LoadFailed("missing alloc export: expected func (i32) -> i32"@))
    } else if !has_func(
        exports,
        "dealloc"@,
        seq![WasmValType::I32, WasmValType::I32],
        Seq::empty(),
    ) {
        Some(ErrorView::LoadFailed("missing dealloc export: expected func (i32, i32) -> ()"@))
    } else {
        None
    }
}

/// Every WASM plugin must export its linear memory as `memory`, an allocator
/// `alloc: (i32) -> i32` and `dealloc: (i32, i32) -> ()`; a module lacking one
/// is refused with `LoadFailed` naming the first missing item.
pub fn check_required_exports(exports: &Vec<ModuleExport>) -> (r: PluginResult<()>)
    ensures
        (r is Ok) <==> (has_memory(exports@, "memory"@) && has_func(
            exports@,
            "alloc"@,
            seq![WasmValType::I32],
            seq![WasmValType::I32],
        ) && has_func(exports@, "dealloc"@, seq![WasmValType::I32, WasmValType::I32], Seq::empty())),
        match r {
            Ok(_) => missing_export_error(exports@) is None,
            Err(e) => missing_export_error(exports@) == Some(e@),
        },
{
    if !memory_export(exports, "memory") {
        return Err(PluginError::LoadFailed(String::from_str("module must export linear memory")));
    }
    let one: [WasmValType; 1] = [WasmValType::I32];
    let two: [WasmValType; 2] = [WasmValType::I32, WasmValType::I32];
    let none: [WasmValType; 0] = [];
    assert(one@ =~= seq![WasmValType::I32]);
    assert(two@ =~= seq![WasmValType::I32, WasmValType::I32]);
    assert(none@ =~= Seq::<WasmValType>::empty());
    if !optional_export(exports, "alloc", &one, &one) {
        return Err(
            PluginError::LoadFailed(
                String::from_str("missing alloc export: expected func (i32) -> i32"),
            ),
        );
    }
    if !optional_export(exports, "dealloc", &two, &none) {
        return Err(
            PluginError::LoadFailed(
                String::from_str("missing dealloc export: expected func (i32, i32) -> ()"),
            ),
        );
    }
    Ok(())
}

/// What `serde_json::from_str::<serde_json::Value>` makes of `text`: the
/// parsed value, or the text of the parse error.
pub uninterp spec fn json_parse(text: Seq<char>) -> Result<serde_json::Value, Seq<char>>;

/// Parses `text` with `serde_json::from_str` into a `serde_json::Value`. The
/// contract names the outcome [`json_parse`] of the text; the JSON grammar is
/// not restated.
#[verifier::external_body]
fn parse_json(text: &str) -> (r: Result<serde_json::Value, String>)
    ensures
        json_parse(text@) == (match r {
            Ok(v) => Ok::<serde_json::Value, Seq<char>>(v),
            Err(m) => Err::<serde_json::Value, Seq<char>>(m@),
        }),
{
    match serde_json::from_str::<serde_json::Value>(text) {
        Ok(v) => Ok(v),
        Err(e) => Err(e.to_string()),
    }
}

/// The JSON value a plugin passes as text to a host import, or the refusal
/// `<what>: <parse error>`.
pub open spec fn guest_json(text: Seq<char>, what: Seq<char>) -> Result<serde_json::Value, Seq<char>> {
    match json_parse(text) {
        Ok(v) => Ok(v),
        Err(m) => Err(what + ": "@ + m),
    }
}

fn parse_guest_json(text: &str, what: &str) -> (r: Result<serde_json::Value, String>)
    ensures
        guest_json(text@, what@) == (match r {
            Ok(v) => Ok::<serde_json::Value, Seq<char>>(v),
            Err(m) => Err::<serde_json::Value, Seq<char>>(m@),
        }),
{
    match parse_json(text) {
        Ok(v) => Ok(v),
        Err(m) => {
            let mut msg = what.to_owned();
            msg.append(": ");
            msg.append(m.as_str());
            Err(msg)
        },
    }
}

/// The configuration value a plugin hands to `set_config` as JSON text; a
/// parse failure is refused as `invalid json config: <error>`.
pub fn parse_config_value(text: &str) -> (r: Result<serde_json::Value, String>)
    ensures
        guest_json(text@, "invalid json config"@) == (match r {
            Ok(v) => Ok::<serde_json::Value, Seq<char>>(v),
            Err(m) => Err::<serde_json::Value, Seq<char>>(m@),
        }),
{
    parse_guest_json(text, "invalid json config")
}

/// The event payload a plugin hands to `emit_event` as JSON text; a parse
/// failure is refused as `invalid json payload: <error>`.
pub fn parse_event_payload(text: &str) -> (r: Result<serde_json::Value, String>)
    ensures
        guest_json(text@, "invalid json payload"@) == (match r {
            Ok(v) => Ok::<serde_json::Value, Seq<char>>(v),
            Err(m) => Err::<serde_json::Value, Seq<char>>(m@),
        }),
{
    parse_guest_json(text, "invalid json payload")
}

} // verus!
