//! File contents of newly created plugin directories.

use vstd::prelude::*;

verus! {

/// Manifest of a new WASM plugin; its id and name are filled in on creation.
pub const WASM_PLUGIN_JSON: &'static str = r#"{
  "id": "dev.micyou.example.myplugin",
  "name": "My Plugin",
  "version": "1.0.0",
  "author": "you@example.com",
  "description": "A WASM plugin scaffold",
  "license": "MIT",
  "homepage": "https://example.com",
  "keywords": ["wasm"],
  "runtime": "wasm",
  "entry": "main.wasm",
  "platforms": ["linux", "windows", "macos"],
  "arches": [],
  "apiVersion": 1,
  "minHostVersion": "1.0.0",
  "capabilities": ["config.read", "config.write"],
  "kind": "utility",
  "config": {}
}
"#;

/// WebAssembly text of a new WASM plugin.
pub const WASM_TEMPLATE_WAT: &'static str = r#";; MicYou WASM plugin template
;; Build: micyou plugin package <dir> (or compile with wat2wasm)
(module
  (import "micyou" "log" (func $log (param i32 i32)))
  (import "micyou" "get_config" (func $get_config (param i32) (result i32)))
  (import "micyou" "set_config" (func $set_config (param i32 i32) (result i32)))
  (memory (export "memory") 4)
  ;; bump allocator (heap starts after statics)
  (global $heap (mut i32) (i32.const 0x2000))
  (func (export "alloc") (param $n i32) (result i32)
    (local $p i32)
    (local.set $p (global.get $heap))
    (global.set $heap (i32.add (global.get $heap) (local.get $n)))
    (i32.store (local.get $p) (local.get $n))
    (i32.add (local.get $p) (i32.const 4)))
  (func (export "dealloc") (param $p i32) (param $n i32))
  (func (export "api_version") (result i32) (i32.const 1))
  (func (export "init") (result i32)
    (i32.store (i32.const 0) (i32.const 0))
    (i32.const 0))
  (func (export "process") (param $data i32) (param $samples i32) (param $channels i32) (param $queued f64) (result i32)
    (i32.const 0))
  (func (export "handle_message") (param $ptr i32) (param $len i32) (result i32)
    (i32.const 0))
  (func (export "deinit"))
)
"#;

/// UI panel of a new WASM plugin.
pub const WASM_PANEL_HTML: &'static str = r#"<!DOCTYPE html>
<html lang="zh">
<head><meta charset="utf-8"><title>插件面板</title>
<style>
  body { font-family: system-ui, sans-serif; background: hsl(var(--surface)); color: hsl(var(--on-surface)); padding: 20px; }
  .card { background: hsl(var(--surface-bright)); border: 1px solid hsl(var(--border)); border-radius: 1rem; padding: 16px; }
  h2 { color: hsl(var(--primary)); margin: 0 0 12px; }
</style>
</head>
<body>
<div class="card"><h2>插件面板</h2><p>在此编写你的插件 UI，通过 postMessage 桥调用宿主 API</p></div>
<script>
function call(api, args) {
  return new Promise((resolve, reject) => {
    const id = Math.random().toString(36).slice(2);
    const on = (e) => { if (e.data && e.data.__micyou === 1 && e.data.id === id) {
      window.removeEventListener('message', on);
      e.data.ok ? resolve(e.data.value) : reject(new Error(e.data.error));
    } };
    window.addEventListener('message', on);
    window.parent.postMessage({ __micyou: 1, id, api, args: args || {} }, '*');
  });
}
call('get_config', {}).then((cfg) => console.log('config', cfg)).catch(console.error);
</script>
</body>
</html>
"#;

/// Manifest of a new native plugin; its id, name and library file are filled in on creation.
pub const NATIVE_PLUGIN_JSON: &'static str = r#"{
  "id": "dev.micyou.example.mynative",
  "name": "My Native Plugin",
  "version": "1.0.0",
  "author": "you@example.com",
  "description": "A native cdylib plugin scaffold",
  "license": "MIT",
  "runtime": "native",
  "entry": "libmicyou_example_mynative.so",
  "platforms": ["linux", "windows", "macos"],
  "arches": ["x86_64", "aarch64"],
  "apiVersion": 1,
  "minHostVersion": "1.0.0",
  "capabilities": ["config.read", "config.write"],
  "kind": "utility",
  "config": {}
}
"#;

/// Rust source of a new native plugin; its id is filled in on creation.
pub const NATIVE_TEMPLATE_LIB: &'static str = r#"//! MicYou native plugin template (cdylib).
//! Copy include/micyou_plugin_abi.h into your crate or match these structs.

#[repr(C)]
#[derive(Debug, Clone, Copy, PartialEq, Eq)]
#[allow(non_camel_case_types)]
pub enum mpl_result_t {
    MPL_OK = 0,
    MPL_ERR_NOT_IMPLEMENTED = 1,
    MPL_ERR_INVALID_ARG = 2,
    MPL_ERR_RUNTIME = 3,
    MPL_ERR_BUFFER_TOO_SMALL = 4,
    MPL_ERR_PERMISSION = 5,
}

#[repr(C)]
pub struct mpl_plugin_info_t {
    pub abi_version: u32,
    pub id: *const std::ffi::c_char,
    pub name: *const std::ffi::c_char,
    pub version: *const std::ffi::c_char,
}

#[repr(C)]
pub struct mpl_host_api_t {
    pub ctx: *mut std::ffi::c_void,
    pub log: unsafe extern "C" fn(*mut std::ffi::c_void, i32, *const std::ffi::c_char) -> mpl_result_t,
    pub get_config: unsafe extern "C" fn(*mut std::ffi::c_void, *const std::ffi::c_char, *mut std::ffi::c_char, *mut u32) -> mpl_result_t,
    pub set_config: unsafe extern "C" fn(*mut std::ffi::c_void, *const std::ffi::c_char, *const std::ffi::c_char) -> mpl_result_t,
    pub emit_event: unsafe extern "C" fn(*mut std::ffi::c_void, *const std::ffi::c_char, *const std::ffi::c_char) -> mpl_result_t,
    pub send_message: unsafe extern "C" fn(*mut std::ffi::c_void, *const std::ffi::c_char, *const u8, u32) -> mpl_result_t,
    pub audio_state: unsafe extern "C" fn(*mut std::ffi::c_void, *mut std::ffi::c_char, *mut u32) -> mpl_result_t,
    pub connected_devices: unsafe extern "C" fn(*mut std::ffi::c_void, *mut std::ffi::c_char, *mut u32) -> mpl_result_t,
    pub play_sound: unsafe extern "C" fn(*mut std::ffi::c_void, *const std::ffi::c_char) -> mpl_result_t,
    pub plugin_dir: unsafe extern "C" fn(*mut std::ffi::c_void, *mut std::ffi::c_char, *mut u32) -> mpl_result_t,
    pub register_hotkey: unsafe extern "C" fn(*mut std::ffi::c_void, *const std::ffi::c_char, *mut u64) -> mpl_result_t,
    pub open_window: unsafe extern "C" fn(*mut std::ffi::c_void, *const std::ffi::c_char) -> mpl_result_t,
}

const ID: &str = "dev.micyou.example.mynative";

#[no_mangle]
pub extern "C" fn micyou_plugin_info() -> *const mpl_plugin_info_t {
    static INFO: mpl_plugin_info_t = mpl_plugin_info_t {
        abi_version: 1,
        id: b"dev.micyou.example.mynative\0".as_ptr() as *const std::ffi::c_char,
        name: b"My Native Plugin\0".as_ptr() as *const std::ffi::c_char,
        version: b"1.0.0\0".as_ptr() as *const std::ffi::c_char,
    };
    &INFO
}

#[no_mangle]
pub extern "C" fn micyou_plugin_init(host: *const mpl_host_api_t) -> mpl_result_t {
    unsafe {
        let host = &*host;
        let msg = std::ffi::CString::new(format!("{ID} initialized")).unwrap();
        ((*host).log)(host.ctx, 2, msg.as_ptr());
    }
    mpl_result_t::MPL_OK
}

#[no_mangle]
pub extern "C" fn micyou_plugin_deinit() {}

#[no_mangle]
pub extern "C" fn micyou_plugin_process(
    data: *mut f32,
    samples: u32,
    channels: u32,
    queued_ms: f64,
) -> mpl_result_t {
    unsafe {
        // TODO: real-time-safe DSP here. Never call host APIs from process().
        let _ = (data, samples, channels, queued_ms);
    }
    mpl_result_t::MPL_OK
}

#[no_mangle]
pub extern "C" fn micyou_plugin_handle_message(
    source: *const std::ffi::c_char,
    topic: *const std::ffi::c_char,
    payload: *const u8,
    payload_len: u32,
) -> mpl_result_t {
    let _ = (source, topic, payload, payload_len);
    mpl_result_t::MPL_OK
}
"#;

/// Cargo manifest of a new native plugin.
pub const NATIVE_CARGO: &'static str = r#"[package]
name = "micyou-example-mynative"
version = "1.0.0"
edition = "2021"

[lib]
crate-type = ["cdylib"]
"#;

/// README of a new WASM plugin.
pub const WASM_README: &'static str = r#"# 插件骨架

## 构建入口
`main.wat` 编译为 `main.wasm`（wat2wasm 或 wat crate），产物放回本目录

## 安装
- 开发：把本目录放入 ~/.config/micyou/plugins/<id>/
- 分发：`micyou plugin package .` 打包 zip 后在应用内导入

## 面板
panel.html 通过 postMessage 桥调用宿主 API（get_config/set_config/trigger 等）

## 能力
在 plugin.json 的 capabilities 中声明所需能力（config.read/config.write/dsp.node/...）
"#;

/// README of a new native plugin.
pub const NATIVE_README: &'static str = r#"# Native 插件骨架

## 构建
`cargo build --release`，产物 target/release/lib*.so 复制到插件目录并改名与
plugin.json 的 entry 一致

## 说明
native 插件拥有宿主完整权限，用于实时 DSP、硬件与深度系统集成；
普通逻辑/UI 优先使用 wasm 插件（沙箱安全）

## 能力
按需声明 capabilities；process() 内禁止调用宿主 API（实时安全）
"#;

} // verus!
