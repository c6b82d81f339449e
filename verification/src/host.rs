//! Host API vocabulary shared with plugins: log levels, device snapshots and
//! message targets.

use vstd::prelude::*;

verus! {

/// Log levels a plugin can emit through the host.
#[derive(Debug, Clone, Copy, PartialEq, Eq, Structural)]
pub enum PluginLogLevel {
    Error,
    Warn,
    Info,
    Debug,
    Trace,
}

impl PluginLogLevel {
    /// The level a WASM plugin passes to the `log` import as an integer:
    /// 0 error, 1 warn, 2 info, 3 debug, anything else trace.
    pub fn from_wasm_level(level: i32) -> (l: PluginLogLevel)
        ensures
            l == (if level == 0 {
                PluginLogLevel::Error
            } else if level == 1 {
                PluginLogLevel::Warn
            } else if level == 2 {
                PluginLogLevel::Info
            } else if level == 3 {
                PluginLogLevel::Debug
            } else {
                PluginLogLevel::Trace
            }),
    {
        match level {
            0 => PluginLogLevel::Error,
            1 => PluginLogLevel::Warn,
            2 => PluginLogLevel::Info,
            3 => PluginLogLevel::Debug,
            _ => PluginLogLevel::Trace,
        }
    }
}

/// Snapshot of a connected device (phone / web client).
#[derive(Debug, Clone)]
pub struct DeviceSnapshot {
    /// Connection mode: wifi | usb | web.
    pub mode: String,
    /// Peer address / device label.
    pub label: String,
    /// Whether the device audio session is active.
    pub audio_active: bool,
}

/// Target of a cross-device plugin message.
#[derive(Debug, Clone)]
pub enum MessageTarget {
    /// A plugin on the same host.
    Local { plugin_id: String },
    /// A plugin on the connected remote device.
    Remote { plugin_id: String },
    /// Broadcast to all hosts (local + remote) subscribed to the topic.
    Broadcast,
}

} // verus!
