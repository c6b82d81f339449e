//! Capability identifiers the host understands. Plugins declare the
//! capabilities they need; the host grants them after policy checks.

use vstd::prelude::*;
use crate::text::str_eq;

verus! {

/// Insert a processing node into the real-time DSP chain.
pub const DSP_NODE: &'static str = "dsp.node";
/// Read host configuration.
pub const CONFIG_READ: &'static str = "config.read";
/// Write host configuration.
pub const CONFIG_WRITE: &'static str = "config.write";
/// Emit events on the plugin bus.
pub const EVENT_EMIT: &'static str = "event.emit";
/// Send messages to other plugins or to a remote device plugin.
pub const MESSAGE_SEND: &'static str = "message.send";
/// Query live audio stream state.
pub const AUDIO_STATE: &'static str = "audio.state";
/// Play an audio file (wav) through the host output device.
pub const AUDIO_PLAY: &'static str = "audio.play";
/// Enumerate connected devices.
pub const DEVICE_LIST: &'static str = "device.list";
/// Open outbound network connections.
pub const NETWORK_IO: &'static str = "network.io";
/// Read plugin-local files.
pub const FS_READ: &'static str = "fs.read";

/// Whether `c` is one of the capability identifiers the host recognizes.
pub open spec fn is_known(c: Seq<char>) -> bool {
    ||| c == DSP_NODE@
    ||| c == CONFIG_READ@
    ||| c == CONFIG_WRITE@
    ||| c == EVENT_EMIT@
    ||| c == MESSAGE_SEND@
    ||| c == AUDIO_STATE@
    ||| c == AUDIO_PLAY@
    ||| c == DEVICE_LIST@
    ||| c == NETWORK_IO@
    ||| c == FS_READ@
}

/// Whether the host recognizes capability `c`.
pub fn is_known_capability(c: &str) -> (r: bool)
    ensures
        r == is_known(c@),
{
    str_eq(c, DSP_NODE) || str_eq(c, CONFIG_READ) || str_eq(c, CONFIG_WRITE) || str_eq(
        c,
        EVENT_EMIT,
    ) || str_eq(c, MESSAGE_SEND) || str_eq(c, AUDIO_STATE) || str_eq(c, AUDIO_PLAY) || str_eq(
        c,
        DEVICE_LIST,
    ) || str_eq(c, NETWORK_IO) || str_eq(c, FS_READ)
}

} // verus!
