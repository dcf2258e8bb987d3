//! Fixed parameters of the bridge.

use vstd::prelude::*;

verus! {

/// Bluetooth SIG company identifier of the sensor vendor whose broadcasts are forwarded.
pub const TARGET_COMPANY_ID: u16 = 0x0157;

/// Offset of the heart-rate byte inside a manufacturer payload.
pub const HEART_RATE_DATA_INDEX: usize = 3;

/// Address path of the heart-rate message; it carries one single-precision argument.
pub const OSC_HEART_RATE_PATH: &'static str = "/avatar/parameters/hr_percent";

/// Address path of the connection-status message; it carries one boolean argument.
pub const OSC_CONNECTION_STATUS_PATH: &'static str = "/avatar/parameters/hr_connected";

/// Where the datagrams are sent unless the deployment says otherwise.
pub const OSC_TARGET_ADDRESS: &'static str = "127.0.0.1:9000";

/// Name recorded for a device whose name cannot be resolved.
pub const UNKNOWN_DEVICE_NAME: &'static str = "(未知设备)";

} // verus!
