//! Default values of the driver's configuration options.
//!
//! The configuration file itself — a JSON object with the firmware image
//! path, the serial port identifier and the baud rate — is read and written
//! by the surrounding driver; only the defaults are fixed here.

use vstd::prelude::*;

verus! {

/// Default location of the firmware image.
pub fn default_update_path() -> (s: String)
    ensures
        s@ == "app.upd"@,
{
    "app.upd".to_owned()
}

/// Default serial port identifier.
pub fn default_update_serialport() -> (s: String)
    ensures
        s@ == "/dev/ttyUSB0"@,
{
    "/dev/ttyUSB0".to_owned()
}

/// Default baud rate of the serial link.
pub fn default_update_baud_rate() -> (r: u32)
    ensures
        r == 115200,
{
    115200
}

} // verus!
