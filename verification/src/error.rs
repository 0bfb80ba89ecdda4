//! Errors of the driver.

use vstd::prelude::*;

verus! {

#[verifier::external_type_specification]
#[verifier::external_body]
pub struct ExIoError(std::io::Error);

/// Why an operation on the device failed.
#[derive(Debug)]
pub enum DriverError {
    /// The kernel module is not loaded (the device node is absent or not
    /// accessible).
    KmodNotLoaded,
    /// The device went away.
    Disconnected,
    /// The USB control transfer failed with this errno.
    Transfer(i32),
    /// A channel index out of range (max is the largest valid index).
    ChannelIndex { idx: u8, max: u8 },
    /// The device answered a level read with fewer than the two bytes of a
    /// level; the number of bytes it answered.
    ShortReply(usize),
    /// Another I/O error while opening the device.
    Io(std::io::Error),
}

} // verus!
