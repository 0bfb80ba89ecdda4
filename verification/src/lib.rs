//! Control library for the Audient EVO 8 USB audio interface.
//!
//! The modules follow the layers of the device protocol: wire constants and
//! codecs, the device description, the transfers that each operation sends,
//! the persisted device state, and the text of the command-line front end.

pub mod codec;
pub mod controls;
pub mod device;
pub mod entities;
pub mod error;
pub mod transfer;
pub mod status;
pub mod driver;
pub mod state;
pub mod text;
pub mod probe;
pub mod command;
pub mod paths;
pub mod install;
pub mod presets;
pub mod worker;
