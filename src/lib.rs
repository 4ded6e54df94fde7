//! Safe handles over the libao audio-output library.
//!
//! The verified part of this crate holds every decision that the binding
//! makes: how native error codes become typed errors, how a sample format is
//! laid out for the native layer, how an option list is built, when a driver
//! lookup or a device open counts as a success, and when the native close and
//! shutdown calls are owed. The native calls themselves are made by the
//! program around the library, which hands the library their plain results.

pub mod cstr;
pub mod device;
pub mod driver;
pub mod error;
pub mod format;
pub mod settings;
pub mod subsystem;

pub use device::{Device, OpenRequest};
pub use driver::Driver;
pub use error::Error;
pub use format::{AoFormat, ByteFormat, Format};
pub use settings::Settings;
pub use subsystem::{Ao, SubsystemCall};
