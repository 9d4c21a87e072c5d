//! Control library for the embedded controller of Razer Blade laptops,
//! spoken to over vendor-specific USB HID feature reports.
//!
//! The library is organised in layers, leaves first: a static registry of
//! supported models and their capabilities, a fixed-size binary packet codec
//! with checksum and request/response correlation, a device-session layer
//! that selects among candidate HID interfaces and drives the retrying
//! request/response exchange, and a typed command layer on top. The caller
//! owns the HID transport itself and hands frames back and forth as plain
//! byte vectors.

pub mod command;
pub mod descriptor;
pub mod device;
pub mod error;
pub mod exchange;
pub mod feature;
pub mod packet;
pub mod state;
pub mod text;
pub mod types;
