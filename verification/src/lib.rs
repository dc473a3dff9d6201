//! Typed encoder/decoder for the ASCII serial command protocol of a
//! barcode-scanning device.
//!
//! Each device setting is a small strongly-typed value that renders to the
//! exact ASCII fragment the device expects and parses back from a received
//! fragment.  Settings are grouped into modifier commands with a fixed prefix
//! and a fixed field emission order, and a top-level command type combines one
//! command alternative with an optional query suffix.

pub mod command;
pub mod result;
pub mod text;
