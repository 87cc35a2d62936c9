//! Driver core for the RGB backlight of a USB HID keyboard.
//!
//! The device is programmed by 8-byte vendor-defined packets pushed over a
//! USB control channel. This crate holds the verified core: the data model
//! (colors, illumination styles, animation speeds, brightness levels), the
//! packet encoder, the device-selection rule, the fixed control-transfer
//! envelope, and the controller that plans the exact sequence of control
//! transfers. The USB transport itself is left to an unverified shell that
//! performs each transfer the plan calls for.

pub mod model;

pub mod packets;

pub mod locator;

pub mod controller;

pub mod dispatcher;

