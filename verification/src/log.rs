//! Logging support.

pub mod embed;

pub mod usb;
