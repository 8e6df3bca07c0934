//! A firmware-facing constant library for a keyboard controller: the USB HID
//! keyboard usage-ID space, and a fixed physical key matrix that maps each
//! switch position of a grid to the logical key it reports.

pub mod keys;
pub mod matrix;
