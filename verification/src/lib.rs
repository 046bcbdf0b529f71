//! Runtime core of a keyboard firmware: debounced matrix scanning, the cache
//! of pairing credentials, and the rules by which the device moves between
//! its radio link and its wired link.

pub mod ble;
pub mod debounce;
pub mod matrix;
pub mod switch;
