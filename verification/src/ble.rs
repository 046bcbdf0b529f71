//! The radio link: pairing credentials and the life cycle of a connection.

pub mod bonder;
pub mod nrf;
