//! A single-block proof-of-work primitive.
//!
//! A [`consensus::pow::Block`] carries its own SHA-256 digest, and
//! [`consensus::pow::generate_block_with_pow`] searches the nonces in
//! ascending order for the first one whose digest starts with the required
//! number of `'0'` characters.

pub mod clock;
pub mod consensus;
pub mod decimal;
pub mod digest;
