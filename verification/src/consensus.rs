//! Rules by which a block is accepted.

pub mod pow;
