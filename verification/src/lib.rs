//! An AAC-ELD configuration and bitstream front end with verified contracts.

pub mod common;
pub mod tp_dec;
pub mod aac_dec;
pub mod reference;
