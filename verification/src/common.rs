//! Items shared by the transport and the core decoder.

pub mod aot;
pub mod audio_channel_type;
pub mod bitstream;
pub mod bs_element_id;
pub mod flags;
