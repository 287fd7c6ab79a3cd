//! AudioSpecificConfig parsing.

pub mod audio_specific_config;
pub mod eld_specific_config;
pub mod helper_functions;

pub use audio_specific_config::AudioSpecificConfig;
