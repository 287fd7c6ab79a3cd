use aac::reference::encoding::{check_settings, SettingsError};

#[test]
fn the_encoder_runs_on_what_the_decoder_takes() {
    assert_eq!(check_settings(48000, 2, 480), Ok(()));
    assert_eq!(check_settings(32000, 1, 512), Ok(()));
    assert_eq!(check_settings(22050, 2, 480), Err(SettingsError::UnsupportedInput { rate: 22050, channels: 2 }));
    assert_eq!(check_settings(48000, 6, 480), Err(SettingsError::UnsupportedInput { rate: 48000, channels: 6 }));
    assert_eq!(check_settings(44100, 2, 1024), Err(SettingsError::UnsupportedFrame(1024)));
}
