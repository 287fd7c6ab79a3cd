use aac::aac_dec::channel::{ChannelElement, CommonChannelData};
use aac::aac_dec::constants;
use aac::aac_dec::sr_info::SamplingRateInfo;
use aac::common::bs_element_id::ChannelElementId;
use std::mem::{align_of, size_of};

#[test]
fn test_buff_alignment_w_f32() {
    let ccd = CommonChannelData::new();

    let scratch_buff =
        &ccd.scratch_work_buffer()[..(2 * constants::MAX_FRAMESIZE * size_of::<f32>())];

    assert!(scratch_buff.len() % size_of::<f32>() == 0);

    let addr_of_val = std::ptr::from_ref(&scratch_buff);
    assert!(addr_of_val as usize % align_of::<f32>() == 0);
}

#[test]
fn test_buff_alignment_w_i16() {
    let frame_length = 1024;
    let ccd = CommonChannelData::new();

    let scratch_buff = &ccd.scratch_work_buffer()[..(frame_length * size_of::<i16>())];

    assert!(scratch_buff.len() % size_of::<i16>() == 0);

    let addr_of_val = std::ptr::from_ref(&scratch_buff);
    assert!(addr_of_val as usize % align_of::<i16>() == 0);
}

#[test]
fn common_channel_data_takes_the_sampling_rate_info() {
    let mut ccd = CommonChannelData::new();
    let mut sr_info = SamplingRateInfo::new();
    assert!(sr_info.init(480, 3, 48000).is_ok());
    ccd.init(&sr_info);
    assert_eq!(*ccd.sr_info(), sr_info);
    assert_eq!(ccd.sr_info().sampling_rate_index(), 3);
}

#[test]
fn channel_counts_of_elements() {
    assert_eq!(ChannelElement::get_num_channels(ChannelElementId::Sce), 1);
    assert_eq!(ChannelElement::get_num_channels(ChannelElementId::Cpe), 2);
    assert_eq!(ChannelElement::get_num_channels(ChannelElementId::Lfe), 0);
    assert_eq!(ChannelElement::get_num_channels(ChannelElementId::Ext), 0);
}

#[test]
fn pair_element_shares_its_window_after_reset() {
    let sr_info = SamplingRateInfo::new();
    let mut el = ChannelElement::new();
    el.init(&sr_info, ChannelElementId::Cpe, 480);
    assert_eq!(el.num_channels(), 2);
    el.reset();
    assert!(!el.state_flags().read);
    assert!(!el.state_flags().decoded);
}
