use rtp_fec_audio::caps::{caps_for_payload_type, Caps, FEC_PAYLOAD_TYPE, OPUS_PAYLOAD_TYPE, RTP_CLOCK_RATE};

#[test]
fn payload_type_96_is_opus() {
    assert_eq!(OPUS_PAYLOAD_TYPE, 96);
    let caps = caps_for_payload_type(96).unwrap();
    assert_eq!(caps, Caps::Opus);
    assert_eq!(caps.media_type(), "application/x-rtp");
    assert_eq!(caps.media(), Some("audio"));
    assert_eq!(caps.clock_rate(), 48000);
    assert_eq!(caps.encoding_name(), Some("OPUS"));
    assert!(!caps.is_fec());
}

#[test]
fn payload_type_100_is_fec() {
    assert_eq!(FEC_PAYLOAD_TYPE, 100);
    let caps = caps_for_payload_type(100).unwrap();
    assert_eq!(caps, Caps::Fec);
    assert_eq!(caps.media_type(), "application/x-rtp");
    assert_eq!(caps.media(), Some("audio"));
    assert_eq!(caps.clock_rate(), 48000);
    assert_eq!(caps.encoding_name(), None);
    assert!(caps.is_fec());
}

#[test]
fn other_payload_types_carry_nothing_known() {
    for payload_type in [0u32, 1, 95, 97, 99, 101, 127, 128, 4294967295] {
        assert_eq!(caps_for_payload_type(payload_type), None);
    }
}

#[test]
fn plain_rtp_says_the_clock_rate_only() {
    assert_eq!(RTP_CLOCK_RATE, 48000);
    assert_eq!(Caps::Rtp.media_type(), "application/x-rtp");
    assert_eq!(Caps::Rtp.clock_rate(), 48000);
    assert_eq!(Caps::Rtp.media(), None);
    assert_eq!(Caps::Rtp.encoding_name(), None);
    assert!(!Caps::Rtp.is_fec());
}
