use zhuyin_audio::probe::{
    duration_hint_ms, probe_reply, ProbeOutcome, TotalDuration, DEFAULT_DURATION_MS,
};
use zhuyin_audio::AudioError;

#[test]
fn default_duration_is_half_a_second() {
    assert_eq!(DEFAULT_DURATION_MS, 500);
}

#[test]
fn unknown_length_gets_the_default() {
    assert_eq!(duration_hint_ms(None), 500);
    assert_eq!(probe_reply(ProbeOutcome::Decoded { total: None }), Ok(500));
}

#[test]
fn known_length_is_reported_in_milliseconds() {
    let length = TotalDuration { secs: 2, subsec_nanos: 250_000_000 };
    assert_eq!(length.as_millis(), 2250);
    assert_eq!(duration_hint_ms(Some(length)), 2250);
    assert_eq!(probe_reply(ProbeOutcome::Decoded { total: Some(length) }), Ok(2250));
}

#[test]
fn length_of_half_a_second_is_no_default() {
    let length = TotalDuration { secs: 0, subsec_nanos: 500_000_000 };
    assert_eq!(probe_reply(ProbeOutcome::Decoded { total: Some(length) }), Ok(500));
    let nothing = TotalDuration { secs: 0, subsec_nanos: 0 };
    assert_eq!(probe_reply(ProbeOutcome::Decoded { total: Some(nothing) }), Ok(0));
}

#[test]
fn part_of_a_millisecond_is_dropped() {
    let length = TotalDuration { secs: 0, subsec_nanos: 1_999_999 };
    assert_eq!(duration_hint_ms(Some(length)), 1);
    let short = TotalDuration { secs: 0, subsec_nanos: 999_999 };
    assert_eq!(duration_hint_ms(Some(short)), 0);
}

#[test]
fn milliseconds_agree_with_std_duration() {
    let cases = [(0u64, 0u32), (1, 0), (3, 141_592_653), (59, 999_999_999), (86_400, 1_000_000)];
    for (secs, nanos) in cases {
        let expected = std::time::Duration::new(secs, nanos).as_millis() as u64;
        let length = TotalDuration { secs, subsec_nanos: nanos };
        assert_eq!(duration_hint_ms(Some(length)), expected);
    }
}

#[test]
fn huge_length_is_reduced_to_sixty_four_bits() {
    let length = TotalDuration { secs: u64::MAX, subsec_nanos: 999_999_999 };
    let exact = std::time::Duration::new(u64::MAX, 999_999_999).as_millis();
    assert_eq!(length.as_millis(), exact);
    assert_eq!(duration_hint_ms(Some(length)), exact as u64);
    assert_eq!(duration_hint_ms(Some(length)), 18_446_744_073_709_551_615);
    let wrapped = TotalDuration { secs: 18_446_744_073_709_552, subsec_nanos: 0 };
    assert_eq!(duration_hint_ms(Some(wrapped)), 384);
}

#[test]
fn undecodable_clip_is_a_decode_error() {
    assert_eq!(probe_reply(ProbeOutcome::Undecodable), Err(AudioError::DecodeError));
}
