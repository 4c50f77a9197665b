use zhuyin_audio::probe::{ProbeOutcome, TotalDuration};
use zhuyin_audio::submit::{begin_play, stop_reply, SubmitEvent, SubmitStep};
use zhuyin_audio::{AudioCommand, AudioError};

fn located(symbol: &str) -> SubmitStep {
    begin_play(symbol).proceed(SubmitEvent::Located(true))
}

fn decoded(secs: u64, subsec_nanos: u32) -> SubmitEvent {
    SubmitEvent::Probed(ProbeOutcome::Decoded {
        total: Some(TotalDuration { secs, subsec_nanos }),
    })
}

#[test]
fn unknown_symbol_is_refused_at_once() {
    let step = begin_play("x");
    assert_eq!(step, SubmitStep::Reply { result: Err(AudioError::InvalidSymbol) });
    assert_eq!(step.reply(), Some(Err(AudioError::InvalidSymbol)));
    assert_eq!(step.command(), None);
}

#[test]
fn known_symbol_has_its_clip_looked_for() {
    let step = begin_play("ㄆ");
    assert_eq!(step, SubmitStep::Locate { location: "assets/audio/02.mp3".to_string() });
    assert_eq!(step.reply(), None);
    assert_eq!(step.command(), None);
}

#[test]
fn absent_clip_is_resource_not_found() {
    let step = begin_play("ㄆ").proceed(SubmitEvent::Located(false));
    assert_eq!(step, SubmitStep::Reply { result: Err(AudioError::ResourceNotFound) });
    assert_eq!(step.command(), None);
}

#[test]
fn present_clip_is_probed_next() {
    assert_eq!(located("ㄆ"), SubmitStep::Probe { location: "assets/audio/02.mp3".to_string() });
    assert_eq!(located("ㄆ").command(), None);
}

#[test]
fn unreadable_clip_is_resource_not_found() {
    let step = located("ㄆ").proceed(SubmitEvent::Unreadable);
    assert_eq!(step, SubmitStep::Reply { result: Err(AudioError::ResourceNotFound) });
    assert_eq!(step.command(), None);
}

#[test]
fn clip_that_is_no_audio_is_a_decode_error() {
    let step = located("ㄆ").proceed(SubmitEvent::Probed(ProbeOutcome::Undecodable));
    assert_eq!(step, SubmitStep::Reply { result: Err(AudioError::DecodeError) });
    assert_eq!(step.command(), None);
}

#[test]
fn decoded_clip_is_enqueued_with_its_duration() {
    let step = located("ㄦ").proceed(decoded(0, 750_000_000));
    assert_eq!(
        step,
        SubmitStep::Enqueue { location: "assets/audio/37.mp3".to_string(), duration_ms: 750 }
    );
    assert_eq!(step.command(), Some(AudioCommand::Play("assets/audio/37.mp3".to_string())));
    assert_eq!(step.reply(), None);
    let done = step.proceed(SubmitEvent::Enqueued(true));
    assert_eq!(done, SubmitStep::Reply { result: Ok(750) });
    assert_eq!(done.reply(), Some(Ok(750)));
    assert_eq!(done.command(), None);
}

#[test]
fn clip_without_a_total_length_is_enqueued_with_the_default() {
    let step = located("ㄅ").proceed(SubmitEvent::Probed(ProbeOutcome::Decoded { total: None }));
    assert_eq!(
        step,
        SubmitStep::Enqueue { location: "assets/audio/01.mp3".to_string(), duration_ms: 500 }
    );
    assert_eq!(step.proceed(SubmitEvent::Enqueued(true)).reply(), Some(Ok(500)));
}

#[test]
fn closed_channel_is_reported_to_the_caller() {
    let step = located("ㄦ").proceed(decoded(1, 0));
    let done = step.proceed(SubmitEvent::Enqueued(false));
    assert_eq!(done, SubmitStep::Reply { result: Err(AudioError::ChannelClosed) });
}

#[test]
fn answers_that_were_not_asked_for_change_nothing() {
    let locate = begin_play("ㄅ").proceed(SubmitEvent::Enqueued(true));
    assert_eq!(locate, SubmitStep::Locate { location: "assets/audio/01.mp3".to_string() });
    let locate = locate.proceed(decoded(1, 0));
    assert_eq!(locate, SubmitStep::Locate { location: "assets/audio/01.mp3".to_string() });
    let locate = locate.proceed(SubmitEvent::Unreadable);
    assert_eq!(locate, SubmitStep::Locate { location: "assets/audio/01.mp3".to_string() });
    let probe = locate.proceed(SubmitEvent::Located(true)).proceed(SubmitEvent::Located(false));
    assert_eq!(probe, SubmitStep::Probe { location: "assets/audio/01.mp3".to_string() });
    let probe = probe.proceed(SubmitEvent::Enqueued(true));
    assert_eq!(probe, SubmitStep::Probe { location: "assets/audio/01.mp3".to_string() });
    let enqueue = probe.proceed(decoded(2, 0)).proceed(SubmitEvent::Unreadable);
    assert_eq!(
        enqueue,
        SubmitStep::Enqueue { location: "assets/audio/01.mp3".to_string(), duration_ms: 2000 }
    );
    let reply = begin_play("?").proceed(SubmitEvent::Located(true));
    assert_eq!(reply, SubmitStep::Reply { result: Err(AudioError::InvalidSymbol) });
    let reply = reply.proceed(SubmitEvent::Enqueued(true));
    assert_eq!(reply, SubmitStep::Reply { result: Err(AudioError::InvalidSymbol) });
}

#[test]
fn stop_reports_whether_it_was_delivered() {
    assert_eq!(stop_reply(true), Ok(()));
    assert_eq!(stop_reply(false), Err(AudioError::ChannelClosed));
}
