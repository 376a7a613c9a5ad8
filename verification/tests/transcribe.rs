use codex_overlay::transcribe::{
    bearer_header, check_sample_rate, disconnected_message, keepalive_due, silence_len,
    stt_readiness, stt_url, AudioSource, ReadyWait, SttEmit, SttEvent, SttReader,
    KEEPALIVE_AFTER_MS,
};

#[test]
fn sources_have_labels_and_thresholds() {
    assert_eq!(AudioSource::Microphone.label(), "You");
    assert_eq!(AudioSource::Speaker.label(), "Speaker");
    assert_eq!(AudioSource::Microphone.vad_threshold(), "0.15");
    assert_eq!(AudioSource::Speaker.vad_threshold(), "0.08");
}

#[test]
fn only_supported_sample_rates_are_streamed() {
    for rate in [8_000, 16_000, 22_050, 24_000, 44_100, 48_000] {
        assert!(check_sample_rate(rate).is_ok());
    }
    assert_eq!(
        check_sample_rate(96_000).unwrap_err(),
        "xAI STT does not support 96000 Hz audio"
    );
    assert_eq!(check_sample_rate(0).unwrap_err(), "xAI STT does not support 0 Hz audio");
}

#[test]
fn stream_urls_and_headers() {
    assert_eq!(
        stt_url(48_000, AudioSource::Speaker),
        "wss://api.x.ai/v1/stt?encoding=pcm&sample_rate=48000&interim_results=true&language=en&channels=1&endpointing=500&vad_threshold=0.08"
    );
    assert_eq!(
        stt_url(16_000, AudioSource::Microphone),
        "wss://api.x.ai/v1/stt?encoding=pcm&sample_rate=16000&interim_results=true&language=en&channels=1&endpointing=500&vad_threshold=0.15"
    );
    assert_eq!(bearer_header("xai-1"), "Bearer xai-1");
}

#[test]
fn readiness_outcomes() {
    assert!(stt_readiness(ReadyWait::Ready).is_ok());
    assert_eq!(stt_readiness(ReadyWait::Failed("nope".to_string())).unwrap_err(), "nope");
    assert_eq!(
        stt_readiness(ReadyWait::Closed).unwrap_err(),
        "xAI STT closed before becoming ready"
    );
    assert_eq!(stt_readiness(ReadyWait::TimedOut).unwrap_err(), "xAI STT readiness timed out");
}

#[test]
fn readiness_is_reported_once() {
    let mut reader = SttReader::new();
    let step = reader.step(AudioSource::Microphone, SttEvent::Created);
    assert!(matches!(step.ready_signal, Some(Ok(()))));
    assert!(matches!(step.emit, SttEmit::Ready("You")));
    assert!(!step.stop);
    let again = reader.step(AudioSource::Microphone, SttEvent::Created);
    assert!(again.ready_signal.is_none());
    let err = reader.step(AudioSource::Microphone, SttEvent::Error { message: None });
    assert!(err.ready_signal.is_none());
    assert!(matches!(&err.emit, SttEmit::Error(e) if e == "You STT: xAI STT error"));
    assert!(err.stop);
}

#[test]
fn partial_transcripts_are_trimmed_and_blank_ones_dropped() {
    let mut reader = SttReader::new();
    let step = reader.step(
        AudioSource::Speaker,
        SttEvent::Partial { text: Some("  hello there ".to_string()), is_final: Some(true), speech_final: None },
    );
    assert!(matches!(&step.emit, SttEmit::Transcript { text, is_final: true, speech_final: false } if text == "hello there"));
    assert!(step.ready_signal.is_none());
    assert!(reader.ready_pending);
    let blank = reader.step(
        AudioSource::Speaker,
        SttEvent::Partial { text: Some("   ".to_string()), is_final: Some(true), speech_final: Some(true) },
    );
    assert!(matches!(blank.emit, SttEmit::Nothing));
    let missing = reader.step(AudioSource::Speaker, SttEvent::Partial { text: None, is_final: None, speech_final: None });
    assert!(matches!(missing.emit, SttEmit::Nothing));
    assert!(matches!(reader.step(AudioSource::Speaker, SttEvent::Other).emit, SttEmit::Nothing));
}

#[test]
fn errors_before_readiness_fail_the_wait_and_stop() {
    let mut reader = SttReader::new();
    let step = reader.step(AudioSource::Speaker, SttEvent::TransportError("reset".to_string()));
    assert!(matches!(&step.ready_signal, Some(Err(e)) if e == "reset"));
    assert!(matches!(&step.emit, SttEmit::Error(e) if e == "Speaker STT: reset"));
    assert!(step.stop);
    let mut reader = SttReader::new();
    let step = reader.step(AudioSource::Microphone, SttEvent::Error { message: Some("bad key".to_string()) });
    assert!(matches!(&step.ready_signal, Some(Err(e)) if e == "bad key"));
    let closed = reader.step(AudioSource::Microphone, SttEvent::Closed);
    assert!(matches!(&closed.emit, SttEmit::Error(e) if e == "You STT stream closed"));
    assert!(closed.stop);
    assert_eq!(disconnected_message(AudioSource::Speaker), "Speaker STT stream disconnected");
}

#[test]
fn only_system_audio_is_kept_alive_with_silence() {
    assert_eq!(KEEPALIVE_AFTER_MS, 150);
    assert!(keepalive_due(AudioSource::Speaker, 150));
    assert!(!keepalive_due(AudioSource::Speaker, 149));
    assert!(!keepalive_due(AudioSource::Microphone, 10_000));
    assert_eq!(silence_len(48_000), 9_600);
    assert_eq!(silence_len(44_100), 8_820);
}
