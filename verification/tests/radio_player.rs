use openrustmap::player::{
    audible, Decoded, LoopStep, OutputRequest, PlayerAction, PlayerCommand, PlayerState,
    RadioEngine, StreamFormat,
};
use openrustmap::ring::{deliver, free_slots, sample_ring};
use openrustmap::stream::{
    choose_track, decode_step, packet_step, stream_extension_hint, stream_status_error,
    ChosenTrack, DecodeOutcome, HttpBuffer, PacketOutcome, SampleStep, SeekError, SeekFrom,
    TrackError, TrackInfo,
};

#[test]
fn reads_give_consecutive_bytes() {
    let mut b = HttpBuffer::new();
    assert_eq!(b.read_target(4), 4);
    assert!(b.wants(4));
    b.feed(&vec![1, 2, 3, 4, 5]);
    assert!(!b.wants(4));
    assert_eq!(b.read(2), vec![1, 2]);
    assert_eq!(b.read(9), vec![3, 4, 5]);
    assert_eq!(b.read(9), Vec::<u8>::new());
    assert_eq!(b.pos, 5);
    assert_eq!(b.read_target(usize::MAX), usize::MAX);
}

#[test]
fn empty_reads_from_the_network_end_the_stream() {
    let mut b = HttpBuffer::new();
    b.feed(&vec![7]);
    assert!(b.wants(2));
    b.feed(&Vec::new());
    assert!(b.eof);
    assert!(!b.wants(2));
    assert_eq!(b.read(2), vec![7]);
}

#[test]
fn seeks_go_to_places() {
    let mut b = HttpBuffer::new();
    b.feed(&vec![1, 2, 3, 4, 5]);
    assert_eq!(b.seek_target(SeekFrom::Start(3)), Ok(3));
    b.seek_to(3);
    assert_eq!(b.read(1), vec![4]);
    assert_eq!(b.seek_target(SeekFrom::Current(-4)), Ok(0));
    assert_eq!(b.seek_target(SeekFrom::Current(-5)), Err(SeekError::Negative));
    assert_eq!(b.seek_target(SeekFrom::Start(u64::MAX)), Err(SeekError::Negative));
    assert_eq!(b.seek_target(SeekFrom::End(0)), Err(SeekError::FromEnd));
    b.seek_to(3);
    assert_eq!(b.read(2), vec![4, 5]);
    b.seek_to(100);
    assert_eq!(b.read(2), Vec::<u8>::new());
    assert_eq!(SeekError::Negative.message(), "negative seek");
    assert_eq!(SeekError::FromEnd.message(), "Seek from end unsupported for stream");
}

#[test]
fn reads_are_short_at_the_end_and_empty_past_it() {
    let mut b = HttpBuffer::new();
    b.feed(&vec![1, 2, 3]);
    b.feed(&Vec::new());
    assert_eq!(b.seek_target(SeekFrom::Current(2)), Ok(2));
    b.seek_to(2);
    assert_eq!(b.read(4), vec![3]);
    b.seek_to(2);
    assert_eq!(b.read(4), vec![3]);
    assert_eq!(b.seek_target(SeekFrom::Start(9)), Ok(9));
    b.seek_to(9);
    assert_eq!(b.read(4), Vec::<u8>::new());
    assert_eq!(b.pos, 9);
}

#[test]
fn extensions_hint_at_the_format() {
    let hint = |u| stream_extension_hint(u);
    assert_eq!(hint("http://a.b/live.mp3?x=1.2"), Some("mp3".to_string()));
    assert_eq!(hint("http://a.b/live.aac"), Some("aac".to_string()));
    assert_eq!(hint("http://a.b/stream"), None);
    assert_eq!(hint("http://a/."), None);
    assert_eq!(hint("http://a/x.?q"), None);
    assert_eq!(hint("abc"), Some("abc".to_string()));
    assert_eq!(hint(""), None);
    assert_eq!(hint("x.ééé"), Some("ééé".to_string()));
    assert_eq!(hint("x.éééa"), None);
}

#[test]
fn refused_streams_tell_the_status() {
    assert_eq!(stream_status_error(true, "200 OK"), None);
    assert_eq!(stream_status_error(false, "503 X"), Some("stream HTTP 503 X".to_string()));
}

#[test]
fn the_first_track_with_a_codec_is_played() {
    let none = TrackInfo { id: 1, has_codec: false, sample_rate: Some(1), channels: Some(1) };
    let mono = TrackInfo { id: 2, has_codec: true, sample_rate: Some(44_100), channels: Some(1) };
    let open = TrackInfo { id: 3, has_codec: true, sample_rate: Some(48_000), channels: None };
    let odd = TrackInfo { id: 4, has_codec: true, sample_rate: None, channels: Some(2) };
    assert_eq!(
        choose_track(&vec![none, mono, open]),
        Ok(ChosenTrack { index: 1, id: 2, sample_rate: 44_100, channels: 1 })
    );
    assert_eq!(
        choose_track(&vec![open, odd]),
        Ok(ChosenTrack { index: 0, id: 3, sample_rate: 48_000, channels: 2 })
    );
    assert_eq!(choose_track(&vec![none]), Err(TrackError::NoAudioTrack));
    assert_eq!(choose_track(&vec![]), Err(TrackError::NoAudioTrack));
    assert_eq!(choose_track(&vec![odd, mono]), Err(TrackError::UnknownSampleRate));
    assert_eq!(TrackError::NoAudioTrack.message(), "no audio track");
    assert_eq!(TrackError::UnknownSampleRate.message(), "unknown sample rate");
}

#[test]
fn packets_become_samples() {
    let packet = |id| packet_step(7, PacketOutcome::Packet { track_id: id });
    assert_eq!(packet(7), SampleStep::Decode);
    assert_eq!(packet(8), SampleStep::NextPacket);
    assert_eq!(packet_step(7, PacketOutcome::UnexpectedEof), SampleStep::End);
    let e = "bad".to_string();
    assert_eq!(
        packet_step(7, PacketOutcome::Failed(e.clone())),
        SampleStep::Fail(e.clone())
    );
    assert_eq!(decode_step(DecodeOutcome::Samples), SampleStep::Deliver);
    assert_eq!(decode_step(DecodeOutcome::BadData), SampleStep::NextPacket);
    assert_eq!(decode_step(DecodeOutcome::Failed(e.clone())), SampleStep::Fail(e));
}

#[test]
fn errors_are_taken_once() {
    let mut s = PlayerState::new();
    assert_eq!(s.take_last_error(), None);
    s.set_error("a".to_string());
    s.set_error("b".to_string());
    assert_eq!(s.take_last_error(), Some("b".to_string()));
    assert_eq!(s.take_last_error(), None);
    assert!(!s.is_paused());
}

fn playing() -> RadioEngine {
    let mut e = RadioEngine::new();
    assert_eq!(
        e.apply_command(PlayerCommand::Play("u".to_string())),
        vec![PlayerAction::OpenStream("u".to_string())]
    );
    let format = StreamFormat { sample_rate: 44_100, channels: 2 };
    assert_eq!(
        e.stream_opened(Ok(format)),
        Some(OutputRequest { format, ring_capacity: 88_200 })
    );
    assert!(e.output_opened(Ok(())));
    e.output_started(Ok(()));
    assert!(e.active);
    e
}

#[test]
fn small_streams_get_the_least_ring() {
    let mut e = RadioEngine::new();
    let format = StreamFormat { sample_rate: 1_000, channels: 1 };
    assert_eq!(
        e.stream_opened(Ok(format)),
        Some(OutputRequest { format, ring_capacity: 4_096 })
    );
}

#[test]
fn a_new_stream_replaces_the_old_one() {
    let mut e = playing();
    e.apply_command(PlayerCommand::TogglePause);
    assert!(e.state.is_paused());
    assert_eq!(
        e.apply_command(PlayerCommand::Play("v".to_string())),
        vec![PlayerAction::CloseStream, PlayerAction::OpenStream("v".to_string())]
    );
    assert!(!e.active);
    assert!(!e.state.is_paused());
}

#[test]
fn stopping_twice_is_stopping_once() {
    let mut e = playing();
    assert_eq!(e.apply_command(PlayerCommand::Stop), vec![PlayerAction::CloseStream]);
    assert!(e.apply_command(PlayerCommand::Stop).is_empty());
    assert!(!e.active);
}

#[test]
fn pausing_twice_resumes() {
    let mut e = playing();
    assert!(e.apply_command(PlayerCommand::TogglePause).is_empty());
    assert_eq!(e.next_step(false, 9_999), LoopStep::Sleep(8));
    e.apply_command(PlayerCommand::TogglePause);
    assert_eq!(e.next_step(false, 9_999), LoopStep::Decode);
}

#[test]
fn volume_and_quit_are_passed_on() {
    let mut e = playing();
    let bits = 0.5f32.to_bits();
    assert_eq!(
        e.apply_command(PlayerCommand::SetVolume(bits)),
        vec![PlayerAction::SetVolume(bits)]
    );
    assert_eq!(e.apply_command(PlayerCommand::Quit), vec![PlayerAction::Quit]);
    assert!(e.active);
}

#[test]
fn every_failure_has_its_words() {
    let mut e = RadioEngine::new();
    e.no_device();
    assert_eq!(e.state.take_last_error().unwrap(), "No default audio output device.");
    assert_eq!(e.stream_opened(Err("x".to_string())), None);
    assert_eq!(e.state.take_last_error().unwrap(), "Could not open stream: x");
    assert!(!e.output_opened(Err("x".to_string())));
    assert_eq!(e.state.take_last_error().unwrap(), "Could not open audio output: x");
    e.output_started(Err("x".to_string()));
    assert_eq!(e.state.take_last_error().unwrap(), "Could not start playback: x");
    assert!(!e.active);
    e.output_failed("x");
    assert_eq!(e.state.take_last_error().unwrap(), "Audio output: x");
    let mut e = playing();
    e.decoded(Decoded::Failed("x".to_string()));
    assert_eq!(e.state.take_last_error().unwrap(), "Decode error: x");
    assert!(!e.active);
}

#[test]
fn the_audio_thread_waits_sleeps_and_decodes() {
    let mut e = RadioEngine::new();
    assert_eq!(e.next_step(false, 9_999), LoopStep::WaitForCommand(50));
    let mut e = playing();
    assert_eq!(e.next_step(false, 4_096), LoopStep::Sleep(5));
    assert_eq!(e.next_step(false, 4_097), LoopStep::Decode);
    e.decoded(Decoded::Samples);
    assert_eq!(e.next_step(false, 4_097), LoopStep::Decode);
    assert_eq!(e.next_step(true, 4_097), LoopStep::CloseStream);
    assert_eq!(e.next_step(false, 4_097), LoopStep::WaitForCommand(50));
    let mut e = playing();
    e.decoded(Decoded::End);
    assert!(!e.active);
    assert_eq!(e.state.take_last_error(), None);
}

#[test]
fn samples_go_through_the_ring_in_order() {
    let format = StreamFormat { sample_rate: 8, channels: 1 };
    let (mut p, mut c) = sample_ring(OutputRequest { format, ring_capacity: 4 });
    assert_eq!(free_slots(&mut p), 4);
    assert_eq!(deliver(&mut p, &vec![1, 2, 3]), 3);
    assert_eq!(free_slots(&mut p), 1);
    assert_eq!(deliver(&mut p, &vec![4, 5]), 1);
    assert_eq!(deliver(&mut p, &vec![5]), 0);
    assert_eq!(c.pop(), Ok(1));
    assert_eq!(c.pop(), Ok(2));
    assert_eq!(deliver(&mut p, &vec![5]), 1);
    assert_eq!(free_slots(&mut p), 1);
    let rest: Vec<u32> = (0..3).map(|_| c.pop().unwrap()).collect();
    assert_eq!(rest, vec![3, 4, 5]);
    assert!(c.pop().is_err());
}

#[test]
fn silence_while_stopped_or_paused() {
    assert!(audible(false, false));
    assert!(!audible(true, false));
    assert!(!audible(false, true));
}
