use audio_output::AudioOutput;
use audio_output::AudioSink;
use audio_output::AudioSource;
use audio_output::Backend;
use audio_output::NullOutput;
use audio_output::NullSink;
use audio_output::SilenceSource;
use audio_output::SinkState;
use audio_output::null::FULL_VOLUME;

/// A fake source with an identity, so a test can see which source a sink
/// currently holds.
#[derive(Clone, Copy, Debug, PartialEq, Eq)]
struct TagSource {
    tag: u32,
}

impl AudioSource for TagSource {
    fn next_sample(&mut self) -> Option<i16> {
        None
    }
}

fn fresh_sink() -> NullSink<TagSource> {
    let out: NullOutput<TagSource> = NullOutput::new(Backend::Cpal);
    out.sink()
}

#[test]
fn fresh_sink_is_stopped_with_device_properties() {
    let out: NullOutput<TagSource> = NullOutput::new(Backend::Pipewire);
    let sink = out.sink();
    assert_eq!(sink.playback_state(), SinkState::Stopped);
    assert_eq!(sink.current_source(), &None);
    assert_eq!(sink.channel_count(), 2);
    assert_eq!(sink.sample_rate(), 44100);
    assert_eq!(sink.volume(), FULL_VOLUME);
}

#[test]
fn output_mints_more_than_one_sink() {
    let out: NullOutput<TagSource> = NullOutput::new(Backend::Cpal);
    let a = out.sink();
    let b = out.sink();
    assert_eq!(a.playback_state(), SinkState::Stopped);
    assert_eq!(b.playback_state(), SinkState::Stopped);
}

#[test]
fn play_starts_playback() {
    let mut sink = fresh_sink();
    sink.play(TagSource { tag: 1 });
    assert_eq!(sink.playback_state(), SinkState::Playing);
    assert_eq!(sink.current_source(), &Some(TagSource { tag: 1 }));
}

#[test]
fn second_play_discards_first_source() {
    let mut sink = fresh_sink();
    sink.play(TagSource { tag: 1 });
    sink.play(TagSource { tag: 2 });
    assert_eq!(sink.playback_state(), SinkState::Playing);
    assert_eq!(sink.current_source(), &Some(TagSource { tag: 2 }));
}

#[test]
fn pause_and_resume_keep_the_source() {
    let mut sink = fresh_sink();
    sink.play(TagSource { tag: 7 });
    sink.pause();
    assert_eq!(sink.playback_state(), SinkState::Paused);
    assert_eq!(sink.current_source(), &Some(TagSource { tag: 7 }));
    sink.resume();
    assert_eq!(sink.playback_state(), SinkState::Playing);
    assert_eq!(sink.current_source(), &Some(TagSource { tag: 7 }));
}

#[test]
fn resume_without_prior_play_is_a_no_op() {
    let mut sink = fresh_sink();
    sink.resume();
    assert_eq!(sink.playback_state(), SinkState::Stopped);
    assert_eq!(sink.current_source(), &None);
}

#[test]
fn pause_without_playing_source_is_a_no_op() {
    let mut sink = fresh_sink();
    sink.pause();
    assert_eq!(sink.playback_state(), SinkState::Stopped);
    sink.play(TagSource { tag: 3 });
    sink.pause();
    sink.pause();
    assert_eq!(sink.playback_state(), SinkState::Paused);
}

#[test]
fn stop_discards_source_and_leaves_sink_reusable() {
    let mut sink = fresh_sink();
    sink.play(TagSource { tag: 4 });
    sink.stop();
    assert_eq!(sink.playback_state(), SinkState::Stopped);
    assert_eq!(sink.current_source(), &None);
    sink.play(TagSource { tag: 5 });
    assert_eq!(sink.playback_state(), SinkState::Playing);
    assert_eq!(sink.current_source(), &Some(TagSource { tag: 5 }));
}

#[test]
fn set_volume_clamps_and_is_idempotent() {
    let mut sink = fresh_sink();
    sink.set_volume(250);
    assert_eq!(sink.volume(), 250);
    sink.set_volume(250);
    assert_eq!(sink.volume(), 250);
    sink.set_volume(FULL_VOLUME + 1000);
    assert_eq!(sink.volume(), FULL_VOLUME);
    sink.set_volume(FULL_VOLUME + 1000);
    assert_eq!(sink.volume(), FULL_VOLUME);
}

#[test]
fn device_properties_stay_constant_for_the_sinks_lifetime() {
    let mut sink = fresh_sink();
    assert_eq!(sink.channel_count(), 2);
    assert_eq!(sink.sample_rate(), 44100);
    sink.play(TagSource { tag: 6 });
    sink.pause();
    sink.resume();
    sink.stop();
    sink.set_volume(100);
    sink.close();
    assert_eq!(sink.channel_count(), 2);
    assert_eq!(sink.sample_rate(), 44100);
}

#[test]
fn calls_after_close_are_safe_no_ops() {
    let mut sink = fresh_sink();
    sink.play(TagSource { tag: 8 });
    sink.set_volume(300);
    sink.close();
    assert_eq!(sink.playback_state(), SinkState::Closed);
    assert_eq!(sink.current_source(), &None);
    sink.pause();
    sink.resume();
    sink.stop();
    sink.set_volume(999);
    sink.play(TagSource { tag: 9 });
    assert_eq!(sink.playback_state(), SinkState::Closed);
    assert_eq!(sink.current_source(), &None);
    assert_eq!(sink.volume(), 300);
}

#[test]
fn close_is_permanent() {
    let mut sink = fresh_sink();
    sink.close();
    sink.close();
    assert_eq!(sink.playback_state(), SinkState::Closed);
}

#[test]
fn silence_source_yields_zero_samples() {
    let mut s = SilenceSource;
    assert_eq!(s.next_sample(), Some(0));
    assert_eq!(s.next_sample(), Some(0));
}

#[test]
fn opened_backend_drives_a_sink_end_to_end() {
    let s = audio_output::BackendSet::all();
    let b = s.default_backend();
    let out = b.open::<SilenceSource>(&s).expect("a registered backend must open");
    let mut sink = out.sink();
    sink.play(SilenceSource);
    assert_eq!(sink.playback_state(), SinkState::Playing);
    sink.close();
    assert_eq!(sink.playback_state(), SinkState::Closed);
}
