//! The capability contracts for opened outputs and playback sinks.

use vstd::prelude::*;

verus! {

/// The playback state a sink can be in.
///
/// A sink starts out stopped, moves between the playing and paused states
/// while it holds a source, returns to stopped when the source is
/// discarded, and becomes permanently inert once closed.
#[derive(Clone, Copy, Debug, PartialEq, Eq, Structural)]
pub enum SinkState {
    /// No source is held; the sink is reusable for a subsequent play.
    Stopped,
    /// The current source is being consumed.
    Playing,
    /// Consumption of the current source is suspended.
    Paused,
    /// Device resources are released; every further call is a no-op.
    Closed,
}

/// How `play` moves the playback state: a closed sink stays closed, any
/// other sink starts playing the new source.
pub open spec fn play_transition(s: SinkState) -> SinkState {
    match s {
        SinkState::Closed => SinkState::Closed,
        _ => SinkState::Playing,
    }
}

/// How `pause` moves the playback state: only a playing sink is suspended;
/// pausing without a current source, or after close, is a no-op.
pub open spec fn pause_transition(s: SinkState) -> SinkState {
    match s {
        SinkState::Playing => SinkState::Paused,
        _ => s,
    }
}

/// How `resume` moves the playback state: only a paused sink resumes;
/// resuming without a prior play, or after close, is a no-op.
pub open spec fn resume_transition(s: SinkState) -> SinkState {
    match s {
        SinkState::Paused => SinkState::Playing,
        _ => s,
    }
}

/// How `stop` moves the playback state: a closed sink stays closed, any
/// other sink returns to the stopped state.
pub open spec fn stop_transition(s: SinkState) -> SinkState {
    match s {
        SinkState::Closed => SinkState::Closed,
        _ => SinkState::Stopped,
    }
}

/// Law: the closed state absorbs every playback transition; once a sink is
/// closed, no operation moves it out of the closed state.
pub proof fn lemma_closed_absorbing()
    ensures
        play_transition(SinkState::Closed) == SinkState::Closed,
        pause_transition(SinkState::Closed) == SinkState::Closed,
        resume_transition(SinkState::Closed) == SinkState::Closed,
        stop_transition(SinkState::Closed) == SinkState::Closed,
{
}

/// A producer of decoded audio samples, pulled by a sink.
///
/// Production is an external concern: the library states nothing about the
/// samples a source yields.
pub trait AudioSource: Sized + Send {
    /// The next decoded sample, or `None` when the source is exhausted.
    fn next_sample(&mut self) -> Option<i16>;
}

/// A live playback channel bound to an opened device.
///
/// The contract fixes the protocol every sink implementation must obey:
/// the channel count and sample rate never change for the lifetime of the
/// sink, `play` replaces the current source, and a closed sink treats
/// every further `set_volume`, `play`, `pause`, `resume` and `stop` as a
/// safe no-op.
pub trait AudioSink: Sized + Send {
    /// The source type this sink consumes.
    type Source: AudioSource;

    /// The fixed channel count of the opened device.
    spec fn spec_channel_count(&self) -> usize;

    /// The fixed sample rate of the opened device, in hertz.
    spec fn spec_sample_rate(&self) -> u32;

    /// The playback state the sink is in.
    spec fn spec_state(&self) -> SinkState;

    /// The source the sink currently holds, if any.
    spec fn spec_source(&self) -> Option<Self::Source>;

    /// The current volume setting, as fixed-point linear gain.
    spec fn spec_volume(&self) -> u16;

    /// The channel count of the device, constant for the sink's lifetime.
    fn channel_count(&self) -> (r: usize)
        ensures
            r == self.spec_channel_count(),
    ;

    /// The sample rate of the device in hertz, constant for the sink's
    /// lifetime.
    fn sample_rate(&self) -> (r: u32)
        ensures
            r == self.spec_sample_rate(),
    ;

    /// Sets the linear gain. The range and clamping policy are the
    /// implementation's own; playback state and the current source are
    /// never affected, and a closed sink is left entirely unchanged.
    fn set_volume(&mut self, volume: u16)
        ensures
            final(self).spec_channel_count() == old(self).spec_channel_count(),
            final(self).spec_sample_rate() == old(self).spec_sample_rate(),
            final(self).spec_state() == old(self).spec_state(),
            final(self).spec_source() == old(self).spec_source(),
            old(self).spec_state() == SinkState::Closed ==> *final(self) == *old(self),
    ;

    /// Begins or replaces the audio stream: any previously held source is
    /// discarded in favour of the given one. On a closed sink this is a
    /// no-op and the source is dropped.
    fn play(&mut self, source: Self::Source)
        ensures
            final(self).spec_channel_count() == old(self).spec_channel_count(),
            final(self).spec_sample_rate() == old(self).spec_sample_rate(),
            final(self).spec_volume() == old(self).spec_volume(),
            final(self).spec_state() == play_transition(old(self).spec_state()),
            old(self).spec_state() != SinkState::Closed ==> final(self).spec_source()
                == Some(source),
            old(self).spec_state() == SinkState::Closed ==> *final(self) == *old(self),
    ;

    /// Suspends consumption of the current source without discarding the
    /// playback position. Without a playing source this is a no-op.
    fn pause(&mut self)
        ensures
            final(self).spec_channel_count() == old(self).spec_channel_count(),
            final(self).spec_sample_rate() == old(self).spec_sample_rate(),
            final(self).spec_volume() == old(self).spec_volume(),
            final(self).spec_source() == old(self).spec_source(),
            final(self).spec_state() == pause_transition(old(self).spec_state()),
            old(self).spec_state() == SinkState::Closed ==> *final(self) == *old(self),
    ;

    /// Resumes consumption of a paused source. Without a prior `play`,
    /// or after `close`, this is a no-op.
    fn resume(&mut self)
        ensures
            final(self).spec_channel_count() == old(self).spec_channel_count(),
            final(self).spec_sample_rate() == old(self).spec_sample_rate(),
            final(self).spec_volume() == old(self).spec_volume(),
            final(self).spec_source() == old(self).spec_source(),
            final(self).spec_state() == resume_transition(old(self).spec_state()),
            old(self).spec_state() == SinkState::Closed ==> *final(self) == *old(self),
    ;

    /// Halts playback and discards the current source; the sink remains
    /// reusable for a subsequent `play` unless it was already closed.
    fn stop(&mut self)
        ensures
            final(self).spec_channel_count() == old(self).spec_channel_count(),
            final(self).spec_sample_rate() == old(self).spec_sample_rate(),
            final(self).spec_volume() == old(self).spec_volume(),
            final(self).spec_state() == stop_transition(old(self).spec_state()),
            old(self).spec_state() != SinkState::Closed ==> final(self).spec_source() is None,
            old(self).spec_state() == SinkState::Closed ==> *final(self) == *old(self),
    ;

    /// Releases the device resources and discards the current source; the
    /// sink becomes permanently inert.
    fn close(&mut self)
        ensures
            final(self).spec_channel_count() == old(self).spec_channel_count(),
            final(self).spec_sample_rate() == old(self).spec_sample_rate(),
            final(self).spec_volume() == old(self).spec_volume(),
            final(self).spec_state() == SinkState::Closed,
            final(self).spec_source() is None,
    ;
}

/// An opened handle to a backend's device or context.
///
/// An output can mint more than one sink; every sink it mints starts out
/// stopped, without a source, and carries the device properties the output
/// was opened with.
pub trait AudioOutput: Sized + Send {
    /// The sink type this output mints.
    type Sink: AudioSink;

    /// The fixed channel count of the opened device.
    spec fn spec_channel_count(&self) -> usize;

    /// The fixed sample rate of the opened device, in hertz.
    spec fn spec_sample_rate(&self) -> u32;

    /// Constructs a new sink bound to the output's device. May be called
    /// more than once; how overlapping sinks share the device is the
    /// implementation's own concern.
    fn sink(&self) -> (s: Self::Sink)
        ensures
            s.spec_state() == SinkState::Stopped,
            s.spec_source() is None,
            s.spec_channel_count() == self.spec_channel_count(),
            s.spec_sample_rate() == self.spec_sample_rate(),
    ;
}

} // verus!
