//! The null driver: a fully verified output that discards the audio.

use core::marker::PhantomData;
use vstd::prelude::*;
use crate::backend::Backend;
use crate::output::AudioOutput;
use crate::output::AudioSink;
use crate::output::AudioSource;
use crate::output::SinkState;
use crate::output::pause_transition;
use crate::output::play_transition;
use crate::output::resume_transition;
use crate::output::stop_transition;

verus! {

/// The channel count the null driver reports: stereo.
pub const NULL_CHANNEL_COUNT: usize = 2;

/// The sample rate the null driver reports, in hertz.
pub const NULL_SAMPLE_RATE: u32 = 44100;

/// Unity gain in the null driver's fixed-point volume scale; `set_volume`
/// clamps every request to this ceiling.
pub const FULL_VOLUME: u16 = 1000;

/// A source of endless silence: every pull yields the zero sample.
#[derive(Clone, Copy, Debug, PartialEq, Eq, Structural)]
pub struct SilenceSource;

impl AudioSource for SilenceSource {
    fn next_sample(&mut self) -> (r: Option<i16>)
        ensures
            r == Some(0i16),
    {
        Some(0i16)
    }
}

/// A playback sink that accepts the whole sink protocol and discards the
/// audio it is given.
pub struct NullSink<S: AudioSource> {
    /// The fixed channel count reported for the device.
    pub channels: usize,
    /// The fixed sample rate reported for the device, in hertz.
    pub rate: u32,
    /// The current volume setting, clamped to [`FULL_VOLUME`].
    pub volume: u16,
    /// The playback state.
    pub state: SinkState,
    /// The source currently held, if any.
    pub current: Option<S>,
}

impl<S: AudioSource> NullSink<S> {
    /// Well-formedness: the volume never exceeds unity gain, and a source
    /// is held exactly while the sink is playing or paused.
    pub open spec fn wf(self) -> bool {
        &&& self.volume <= FULL_VOLUME
        &&& (self.current is Some <==> (self.state == SinkState::Playing || self.state
            == SinkState::Paused))
    }

    /// A fresh sink for a device with the given properties: stopped,
    /// holding no source, at unity gain.
    pub fn new(channels: usize, rate: u32) -> (s: NullSink<S>)
        ensures
            s == (NullSink::<S> {
                channels,
                rate,
                volume: FULL_VOLUME,
                state: SinkState::Stopped,
                current: None,
            }),
            s.wf(),
    {
        NullSink {
            channels,
            rate,
            volume: FULL_VOLUME,
            state: SinkState::Stopped,
            current: None,
        }
    }

    /// The current volume setting.
    pub fn volume(&self) -> (r: u16)
        ensures
            r == self.volume,
    {
        self.volume
    }

    /// The playback state the sink is in.
    pub fn playback_state(&self) -> (r: SinkState)
        ensures
            r == self.state,
    {
        self.state
    }

    /// The source currently held, if any.
    pub fn current_source(&self) -> (r: &Option<S>)
        ensures
            r == self.current,
    {
        &self.current
    }
}

impl<S: AudioSource> AudioSink for NullSink<S> {
    type Source = S;

    open spec fn spec_channel_count(&self) -> usize {
        self.channels
    }

    open spec fn spec_sample_rate(&self) -> u32 {
        self.rate
    }

    open spec fn spec_state(&self) -> SinkState {
        self.state
    }

    open spec fn spec_source(&self) -> Option<S> {
        self.current
    }

    open spec fn spec_volume(&self) -> u16 {
        self.volume
    }

    fn channel_count(&self) -> (r: usize) {
        self.channels
    }

    fn sample_rate(&self) -> (r: u32) {
        self.rate
    }

    /// Clamps the requested gain to [`FULL_VOLUME`]; clamping the same
    /// request twice stores the same value, so the call is idempotent.
    fn set_volume(&mut self, volume: u16)
        ensures
            old(self).state != SinkState::Closed ==> final(self).volume == (if volume
                > FULL_VOLUME {
                FULL_VOLUME
            } else {
                volume
            }),
            old(self).wf() ==> final(self).wf(),
    {
        match self.state {
            SinkState::Closed => {},
            _ => {
                self.volume = if volume > FULL_VOLUME {
                    FULL_VOLUME
                } else {
                    volume
                };
            },
        }
    }

    fn play(&mut self, source: S)
        ensures
            old(self).wf() ==> final(self).wf(),
    {
        match self.state {
            SinkState::Closed => {},
            _ => {
                self.current = Some(source);
                self.state = SinkState::Playing;
            },
        }
    }

    fn pause(&mut self)
        ensures
            old(self).wf() ==> final(self).wf(),
    {
        match self.state {
            SinkState::Playing => {
                self.state = SinkState::Paused;
            },
            _ => {},
        }
    }

    fn resume(&mut self)
        ensures
            old(self).wf() ==> final(self).wf(),
    {
        match self.state {
            SinkState::Paused => {
                self.state = SinkState::Playing;
            },
            _ => {},
        }
    }

    fn stop(&mut self)
        ensures
            old(self).wf() ==> final(self).wf(),
    {
        match self.state {
            SinkState::Closed => {},
            _ => {
                self.state = SinkState::Stopped;
                self.current = None;
            },
        }
    }

    fn close(&mut self)
        ensures
            old(self).wf() ==> final(self).wf(),
            final(self).volume == old(self).volume,
    {
        self.state = SinkState::Closed;
        self.current = None;
    }
}

/// An opened null device context: it mints sinks that discard their audio.
pub struct NullOutput<S: AudioSource> {
    /// The backend this output was opened for.
    pub backend: Backend,
    /// The fixed channel count reported for the device.
    pub channels: usize,
    /// The fixed sample rate reported for the device, in hertz.
    pub rate: u32,
    /// Marks the source type the minted sinks consume.
    pub marker: PhantomData<S>,
}

impl<S: AudioSource> NullOutput<S> {
    /// An opened null context for the given backend, reporting the
    /// driver's standard stereo device properties.
    pub fn new(backend: Backend) -> (r: NullOutput<S>)
        ensures
            r.backend == backend,
            r.channels == NULL_CHANNEL_COUNT,
            r.rate == NULL_SAMPLE_RATE,
    {
        NullOutput { backend, channels: NULL_CHANNEL_COUNT, rate: NULL_SAMPLE_RATE, marker: PhantomData }
    }

    /// The backend this output was opened for.
    pub fn backend(&self) -> (r: Backend)
        ensures
            r == self.backend,
    {
        self.backend
    }
}

impl<S: AudioSource> AudioOutput for NullOutput<S> {
    type Sink = NullSink<S>;

    open spec fn spec_channel_count(&self) -> usize {
        self.channels
    }

    open spec fn spec_sample_rate(&self) -> u32 {
        self.rate
    }

    fn sink(&self) -> (s: NullSink<S>)
        ensures
            s.wf(),
            s.volume == FULL_VOLUME,
    {
        NullSink::new(self.channels, self.rate)
    }
}

} // verus!
