//! The closed set of audio output technologies and priority-ordered selection.

use vstd::prelude::*;
use crate::error::Error;
use crate::null::NULL_CHANNEL_COUNT;
use crate::null::NULL_SAMPLE_RATE;
use crate::null::NullOutput;
use crate::output::AudioSource;

verus! {

/// An audio output technology that this library knows how to drive.
///
/// The set of backends a given build can actually use is a runtime value,
/// [`BackendSet`], registered by the host once it knows which native
/// drivers are linked in.
#[derive(Clone, Copy, Debug, PartialEq, Eq, Structural)]
pub enum Backend {
    /// The low-latency cross-platform audio library.
    Cpal,
    /// The portable audio input/output library.
    Cubeb,
    /// The audio-server protocol client.
    Pipewire,
}

impl Backend {
    /// Position of this backend in the fixed priority order; lower is preferred.
    pub open spec fn priority(self) -> int {
        match self {
            Backend::Cpal => 0,
            Backend::Cubeb => 1,
            Backend::Pipewire => 2,
        }
    }

    /// The stable, human-readable label of this backend.
    pub open spec fn label_spec(self) -> Seq<char> {
        match self {
            Backend::Cpal => "CPAL"@,
            Backend::Cubeb => "cubeb"@,
            Backend::Pipewire => "PipeWire"@,
        }
    }

    /// Human-readable label of this backend, used for diagnostics and UI.
    pub fn label(&self) -> (r: String)
        ensures
            r@ == self.label_spec(),
    {
        match self {
            Backend::Cpal => String::from_str("CPAL"),
            Backend::Cubeb => String::from_str("cubeb"),
            Backend::Pipewire => String::from_str("PipeWire"),
        }
    }

    /// Attempts to initialize this backend's device context against the
    /// registered driver set.
    ///
    /// The crate ships a single, fully verified driver — the null output —
    /// so a registered backend opens as the null device context for that
    /// technology, with the driver's standard stereo properties. A backend
    /// whose driver is not registered reports a typed, recoverable error;
    /// the caller decides whether to fall back to another backend. Opening
    /// never panics.
    pub fn open<S: AudioSource>(&self, set: &BackendSet) -> (r: Result<NullOutput<S>, Error>)
        ensures
            set.contains_spec(*self) ==> (r matches Ok(out) && out.backend == *self
                && out.channels == NULL_CHANNEL_COUNT && out.rate == NULL_SAMPLE_RATE),
            !set.contains_spec(*self) ==> (r matches Err(e) && e == Error::BackendUnavailable(
                *self,
            )),
    {
        if set.contains(*self) {
            Ok(NullOutput::new(*self))
        } else {
            Err(Error::BackendUnavailable(*self))
        }
    }
}

impl Default for Backend {
    /// The backend a full build resolves to: the highest-priority technology.
    fn default() -> (r: Backend)
        ensures
            r == Backend::Cpal,
            r == BackendSet::all_spec().default_spec(),
    {
        Backend::Cpal
    }
}

/// The set of backends whose native drivers are available in this build,
/// registered by the host at startup.
///
/// The priority order over the registered backends is fixed: `Cpal` first,
/// then `Cubeb`, then `Pipewire`.
#[derive(Clone, Copy, Debug, PartialEq, Eq, Structural)]
pub struct BackendSet {
    /// Whether the low-latency cross-platform backend is available.
    pub cpal: bool,
    /// Whether the portable audio backend is available.
    pub cubeb: bool,
    /// Whether the audio-server backend is available.
    pub pipewire: bool,
}

impl BackendSet {
    /// Whether `b` is registered in this set.
    pub open spec fn contains_spec(self, b: Backend) -> bool {
        match b {
            Backend::Cpal => self.cpal,
            Backend::Cubeb => self.cubeb,
            Backend::Pipewire => self.pipewire,
        }
    }

    /// Whether no backend at all is registered.
    pub open spec fn empty_spec(self) -> bool {
        !self.cpal && !self.cubeb && !self.pipewire
    }

    /// The registered backends in priority order, highest priority first.
    pub open spec fn backends_spec(self) -> Seq<Backend> {
        let with_cpal = if self.cpal {
            Seq::<Backend>::empty().push(Backend::Cpal)
        } else {
            Seq::<Backend>::empty()
        };
        let with_cubeb = if self.cubeb {
            with_cpal.push(Backend::Cubeb)
        } else {
            with_cpal
        };
        if self.pipewire {
            with_cubeb.push(Backend::Pipewire)
        } else {
            with_cubeb
        }
    }

    /// The backend a non-empty set resolves to: the registered backend of
    /// highest priority.
    pub open spec fn default_spec(self) -> Backend {
        if self.cpal {
            Backend::Cpal
        } else if self.cubeb {
            Backend::Cubeb
        } else {
            Backend::Pipewire
        }
    }

    /// The set with every known backend registered.
    pub open spec fn all_spec() -> BackendSet {
        BackendSet { cpal: true, cubeb: true, pipewire: true }
    }

    /// The set with every known backend registered.
    pub fn all() -> (r: BackendSet)
        ensures
            r == BackendSet::all_spec(),
    {
        BackendSet { cpal: true, cubeb: true, pipewire: true }
    }

    /// Whether `b` is registered in this set.
    pub fn contains(&self, b: Backend) -> (r: bool)
        ensures
            r == self.contains_spec(b),
    {
        match b {
            Backend::Cpal => self.cpal,
            Backend::Cubeb => self.cubeb,
            Backend::Pipewire => self.pipewire,
        }
    }

    /// Whether no backend at all is registered.
    pub fn is_empty(&self) -> (r: bool)
        ensures
            r == self.empty_spec(),
    {
        !self.cpal && !self.cubeb && !self.pipewire
    }

    /// The registered backends in priority order, highest priority first.
    pub fn backends(&self) -> (r: Vec<Backend>)
        ensures
            r@ == self.backends_spec(),
    {
        let mut v: Vec<Backend> = Vec::new();
        if self.cpal {
            v.push(Backend::Cpal);
        }
        if self.cubeb {
            v.push(Backend::Cubeb);
        }
        if self.pipewire {
            v.push(Backend::Pipewire);
        }
        proof {
            assert(v@ =~= self.backends_spec());
        }
        v
    }

    /// Resolves the default backend of this set: the registered backend of
    /// highest priority.
    ///
    /// An empty set is a build misconfiguration, excluded here by
    /// precondition; a host that cannot establish a non-empty set must
    /// treat that as fatal before asking for a default.
    pub fn default_backend(&self) -> (r: Backend)
        requires
            !self.empty_spec(),
        ensures
            r == self.default_spec(),
            r == self.backends_spec()[0],
    {
        proof {
            lemma_default_is_first(*self);
        }
        if self.cpal {
            Backend::Cpal
        } else if self.cubeb {
            Backend::Cubeb
        } else {
            Backend::Pipewire
        }
    }
}

/// Law: for every non-empty backend set, the resolved default backend is the
/// first (highest-priority) entry of the backend list, it is registered, and
/// no registered backend has a higher priority.
pub proof fn lemma_default_is_first(s: BackendSet)
    requires
        !s.empty_spec(),
    ensures
        s.backends_spec().len() > 0,
        s.default_spec() == s.backends_spec()[0],
        s.contains_spec(s.default_spec()),
        forall|b: Backend| s.contains_spec(b) ==> s.default_spec().priority() <= b.priority(),
{
    assert forall|b: Backend| s.contains_spec(b) implies s.default_spec().priority()
        <= b.priority() by {
        match b {
            Backend::Cpal => {},
            Backend::Cubeb => {},
            Backend::Pipewire => {},
        }
    }
}

/// Law: the backend list of a set is empty exactly when the set is empty,
/// lists exactly the registered backends, and is strictly ordered by
/// priority, highest priority first.
pub proof fn lemma_backends_ordered(s: BackendSet)
    ensures
        s.backends_spec().len() == 0 <==> s.empty_spec(),
        forall|i: int|
            0 <= i < s.backends_spec().len() ==> s.contains_spec(#[trigger] s.backends_spec()[i]),
        forall|b: Backend| s.contains_spec(b) ==> s.backends_spec().contains(b),
        forall|i: int, j: int|
            0 <= i < j < s.backends_spec().len() ==> s.backends_spec()[i].priority()
                < s.backends_spec()[j].priority(),
{
    assert forall|b: Backend| s.contains_spec(b) implies s.backends_spec().contains(b) by {
        let q = s.backends_spec();
        match b {
            Backend::Cpal => {
                assert(q[0] == b);
            },
            Backend::Cubeb => {
                if s.cpal {
                    assert(q[1] == b);
                } else {
                    assert(q[0] == b);
                }
            },
            Backend::Pipewire => {
                assert(q[q.len() - 1] == b);
            },
        }
    }
}

} // verus!
