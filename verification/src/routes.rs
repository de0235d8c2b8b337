//! Routes, which connect sources to effects.
use vstd::prelude::*;
use crate::biquad::BiquadConfig;
use crate::effects::{GlobalEcho, GlobalFdnReverb};
use crate::handle::{Handle, ToSyzHandle};
use crate::source::{DirectSource, PannedSource, Source3D};

verus! {

/// The settings of a route. Gain and fade time are kept as the bits of
/// doubles.
#[derive(Copy, Clone, Debug, PartialEq, Eq, Structural)]
pub struct RouteConfig {
    pub gain: u64,
    pub fade_time: u64,
    pub filter: BiquadConfig,
}

/// A routing call that the binding owes the engine. Each names the
/// context, the source that the route starts from and the effect that it
/// leads to, by their identifiers.
#[derive(Copy, Clone, Debug, PartialEq, Eq, Structural)]
pub enum RouteCall {
    /// Set the route up, or change its settings.
    Config { context: u64, output: u64, input: u64, config: RouteConfig },
    /// Remove the route, fading out over the time whose bits are given.
    Remove { context: u64, output: u64, input: u64, fade_out: u64 },
}

/// A builder for the settings of a route.
#[derive(Copy, Clone, Debug)]
pub struct RouteConfigBuilder(RouteConfig);

impl RouteConfigBuilder {
    /// The settings that `build` would give now.
    pub closed spec fn config(&self) -> RouteConfig {
        self.0
    }

    /// A builder that starts from `initial`, which is what the engine
    /// fills in for a default route.
    pub fn new(initial: RouteConfig) -> (r: RouteConfigBuilder)
        ensures
            r.config() == initial,
    {
        RouteConfigBuilder(initial)
    }

    /// Sets the gain to the double with the bits `gain`.
    pub fn set_gain(self, gain: u64) -> (r: RouteConfigBuilder)
        ensures
            r.config() == (RouteConfig { gain, ..self.config() }),
    {
        let mut b = self;
        b.0.gain = gain;
        b
    }

    /// Sets the fade time to the double with the bits `fade_time`.
    pub fn set_fade_time(self, fade_time: u64) -> (r: RouteConfigBuilder)
        ensures
            r.config() == (RouteConfig { fade_time, ..self.config() }),
    {
        let mut b = self;
        b.0.fade_time = fade_time;
        b
    }

    pub fn set_filter(self, filter: BiquadConfig) -> (r: RouteConfigBuilder)
        ensures
            r.config() == (RouteConfig { filter, ..self.config() }),
    {
        let mut b = self;
        b.0.filter = filter;
        b
    }

    pub fn build(self) -> (r: RouteConfig)
        ensures
            r == self.config(),
    {
        self.0
    }
}

/// Marks what a route can lead to: an effect. A plain handle qualifies: the
/// engine checks the object's type again.
pub trait RouteInput: ToSyzHandle {
}

/// Marks what a route can start from: a source. A plain handle qualifies.
pub trait RouteOutput: ToSyzHandle {
}

impl RouteOutput for Handle {
}

impl RouteOutput for DirectSource {
}

impl RouteOutput for PannedSource {
}

impl RouteOutput for Source3D {
}

impl RouteInput for Handle {
}

impl RouteInput for GlobalEcho {
}

impl RouteInput for GlobalFdnReverb {
}

} // verus!
