//! The enumerations that cross the boundary as 32-bit integers.
use vstd::prelude::*;

verus! {

/// An enumeration that the engine knows as a 32-bit integer.
///
/// `as_i32` gives the engine's number of a variant; `from_i32` reads a
/// number back and answers `None` for one that names no variant.
pub trait I32TransmutableEnum: Sized {
    /// The engine's number of this variant.
    spec fn code(&self) -> i32;

    /// The variant that the engine numbers `val`, if there is one.
    spec fn decode(val: i32) -> Option<Self>;

    /// Reading back the number of a variant gives that variant, and a number
    /// that reads as a variant is the number of that variant.
    proof fn code_round_trip(self, val: i32)
        ensures
            Self::decode(self.code()) == Some(self),
            Self::decode(val) matches Some(v) ==> v.code() == val,
    ;

    fn as_i32(&self) -> (r: i32)
        ensures
            r == self.code(),
    ;

    fn from_i32(val: i32) -> (r: Option<Self>)
        ensures
            r == Self::decode(val),
    ;
}

/// How a source is placed in the stereo or binaural field.
#[derive(Copy, Clone, Debug, PartialEq, Eq, Structural, PartialOrd, Ord, Hash)]
pub enum PannerStrategy {
    Delegate,
    Hrtf,
    Stereo,
}

impl I32TransmutableEnum for PannerStrategy {
    open spec fn code(&self) -> i32 {
        match self {
            PannerStrategy::Delegate => 0i32,
            PannerStrategy::Hrtf => 1i32,
            PannerStrategy::Stereo => 2i32,
        }
    }

    open spec fn decode(val: i32) -> Option<Self> {
        if val == 0i32 {
            Some(PannerStrategy::Delegate)
        } else if val == 1i32 {
            Some(PannerStrategy::Hrtf)
        } else if val == 2i32 {
            Some(PannerStrategy::Stereo)
        } else {
            None
        }
    }

    proof fn code_round_trip(self, val: i32) {
    }

    fn as_i32(&self) -> (r: i32) {
        match self {
            PannerStrategy::Delegate => 0i32,
            PannerStrategy::Hrtf => 1i32,
            PannerStrategy::Stereo => 2i32,
        }
    }

    fn from_i32(val: i32) -> (r: Option<Self>) {
        match val {
            0i32 => Some(PannerStrategy::Delegate),
            1i32 => Some(PannerStrategy::Hrtf),
            2i32 => Some(PannerStrategy::Stereo),
            _ => None,
        }
    }
}

/// How gain falls off with distance.
#[derive(Copy, Clone, Debug, PartialEq, Eq, Structural, PartialOrd, Ord, Hash)]
pub enum DistanceModel {
    Off,
    Linear,
    Exponential,
    Inverse,
}

impl I32TransmutableEnum for DistanceModel {
    open spec fn code(&self) -> i32 {
        match self {
            DistanceModel::Off => 0i32,
            DistanceModel::Linear => 1i32,
            DistanceModel::Exponential => 2i32,
            DistanceModel::Inverse => 3i32,
        }
    }

    open spec fn decode(val: i32) -> Option<Self> {
        if val == 0i32 {
            Some(DistanceModel::Off)
        } else if val == 1i32 {
            Some(DistanceModel::Linear)
        } else if val == 2i32 {
            Some(DistanceModel::Exponential)
        } else if val == 3i32 {
            Some(DistanceModel::Inverse)
        } else {
            None
        }
    }

    proof fn code_round_trip(self, val: i32) {
    }

    fn as_i32(&self) -> (r: i32) {
        match self {
            DistanceModel::Off => 0i32,
            DistanceModel::Linear => 1i32,
            DistanceModel::Exponential => 2i32,
            DistanceModel::Inverse => 3i32,
        }
    }

    fn from_i32(val: i32) -> (r: Option<Self>) {
        match val {
            0i32 => Some(DistanceModel::Off),
            1i32 => Some(DistanceModel::Linear),
            2i32 => Some(DistanceModel::Exponential),
            3i32 => Some(DistanceModel::Inverse),
            _ => None,
        }
    }
}

/// The algorithm of a noise generator.
#[derive(Copy, Clone, Debug, PartialEq, Eq, Structural, PartialOrd, Ord, Hash)]
pub enum NoiseType {
    Uniform,
    Vm,
    FilteredBrown,
}

impl I32TransmutableEnum for NoiseType {
    open spec fn code(&self) -> i32 {
        match self {
            NoiseType::Uniform => 0i32,
            NoiseType::Vm => 1i32,
            NoiseType::FilteredBrown => 2i32,
        }
    }

    open spec fn decode(val: i32) -> Option<Self> {
        if val == 0i32 {
            Some(NoiseType::Uniform)
        } else if val == 1i32 {
            Some(NoiseType::Vm)
        } else if val == 2i32 {
            Some(NoiseType::FilteredBrown)
        } else {
            None
        }
    }

    proof fn code_round_trip(self, val: i32) {
    }

    fn as_i32(&self) -> (r: i32) {
        match self {
            NoiseType::Uniform => 0i32,
            NoiseType::Vm => 1i32,
            NoiseType::FilteredBrown => 2i32,
        }
    }

    fn from_i32(val: i32) -> (r: Option<Self>) {
        match val {
            0i32 => Some(NoiseType::Uniform),
            1i32 => Some(NoiseType::Vm),
            2i32 => Some(NoiseType::FilteredBrown),
            _ => None,
        }
    }
}

/// The runtime tag of an engine object.
#[derive(Copy, Clone, Debug, PartialEq, Eq, Structural, PartialOrd, Ord, Hash)]
pub enum ObjectType {
    Context,
    Buffer,
    BufferGenerator,
    StreamingGenerator,
    NoiseGenerator,
    DirectSource,
    AngularPannedSource,
    ScalarPannedSource,
    Source3D,
    GlobalEcho,
    GlobalFdnReverb,
    StreamHandle,
    AutomationBatch,
    FastSineBankGenerator,
}

impl I32TransmutableEnum for ObjectType {
    open spec fn code(&self) -> i32 {
        match self {
            ObjectType::Context => 0i32,
            ObjectType::Buffer => 1i32,
            ObjectType::BufferGenerator => 2i32,
            ObjectType::StreamingGenerator => 3i32,
            ObjectType::NoiseGenerator => 4i32,
            ObjectType::DirectSource => 5i32,
            ObjectType::AngularPannedSource => 6i32,
            ObjectType::ScalarPannedSource => 7i32,
            ObjectType::Source3D => 8i32,
            ObjectType::GlobalEcho => 9i32,
            ObjectType::GlobalFdnReverb => 10i32,
            ObjectType::StreamHandle => 11i32,
            ObjectType::AutomationBatch => 12i32,
            ObjectType::FastSineBankGenerator => 13i32,
        }
    }

    open spec fn decode(val: i32) -> Option<Self> {
        if val == 0i32 {
            Some(ObjectType::Context)
        } else if val == 1i32 {
            Some(ObjectType::Buffer)
        } else if val == 2i32 {
            Some(ObjectType::BufferGenerator)
        } else if val == 3i32 {
            Some(ObjectType::StreamingGenerator)
        } else if val == 4i32 {
            Some(ObjectType::NoiseGenerator)
        } else if val == 5i32 {
            Some(ObjectType::DirectSource)
        } else if val == 6i32 {
            Some(ObjectType::AngularPannedSource)
        } else if val == 7i32 {
            Some(ObjectType::ScalarPannedSource)
        } else if val == 8i32 {
            Some(ObjectType::Source3D)
        } else if val == 9i32 {
            Some(ObjectType::GlobalEcho)
        } else if val == 10i32 {
            Some(ObjectType::GlobalFdnReverb)
        } else if val == 11i32 {
            Some(ObjectType::StreamHandle)
        } else if val == 12i32 {
            Some(ObjectType::AutomationBatch)
        } else if val == 13i32 {
            Some(ObjectType::FastSineBankGenerator)
        } else {
            None
        }
    }

    proof fn code_round_trip(self, val: i32) {
    }

    fn as_i32(&self) -> (r: i32) {
        match self {
            ObjectType::Context => 0i32,
            ObjectType::Buffer => 1i32,
            ObjectType::BufferGenerator => 2i32,
            ObjectType::StreamingGenerator => 3i32,
            ObjectType::NoiseGenerator => 4i32,
            ObjectType::DirectSource => 5i32,
            ObjectType::AngularPannedSource => 6i32,
            ObjectType::ScalarPannedSource => 7i32,
            ObjectType::Source3D => 8i32,
            ObjectType::GlobalEcho => 9i32,
            ObjectType::GlobalFdnReverb => 10i32,
            ObjectType::StreamHandle => 11i32,
            ObjectType::AutomationBatch => 12i32,
            ObjectType::FastSineBankGenerator => 13i32,
        }
    }

    fn from_i32(val: i32) -> (r: Option<Self>) {
        match val {
            0i32 => Some(ObjectType::Context),
            1i32 => Some(ObjectType::Buffer),
            2i32 => Some(ObjectType::BufferGenerator),
            3i32 => Some(ObjectType::StreamingGenerator),
            4i32 => Some(ObjectType::NoiseGenerator),
            5i32 => Some(ObjectType::DirectSource),
            6i32 => Some(ObjectType::AngularPannedSource),
            7i32 => Some(ObjectType::ScalarPannedSource),
            8i32 => Some(ObjectType::Source3D),
            9i32 => Some(ObjectType::GlobalEcho),
            10i32 => Some(ObjectType::GlobalFdnReverb),
            11i32 => Some(ObjectType::StreamHandle),
            12i32 => Some(ObjectType::AutomationBatch),
            13i32 => Some(ObjectType::FastSineBankGenerator),
            _ => None,
        }
    }
}

/// How an automated property moves between two points.
#[derive(Copy, Clone, Debug, PartialEq, Eq, Structural, PartialOrd, Ord, Hash)]
pub enum InterpolationType {
    Off,
    Linear,
}

impl I32TransmutableEnum for InterpolationType {
    open spec fn code(&self) -> i32 {
        match self {
            InterpolationType::Off => 0i32,
            InterpolationType::Linear => 1i32,
        }
    }

    open spec fn decode(val: i32) -> Option<Self> {
        if val == 0i32 {
            Some(InterpolationType::Off)
        } else if val == 1i32 {
            Some(InterpolationType::Linear)
        } else {
            None
        }
    }

    proof fn code_round_trip(self, val: i32) {
    }

    fn as_i32(&self) -> (r: i32) {
        match self {
            InterpolationType::Off => 0i32,
            InterpolationType::Linear => 1i32,
        }
    }

    fn from_i32(val: i32) -> (r: Option<Self>) {
        match val {
            0i32 => Some(InterpolationType::Off),
            1i32 => Some(InterpolationType::Linear),
            _ => None,
        }
    }
}

/// How much the engine logs.
#[derive(Copy, Clone, Debug, PartialEq, Eq, Structural, PartialOrd, Ord, Hash)]
pub enum LogLevel {
    Error,
    Warn,
    Info,
    Debug,
}

impl I32TransmutableEnum for LogLevel {
    open spec fn code(&self) -> i32 {
        match self {
            LogLevel::Error => 0i32,
            LogLevel::Warn => 10i32,
            LogLevel::Info => 20i32,
            LogLevel::Debug => 30i32,
        }
    }

    open spec fn decode(val: i32) -> Option<Self> {
        if val == 0i32 {
            Some(LogLevel::Error)
        } else if val == 10i32 {
            Some(LogLevel::Warn)
        } else if val == 20i32 {
            Some(LogLevel::Info)
        } else if val == 30i32 {
            Some(LogLevel::Debug)
        } else {
            None
        }
    }

    proof fn code_round_trip(self, val: i32) {
    }

    fn as_i32(&self) -> (r: i32) {
        match self {
            LogLevel::Error => 0i32,
            LogLevel::Warn => 10i32,
            LogLevel::Info => 20i32,
            LogLevel::Debug => 30i32,
        }
    }

    fn from_i32(val: i32) -> (r: Option<Self>) {
        match val {
            0i32 => Some(LogLevel::Error),
            10i32 => Some(LogLevel::Warn),
            20i32 => Some(LogLevel::Info),
            30i32 => Some(LogLevel::Debug),
            _ => None,
        }
    }
}

} // verus!
