//! The one place where the two kinds of target differ: everything that depends
//! on the platform is decided here and handed to the components that need it.

use vstd::prelude::*;

verus! {

/// The seed that a target without an entropy source always uses.
pub const FIXED_SEED: u64 = 0;

/// The kind of target the renderer runs on.
#[derive(Clone, Copy, Debug, PartialEq, Eq, Structural)]
pub enum Platform {
    /// A native window with the full system around it.
    Native,
    /// An embedded, sandboxed target such as a browser canvas.
    Embedded,
}

/// Where random numbers come from.
#[derive(Clone, Copy, Debug, PartialEq, Eq, Structural)]
pub enum RandomSource {
    /// A fresh sequence on every run.
    Entropy,
    /// The same sequence on every run.
    Seeded { seed: u64 },
}

/// What the colour target is cleared to before drawing.
#[derive(Clone, Copy, Debug, PartialEq, Eq, Structural)]
pub enum ClearColor {
    /// All channels zero, alpha included.
    Transparent,
    /// Black with full alpha.
    OpaqueBlack,
}

/// Which group of graphics backends is asked for.
#[derive(Clone, Copy, Debug, PartialEq, Eq, Structural)]
pub enum BackendSet {
    /// The first-class native backends.
    Primary,
    /// The fallback backends that a sandbox offers.
    Secondary,
}

impl Platform {
    /// An embedded target has no entropy and repeats one sequence; a native
    /// target draws a fresh one.
    pub open spec fn spec_random_source(self) -> RandomSource {
        match self {
            Platform::Native => RandomSource::Entropy,
            Platform::Embedded => RandomSource::Seeded { seed: FIXED_SEED },
        }
    }

    /// An embedded target clears to transparent, a native one to opaque black.
    pub open spec fn spec_clear_color(self) -> ClearColor {
        match self {
            Platform::Native => ClearColor::OpaqueBlack,
            Platform::Embedded => ClearColor::Transparent,
        }
    }

    /// A native target asks for the primary backends, an embedded one for the
    /// secondary ones.
    pub open spec fn spec_backends(self) -> BackendSet {
        match self {
            Platform::Native => BackendSet::Primary,
            Platform::Embedded => BackendSet::Secondary,
        }
    }

    pub fn random_source(self) -> (source: RandomSource)
        ensures
            source == self.spec_random_source(),
    {
        match self {
            Platform::Native => RandomSource::Entropy,
            Platform::Embedded => RandomSource::Seeded { seed: FIXED_SEED },
        }
    }

    pub fn clear_color(self) -> (color: ClearColor)
        ensures
            color == self.spec_clear_color(),
    {
        match self {
            Platform::Native => ClearColor::OpaqueBlack,
            Platform::Embedded => ClearColor::Transparent,
        }
    }

    pub fn backends(self) -> (set: BackendSet)
        ensures
            set == self.spec_backends(),
    {
        match self {
            Platform::Native => BackendSet::Primary,
            Platform::Embedded => BackendSet::Secondary,
        }
    }
}

} // verus!
