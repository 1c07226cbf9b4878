//! The expressive and standard motion schemes.
use crate::tokens::motion_tokens::schemes;
use crate::tokens::motion_tokens::{SpringSpec, CRITICAL_DAMPING_MILLI};
use vstd::prelude::*;

verus! {

/// The two motion schemes.
#[derive(Clone, Copy, Debug, PartialEq, Eq, Hash, Structural)]
pub enum SchemeKind {
    Expressive,
    Standard,
}

/// How fast a transition runs.
#[derive(Clone, Copy, Debug, PartialEq, Eq, Hash, Structural)]
pub enum Tempo {
    Fast,
    Default,
    Slow,
}

/// What a spring animates: position and size (spatial) or color and
/// opacity (effects).
#[derive(Clone, Copy, Debug, PartialEq, Eq, Hash, Structural)]
pub enum Track {
    Spatial,
    Effects,
}

/// A motion scheme.
#[derive(Clone, Copy, Debug, PartialEq, Eq, Structural)]
pub struct MotionScheme {
    pub kind: SchemeKind,
}

/// The rank of a tempo, fastest first.
pub open spec fn tempo_rank(t: Tempo) -> int {
    match t {
        Tempo::Fast => 0,
        Tempo::Default => 1,
        Tempo::Slow => 2,
    }
}

/// The spring token that a scheme uses for a tempo and a track.
pub open spec fn scheme_spring(kind: SchemeKind, tempo: Tempo, track: Track) -> SpringSpec {
    match (kind, tempo, track) {
        (SchemeKind::Expressive, Tempo::Fast, Track::Spatial) => SpringSpec { damping_ratio_milli: 600, stiffness: 800 },
        (SchemeKind::Expressive, Tempo::Default, Track::Spatial) => SpringSpec { damping_ratio_milli: 800, stiffness: 380 },
        (SchemeKind::Expressive, Tempo::Slow, Track::Spatial) => SpringSpec { damping_ratio_milli: 800, stiffness: 200 },
        (SchemeKind::Expressive, Tempo::Fast, Track::Effects) => SpringSpec { damping_ratio_milli: 1000, stiffness: 3800 },
        (SchemeKind::Expressive, Tempo::Default, Track::Effects) => SpringSpec { damping_ratio_milli: 1000, stiffness: 1600 },
        (SchemeKind::Expressive, Tempo::Slow, Track::Effects) => SpringSpec { damping_ratio_milli: 1000, stiffness: 800 },
        (SchemeKind::Standard, Tempo::Fast, Track::Spatial) => SpringSpec { damping_ratio_milli: 900, stiffness: 1400 },
        (SchemeKind::Standard, Tempo::Default, Track::Spatial) => SpringSpec { damping_ratio_milli: 900, stiffness: 700 },
        (SchemeKind::Standard, Tempo::Slow, Track::Spatial) => SpringSpec { damping_ratio_milli: 900, stiffness: 300 },
        (SchemeKind::Standard, Tempo::Fast, Track::Effects) => SpringSpec { damping_ratio_milli: 1000, stiffness: 3800 },
        (SchemeKind::Standard, Tempo::Default, Track::Effects) => SpringSpec { damping_ratio_milli: 1000, stiffness: 1600 },
        (SchemeKind::Standard, Tempo::Slow, Track::Effects) => SpringSpec { damping_ratio_milli: 1000, stiffness: 800 },
    }
}

impl MotionScheme {
    /// The expressive scheme: bouncy spatial springs.
    pub fn expressive() -> (m: Self)
        ensures
            m.kind == SchemeKind::Expressive,
    {
        Self { kind: SchemeKind::Expressive }
    }

    /// The standard scheme: calmer spatial springs.
    pub fn standard() -> (m: Self)
        ensures
            m.kind == SchemeKind::Standard,
    {
        Self { kind: SchemeKind::Standard }
    }

    /// The spring token for a tempo and a track in this scheme.
    pub fn spec(self, tempo: Tempo, track: Track) -> (s: SpringSpec)
        ensures
            s == scheme_spring(self.kind, tempo, track),
    {
        match (self.kind, tempo, track) {
            (SchemeKind::Expressive, Tempo::Fast, Track::Spatial) => schemes::expressive_fast_spatial(),
            (SchemeKind::Expressive, Tempo::Default, Track::Spatial) => schemes::expressive_default_spatial(),
            (SchemeKind::Expressive, Tempo::Slow, Track::Spatial) => schemes::expressive_slow_spatial(),
            (SchemeKind::Expressive, Tempo::Fast, Track::Effects) => schemes::expressive_fast_effects(),
            (SchemeKind::Expressive, Tempo::Default, Track::Effects) => schemes::expressive_default_effects(),
            (SchemeKind::Expressive, Tempo::Slow, Track::Effects) => schemes::expressive_slow_effects(),
            (SchemeKind::Standard, Tempo::Fast, Track::Spatial) => schemes::standard_fast_spatial(),
            (SchemeKind::Standard, Tempo::Default, Track::Spatial) => schemes::standard_default_spatial(),
            (SchemeKind::Standard, Tempo::Slow, Track::Spatial) => schemes::standard_slow_spatial(),
            (SchemeKind::Standard, Tempo::Fast, Track::Effects) => schemes::standard_fast_effects(),
            (SchemeKind::Standard, Tempo::Default, Track::Effects) => schemes::standard_default_effects(),
            (SchemeKind::Standard, Tempo::Slow, Track::Effects) => schemes::standard_slow_effects(),
        }
    }

    /// The springs components use by default: the fast spatial and the fast
    /// effects spring of this scheme.
    pub fn default_component_specs(self) -> (p: (SpringSpec, SpringSpec))
        ensures
            p.0 == scheme_spring(self.kind, Tempo::Fast, Track::Spatial),
            p.1 == scheme_spring(self.kind, Tempo::Fast, Track::Effects),
    {
        (self.spec(Tempo::Fast, Track::Spatial), self.spec(Tempo::Fast, Track::Effects))
    }
}

/// Law: effects springs are exactly critically damped (they never
/// overshoot), while spatial springs are damped below critical (they do).
pub proof fn lemma_tracks_split_by_damping(kind: SchemeKind, tempo: Tempo)
    ensures
        scheme_spring(kind, tempo, Track::Effects).damping_ratio_milli == CRITICAL_DAMPING_MILLI,
        scheme_spring(kind, tempo, Track::Spatial).damping_ratio_milli < CRITICAL_DAMPING_MILLI,
{
}

/// Law: at every tempo the expressive spatial spring is bouncier (less
/// damped) than the standard one, and the effects springs of the two
/// schemes are the same.
pub proof fn lemma_expressive_bouncier(tempo: Tempo)
    ensures
        scheme_spring(SchemeKind::Expressive, tempo, Track::Spatial).damping_ratio_milli
            < scheme_spring(SchemeKind::Standard, tempo, Track::Spatial).damping_ratio_milli,
        scheme_spring(SchemeKind::Expressive, tempo, Track::Effects)
            == scheme_spring(SchemeKind::Standard, tempo, Track::Effects),
{
}

/// Law: within a scheme and a track, a faster tempo uses a strictly stiffer
/// spring that is never more damped than a slower one.
pub proof fn lemma_faster_is_stiffer(kind: SchemeKind, track: Track, a: Tempo, b: Tempo)
    requires
        tempo_rank(a) < tempo_rank(b),
    ensures
        scheme_spring(kind, a, track).stiffness > scheme_spring(kind, b, track).stiffness,
        scheme_spring(kind, a, track).damping_ratio_milli <= scheme_spring(kind, b, track).damping_ratio_milli,
{
}

} // verus!
