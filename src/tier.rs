use vstd::prelude::*;

verus! {

/// Escalation level of the displayed content, ordered by intensity.
#[derive(Debug, Clone, Copy, PartialEq, Eq, Structural)]
pub enum Tier {
    Baseline,
    Ambient,
    Familiar,
    Invasive,
    Cosmic,
}

/// Position of a tier in the escalation order (Baseline is 0, Cosmic is 4).
pub open spec fn rank(t: Tier) -> nat {
    match t {
        Tier::Baseline => 0,
        Tier::Ambient => 1,
        Tier::Familiar => 2,
        Tier::Invasive => 3,
        Tier::Cosmic => 4,
    }
}

/// The tier of a cycle: 1, then 2-3, 4-5, 6-8, and 9 onwards.
pub open spec fn tier_of(cycle: int) -> Tier {
    if cycle <= 1 {
        Tier::Baseline
    } else if cycle <= 3 {
        Tier::Ambient
    } else if cycle <= 5 {
        Tier::Familiar
    } else if cycle <= 8 {
        Tier::Invasive
    } else {
        Tier::Cosmic
    }
}

/// Emission probability of a tier, in hundredths.
pub open spec fn percent_of(t: Tier) -> nat {
    match t {
        Tier::Baseline => 15,
        Tier::Ambient => 20,
        Tier::Familiar => 25,
        Tier::Invasive => 30,
        Tier::Cosmic => 35,
    }
}

impl Tier {
    /// The tier reached at a given cycle (cycles count from 1).
    pub fn from_cycle(cycle: u32) -> (r: Tier)
        requires
            cycle >= 1,
        ensures
            r == tier_of(cycle as int),
    {
        if cycle <= 1 {
            Tier::Baseline
        } else if cycle <= 3 {
            Tier::Ambient
        } else if cycle <= 5 {
            Tier::Familiar
        } else if cycle <= 8 {
            Tier::Invasive
        } else {
            Tier::Cosmic
        }
    }

    /// Probability, in hundredths, that a message is shown at this tier.
    pub fn message_probability(&self) -> (r: u32)
        ensures
            r as nat == percent_of(*self),
            r <= 100,
    {
        match self {
            Tier::Baseline => 15,
            Tier::Ambient => 20,
            Tier::Familiar => 25,
            Tier::Invasive => 30,
            Tier::Cosmic => 35,
        }
    }

    /// Position of this tier in the escalation order.
    pub fn level(&self) -> (r: u8)
        ensures
            r as nat == rank(*self),
    {
        match self {
            Tier::Baseline => 0,
            Tier::Ambient => 1,
            Tier::Familiar => 2,
            Tier::Invasive => 3,
            Tier::Cosmic => 4,
        }
    }
}

/// Tiers never regress: a later cycle is at least as intense as an earlier one.
pub proof fn lemma_tier_monotone(a: int, b: int)
    requires
        1 <= a <= b,
    ensures
        rank(tier_of(a)) <= rank(tier_of(b)),
{
}

/// The tier table at its boundaries.
pub proof fn lemma_tier_boundaries()
    ensures
        tier_of(1) == Tier::Baseline,
        tier_of(2) == Tier::Ambient,
        tier_of(3) == Tier::Ambient,
        tier_of(4) == Tier::Familiar,
        tier_of(5) == Tier::Familiar,
        tier_of(6) == Tier::Invasive,
        tier_of(8) == Tier::Invasive,
        tier_of(9) == Tier::Cosmic,
        forall|c: int| c >= 9 ==> tier_of(c) == Tier::Cosmic,
{
}

/// Each tier's emission probability: 0.15, 0.20, 0.25, 0.30 and 0.35.
pub proof fn lemma_tier_probabilities()
    ensures
        percent_of(Tier::Baseline) == 15,
        percent_of(Tier::Ambient) == 20,
        percent_of(Tier::Familiar) == 25,
        percent_of(Tier::Invasive) == 30,
        percent_of(Tier::Cosmic) == 35,
        forall|t: Tier| percent_of(t) <= 100,
{
}

} // verus!
