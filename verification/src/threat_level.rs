//! The ordinal severity classification shared by every component.

use core::cmp::Ordering;
use vstd::prelude::*;
use vstd::std_specs::cmp::PartialOrdSpec;

verus! {

/// Threat level, from nominal (`Green`) to maximum response (`Omega`).
///
/// The levels are totally ordered by [`ThreatLevel::ordinal`]; `<`, `<=`, `>`
/// and `>=` compare ordinals.
#[derive(Debug, Clone, Copy, PartialEq, Eq, Structural, Ord, Hash)]
pub enum ThreatLevel {
    /// No threats detected, all systems nominal.
    Green,
    /// Minor anomaly, increased awareness.
    Yellow,
    /// Moderate threat, defensive measures activated.
    Orange,
    /// High threat, all deterrence systems online.
    Red,
    /// Critical threat, maximum protection.
    Omega,
}

impl ThreatLevel {
    /// Position of the level in the order: 0 for `Green` up to 4 for `Omega`.
    pub open spec fn rank(self) -> nat {
        match self {
            ThreatLevel::Green => 0,
            ThreatLevel::Yellow => 1,
            ThreatLevel::Orange => 2,
            ThreatLevel::Red => 3,
            ThreatLevel::Omega => 4,
        }
    }

    /// The upper-case name of the level.
    pub open spec fn name(self) -> Seq<char> {
        match self {
            ThreatLevel::Green => "GREEN"@,
            ThreatLevel::Yellow => "YELLOW"@,
            ThreatLevel::Orange => "ORANGE"@,
            ThreatLevel::Red => "RED"@,
            ThreatLevel::Omega => "OMEGA"@,
        }
    }

    /// The canonical one-line description of the level.
    pub open spec fn summary(self) -> Seq<char> {
        match self {
            ThreatLevel::Green => "All systems nominal. Guardian mode active."@,
            ThreatLevel::Yellow => "Anomaly detected. Heightened awareness engaged."@,
            ThreatLevel::Orange => "Moderate threat identified. Defensive protocols online."@,
            ThreatLevel::Red => "High threat confirmed. All deterrence systems activated."@,
            ThreatLevel::Omega => "Critical threat. Dark Phoenix rising. Maximum protection authorized."@,
        }
    }

    /// The greater of two levels.
    pub open spec fn higher(self, other: ThreatLevel) -> ThreatLevel {
        if other.rank() > self.rank() {
            other
        } else {
            self
        }
    }

    /// Position of the level in the order.
    pub fn ordinal(&self) -> (n: u8)
        ensures
            n == self.rank(),
    {
        match self {
            ThreatLevel::Green => 0,
            ThreatLevel::Yellow => 1,
            ThreatLevel::Orange => 2,
            ThreatLevel::Red => 3,
            ThreatLevel::Omega => 4,
        }
    }

    /// The upper-case name of the level.
    pub fn as_str(&self) -> (s: &'static str)
        ensures
            s@ == self.name(),
    {
        match self {
            ThreatLevel::Green => "GREEN",
            ThreatLevel::Yellow => "YELLOW",
            ThreatLevel::Orange => "ORANGE",
            ThreatLevel::Red => "RED",
            ThreatLevel::Omega => "OMEGA",
        }
    }

    /// The canonical one-line description of the level.
    pub fn description(&self) -> (s: &'static str)
        ensures
            s@ == self.summary(),
    {
        match self {
            ThreatLevel::Green => "All systems nominal. Guardian mode active.",
            ThreatLevel::Yellow => "Anomaly detected. Heightened awareness engaged.",
            ThreatLevel::Orange => "Moderate threat identified. Defensive protocols online.",
            ThreatLevel::Red => "High threat confirmed. All deterrence systems activated.",
            ThreatLevel::Omega => "Critical threat. Dark Phoenix rising. Maximum protection authorized.",
        }
    }
}

impl PartialOrd for ThreatLevel {
    fn partial_cmp(&self, other: &ThreatLevel) -> (r: Option<Ordering>) {
        let a: u8 = self.ordinal();
        let b: u8 = other.ordinal();
        if a < b {
            Some(Ordering::Less)
        } else if a == b {
            Some(Ordering::Equal)
        } else {
            Some(Ordering::Greater)
        }
    }
}

impl vstd::std_specs::cmp::PartialOrdSpecImpl for ThreatLevel {
    open spec fn obeys_partial_cmp_spec() -> bool {
        true
    }

    open spec fn partial_cmp_spec(&self, other: &ThreatLevel) -> Option<Ordering> {
        if self.rank() < other.rank() {
            Some(Ordering::Less)
        } else if self.rank() == other.rank() {
            Some(Ordering::Equal)
        } else {
            Some(Ordering::Greater)
        }
    }
}

/// The levels are totally ordered by their ranks: two levels of the same
/// rank are the same level, and of two different levels one is below the
/// other.
pub proof fn lemma_levels_are_totally_ordered(a: ThreatLevel, b: ThreatLevel)
    ensures
        a.rank() <= 4,
        a.rank() == b.rank() <==> a == b,
        a.partial_cmp_spec(&b) == Some(Ordering::Equal) <==> a == b,
        a.partial_cmp_spec(&b) == Some(Ordering::Less) <==> b.partial_cmp_spec(&a) == Some(
            Ordering::Greater,
        ),
        a.higher(b).rank() >= a.rank() && a.higher(b).rank() >= b.rank(),
        a.higher(b) == a || a.higher(b) == b,
{
}

} // verus!
