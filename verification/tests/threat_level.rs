use dark_phoenix::threat_level::ThreatLevel;

const LEVELS: [ThreatLevel; 5] = [
    ThreatLevel::Green,
    ThreatLevel::Yellow,
    ThreatLevel::Orange,
    ThreatLevel::Red,
    ThreatLevel::Omega,
];

#[test]
fn level_names_are_upper_case() {
    assert_eq!(ThreatLevel::Green.as_str(), "GREEN");
    assert_eq!(ThreatLevel::Yellow.as_str(), "YELLOW");
    assert_eq!(ThreatLevel::Orange.as_str(), "ORANGE");
    assert_eq!(ThreatLevel::Red.as_str(), "RED");
    assert_eq!(ThreatLevel::Omega.as_str(), "OMEGA");
}

#[test]
fn level_descriptions() {
    assert_eq!(
        ThreatLevel::Green.description(),
        "All systems nominal. Guardian mode active."
    );
    assert_eq!(
        ThreatLevel::Yellow.description(),
        "Anomaly detected. Heightened awareness engaged."
    );
    assert_eq!(
        ThreatLevel::Orange.description(),
        "Moderate threat identified. Defensive protocols online."
    );
    assert_eq!(
        ThreatLevel::Red.description(),
        "High threat confirmed. All deterrence systems activated."
    );
    assert_eq!(
        ThreatLevel::Omega.description(),
        "Critical threat. Dark Phoenix rising. Maximum protection authorized."
    );
}

#[test]
fn ordinals_run_from_zero_to_four() {
    for (expected, level) in LEVELS.iter().enumerate() {
        assert_eq!(level.ordinal() as usize, expected);
    }
}

#[test]
fn levels_compare_by_ordinal() {
    for a in LEVELS.iter() {
        for b in LEVELS.iter() {
            assert_eq!(a < b, a.ordinal() < b.ordinal());
            assert_eq!(a <= b, a.ordinal() <= b.ordinal());
            assert_eq!(a > b, a.ordinal() > b.ordinal());
            assert_eq!(a >= b, a.ordinal() >= b.ordinal());
            assert_eq!(a == b, a.ordinal() == b.ordinal());
            assert_eq!(a.cmp(b), a.ordinal().cmp(&b.ordinal()));
            assert_eq!(a.partial_cmp(b), Some(a.ordinal().cmp(&b.ordinal())));
        }
    }
    assert!(ThreatLevel::Green < ThreatLevel::Omega);
    assert_eq!(LEVELS.iter().max(), Some(&ThreatLevel::Omega));
}
