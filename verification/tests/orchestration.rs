use dark_phoenix::command_state::{DroneState, EventType};
use dark_phoenix::orchestration::{
    CycleOutcome, DarkPhoenixCore, ResponsePosture, CRITICAL_BATTERY, CYCLE_PERIOD_MILLIS,
};
use dark_phoenix::stamp::Timestamp;
use dark_phoenix::threat_detection::{ThreatAssessment, ThreatEvidence, UltraSeekerEngine};
use dark_phoenix::threat_level::ThreatLevel;

const LEVELS: [ThreatLevel; 5] = [
    ThreatLevel::Green,
    ThreatLevel::Yellow,
    ThreatLevel::Orange,
    ThreatLevel::Red,
    ThreatLevel::Omega,
];

fn at(millis: i64) -> Timestamp {
    Timestamp::from_millis(millis)
}

fn unit() -> DroneState {
    DroneState::new_at("Alpha".to_string(), 42, at(1_000))
}

fn engine_core() -> DarkPhoenixCore {
    DarkPhoenixCore::with_state(unit())
}

fn assessed(level: ThreatLevel, description: &str) -> ThreatAssessment {
    ThreatAssessment {
        id: 1,
        timestamp: at(0),
        threat_level: level,
        confidence: 900,
        threat_types: vec![],
        position: None,
        description: description.to_string(),
        recommended_actions: vec![],
        evidence: ThreatEvidence {
            visual_data: None,
            audio_data: None,
            movement_data: None,
            biometric_data: None,
            environmental_data: None,
        },
    }
}

#[test]
fn ten_cycles_a_second() {
    assert_eq!(CYCLE_PERIOD_MILLIS, 100);
    assert_eq!(CRITICAL_BATTERY, 20);
}

#[test]
fn postures_and_their_notices() {
    let expected = [
        (ResponsePosture::PassiveMonitoring, None),
        (ResponsePosture::HeightenedAwareness, Some("🟡 Heightened awareness mode active")),
        (ResponsePosture::DefensiveProtocols, Some("🟠 Defensive protocols engaged")),
        (ResponsePosture::AllSystemsActive, Some("🔴 High threat - all systems active")),
        (ResponsePosture::OmegaProtocol, Some("💀 OMEGA PROTOCOL - DARK PHOENIX RISING 💀")),
    ];
    for (level, (posture, notice)) in LEVELS.iter().zip(expected) {
        let mut state = unit();
        state.threat_level = *level;
        assert_eq!(DarkPhoenixCore::coordinate_response(&state), posture);
        assert_eq!(posture.notice(), notice);
    }
}

#[test]
fn a_new_core_is_in_flight() {
    let phoenix = DarkPhoenixCore::new("Dark Phoenix Alpha".to_string());
    assert!(!phoenix.has_landed());
    assert_eq!(phoenix.state().name, "Dark Phoenix Alpha");
    assert_eq!(phoenix.state().threat_level, ThreatLevel::Green);
    assert!(phoenix.state().mission_log.is_empty());
    assert_eq!(
        phoenix.get_status(),
        "🕊️ Dark Phoenix Dark Phoenix Alpha - Status: GREEN 🕊️\nBattery: 100% | Shield: 100% | Flight Time: 60min\nAll systems nominal. Guardian mode active."
    );
    assert_eq!(phoenix.get_status(), phoenix.state().mythic_status());
}

#[test]
fn igniting_logs_the_awakening() {
    let mut phoenix = engine_core();
    phoenix.ignite_at(5, at(2_000));
    assert_eq!(phoenix.state().mission_log.len(), 1);
    let event = &phoenix.state().mission_log[0];
    assert_eq!(event.id, 5);
    assert_eq!(event.timestamp, at(2_000));
    assert_eq!(event.event_type, EventType::CeremonialActivation);
    assert_eq!(event.description, "Dark Phoenix has awakened. Guardian protocols active.");
    assert_eq!(
        event.response_actions,
        vec!["All systems online".to_string(), "Protection mode engaged".to_string()]
    );
    assert_eq!(event.threat_level, ThreatLevel::Green);
    assert!(!phoenix.has_landed());
    phoenix.ignite();
    assert_eq!(phoenix.state().mission_log.len(), 2);
    assert_eq!(phoenix.state().mission_log[1].event_type, EventType::CeremonialActivation);
}

#[test]
fn a_cycle_drains_the_battery_by_one_percent() {
    let mut phoenix = engine_core();
    let outcome = phoenix.protection_cycle_at(None, 1, 2, at(1_100));
    assert_eq!(
        outcome,
        CycleOutcome::Completed { level: ThreatLevel::Green, posture: ResponsePosture::PassiveMonitoring }
    );
    assert_eq!(phoenix.state().system_health.battery_level, 99);
    assert_eq!(phoenix.state().threat_level, ThreatLevel::Green);
    assert!(phoenix.state().mission_log.is_empty());
    assert_eq!(phoenix.state().last_update, at(1_000));
}

#[test]
fn a_critical_battery_escalates_to_orange() {
    let mut phoenix = engine_core();
    for tick in 0..80 {
        let outcome = phoenix.protection_cycle_at(None, 1, 2, at(2_000 + tick));
        assert_eq!(
            outcome,
            CycleOutcome::Completed { level: ThreatLevel::Green, posture: ResponsePosture::PassiveMonitoring }
        );
    }
    assert_eq!(phoenix.state().system_health.battery_level, 20);
    assert!(phoenix.state().mission_log.is_empty());
    let outcome = phoenix.protection_cycle_at(None, 7, 8, at(9_000));
    assert_eq!(
        outcome,
        CycleOutcome::Completed { level: ThreatLevel::Orange, posture: ResponsePosture::DefensiveProtocols }
    );
    assert_eq!(phoenix.state().system_health.battery_level, 19);
    assert_eq!(phoenix.state().threat_level, ThreatLevel::Orange);
    assert_eq!(phoenix.state().mission_log.len(), 1);
    let event = &phoenix.state().mission_log[0];
    assert_eq!(event.id, 7);
    assert_eq!(event.timestamp, at(9_000));
    assert_eq!(event.event_type, EventType::ThreatDetected);
    assert_eq!(event.description, "Threat level escalated to ORANGE: Critical battery level detected");
    assert!(phoenix.state().is_critical());
    // The battery never goes under zero, and the escalation happens once.
    for tick in 0..40 {
        phoenix.protection_cycle_at(None, 9, 10, at(10_000 + tick));
    }
    assert_eq!(phoenix.state().system_health.battery_level, 0);
    assert_eq!(phoenix.state().threat_level, ThreatLevel::Orange);
    assert_eq!(phoenix.state().mission_log.len(), 1);
}

#[test]
fn a_critical_battery_leaves_a_higher_level_alone() {
    let mut state = unit();
    state.threat_level = ThreatLevel::Red;
    state.system_health.battery_level = 5;
    let mut phoenix = DarkPhoenixCore::with_state(state);
    let outcome = phoenix.protection_cycle_at(None, 1, 2, at(2_000));
    assert_eq!(
        outcome,
        CycleOutcome::Completed { level: ThreatLevel::Red, posture: ResponsePosture::AllSystemsActive }
    );
    assert_eq!(phoenix.state().system_health.battery_level, 4);
    assert!(phoenix.state().mission_log.is_empty());
}

#[test]
fn an_assessment_escalates_and_never_lowers() {
    let mut phoenix = engine_core();
    let red = assessed(ThreatLevel::Red, "weapon drawn");
    let outcome = phoenix.protection_cycle_at(Some(&red), 1, 2, at(2_000));
    assert_eq!(
        outcome,
        CycleOutcome::Completed { level: ThreatLevel::Red, posture: ResponsePosture::AllSystemsActive }
    );
    assert_eq!(phoenix.state().threat_level, ThreatLevel::Red);
    assert_eq!(phoenix.state().mission_log.len(), 1);
    assert_eq!(phoenix.state().mission_log[0].id, 2);
    assert_eq!(phoenix.state().mission_log[0].description, "Threat level escalated to RED: weapon drawn");

    let calm = assessed(ThreatLevel::Green, "all quiet");
    let outcome = phoenix.protection_cycle_at(Some(&calm), 3, 4, at(2_100));
    assert_eq!(
        outcome,
        CycleOutcome::Completed { level: ThreatLevel::Red, posture: ResponsePosture::AllSystemsActive }
    );
    assert_eq!(phoenix.state().threat_level, ThreatLevel::Red);
    assert_eq!(phoenix.state().mission_log.len(), 1);

    let omega = assessed(ThreatLevel::Omega, "shots fired");
    let outcome = phoenix.protection_cycle_at(Some(&omega), 5, 6, at(2_200));
    assert_eq!(
        outcome,
        CycleOutcome::Completed { level: ThreatLevel::Omega, posture: ResponsePosture::OmegaProtocol }
    );
    assert_eq!(phoenix.state().mission_log.len(), 2);
    assert_eq!(phoenix.state().system_health.battery_level, 97);
}

#[test]
fn battery_and_assessment_can_both_escalate_in_one_cycle() {
    let mut state = unit();
    state.system_health.battery_level = 20;
    let mut phoenix = DarkPhoenixCore::with_state(state);
    let red = assessed(ThreatLevel::Red, "intruder");
    phoenix.protection_cycle_at(Some(&red), 11, 12, at(3_000));
    let log = &phoenix.state().mission_log;
    assert_eq!(log.len(), 2);
    assert_eq!(log[0].id, 11);
    assert_eq!(log[0].threat_level, ThreatLevel::Orange);
    assert_eq!(log[1].id, 12);
    assert_eq!(log[1].threat_level, ThreatLevel::Red);
    assert_eq!(phoenix.state().threat_level, ThreatLevel::Red);
}

#[test]
fn the_steps_of_a_cycle_one_by_one() {
    let mut state = unit();
    state.system_health.battery_level = 1;
    DarkPhoenixCore::update_system_health(&mut state, 1, at(10));
    assert_eq!(state.system_health.battery_level, 0);
    assert_eq!(state.threat_level, ThreatLevel::Orange);
    DarkPhoenixCore::update_system_health(&mut state, 2, at(20));
    assert_eq!(state.system_health.battery_level, 0);
    assert_eq!(state.mission_log.len(), 1);
    DarkPhoenixCore::assess_threats(&mut state, None, 3, at(30));
    assert_eq!(state.mission_log.len(), 1);
    let yellow = assessed(ThreatLevel::Yellow, "rustling");
    DarkPhoenixCore::assess_threats(&mut state, Some(&yellow), 4, at(40));
    assert_eq!(state.threat_level, ThreatLevel::Orange);
    assert_eq!(state.mission_log.len(), 1);
    let omega = assessed(ThreatLevel::Omega, "fire");
    DarkPhoenixCore::assess_threats(&mut state, Some(&omega), 5, at(50));
    assert_eq!(state.threat_level, ThreatLevel::Omega);
    assert_eq!(state.mission_log.len(), 2);
    assert_eq!(state.system_health.battery_level, 0);
}

#[test]
fn an_emergency_landing_halts_the_cycling() {
    let mut phoenix = engine_core();
    phoenix.protection_cycle_at(None, 1, 2, at(2_000));
    phoenix.emergency_landing_at(3, at(3_000));
    assert!(phoenix.has_landed());
    assert_eq!(phoenix.state().mission_log.len(), 1);
    let event = &phoenix.state().mission_log[0];
    assert_eq!(event.id, 3);
    assert_eq!(event.event_type, EventType::SystemMalfunction);
    assert_eq!(event.description, "Emergency landing initiated");
    assert_eq!(event.response_actions, vec!["All systems shutting down safely".to_string()]);

    let before = format!("{:?}", phoenix.state());
    let omega = assessed(ThreatLevel::Omega, "too late");
    for tick in 0..5 {
        assert_eq!(phoenix.protection_cycle_at(Some(&omega), 4, 5, at(4_000 + tick)), CycleOutcome::Halted);
        assert_eq!(phoenix.protection_cycle(Some(&omega)), CycleOutcome::Halted);
        assert_eq!(phoenix.protection_cycle(None), CycleOutcome::Halted);
    }
    assert_eq!(format!("{:?}", phoenix.state()), before);
    assert_eq!(phoenix.state().system_health.battery_level, 99);
    assert_eq!(phoenix.state().threat_level, ThreatLevel::Green);
}

#[test]
fn cycling_by_the_clock_with_the_built_in_generator() {
    let mut phoenix = DarkPhoenixCore::new("Beta".to_string());
    let mut engine = UltraSeekerEngine::new(Default::default());
    phoenix.ignite();
    let mut level = phoenix.state().threat_level;
    for _ in 0..30 {
        let assessment = engine.analyze_threats();
        let outcome = phoenix.protection_cycle(Some(&assessment));
        let now = phoenix.state().threat_level;
        assert!(now >= level);
        assert!(now >= assessment.threat_level);
        assert_eq!(outcome, CycleOutcome::Completed { level: now, posture: DarkPhoenixCore::coordinate_response(phoenix.state()) });
        level = now;
    }
    assert_eq!(phoenix.state().system_health.battery_level, 70);
    phoenix.emergency_landing();
    assert!(phoenix.has_landed());
    let last = phoenix.state().mission_log.last().unwrap();
    assert_eq!(last.event_type, EventType::SystemMalfunction);
    assert_eq!(phoenix.protection_cycle(None), CycleOutcome::Halted);
    assert_eq!(phoenix.state().system_health.battery_level, 70);
}

#[test]
fn a_log_capacity_keeps_the_latest_events() {
    let mut state = unit();
    for id in 0..5u128 {
        state.log_event_at(id, at(1_000), EventType::HackingAttempt, "probe".to_string(), vec![]);
    }
    let mut phoenix = DarkPhoenixCore::with_log_capacity(state, 3);
    let ids = |phoenix: &DarkPhoenixCore| -> Vec<u128> {
        phoenix.state().mission_log.iter().map(|event| event.id).collect()
    };
    assert_eq!(ids(&phoenix), vec![2, 3, 4]);
    phoenix.ignite_at(10, at(2_000));
    assert_eq!(ids(&phoenix), vec![3, 4, 10]);
    // Both escalations of one cycle are logged; the oldest events leave.
    let mut drained = phoenix.state().clone();
    drained.system_health.battery_level = 20;
    let mut phoenix = DarkPhoenixCore::with_log_capacity(drained, 3);
    let red = assessed(ThreatLevel::Red, "intruder");
    let outcome = phoenix.protection_cycle_at(Some(&red), 11, 12, at(3_000));
    assert_eq!(
        outcome,
        CycleOutcome::Completed { level: ThreatLevel::Red, posture: ResponsePosture::AllSystemsActive }
    );
    assert_eq!(ids(&phoenix), vec![10, 11, 12]);
    phoenix.emergency_landing_at(13, at(4_000));
    assert_eq!(ids(&phoenix), vec![11, 12, 13]);
    assert_eq!(phoenix.protection_cycle_at(Some(&red), 14, 15, at(5_000)), CycleOutcome::Halted);
    assert_eq!(ids(&phoenix), vec![11, 12, 13]);
    for _ in 0..20 {
        phoenix.ignite();
        assert_eq!(phoenix.state().mission_log.len(), 3);
    }
}

#[test]
fn without_a_capacity_the_log_keeps_everything() {
    let mut phoenix = engine_core();
    for id in 0..2_000u128 {
        phoenix.ignite_at(id, at(id as i64));
    }
    assert_eq!(phoenix.state().mission_log.len(), 2_000);
    assert_eq!(phoenix.state().mission_log[0].id, 0);
}
