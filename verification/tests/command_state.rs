use dark_phoenix::command_state::{DroneState, EventType, Position, SystemHealth, VitalSigns};
use dark_phoenix::stamp::{Timestamp, RANDOM_ID_MASK, RANDOM_ID_TAG};
use dark_phoenix::threat_level::ThreatLevel;

const LEVELS: [ThreatLevel; 5] = [
    ThreatLevel::Green,
    ThreatLevel::Yellow,
    ThreatLevel::Orange,
    ThreatLevel::Red,
    ThreatLevel::Omega,
];

fn at(millis: i64) -> Timestamp {
    Timestamp::from_millis(millis)
}

fn unit() -> DroneState {
    DroneState::new_at("Alpha".to_string(), 42, at(1_000))
}

#[test]
fn a_new_unit_is_green_healthy_and_has_an_empty_log() {
    let state = unit();
    assert_eq!(state.id, 42);
    assert_eq!(state.name, "Alpha");
    assert_eq!(state.threat_level, ThreatLevel::Green);
    assert_eq!(
        state.position,
        Position { latitude: 0, longitude: 0, altitude: 0, timestamp: at(1_000) }
    );
    assert_eq!(state.target_vitals, None);
    assert_eq!(
        state.system_health,
        SystemHealth {
            battery_level: 100,
            flight_time_remaining: 3600,
            shield_integrity: 100,
            fire_suppression_ready: true,
            medical_supplies: 100,
            communication_status: true,
            gps_lock: true,
            timestamp: at(1_000),
        }
    );
    assert!(state.active_modules.is_empty());
    assert!(state.mission_log.is_empty());
    assert_eq!(state.last_update, at(1_000));
    assert!(!state.is_critical());
}

#[test]
fn a_new_unit_gets_a_fresh_identifier_and_the_current_time() {
    let first = DroneState::new("Alpha".to_string());
    let second = DroneState::new("Beta".to_string());
    assert_ne!(first.id, second.id);
    assert_eq!(first.id & RANDOM_ID_MASK, RANDOM_ID_TAG);
    assert_eq!(first.name, "Alpha");
    assert_eq!(second.name, "Beta");
    assert!(first.last_update.millis > 1_600_000_000_000);
    assert_eq!(first.position.timestamp, first.last_update);
    assert_eq!(first.system_health.timestamp, first.last_update);
    assert_eq!(first.threat_level, ThreatLevel::Green);
    assert!(first.mission_log.is_empty());
}

#[test]
fn logging_appends_an_event_with_the_level_and_position_of_the_moment() {
    let mut state = unit();
    state.threat_level = ThreatLevel::Orange;
    state.position = Position { latitude: 484_000_000, longitude: 23_500_000, altitude: 12_000, timestamp: at(1_500) };
    state.log_event_at(
        7,
        at(2_000),
        EventType::ShieldDeployed,
        "Shield up".to_string(),
        vec!["raise".to_string(), "hold".to_string()],
    );
    assert_eq!(state.mission_log.len(), 1);
    let event = &state.mission_log[0];
    assert_eq!(event.id, 7);
    assert_eq!(event.timestamp, at(2_000));
    assert_eq!(event.event_type, EventType::ShieldDeployed);
    assert_eq!(event.description, "Shield up");
    assert_eq!(event.threat_level, ThreatLevel::Orange);
    assert_eq!(event.position, state.position);
    assert_eq!(event.response_actions, vec!["raise".to_string(), "hold".to_string()]);
    assert_eq!(state.last_update, at(2_000));
    assert_eq!(state.threat_level, ThreatLevel::Orange);
    assert_eq!(state.id, 42);

    state.log_event_at(8, at(3_000), EventType::MissionComplete, "Done".to_string(), vec![]);
    assert_eq!(state.mission_log.len(), 2);
    assert_eq!(state.mission_log[0].id, 7);
    assert_eq!(state.mission_log[1].id, 8);
    assert_eq!(state.mission_log[1].response_actions.len(), 0);
    assert_eq!(state.last_update, at(3_000));
}

#[test]
fn logging_by_the_clock_stamps_the_event() {
    let mut state = unit();
    state.log_event(EventType::PoliceContacted, "Called".to_string(), vec!["dial".to_string()]);
    state.log_event(EventType::PoliceContacted, "Called again".to_string(), vec![]);
    assert_eq!(state.mission_log.len(), 2);
    let first = &state.mission_log[0];
    let second = &state.mission_log[1];
    assert_eq!(first.description, "Called");
    assert_eq!(first.event_type, EventType::PoliceContacted);
    assert_eq!(first.id & RANDOM_ID_MASK, RANDOM_ID_TAG);
    assert_ne!(first.id, second.id);
    assert!(first.timestamp.millis > 1_600_000_000_000);
    assert_eq!(state.last_update, second.timestamp);
}

#[test]
fn escalation_raises_the_level_and_logs_it() {
    let mut state = unit();
    state.escalate_threat_at(ThreatLevel::Red, "weapon seen".to_string(), 9, at(5_000));
    assert_eq!(state.threat_level, ThreatLevel::Red);
    assert_eq!(state.mission_log.len(), 1);
    let event = &state.mission_log[0];
    assert_eq!(event.id, 9);
    assert_eq!(event.timestamp, at(5_000));
    assert_eq!(event.event_type, EventType::ThreatDetected);
    assert_eq!(event.description, "Threat level escalated to RED: weapon seen");
    assert_eq!(event.threat_level, ThreatLevel::Red);
    assert_eq!(
        event.response_actions,
        vec!["Threat assessment: High threat confirmed. All deterrence systems activated.".to_string()]
    );
    assert_eq!(state.last_update, at(5_000));
}

#[test]
fn escalation_to_a_level_that_is_not_higher_changes_nothing() {
    for current in LEVELS.iter() {
        for requested in LEVELS.iter() {
            let mut state = unit();
            state.threat_level = *current;
            state.log_event_at(1, at(1_100), EventType::HackingAttempt, "probe".to_string(), vec![]);
            state.escalate_threat_at(*requested, "again".to_string(), 2, at(9_000));
            if requested <= current {
                assert_eq!(state.threat_level, *current);
                assert_eq!(state.mission_log.len(), 1);
                assert_eq!(state.mission_log[0].id, 1);
                assert_eq!(state.last_update, at(1_100));
            } else {
                assert_eq!(state.threat_level, *requested);
                assert_eq!(state.mission_log.len(), 2);
                assert_eq!(state.mission_log[1].id, 2);
                assert_eq!(state.last_update, at(9_000));
            }
        }
    }
}

#[test]
fn escalation_by_the_clock_is_a_noop_for_a_lower_level() {
    let mut state = unit();
    state.escalate_threat(ThreatLevel::Orange, "noise".to_string());
    assert_eq!(state.threat_level, ThreatLevel::Orange);
    assert_eq!(state.mission_log.len(), 1);
    let stamp = state.last_update;
    state.escalate_threat(ThreatLevel::Yellow, "calm".to_string());
    state.escalate_threat(ThreatLevel::Orange, "same".to_string());
    assert_eq!(state.threat_level, ThreatLevel::Orange);
    assert_eq!(state.mission_log.len(), 1);
    assert_eq!(state.last_update, stamp);
    assert_eq!(state.mission_log[0].description, "Threat level escalated to ORANGE: noise");
}

#[test]
fn a_run_of_escalations_ends_at_the_highest_level_requested() {
    let runs: [&[ThreatLevel]; 6] = [
        &[],
        &[ThreatLevel::Green],
        &[ThreatLevel::Yellow, ThreatLevel::Red, ThreatLevel::Orange],
        &[ThreatLevel::Omega, ThreatLevel::Green, ThreatLevel::Red],
        &[ThreatLevel::Orange, ThreatLevel::Orange, ThreatLevel::Yellow],
        &[ThreatLevel::Yellow, ThreatLevel::Orange, ThreatLevel::Red, ThreatLevel::Omega],
    ];
    for run in runs.iter() {
        let mut state = unit();
        let mut highest = ThreatLevel::Green;
        let mut rises = 0;
        for (step, level) in run.iter().enumerate() {
            let before = state.threat_level;
            state.escalate_threat_at(*level, "step".to_string(), step as u128, at(2_000 + step as i64));
            assert!(state.threat_level >= before);
            if *level > highest {
                highest = *level;
                rises += 1;
            }
            assert_eq!(state.threat_level, highest);
        }
        assert_eq!(state.threat_level, run.iter().copied().max().unwrap_or(ThreatLevel::Green));
        assert_eq!(state.mission_log.len(), rises);
    }
}

#[test]
fn critical_means_red_or_weak_battery_or_lost_link_or_weak_shield() {
    for level in LEVELS.iter() {
        for battery in [0u8, 19, 20, 21, 100] {
            for comms in [false, true] {
                for shield in [0u8, 49, 50, 51, 100] {
                    let mut state = unit();
                    state.threat_level = *level;
                    state.system_health.battery_level = battery;
                    state.system_health.communication_status = comms;
                    state.system_health.shield_integrity = shield;
                    let expected = level.ordinal() >= 3 || battery < 20 || !comms || shield < 50;
                    assert_eq!(state.is_critical(), expected);
                }
            }
        }
    }
}

#[test]
fn the_status_report_has_three_lines() {
    let mut state = unit();
    assert_eq!(
        state.mythic_status(),
        "🕊️ Dark Phoenix Alpha - Status: GREEN 🕊️\nBattery: 100% | Shield: 100% | Flight Time: 60min\nAll systems nominal. Guardian mode active."
    );
    state.threat_level = ThreatLevel::Omega;
    state.system_health.battery_level = 7;
    state.system_health.shield_integrity = 0;
    state.system_health.flight_time_remaining = 119;
    assert_eq!(
        state.mythic_status(),
        "🔥💀🔥 Dark Phoenix Alpha - Status: OMEGA 🔥💀🔥\nBattery: 7% | Shield: 0% | Flight Time: 1min\nCritical threat. Dark Phoenix rising. Maximum protection authorized."
    );
    state.threat_level = ThreatLevel::Yellow;
    assert!(state.mythic_status().starts_with("⚠️ Dark Phoenix Alpha - Status: YELLOW ⚠️\n"));
    state.threat_level = ThreatLevel::Orange;
    assert!(state.mythic_status().starts_with("🔥 Dark Phoenix Alpha - Status: ORANGE 🔥\n"));
    state.threat_level = ThreatLevel::Red;
    assert!(state.mythic_status().starts_with("⚔️ Dark Phoenix Alpha - Status: RED ⚔️\n"));
}

#[test]
fn a_snapshot_holds_every_field_and_the_log_in_order() {
    let mut state = unit();
    state.target_vitals = Some(VitalSigns {
        heart_rate: Some(72),
        blood_oxygen: Some(98),
        temperature: Some(36_600),
        stress_level: None,
        timestamp: at(1_200),
    });
    state.active_modules.insert("shield".to_string(), true);
    state.active_modules.insert("medical".to_string(), false);
    state.escalate_threat_at(ThreatLevel::Yellow, "one".to_string(), 1, at(2_000));
    state.escalate_threat_at(ThreatLevel::Red, "two".to_string(), 2, at(3_000));
    let copy = state.clone();
    assert_eq!(copy.id, state.id);
    assert_eq!(copy.name, state.name);
    assert_eq!(copy.threat_level, state.threat_level);
    assert_eq!(copy.position, state.position);
    assert_eq!(copy.target_vitals, state.target_vitals);
    assert_eq!(copy.system_health, state.system_health);
    assert_eq!(copy.active_modules, state.active_modules);
    assert_eq!(copy.last_update, state.last_update);
    assert_eq!(copy.mission_log.len(), 2);
    for (a, b) in copy.mission_log.iter().zip(state.mission_log.iter()) {
        assert_eq!(a.id, b.id);
        assert_eq!(a.timestamp, b.timestamp);
        assert_eq!(a.event_type, b.event_type);
        assert_eq!(a.description, b.description);
        assert_eq!(a.threat_level, b.threat_level);
        assert_eq!(a.position, b.position);
        assert_eq!(a.response_actions, b.response_actions);
    }
    assert_eq!(copy.mission_log[0].id, 1);
    assert_eq!(copy.mission_log[1].id, 2);
}

#[test]
fn bounding_the_log_keeps_the_latest_events() {
    let mut state = unit();
    for id in 0..10u128 {
        state.log_event_at(id, at(2_000 + id as i64), EventType::HackingAttempt, format!("probe {}", id), vec![]);
    }
    let stamp = state.last_update;
    state.retain_latest_events(10);
    assert_eq!(state.mission_log.len(), 10);
    state.retain_latest_events(usize::MAX);
    assert_eq!(state.mission_log.len(), 10);
    assert_eq!(state.mission_log[0].id, 0);
    state.retain_latest_events(4);
    assert_eq!(state.mission_log.len(), 4);
    let ids: Vec<u128> = state.mission_log.iter().map(|event| event.id).collect();
    assert_eq!(ids, vec![6, 7, 8, 9]);
    assert_eq!(state.mission_log[3].description, "probe 9");
    assert_eq!(state.last_update, stamp);
    assert_eq!(state.threat_level, ThreatLevel::Green);
    state.retain_latest_events(0);
    assert!(state.mission_log.is_empty());
    state.retain_latest_events(0);
    assert!(state.mission_log.is_empty());
}
