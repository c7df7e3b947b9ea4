use dark_phoenix::deterrence::{
    DeterrenceCommand, DeterrenceConfig, DeterrenceProfile, DeterrenceState, DeterrenceSuite,
    MessageTable, MythicVoice, StrobePattern, VoiceLine,
};
use dark_phoenix::stamp::Timestamp;
use dark_phoenix::threat_level::ThreatLevel;

const LEVELS: [ThreatLevel; 5] = [
    ThreatLevel::Green,
    ThreatLevel::Yellow,
    ThreatLevel::Orange,
    ThreatLevel::Red,
    ThreatLevel::Omega,
];

const OMEGA_MESSAGE: &str = "⚠️ OMEGA PROTOCOL ACTIVATED ⚠️ DARK PHOENIX RISING ⚠️ MAXIMUM PROTECTION AUTHORIZED ⚠️ SURRENDER OR FACE CONSEQUENCES ⚠️";
const ACTIVATION_ANNOUNCEMENT: &str =
    "From the ashes of danger, the Dark Phoenix rises to protect the innocent.";

fn at(millis: i64) -> Timestamp {
    Timestamp::from_millis(millis)
}

fn suite() -> DeterrenceSuite {
    DeterrenceSuite::new(DeterrenceConfig::default())
}

/// The commands in a form that compares.
fn shown(commands: &[DeterrenceCommand]) -> Vec<String> {
    commands.iter().map(|command| format!("{:?}", command)).collect()
}

fn speak(message: &str, volume: u8) -> DeterrenceCommand {
    DeterrenceCommand::Speak { message: message.to_string(), volume }
}

#[test]
fn default_deterrence_settings() {
    let config = DeterrenceConfig::default();
    assert_eq!(config.max_siren_volume, 85);
    assert_eq!(config.strobe_frequency_hz, 8000);
    assert_eq!(config.voice_volume, 75);
    assert_eq!(config.escalation_delay_ms, 2000);
    assert!(config.auto_de_escalate);
}

#[test]
fn a_new_controller_has_every_device_off() {
    let state = DeterrenceState::default();
    assert!(!state.siren_active);
    assert_eq!(state.siren_volume, 0);
    assert!(!state.strobe_active);
    assert_eq!(state.strobe_pattern, StrobePattern::Off);
    assert!(!state.voice_active);
    assert_eq!(state.current_message, None);
    assert_eq!(state.last_activation, None);
    assert_eq!(state.activation_count, 0);
    let suite = suite();
    assert_eq!(format!("{:?}", suite.get_status()), format!("{:?}", state));
    assert_eq!(*suite.config(), DeterrenceConfig::default());
}

#[test]
fn strobe_patterns() {
    assert_eq!(StrobePattern::Off.frequency_hz(), 0);
    assert_eq!(StrobePattern::Pulse.frequency_hz(), 1_000);
    assert_eq!(StrobePattern::Alert.frequency_hz(), 4_000);
    assert_eq!(StrobePattern::Warning.frequency_hz(), 8_000);
    assert_eq!(StrobePattern::Emergency.frequency_hz(), 15_000);
    assert_eq!(StrobePattern::Phoenix.frequency_hz(), 3_000);
    assert_eq!(StrobePattern::Off.description(), "Strobes disabled");
    assert_eq!(StrobePattern::Pulse.description(), "Gentle awareness pulse");
    assert_eq!(StrobePattern::Alert.description(), "Alert attention strobe");
    assert_eq!(StrobePattern::Warning.description(), "Warning deterrence flash");
    assert_eq!(StrobePattern::Emergency.description(), "Emergency disorientation strobe");
    assert_eq!(StrobePattern::Phoenix.description(), "Phoenix rising ceremonial pattern");
}

#[test]
fn messages_by_level_and_situation() {
    let green = "Guardian protocols active. Area under protection.";
    assert_eq!(MythicVoice::get_message(ThreatLevel::Green, ""), green);
    assert_eq!(MythicVoice::get_message(ThreatLevel::Green, "weapon"), green);
    assert_eq!(MythicVoice::green_messages(), green);

    assert_eq!(
        MythicVoice::get_message(ThreatLevel::Yellow, "anomaly"),
        "Anomaly detected. Please maintain calm behavior."
    );
    assert_eq!(
        MythicVoice::get_message(ThreatLevel::Yellow, "proximity"),
        "You are entering a protected zone. Please identify yourself."
    );
    assert_eq!(
        MythicVoice::get_message(ThreatLevel::Yellow, "weapon"),
        "Dark Phoenix monitoring. Please proceed with caution."
    );
    assert_eq!(MythicVoice::yellow_messages(""), "Dark Phoenix monitoring. Please proceed with caution.");

    assert_eq!(
        MythicVoice::get_message(ThreatLevel::Orange, "aggression"),
        "Aggressive behavior detected. Cease immediately or authorities will be contacted."
    );
    assert_eq!(
        MythicVoice::get_message(ThreatLevel::Orange, "weapon"),
        "Weapon detected. Drop the weapon and step back immediately."
    );
    assert_eq!(
        MythicVoice::get_message(ThreatLevel::Orange, "group_threat"),
        "Multiple aggressors detected. Disperse immediately or law enforcement will be summoned."
    );
    assert_eq!(
        MythicVoice::get_message(ThreatLevel::Orange, "anomaly"),
        "Warning: Threat level elevated. You are being recorded. Authorities have been notified."
    );
    assert_eq!(MythicVoice::orange_messages("weapon"), MythicVoice::get_message(ThreatLevel::Orange, "weapon"));

    assert_eq!(
        MythicVoice::get_message(ThreatLevel::Red, "imminent_danger"),
        "IMMINENT DANGER DETECTED. EMERGENCY SERVICES CONTACTED. RETREAT IMMEDIATELY."
    );
    assert_eq!(
        MythicVoice::get_message(ThreatLevel::Red, "weapon_drawn"),
        "WEAPON DRAWN. DROP WEAPON NOW. POLICE EN ROUTE. YOU ARE BEING RECORDED."
    );
    assert_eq!(
        MythicVoice::get_message(ThreatLevel::Red, "physical_attack"),
        "PHYSICAL ATTACK IN PROGRESS. MEDICAL AND POLICE ASSISTANCE REQUESTED."
    );
    assert_eq!(
        MythicVoice::get_message(ThreatLevel::Red, "weapon"),
        "HIGH THREAT CONFIRMED. ALL DETERRENCE SYSTEMS ACTIVE. SURRENDER IMMEDIATELY."
    );
    assert_eq!(MythicVoice::red_messages("weapon_drawn"), MythicVoice::get_message(ThreatLevel::Red, "weapon_drawn"));

    assert_eq!(MythicVoice::get_message(ThreatLevel::Omega, "omega"), OMEGA_MESSAGE);
    assert_eq!(MythicVoice::get_message(ThreatLevel::Omega, ""), OMEGA_MESSAGE);
    assert_eq!(MythicVoice::omega_messages(), OMEGA_MESSAGE);
}

#[test]
fn ceremonial_announcements() {
    assert_eq!(MythicVoice::ceremonial_announcement("activation"), ACTIVATION_ANNOUNCEMENT);
    assert_eq!(
        MythicVoice::ceremonial_announcement("victory"),
        "The Phoenix has prevailed. Peace is restored. Guardian watch continues."
    );
    assert_eq!(
        MythicVoice::ceremonial_announcement("retreat"),
        "Threat neutralized. The Phoenix returns to the shadows, ever watchful."
    );
    assert_eq!(
        MythicVoice::ceremonial_announcement("parade"),
        "Dark Phoenix stands eternal vigil. None shall harm the protected."
    );
}

#[test]
fn the_profile_of_each_level() {
    let config = DeterrenceConfig::default();
    assert_eq!(
        config.profile(ThreatLevel::Green),
        DeterrenceProfile { strobe_pattern: StrobePattern::Off, siren_active: false, siren_volume: 0, voice_volume: None }
    );
    assert_eq!(
        config.profile(ThreatLevel::Yellow),
        DeterrenceProfile { strobe_pattern: StrobePattern::Pulse, siren_active: false, siren_volume: 0, voice_volume: Some(37) }
    );
    assert_eq!(
        config.profile(ThreatLevel::Orange),
        DeterrenceProfile { strobe_pattern: StrobePattern::Warning, siren_active: true, siren_volume: 28, voice_volume: Some(75) }
    );
    assert_eq!(
        config.profile(ThreatLevel::Red),
        DeterrenceProfile { strobe_pattern: StrobePattern::Emergency, siren_active: true, siren_volume: 56, voice_volume: Some(75) }
    );
    assert_eq!(
        config.profile(ThreatLevel::Omega),
        DeterrenceProfile { strobe_pattern: StrobePattern::Phoenix, siren_active: true, siren_volume: 85, voice_volume: Some(100) }
    );
    // Two thirds of the loudest setting that the type can hold.
    let loud = DeterrenceConfig { max_siren_volume: 255, voice_volume: 255, ..config };
    assert_eq!(loud.profile(ThreatLevel::Red).siren_volume, 170);
    assert_eq!(loud.profile(ThreatLevel::Orange).siren_volume, 85);
    assert_eq!(loud.profile(ThreatLevel::Yellow).voice_volume, Some(127));
}

#[test]
fn activating_for_yellow() {
    let mut suite = suite();
    let commands = suite.activate_at(ThreatLevel::Yellow, "proximity", at(1_000));
    let message = "You are entering a protected zone. Please identify yourself.";
    assert_eq!(
        shown(&commands),
        shown(&[
            DeterrenceCommand::SetStrobe(StrobePattern::Pulse),
            DeterrenceCommand::DeactivateSiren,
            speak(message, 37),
        ])
    );
    let state = suite.get_status();
    assert!(!state.siren_active);
    assert_eq!(state.siren_volume, 0);
    assert!(state.strobe_active);
    assert_eq!(state.strobe_pattern, StrobePattern::Pulse);
    assert!(state.voice_active);
    assert_eq!(state.current_message.as_deref(), Some(message));
    assert_eq!(state.last_activation, Some(at(1_000)));
    assert_eq!(state.activation_count, 1);
}

#[test]
fn activating_for_orange_and_red() {
    let mut suite = suite();
    let commands = suite.activate_at(ThreatLevel::Orange, "weapon", at(1_000));
    let message = "Weapon detected. Drop the weapon and step back immediately.";
    assert_eq!(
        shown(&commands),
        shown(&[
            DeterrenceCommand::SetStrobe(StrobePattern::Warning),
            DeterrenceCommand::ActivateSiren(28),
            speak(message, 75),
        ])
    );
    {
        let state = suite.get_status();
        assert!(state.siren_active);
        assert_eq!(state.siren_volume, 28);
        assert!(state.strobe_active);
        assert_eq!(state.strobe_pattern, StrobePattern::Warning);
        assert!(state.voice_active);
        assert_eq!(state.current_message.as_deref(), Some(message));
        assert_eq!(state.activation_count, 1);
    }
    let commands = suite.activate_at(ThreatLevel::Red, "unheard of", at(2_000));
    let message = "HIGH THREAT CONFIRMED. ALL DETERRENCE SYSTEMS ACTIVE. SURRENDER IMMEDIATELY.";
    assert_eq!(
        shown(&commands),
        shown(&[
            DeterrenceCommand::SetStrobe(StrobePattern::Emergency),
            DeterrenceCommand::ActivateSiren(56),
            speak(message, 75),
        ])
    );
    let state = suite.get_status();
    assert!(state.siren_active);
    assert_eq!(state.siren_volume, 56);
    assert_eq!(state.strobe_pattern, StrobePattern::Emergency);
    assert_eq!(state.current_message.as_deref(), Some(message));
    assert_eq!(state.last_activation, Some(at(2_000)));
    assert_eq!(state.activation_count, 2);
}

#[test]
fn activating_for_omega() {
    let config = DeterrenceConfig { escalation_delay_ms: 1500, ..DeterrenceConfig::default() };
    let mut suite = DeterrenceSuite::new(config);
    let commands = suite.activate_at(ThreatLevel::Omega, "anything", at(3_000));
    assert_eq!(
        shown(&commands),
        shown(&[
            DeterrenceCommand::SetStrobe(StrobePattern::Phoenix),
            DeterrenceCommand::ActivateSiren(85),
            speak(OMEGA_MESSAGE, 100),
            DeterrenceCommand::Wait { millis: 1500 },
            speak(ACTIVATION_ANNOUNCEMENT, 100),
        ])
    );
    let state = suite.get_status();
    assert!(state.siren_active);
    assert_eq!(state.siren_volume, 85);
    assert!(state.strobe_active);
    assert_eq!(state.strobe_pattern, StrobePattern::Phoenix);
    assert!(state.voice_active);
    assert_eq!(state.current_message.as_deref(), Some(OMEGA_MESSAGE));
    assert_eq!(state.activation_count, 1);
}

#[test]
fn activating_for_green_switches_everything_off_whatever_was_on() {
    for prior in LEVELS.iter() {
        let mut suite = suite();
        suite.activate_at(*prior, "weapon", at(1_000));
        let commands = suite.activate_at(ThreatLevel::Green, "weapon", at(2_000));
        assert_eq!(
            shown(&commands),
            shown(&[
                DeterrenceCommand::DeactivateSiren,
                DeterrenceCommand::SetStrobe(StrobePattern::Off),
                DeterrenceCommand::StopVoice,
            ])
        );
        let state = suite.get_status();
        assert!(!state.siren_active);
        assert_eq!(state.siren_volume, 0);
        assert!(!state.strobe_active);
        assert_eq!(state.strobe_pattern, StrobePattern::Off);
        assert!(!state.voice_active);
        assert_eq!(state.current_message, None);
        // A Green activation counts as an activation all the same.
        assert_eq!(state.last_activation, Some(at(2_000)));
        assert_eq!(state.activation_count, 2);
    }
}

#[test]
fn the_record_depends_on_the_level_alone() {
    for prior in LEVELS.iter() {
        for level in LEVELS.iter() {
            let mut fresh = suite();
            fresh.activate_at(ThreatLevel::Green, "", at(0));
            fresh.activate_at(*level, "weapon", at(5_000));
            let mut used = suite();
            used.activate_at(*prior, "aggression", at(1));
            used.activate_at(*level, "weapon", at(5_000));
            assert_eq!(format!("{:?}", used.get_status()), format!("{:?}", fresh.get_status()));
        }
    }
}

#[test]
fn activating_by_the_clock() {
    let mut suite = suite();
    let commands = suite.activate(ThreatLevel::Red, "weapon_drawn");
    assert_eq!(commands.len(), 3);
    let first = suite.get_status().clone();
    assert_eq!(first.activation_count, 1);
    assert!(first.last_activation.unwrap().millis > 1_600_000_000_000);
    let commands = suite.activate(ThreatLevel::Green, "weapon_drawn");
    assert_eq!(commands.len(), 3);
    let state = suite.get_status();
    assert_eq!(state.activation_count, 2);
    assert!(!state.siren_active);
    assert_eq!(state.strobe_pattern, StrobePattern::Off);
    assert!(!state.voice_active);
    assert!(state.last_activation.unwrap().millis >= first.last_activation.unwrap().millis);
}

#[test]
fn deactivating_keeps_the_counters() {
    let mut suite = suite();
    suite.activate_at(ThreatLevel::Omega, "", at(7_000));
    let commands = suite.deactivate_all();
    assert_eq!(
        shown(&commands),
        shown(&[
            DeterrenceCommand::DeactivateSiren,
            DeterrenceCommand::SetStrobe(StrobePattern::Off),
            DeterrenceCommand::StopVoice,
        ])
    );
    let state = suite.get_status();
    assert!(!state.siren_active);
    assert_eq!(state.siren_volume, 0);
    assert!(!state.strobe_active);
    assert_eq!(state.strobe_pattern, StrobePattern::Off);
    assert!(!state.voice_active);
    assert_eq!(state.current_message, None);
    assert_eq!(state.last_activation, Some(at(7_000)));
    assert_eq!(state.activation_count, 1);
}

#[test]
fn the_self_test_leaves_every_device_off() {
    let mut suite = suite();
    suite.activate_at(ThreatLevel::Red, "", at(1_000));
    let commands = suite.system_test();
    assert_eq!(
        shown(&commands),
        shown(&[
            speak("System test initiated", 50),
            DeterrenceCommand::Wait { millis: 1000 },
            DeterrenceCommand::SetStrobe(StrobePattern::Alert),
            DeterrenceCommand::Wait { millis: 2000 },
            DeterrenceCommand::ActivateSiren(20),
            DeterrenceCommand::Wait { millis: 1000 },
            DeterrenceCommand::DeactivateSiren,
            DeterrenceCommand::SetStrobe(StrobePattern::Off),
            DeterrenceCommand::StopVoice,
            speak("System test complete. All systems operational.", 50),
        ])
    );
    let state = suite.get_status();
    assert!(!state.siren_active);
    assert!(!state.strobe_active);
    assert!(!state.voice_active);
    assert_eq!(state.current_message, None);
    assert_eq!(state.activation_count, 1);
    assert_eq!(state.last_activation, Some(at(1_000)));
}

const SITUATIONS: [&str; 12] = [
    "",
    "anomaly",
    "proximity",
    "aggression",
    "weapon",
    "group_threat",
    "imminent_danger",
    "weapon_drawn",
    "physical_attack",
    "omega",
    "Anomaly",
    "something else",
];

#[test]
fn the_documented_table_holds_the_documented_messages() {
    let table = MessageTable::standard();
    assert_eq!(table.lines.len(), 8);
    for level in LEVELS.iter() {
        for situation in SITUATIONS.iter() {
            assert_eq!(table.select(*level, situation), MythicVoice::get_message(*level, situation));
        }
        assert_eq!(*table.fallback(*level), MythicVoice::get_message(*level, "unheard of"));
    }
    let suite = suite();
    assert_eq!(format!("{:?}", suite.messages()), format!("{:?}", table));
    assert_eq!(format!("{:?}", table.clone()), format!("{:?}", table));
}

fn line(level: ThreatLevel, situation: &str, message: &str) -> VoiceLine {
    VoiceLine { level, situation: situation.to_string(), message: message.to_string() }
}

fn house_table() -> MessageTable {
    MessageTable {
        green: "All clear.".to_string(),
        yellow: "Attention.".to_string(),
        orange: "Step back.".to_string(),
        red: "Leave now.".to_string(),
        omega: "Final warning.".to_string(),
        lines: vec![
            line(ThreatLevel::Yellow, "door", "The door is watched."),
            line(ThreatLevel::Red, "door", "Away from the door."),
            line(ThreatLevel::Yellow, "door", "Never spoken."),
            line(ThreatLevel::Omega, "omega", "Omega, by the house rules."),
        ],
    }
}

#[test]
fn messages_are_configuration() {
    let table = house_table();
    assert_eq!(table.select(ThreatLevel::Yellow, "door"), "The door is watched.");
    assert_eq!(table.select(ThreatLevel::Red, "door"), "Away from the door.");
    assert_eq!(table.select(ThreatLevel::Orange, "door"), "Step back.");
    assert_eq!(table.select(ThreatLevel::Yellow, "window"), "Attention.");
    assert_eq!(table.select(ThreatLevel::Green, "door"), "All clear.");
    assert_eq!(table.select(ThreatLevel::Omega, "door"), "Final warning.");
    assert_eq!(table.select(ThreatLevel::Omega, "omega"), "Omega, by the house rules.");

    let mut suite = DeterrenceSuite::with_messages(DeterrenceConfig::default(), table);
    let commands = suite.activate_at(ThreatLevel::Yellow, "door", at(1_000));
    assert_eq!(
        shown(&commands),
        shown(&[
            DeterrenceCommand::SetStrobe(StrobePattern::Pulse),
            DeterrenceCommand::DeactivateSiren,
            speak("The door is watched.", 37),
        ])
    );
    assert_eq!(suite.get_status().current_message.as_deref(), Some("The door is watched."));
    let commands = suite.activate_at(ThreatLevel::Orange, "door", at(2_000));
    assert_eq!(shown(&commands[2..]), shown(&[speak("Step back.", 75)]));
    // At Omega the situation of the moment does not matter.
    let commands = suite.activate_at(ThreatLevel::Omega, "door", at(3_000));
    assert_eq!(
        shown(&commands),
        shown(&[
            DeterrenceCommand::SetStrobe(StrobePattern::Phoenix),
            DeterrenceCommand::ActivateSiren(85),
            speak("Omega, by the house rules.", 100),
            DeterrenceCommand::Wait { millis: 2000 },
            speak(ACTIVATION_ANNOUNCEMENT, 100),
        ])
    );
    assert_eq!(suite.get_status().current_message.as_deref(), Some("Omega, by the house rules."));
    let commands = suite.activate_at(ThreatLevel::Green, "door", at(4_000));
    assert_eq!(commands.len(), 3);
    assert_eq!(suite.get_status().current_message, None);
    assert_eq!(suite.get_status().activation_count, 4);
}
