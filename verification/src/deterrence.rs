//! The deterrence controller.
//!
//! Each threat level has one activation profile: a strobe pattern, a siren
//! setting and a voice volume. Activating for a level puts the whole record
//! of the controller into the state of that profile, whatever it was before,
//! and answers with the commands for the siren, the strobe and the voice.
//! Carrying the commands out is the caller's part.
//!
//! Volumes are percentages; strobe frequencies are held in thousandths of a
//! hertz.

use crate::stamp::Timestamp;
use crate::text::same_text;
use crate::threat_level::ThreatLevel;
use vstd::prelude::*;

verus! {

/// Settings of the deterrence controller.
#[derive(Debug, Clone, Copy, PartialEq, Eq, Structural)]
pub struct DeterrenceConfig {
    /// Loudest siren setting, 0 to 100.
    pub max_siren_volume: u8,
    /// Strobe rate in thousandths of a hertz.
    pub strobe_frequency_hz: u32,
    /// Volume of voice broadcasts, 0 to 100.
    pub voice_volume: u8,
    /// Pause between the steps of an escalation, in milliseconds.
    pub escalation_delay_ms: u64,
    /// Whether the intensity may fall by itself over time.
    pub auto_de_escalate: bool,
}

impl DeterrenceConfig {
    /// The documented defaults: siren up to 85, strobe at 8 Hz, voice at
    /// 75, two seconds between steps, de-escalation allowed.
    pub open spec fn standard() -> DeterrenceConfig {
        DeterrenceConfig {
            max_siren_volume: 85,
            strobe_frequency_hz: 8000,
            voice_volume: 75,
            escalation_delay_ms: 2000,
            auto_de_escalate: true,
        }
    }
}

impl Default for DeterrenceConfig {
    fn default() -> (config: DeterrenceConfig)
        ensures
            config == DeterrenceConfig::standard(),
    {
        DeterrenceConfig {
            max_siren_volume: 85,
            strobe_frequency_hz: 8000,
            voice_volume: 75,
            escalation_delay_ms: 2000,
            auto_de_escalate: true,
        }
    }
}

/// The patterns of the strobe light.
#[derive(Debug, Clone, Copy, PartialEq, Eq, Structural)]
pub enum StrobePattern {
    Off,
    /// Gentle pulsing, for awareness.
    Pulse,
    /// Fast alternating, for attention.
    Alert,
    /// Rapid strobing, for deterrence.
    Warning,
    /// Full intensity, to disorient.
    Emergency,
    /// The ceremonial rising-flame pattern.
    Phoenix,
}

impl StrobePattern {
    /// The flash rate of the pattern in thousandths of a hertz.
    pub open spec fn rate(self) -> nat {
        match self {
            StrobePattern::Off => 0,
            StrobePattern::Pulse => 1000,
            StrobePattern::Alert => 4000,
            StrobePattern::Warning => 8000,
            StrobePattern::Emergency => 15000,
            StrobePattern::Phoenix => 3000,
        }
    }

    /// The one-line description of the pattern.
    pub open spec fn summary(self) -> Seq<char> {
        match self {
            StrobePattern::Off => "Strobes disabled"@,
            StrobePattern::Pulse => "Gentle awareness pulse"@,
            StrobePattern::Alert => "Alert attention strobe"@,
            StrobePattern::Warning => "Warning deterrence flash"@,
            StrobePattern::Emergency => "Emergency disorientation strobe"@,
            StrobePattern::Phoenix => "Phoenix rising ceremonial pattern"@,
        }
    }

    /// The flash rate of the pattern in thousandths of a hertz.
    pub fn frequency_hz(&self) -> (rate: u32)
        ensures
            rate == self.rate(),
    {
        match self {
            StrobePattern::Off => 0,
            StrobePattern::Pulse => 1000,
            StrobePattern::Alert => 4000,
            StrobePattern::Warning => 8000,
            StrobePattern::Emergency => 15000,
            StrobePattern::Phoenix => 3000,
        }
    }

    /// The one-line description of the pattern.
    pub fn description(&self) -> (s: &'static str)
        ensures
            s@ == self.summary(),
    {
        match self {
            StrobePattern::Off => "Strobes disabled",
            StrobePattern::Pulse => "Gentle awareness pulse",
            StrobePattern::Alert => "Alert attention strobe",
            StrobePattern::Warning => "Warning deterrence flash",
            StrobePattern::Emergency => "Emergency disorientation strobe",
            StrobePattern::Phoenix => "Phoenix rising ceremonial pattern",
        }
    }
}

/// The message for a level and a situation. `Green` and `Omega` have one
/// message each; every other level has a message for each situation that it
/// knows and a default for all others.
pub open spec fn message_text(level: ThreatLevel, situation: Seq<char>) -> Seq<char> {
    match level {
        ThreatLevel::Green => "Guardian protocols active. Area under protection."@,
        ThreatLevel::Yellow => if situation == "anomaly"@ {
            "Anomaly detected. Please maintain calm behavior."@
        } else if situation == "proximity"@ {
            "You are entering a protected zone. Please identify yourself."@
        } else {
            "Dark Phoenix monitoring. Please proceed with caution."@
        },
        ThreatLevel::Orange => if situation == "aggression"@ {
            "Aggressive behavior detected. Cease immediately or authorities will be contacted."@
        } else if situation == "weapon"@ {
            "Weapon detected. Drop the weapon and step back immediately."@
        } else if situation == "group_threat"@ {
            "Multiple aggressors detected. Disperse immediately or law enforcement will be summoned."@
        } else {
            "Warning: Threat level elevated. You are being recorded. Authorities have been notified."@
        },
        ThreatLevel::Red => if situation == "imminent_danger"@ {
            "IMMINENT DANGER DETECTED. EMERGENCY SERVICES CONTACTED. RETREAT IMMEDIATELY."@
        } else if situation == "weapon_drawn"@ {
            "WEAPON DRAWN. DROP WEAPON NOW. POLICE EN ROUTE. YOU ARE BEING RECORDED."@
        } else if situation == "physical_attack"@ {
            "PHYSICAL ATTACK IN PROGRESS. MEDICAL AND POLICE ASSISTANCE REQUESTED."@
        } else {
            "HIGH THREAT CONFIRMED. ALL DETERRENCE SYSTEMS ACTIVE. SURRENDER IMMEDIATELY."@
        },
        ThreatLevel::Omega => "⚠️ OMEGA PROTOCOL ACTIVATED ⚠️ DARK PHOENIX RISING ⚠️ MAXIMUM PROTECTION AUTHORIZED ⚠️ SURRENDER OR FACE CONSEQUENCES ⚠️"@,
    }
}

/// The ceremonial announcement for an occasion, with a default for every
/// occasion that is not known.
pub open spec fn announcement_text(event: Seq<char>) -> Seq<char> {
    if event == "activation"@ {
        "From the ashes of danger, the Dark Phoenix rises to protect the innocent."@
    } else if event == "victory"@ {
        "The Phoenix has prevailed. Peace is restored. Guardian watch continues."@
    } else if event == "retreat"@ {
        "Threat neutralized. The Phoenix returns to the shadows, ever watchful."@
    } else {
        "Dark Phoenix stands eternal vigil. None shall harm the protected."@
    }
}

/// The voice of the unit: which message it speaks when.
pub struct MythicVoice;

impl MythicVoice {
    /// The message for a level and a situation.
    pub fn get_message(threat_level: ThreatLevel, situation: &str) -> (message: String)
        ensures
            message@ == message_text(threat_level, situation@),
    {
        match threat_level {
            ThreatLevel::Green => MythicVoice::green_messages(),
            ThreatLevel::Yellow => MythicVoice::yellow_messages(situation),
            ThreatLevel::Orange => MythicVoice::orange_messages(situation),
            ThreatLevel::Red => MythicVoice::red_messages(situation),
            ThreatLevel::Omega => MythicVoice::omega_messages(),
        }
    }

    /// The message of level `Green`.
    pub fn green_messages() -> (message: String)
        ensures
            message@ == message_text(ThreatLevel::Green, Seq::empty()),
    {
        String::from_str("Guardian protocols active. Area under protection.")
    }

    /// The calm, advisory messages of level `Yellow`.
    pub fn yellow_messages(situation: &str) -> (message: String)
        ensures
            message@ == message_text(ThreatLevel::Yellow, situation@),
    {
        if same_text(situation, "anomaly") {
            String::from_str("Anomaly detected. Please maintain calm behavior.")
        } else if same_text(situation, "proximity") {
            String::from_str("You are entering a protected zone. Please identify yourself.")
        } else {
            String::from_str("Dark Phoenix monitoring. Please proceed with caution.")
        }
    }

    /// The authoritative messages of level `Orange`.
    pub fn orange_messages(situation: &str) -> (message: String)
        ensures
            message@ == message_text(ThreatLevel::Orange, situation@),
    {
        if same_text(situation, "aggression") {
            String::from_str(
                "Aggressive behavior detected. Cease immediately or authorities will be contacted.",
            )
        } else if same_text(situation, "weapon") {
            String::from_str("Weapon detected. Drop the weapon and step back immediately.")
        } else if same_text(situation, "group_threat") {
            String::from_str(
                "Multiple aggressors detected. Disperse immediately or law enforcement will be summoned.",
            )
        } else {
            String::from_str(
                "Warning: Threat level elevated. You are being recorded. Authorities have been notified.",
            )
        }
    }

    /// The commanding messages of level `Red`.
    pub fn red_messages(situation: &str) -> (message: String)
        ensures
            message@ == message_text(ThreatLevel::Red, situation@),
    {
        if same_text(situation, "imminent_danger") {
            String::from_str(
                "IMMINENT DANGER DETECTED. EMERGENCY SERVICES CONTACTED. RETREAT IMMEDIATELY.",
            )
        } else if same_text(situation, "weapon_drawn") {
            String::from_str(
                "WEAPON DRAWN. DROP WEAPON NOW. POLICE EN ROUTE. YOU ARE BEING RECORDED.",
            )
        } else if same_text(situation, "physical_attack") {
            String::from_str(
                "PHYSICAL ATTACK IN PROGRESS. MEDICAL AND POLICE ASSISTANCE REQUESTED.",
            )
        } else {
            String::from_str(
                "HIGH THREAT CONFIRMED. ALL DETERRENCE SYSTEMS ACTIVE. SURRENDER IMMEDIATELY.",
            )
        }
    }

    /// The message of level `Omega`.
    pub fn omega_messages() -> (message: String)
        ensures
            message@ == message_text(ThreatLevel::Omega, Seq::empty()),
    {
        String::from_str(
            "⚠️ OMEGA PROTOCOL ACTIVATED ⚠️ DARK PHOENIX RISING ⚠️ MAXIMUM PROTECTION AUTHORIZED ⚠️ SURRENDER OR FACE CONSEQUENCES ⚠️",
        )
    }

    /// The ceremonial announcement for an occasion.
    pub fn ceremonial_announcement(event: &str) -> (message: String)
        ensures
            message@ == announcement_text(event@),
    {
        if same_text(event, "activation") {
            String::from_str(
                "From the ashes of danger, the Dark Phoenix rises to protect the innocent.",
            )
        } else if same_text(event, "victory") {
            String::from_str(
                "The Phoenix has prevailed. Peace is restored. Guardian watch continues.",
            )
        } else if same_text(event, "retreat") {
            String::from_str(
                "Threat neutralized. The Phoenix returns to the shadows, ever watchful.",
            )
        } else {
            String::from_str("Dark Phoenix stands eternal vigil. None shall harm the protected.")
        }
    }
}

/// One line of the message table: what the voice says at a level in a
/// situation.
#[derive(Debug)]
pub struct VoiceLine {
    pub level: ThreatLevel,
    pub situation: String,
    pub message: String,
}

/// What a [`VoiceLine`] holds.
pub struct VoiceLineView {
    pub level: ThreatLevel,
    pub situation: Seq<char>,
    pub message: Seq<char>,
}

impl View for VoiceLine {
    type V = VoiceLineView;

    open spec fn view(&self) -> VoiceLineView {
        VoiceLineView { level: self.level, situation: self.situation@, message: self.message@ }
    }
}

impl DeepView for VoiceLine {
    type V = VoiceLineView;

    open spec fn deep_view(&self) -> VoiceLineView {
        self@
    }
}

impl Clone for VoiceLine {
    fn clone(&self) -> (copy: VoiceLine)
        ensures
            copy@ == self@,
    {
        VoiceLine {
            level: self.level,
            situation: self.situation.clone(),
            message: self.message.clone(),
        }
    }
}

/// The messages of the voice: part of the settings of the controller. Each
/// level has a default message, and any number of lines give a level its
/// message for one situation.
#[derive(Debug)]
pub struct MessageTable {
    pub green: String,
    pub yellow: String,
    pub orange: String,
    pub red: String,
    pub omega: String,
    /// Where two lines answer the same level and situation, the first counts.
    pub lines: Vec<VoiceLine>,
}

/// What a [`MessageTable`] holds.
pub struct MessageTableView {
    pub green: Seq<char>,
    pub yellow: Seq<char>,
    pub orange: Seq<char>,
    pub red: Seq<char>,
    pub omega: Seq<char>,
    pub lines: Seq<VoiceLineView>,
}

impl View for MessageTable {
    type V = MessageTableView;

    open spec fn view(&self) -> MessageTableView {
        MessageTableView {
            green: self.green@,
            yellow: self.yellow@,
            orange: self.orange@,
            red: self.red@,
            omega: self.omega@,
            lines: self.lines.deep_view(),
        }
    }
}

/// The message of the first of the lines that answers the level and the
/// situation, and the fallback if none does.
pub open spec fn first_answer(
    lines: Seq<VoiceLineView>,
    level: ThreatLevel,
    situation: Seq<char>,
    fallback: Seq<char>,
) -> Seq<char>
    decreases lines.len(),
{
    if lines.len() == 0 {
        fallback
    } else if lines[0].level == level && lines[0].situation == situation {
        lines[0].message
    } else {
        first_answer(lines.drop_first(), level, situation, fallback)
    }
}

/// The lines of the documented table.
pub open spec fn standard_lines() -> Seq<VoiceLineView> {
    seq![
        VoiceLineView {
            level: ThreatLevel::Yellow,
            situation: "anomaly"@,
            message: message_text(ThreatLevel::Yellow, "anomaly"@),
        },
        VoiceLineView {
            level: ThreatLevel::Yellow,
            situation: "proximity"@,
            message: message_text(ThreatLevel::Yellow, "proximity"@),
        },
        VoiceLineView {
            level: ThreatLevel::Orange,
            situation: "aggression"@,
            message: message_text(ThreatLevel::Orange, "aggression"@),
        },
        VoiceLineView {
            level: ThreatLevel::Orange,
            situation: "weapon"@,
            message: message_text(ThreatLevel::Orange, "weapon"@),
        },
        VoiceLineView {
            level: ThreatLevel::Orange,
            situation: "group_threat"@,
            message: message_text(ThreatLevel::Orange, "group_threat"@),
        },
        VoiceLineView {
            level: ThreatLevel::Red,
            situation: "imminent_danger"@,
            message: message_text(ThreatLevel::Red, "imminent_danger"@),
        },
        VoiceLineView {
            level: ThreatLevel::Red,
            situation: "weapon_drawn"@,
            message: message_text(ThreatLevel::Red, "weapon_drawn"@),
        },
        VoiceLineView {
            level: ThreatLevel::Red,
            situation: "physical_attack"@,
            message: message_text(ThreatLevel::Red, "physical_attack"@),
        },
    ]
}

impl MessageTableView {
    /// The documented table: the messages of [`message_text`].
    pub open spec fn standard() -> MessageTableView {
        MessageTableView {
            green: message_text(ThreatLevel::Green, Seq::empty()),
            yellow: "Dark Phoenix monitoring. Please proceed with caution."@,
            orange: "Warning: Threat level elevated. You are being recorded. Authorities have been notified."@,
            red: "HIGH THREAT CONFIRMED. ALL DETERRENCE SYSTEMS ACTIVE. SURRENDER IMMEDIATELY."@,
            omega: message_text(ThreatLevel::Omega, Seq::empty()),
            lines: standard_lines(),
        }
    }

    /// The default message of a level.
    pub open spec fn fallback(self, level: ThreatLevel) -> Seq<char> {
        match level {
            ThreatLevel::Green => self.green,
            ThreatLevel::Yellow => self.yellow,
            ThreatLevel::Orange => self.orange,
            ThreatLevel::Red => self.red,
            ThreatLevel::Omega => self.omega,
        }
    }

    /// The message for a level and a situation: that of the first line that
    /// answers them, and the default of the level if none does.
    pub open spec fn select(self, level: ThreatLevel, situation: Seq<char>) -> Seq<char> {
        first_answer(self.lines, level, situation, self.fallback(level))
    }

    /// The message that an activation for `level` speaks. At `Omega` the
    /// situation of the moment does not matter: the protocol asks for the
    /// message of the situation "omega".
    pub open spec fn spoken(self, level: ThreatLevel, situation: Seq<char>) -> Seq<char> {
        if level == ThreatLevel::Omega {
            self.select(level, "omega"@)
        } else {
            self.select(level, situation)
        }
    }
}

/// One line of the documented table.
fn standard_line(level: ThreatLevel, situation: &str) -> (line: VoiceLine)
    ensures
        line@ == (VoiceLineView {
            level,
            situation: situation@,
            message: message_text(level, situation@),
        }),
{
    VoiceLine {
        level,
        situation: situation.to_owned(),
        message: MythicVoice::get_message(level, situation),
    }
}

impl MessageTable {
    /// The documented table.
    pub fn standard() -> (table: MessageTable)
        ensures
            table@ == MessageTableView::standard(),
    {
        let mut lines: Vec<VoiceLine> = Vec::new();
        lines.push(standard_line(ThreatLevel::Yellow, "anomaly"));
        lines.push(standard_line(ThreatLevel::Yellow, "proximity"));
        lines.push(standard_line(ThreatLevel::Orange, "aggression"));
        lines.push(standard_line(ThreatLevel::Orange, "weapon"));
        lines.push(standard_line(ThreatLevel::Orange, "group_threat"));
        lines.push(standard_line(ThreatLevel::Red, "imminent_danger"));
        lines.push(standard_line(ThreatLevel::Red, "weapon_drawn"));
        lines.push(standard_line(ThreatLevel::Red, "physical_attack"));
        assert(lines.deep_view() =~= standard_lines());
        MessageTable {
            green: MythicVoice::green_messages(),
            yellow: String::from_str("Dark Phoenix monitoring. Please proceed with caution."),
            orange: String::from_str(
                "Warning: Threat level elevated. You are being recorded. Authorities have been notified.",
            ),
            red: String::from_str(
                "HIGH THREAT CONFIRMED. ALL DETERRENCE SYSTEMS ACTIVE. SURRENDER IMMEDIATELY.",
            ),
            omega: MythicVoice::omega_messages(),
            lines,
        }
    }

    /// The default message of a level.
    pub fn fallback(&self, level: ThreatLevel) -> (message: &String)
        ensures
            message@ == self@.fallback(level),
    {
        match level {
            ThreatLevel::Green => &self.green,
            ThreatLevel::Yellow => &self.yellow,
            ThreatLevel::Orange => &self.orange,
            ThreatLevel::Red => &self.red,
            ThreatLevel::Omega => &self.omega,
        }
    }

    /// The message for a level and a situation.
    pub fn select(&self, level: ThreatLevel, situation: &str) -> (message: String)
        ensures
            message@ == self@.select(level, situation@),
    {
        let ghost lines = self.lines.deep_view();
        assert(lines.skip(0) =~= lines);
        let mut at: usize = 0;
        while at < self.lines.len()
            invariant
                at <= self.lines.len(),
                lines == self.lines.deep_view(),
                first_answer(lines, level, situation@, self@.fallback(level)) == first_answer(
                    lines.skip(at as int),
                    level,
                    situation@,
                    self@.fallback(level),
                ),
            decreases self.lines.len() - at,
        {
            assert(lines.skip(at as int).drop_first() =~= lines.skip(at + 1));
            let line = &self.lines[at];
            if line.level == level && same_text(line.situation.as_str(), situation) {
                return line.message.clone();
            }
            at += 1;
        }
        self.fallback(level).clone()
    }
}

impl Clone for MessageTable {
    fn clone(&self) -> (copy: MessageTable)
        ensures
            copy@ == self@,
    {
        let lines = self.lines.clone();
        MessageTable {
            green: self.green.clone(),
            yellow: self.yellow.clone(),
            orange: self.orange.clone(),
            red: self.red.clone(),
            omega: self.omega.clone(),
            lines,
        }
    }
}

/// The documented table gives, for every level and situation, the message
/// of [`message_text`], also as the message that an activation speaks.
pub proof fn lemma_standard_messages(level: ThreatLevel, situation: Seq<char>)
    ensures
        MessageTableView::standard().select(level, situation) == message_text(level, situation),
        MessageTableView::standard().spoken(level, situation) == message_text(level, situation),
{
    lemma_standard_selection(level, situation);
    lemma_standard_selection(level, "omega"@);
}

/// The documented table answers every level and situation with the message
/// of [`message_text`].
proof fn lemma_standard_selection(level: ThreatLevel, situation: Seq<char>)
    ensures
        MessageTableView::standard().select(level, situation) == message_text(level, situation),
{
    reveal_with_fuel(first_answer, 9);
}

/// The device settings that belong to one threat level.
#[derive(Debug, Clone, Copy, PartialEq, Eq)]
pub struct DeterrenceProfile {
    pub strobe_pattern: StrobePattern,
    pub siren_active: bool,
    /// 0 to 100.
    pub siren_volume: u8,
    /// The volume at which the voice speaks; none while it is silent.
    pub voice_volume: Option<u8>,
}

/// The profile of a level under the given settings:
///
/// | level  | strobe    | siren               | voice              |
/// |--------|-----------|---------------------|--------------------|
/// | Green  | off       | off                 | silent             |
/// | Yellow | pulse     | off                 | half the volume    |
/// | Orange | warning   | a third of the top  | the volume         |
/// | Red    | emergency | two thirds of it    | the volume         |
/// | Omega  | phoenix   | the top             | 100                |
pub open spec fn profile_for(level: ThreatLevel, config: DeterrenceConfig) -> DeterrenceProfile {
    match level {
        ThreatLevel::Green => DeterrenceProfile {
            strobe_pattern: StrobePattern::Off,
            siren_active: false,
            siren_volume: 0,
            voice_volume: None,
        },
        ThreatLevel::Yellow => DeterrenceProfile {
            strobe_pattern: StrobePattern::Pulse,
            siren_active: false,
            siren_volume: 0,
            voice_volume: Some((config.voice_volume / 2) as u8),
        },
        ThreatLevel::Orange => DeterrenceProfile {
            strobe_pattern: StrobePattern::Warning,
            siren_active: true,
            siren_volume: (config.max_siren_volume / 3) as u8,
            voice_volume: Some(config.voice_volume),
        },
        ThreatLevel::Red => DeterrenceProfile {
            strobe_pattern: StrobePattern::Emergency,
            siren_active: true,
            siren_volume: (config.max_siren_volume * 2 / 3) as u8,
            voice_volume: Some(config.voice_volume),
        },
        ThreatLevel::Omega => DeterrenceProfile {
            strobe_pattern: StrobePattern::Phoenix,
            siren_active: true,
            siren_volume: config.max_siren_volume,
            voice_volume: Some(100),
        },
    }
}

/// The record of the deterrence controller.
#[derive(Debug)]
pub struct DeterrenceState {
    pub siren_active: bool,
    /// 0 to 100.
    pub siren_volume: u8,
    pub strobe_active: bool,
    pub strobe_pattern: StrobePattern,
    pub voice_active: bool,
    pub current_message: Option<String>,
    pub last_activation: Option<Timestamp>,
    pub activation_count: u32,
}

/// What a [`DeterrenceState`] holds.
pub struct DeterrenceStateView {
    pub siren_active: bool,
    pub siren_volume: u8,
    pub strobe_active: bool,
    pub strobe_pattern: StrobePattern,
    pub voice_active: bool,
    pub current_message: Option<Seq<char>>,
    pub last_activation: Option<Timestamp>,
    pub activation_count: u32,
}

impl View for DeterrenceState {
    type V = DeterrenceStateView;

    open spec fn view(&self) -> DeterrenceStateView {
        DeterrenceStateView {
            siren_active: self.siren_active,
            siren_volume: self.siren_volume,
            strobe_active: self.strobe_active,
            strobe_pattern: self.strobe_pattern,
            voice_active: self.voice_active,
            current_message: self.current_message.deep_view(),
            last_activation: self.last_activation,
            activation_count: self.activation_count,
        }
    }
}

impl DeterrenceStateView {
    /// The record of a controller that has never been activated: every
    /// device off.
    pub open spec fn initial() -> DeterrenceStateView {
        DeterrenceStateView {
            siren_active: false,
            siren_volume: 0,
            strobe_active: false,
            strobe_pattern: StrobePattern::Off,
            voice_active: false,
            current_message: None,
            last_activation: None,
            activation_count: 0,
        }
    }

    /// The record with every device off; the time and the count of the
    /// activations stay.
    pub open spec fn deactivated(self) -> DeterrenceStateView {
        DeterrenceStateView {
            siren_active: false,
            siren_volume: 0,
            strobe_active: false,
            strobe_pattern: StrobePattern::Off,
            voice_active: false,
            current_message: None,
            ..self
        }
    }

    /// The record with the devices as the profile of `level` has them, and
    /// with `message` as the message that is spoken (none at `Green`).
    pub open spec fn with_profile(
        self,
        level: ThreatLevel,
        message: Seq<char>,
        config: DeterrenceConfig,
    ) -> DeterrenceStateView {
        let profile = profile_for(level, config);
        DeterrenceStateView {
            siren_active: profile.siren_active,
            siren_volume: profile.siren_volume,
            strobe_active: profile.strobe_pattern != StrobePattern::Off,
            strobe_pattern: profile.strobe_pattern,
            voice_active: profile.voice_volume is Some,
            current_message: if level == ThreatLevel::Green {
                None
            } else {
                Some(message)
            },
            ..self
        }
    }

    /// The record after an activation for `level` at `now`: `now` as the
    /// time of the last activation, one activation more, and the devices and
    /// the message as the profile of the level has them.
    pub open spec fn activated(
        self,
        level: ThreatLevel,
        message: Seq<char>,
        config: DeterrenceConfig,
        now: Timestamp,
    ) -> DeterrenceStateView {
        DeterrenceStateView {
            last_activation: Some(now),
            activation_count: (self.activation_count + 1) as u32,
            ..self
        }.with_profile(level, message, config)
    }
}

impl Clone for DeterrenceState {
    fn clone(&self) -> (copy: DeterrenceState)
        ensures
            copy@ == self@,
    {
        let current_message = match &self.current_message {
            Some(message) => Some(message.clone()),
            None => None,
        };
        DeterrenceState {
            siren_active: self.siren_active,
            siren_volume: self.siren_volume,
            strobe_active: self.strobe_active,
            strobe_pattern: self.strobe_pattern,
            voice_active: self.voice_active,
            current_message,
            last_activation: self.last_activation,
            activation_count: self.activation_count,
        }
    }
}

impl Default for DeterrenceState {
    fn default() -> (state: DeterrenceState)
        ensures
            state@ == DeterrenceStateView::initial(),
    {
        DeterrenceState {
            siren_active: false,
            siren_volume: 0,
            strobe_active: false,
            strobe_pattern: StrobePattern::Off,
            voice_active: false,
            current_message: None,
            last_activation: None,
            activation_count: 0,
        }
    }
}

/// One command to the siren, the strobe or the voice.
#[derive(Debug)]
pub enum DeterrenceCommand {
    SetStrobe(StrobePattern),
    /// Sound the siren at this volume.
    ActivateSiren(u8),
    DeactivateSiren,
    /// Speak this message at this volume.
    Speak { message: String, volume: u8 },
    StopVoice,
    /// Let this much time pass before the next command.
    Wait { millis: u64 },
}

/// What a [`DeterrenceCommand`] holds.
pub enum DeterrenceCommandView {
    SetStrobe(StrobePattern),
    ActivateSiren(u8),
    DeactivateSiren,
    Speak { message: Seq<char>, volume: u8 },
    StopVoice,
    Wait { millis: u64 },
}

impl View for DeterrenceCommand {
    type V = DeterrenceCommandView;

    open spec fn view(&self) -> DeterrenceCommandView {
        match self {
            DeterrenceCommand::SetStrobe(pattern) => DeterrenceCommandView::SetStrobe(*pattern),
            DeterrenceCommand::ActivateSiren(volume) => DeterrenceCommandView::ActivateSiren(
                *volume,
            ),
            DeterrenceCommand::DeactivateSiren => DeterrenceCommandView::DeactivateSiren,
            DeterrenceCommand::Speak { message, volume } => DeterrenceCommandView::Speak {
                message: message@,
                volume: *volume,
            },
            DeterrenceCommand::StopVoice => DeterrenceCommandView::StopVoice,
            DeterrenceCommand::Wait { millis } => DeterrenceCommandView::Wait { millis: *millis },
        }
    }
}

impl DeepView for DeterrenceCommand {
    type V = DeterrenceCommandView;

    open spec fn deep_view(&self) -> DeterrenceCommandView {
        self@
    }
}

/// The commands that switch every device off: siren, strobe, voice.
pub open spec fn deactivation_commands() -> Seq<DeterrenceCommandView> {
    seq![
        DeterrenceCommandView::DeactivateSiren,
        DeterrenceCommandView::SetStrobe(StrobePattern::Off),
        DeterrenceCommandView::StopVoice,
    ]
}

/// The commands that put the devices into the state of a profile and speak
/// `message`: strobe, siren, voice.
pub open spec fn profile_commands(profile: DeterrenceProfile, message: Seq<char>) -> Seq<
    DeterrenceCommandView,
> {
    seq![
        DeterrenceCommandView::SetStrobe(profile.strobe_pattern),
        if profile.siren_active {
            DeterrenceCommandView::ActivateSiren(profile.siren_volume)
        } else {
            DeterrenceCommandView::DeactivateSiren
        },
        DeterrenceCommandView::Speak { message, volume: profile.voice_volume->0 },
    ]
}

/// The commands of an activation for `level` that speaks `message`: at
/// `Green` the deactivation of every device; else the strobe, the siren and
/// the voice as the profile of the level has them; and at `Omega`, after the
/// escalation delay, the ceremonial announcement of the activation.
pub open spec fn activation_commands(
    level: ThreatLevel,
    message: Seq<char>,
    config: DeterrenceConfig,
) -> Seq<DeterrenceCommandView> {
    match level {
        ThreatLevel::Green => deactivation_commands(),
        ThreatLevel::Omega => profile_commands(profile_for(level, config), message)
            + seq![
            DeterrenceCommandView::Wait { millis: config.escalation_delay_ms },
            DeterrenceCommandView::Speak {
                message: announcement_text("activation"@),
                volume: 100,
            },
        ],
        _ => profile_commands(profile_for(level, config), message),
    }
}

/// The commands of the self-test: a spoken notice, the alert strobe, the
/// siren at a low volume, everything off, and a spoken closing.
pub open spec fn test_commands() -> Seq<DeterrenceCommandView> {
    seq![
        DeterrenceCommandView::Speak { message: "System test initiated"@, volume: 50 },
        DeterrenceCommandView::Wait { millis: 1000 },
        DeterrenceCommandView::SetStrobe(StrobePattern::Alert),
        DeterrenceCommandView::Wait { millis: 2000 },
        DeterrenceCommandView::ActivateSiren(20),
        DeterrenceCommandView::Wait { millis: 1000 },
        DeterrenceCommandView::DeactivateSiren,
        DeterrenceCommandView::SetStrobe(StrobePattern::Off),
        DeterrenceCommandView::StopVoice,
        DeterrenceCommandView::Speak {
            message: "System test complete. All systems operational."@,
            volume: 50,
        },
    ]
}

/// What a [`DeterrenceSuite`] holds.
pub struct DeterrenceSuiteView {
    pub config: DeterrenceConfig,
    pub messages: MessageTableView,
    pub state: DeterrenceStateView,
}

impl DeterrenceSuiteView {
    /// The suite after an activation for `level` at `now`.
    pub open spec fn activated(
        self,
        level: ThreatLevel,
        situation: Seq<char>,
        now: Timestamp,
    ) -> DeterrenceSuiteView {
        DeterrenceSuiteView {
            state: self.state.activated(
                level,
                self.messages.spoken(level, situation),
                self.config,
                now,
            ),
            ..self
        }
    }

    /// The commands of an activation for `level`.
    pub open spec fn commands(self, level: ThreatLevel, situation: Seq<char>) -> Seq<
        DeterrenceCommandView,
    > {
        activation_commands(level, self.messages.spoken(level, situation), self.config)
    }
}

/// The deterrence controller: its settings, its messages and its record.
pub struct DeterrenceSuite {
    config: DeterrenceConfig,
    messages: MessageTable,
    state: DeterrenceState,
}

impl View for DeterrenceSuite {
    type V = DeterrenceSuiteView;

    closed spec fn view(&self) -> DeterrenceSuiteView {
        DeterrenceSuiteView { config: self.config, messages: self.messages@, state: self.state@ }
    }
}

impl DeterrenceConfig {
    /// The profile of a level under these settings.
    pub fn profile(&self, level: ThreatLevel) -> (profile: DeterrenceProfile)
        ensures
            profile == profile_for(level, *self),
    {
        match level {
            ThreatLevel::Green => DeterrenceProfile {
                strobe_pattern: StrobePattern::Off,
                siren_active: false,
                siren_volume: 0,
                voice_volume: None,
            },
            ThreatLevel::Yellow => DeterrenceProfile {
                strobe_pattern: StrobePattern::Pulse,
                siren_active: false,
                siren_volume: 0,
                voice_volume: Some(self.voice_volume / 2),
            },
            ThreatLevel::Orange => DeterrenceProfile {
                strobe_pattern: StrobePattern::Warning,
                siren_active: true,
                siren_volume: self.max_siren_volume / 3,
                voice_volume: Some(self.voice_volume),
            },
            ThreatLevel::Red => DeterrenceProfile {
                strobe_pattern: StrobePattern::Emergency,
                siren_active: true,
                siren_volume: (self.max_siren_volume as u16 * 2 / 3) as u8,
                voice_volume: Some(self.voice_volume),
            },
            ThreatLevel::Omega => DeterrenceProfile {
                strobe_pattern: StrobePattern::Phoenix,
                siren_active: true,
                siren_volume: self.max_siren_volume,
                voice_volume: Some(100),
            },
        }
    }
}

impl DeterrenceSuite {
    /// A controller with the given settings, the documented messages and
    /// every device off.
    pub fn new(config: DeterrenceConfig) -> (suite: DeterrenceSuite)
        ensures
            suite@ == (DeterrenceSuiteView {
                config,
                messages: MessageTableView::standard(),
                state: DeterrenceStateView::initial(),
            }),
    {
        DeterrenceSuite::with_messages(config, MessageTable::standard())
    }

    /// A controller with the given settings and messages and every device
    /// off.
    pub fn with_messages(config: DeterrenceConfig, messages: MessageTable) -> (suite:
        DeterrenceSuite)
        ensures
            suite@ == (DeterrenceSuiteView {
                config,
                messages: messages@,
                state: DeterrenceStateView::initial(),
            }),
    {
        DeterrenceSuite { config, messages, state: DeterrenceState::default() }
    }

    /// Activates the devices for a threat level at the current time.
    pub fn activate(&mut self, threat_level: ThreatLevel, situation: &str) -> (commands: Vec<
        DeterrenceCommand,
    >)
        requires
            old(self)@.state.activation_count < u32::MAX,
        ensures
            commands.deep_view() == old(self)@.commands(threat_level, situation@),
            exists|now: Timestamp|
                now.millis >= 0 && final(self)@ == #[trigger] old(self)@.activated(
                    threat_level,
                    situation@,
                    now,
                ),
            final(self)@.config == old(self)@.config,
            final(self)@.messages == old(self)@.messages,
            final(self)@.state.activation_count == old(self)@.state.activation_count + 1,
            final(self)@.state.last_activation is Some,
            final(self)@.state == (DeterrenceStateView {
                last_activation: final(self)@.state.last_activation,
                activation_count: final(self)@.state.activation_count,
                ..old(self)@.state.with_profile(
                    threat_level,
                    old(self)@.messages.spoken(threat_level, situation@),
                    old(self)@.config,
                )
            }),
            threat_level == ThreatLevel::Green ==> {
                &&& !final(self)@.state.siren_active
                &&& final(self)@.state.siren_volume == 0
                &&& !final(self)@.state.strobe_active
                &&& final(self)@.state.strobe_pattern == StrobePattern::Off
                &&& !final(self)@.state.voice_active
                &&& final(self)@.state.current_message is None
                &&& commands.deep_view() == deactivation_commands()
            },
    {
        let now = Timestamp::now();
        self.activate_at(threat_level, situation, now)
    }

    /// Activates the devices for a threat level at `now`.
    ///
    /// The record takes the state of the profile of the level, whatever it
    /// was before; at `Green` that is every device off and no message. In
    /// every case `now` becomes the time of the last activation and the
    /// count of activations rises by one. The commands that are returned
    /// put the devices into that state.
    pub fn activate_at(
        &mut self,
        threat_level: ThreatLevel,
        situation: &str,
        now: Timestamp,
    ) -> (commands: Vec<DeterrenceCommand>)
        requires
            old(self)@.state.activation_count < u32::MAX,
        ensures
            commands.deep_view() == old(self)@.commands(threat_level, situation@),
            final(self)@ == old(self)@.activated(threat_level, situation@, now),
            threat_level == ThreatLevel::Green ==> {
                &&& !final(self)@.state.siren_active
                &&& final(self)@.state.siren_volume == 0
                &&& !final(self)@.state.strobe_active
                &&& final(self)@.state.strobe_pattern == StrobePattern::Off
                &&& !final(self)@.state.voice_active
                &&& final(self)@.state.current_message is None
                &&& commands.deep_view() == deactivation_commands()
            },
    {
        self.state.last_activation = Some(now);
        self.state.activation_count = self.state.activation_count + 1;
        match threat_level {
            ThreatLevel::Green => self.deactivate_all(),
            ThreatLevel::Yellow => self.activate_low_deterrence(situation),
            ThreatLevel::Orange => self.activate_medium_deterrence(situation),
            ThreatLevel::Red => self.activate_high_deterrence(situation),
            ThreatLevel::Omega => self.activate_omega_protocol(),
        }
    }

    /// Puts the devices into the state of the profile of `level` and speaks
    /// the message of the level in the situation.
    fn apply(&mut self, level: ThreatLevel, situation: &str) -> (commands: Vec<DeterrenceCommand>)
        requires
            level != ThreatLevel::Green,
        ensures
            final(self)@ == (DeterrenceSuiteView {
                state: old(self)@.state.with_profile(
                    level,
                    old(self)@.messages.select(level, situation@),
                    old(self)@.config,
                ),
                ..old(self)@
            }),
            commands.deep_view() == profile_commands(
                profile_for(level, old(self)@.config),
                old(self)@.messages.select(level, situation@),
            ),
    {
        let profile = self.config.profile(level);
        let message = self.messages.select(level, situation);
        let volume: u8 = match profile.voice_volume {
            Some(volume) => volume,
            None => 0,
        };
        let mut commands: Vec<DeterrenceCommand> = Vec::new();
        commands.push(DeterrenceCommand::SetStrobe(profile.strobe_pattern));
        if profile.siren_active {
            commands.push(DeterrenceCommand::ActivateSiren(profile.siren_volume));
        } else {
            commands.push(DeterrenceCommand::DeactivateSiren);
        }
        commands.push(DeterrenceCommand::Speak { message: message.clone(), volume });
        self.state.strobe_active = profile.strobe_pattern != StrobePattern::Off;
        self.state.strobe_pattern = profile.strobe_pattern;
        self.state.siren_active = profile.siren_active;
        self.state.siren_volume = profile.siren_volume;
        self.state.voice_active = true;
        self.state.current_message = Some(message);
        commands
    }

    /// The deterrence of level `Yellow`: a gentle strobe and a calm message
    /// at half the voice volume.
    fn activate_low_deterrence(&mut self, situation: &str) -> (commands: Vec<DeterrenceCommand>)
        ensures
            final(self)@ == (DeterrenceSuiteView {
                state: old(self)@.state.with_profile(
                    ThreatLevel::Yellow,
                    old(self)@.messages.select(ThreatLevel::Yellow, situation@),
                    old(self)@.config,
                ),
                ..old(self)@
            }),
            commands.deep_view() == activation_commands(
                ThreatLevel::Yellow,
                old(self)@.messages.select(ThreatLevel::Yellow, situation@),
                old(self)@.config,
            ),
    {
        self.apply(ThreatLevel::Yellow, situation)
    }

    /// The deterrence of level `Orange`: the warning strobe, the siren at a
    /// third of its top volume, and an authoritative message.
    fn activate_medium_deterrence(&mut self, situation: &str) -> (commands: Vec<DeterrenceCommand>)
        ensures
            final(self)@ == (DeterrenceSuiteView {
                state: old(self)@.state.with_profile(
                    ThreatLevel::Orange,
                    old(self)@.messages.select(ThreatLevel::Orange, situation@),
                    old(self)@.config,
                ),
                ..old(self)@
            }),
            commands.deep_view() == activation_commands(
                ThreatLevel::Orange,
                old(self)@.messages.select(ThreatLevel::Orange, situation@),
                old(self)@.config,
            ),
    {
        self.apply(ThreatLevel::Orange, situation)
    }

    /// The deterrence of level `Red`: the emergency strobe, the siren at
    /// two thirds of its top volume, and a commanding message.
    fn activate_high_deterrence(&mut self, situation: &str) -> (commands: Vec<DeterrenceCommand>)
        ensures
            final(self)@ == (DeterrenceSuiteView {
                state: old(self)@.state.with_profile(
                    ThreatLevel::Red,
                    old(self)@.messages.select(ThreatLevel::Red, situation@),
                    old(self)@.config,
                ),
                ..old(self)@
            }),
            commands.deep_view() == activation_commands(
                ThreatLevel::Red,
                old(self)@.messages.select(ThreatLevel::Red, situation@),
                old(self)@.config,
            ),
    {
        self.apply(ThreatLevel::Red, situation)
    }

    /// The deterrence of level `Omega`: the phoenix strobe, the siren at
    /// its top volume, the omega message at full volume and, after the
    /// escalation delay, the ceremonial announcement of the activation.
    fn activate_omega_protocol(&mut self) -> (commands: Vec<DeterrenceCommand>)
        ensures
            final(self)@ == (DeterrenceSuiteView {
                state: old(self)@.state.with_profile(
                    ThreatLevel::Omega,
                    old(self)@.messages.select(ThreatLevel::Omega, "omega"@),
                    old(self)@.config,
                ),
                ..old(self)@
            }),
            commands.deep_view() == activation_commands(
                ThreatLevel::Omega,
                old(self)@.messages.select(ThreatLevel::Omega, "omega"@),
                old(self)@.config,
            ),
    {
        let mut commands = self.apply(ThreatLevel::Omega, "omega");
        commands.push(DeterrenceCommand::Wait { millis: self.config.escalation_delay_ms });
        commands.push(
            DeterrenceCommand::Speak {
                message: MythicVoice::ceremonial_announcement("activation"),
                volume: 100,
            },
        );
        commands
    }

    /// Switches every device off. The time and the count of the
    /// activations stay as they are.
    pub fn deactivate_all(&mut self) -> (commands: Vec<DeterrenceCommand>)
        ensures
            final(self)@ == (DeterrenceSuiteView {
                state: old(self)@.state.deactivated(),
                ..old(self)@
            }),
            commands.deep_view() == deactivation_commands(),
    {
        let mut commands: Vec<DeterrenceCommand> = Vec::new();
        commands.push(DeterrenceCommand::DeactivateSiren);
        commands.push(DeterrenceCommand::SetStrobe(StrobePattern::Off));
        commands.push(DeterrenceCommand::StopVoice);
        self.state.siren_active = false;
        self.state.siren_volume = 0;
        self.state.strobe_active = false;
        self.state.strobe_pattern = StrobePattern::Off;
        self.state.voice_active = false;
        self.state.current_message = None;
        commands
    }

    /// The record of the controller.
    pub fn get_status(&self) -> (state: &DeterrenceState)
        ensures
            state@ == self@.state,
    {
        &self.state
    }

    /// The settings in force.
    pub fn config(&self) -> (config: &DeterrenceConfig)
        ensures
            *config == self@.config,
    {
        &self.config
    }

    /// The messages in force.
    pub fn messages(&self) -> (messages: &MessageTable)
        ensures
            messages@ == self@.messages,
    {
        &self.messages
    }

    /// The commands of the self-test. The test leaves every device off.
    pub fn system_test(&mut self) -> (commands: Vec<DeterrenceCommand>)
        ensures
            final(self)@ == (DeterrenceSuiteView {
                state: old(self)@.state.deactivated(),
                ..old(self)@
            }),
            commands.deep_view() == test_commands(),
    {
        let mut commands: Vec<DeterrenceCommand> = Vec::new();
        commands.push(
            DeterrenceCommand::Speak {
                message: String::from_str("System test initiated"),
                volume: 50,
            },
        );
        commands.push(DeterrenceCommand::Wait { millis: 1000 });
        commands.push(DeterrenceCommand::SetStrobe(StrobePattern::Alert));
        commands.push(DeterrenceCommand::Wait { millis: 2000 });
        commands.push(DeterrenceCommand::ActivateSiren(20));
        commands.push(DeterrenceCommand::Wait { millis: 1000 });
        let mut off = self.deactivate_all();
        let ghost head = commands.deep_view();
        let ghost tail = off.deep_view();
        commands.append(&mut off);
        assert(commands.deep_view() =~= head + tail);
        commands.push(
            DeterrenceCommand::Speak {
                message: String::from_str("System test complete. All systems operational."),
                volume: 50,
            },
        );
        commands
    }
}

/// Activating for level `Green` switches every device off, whatever the
/// record was before and whatever the messages are: no siren, no volume, no
/// strobe, no voice, no message.
pub proof fn lemma_green_deactivates(
    suite: DeterrenceSuiteView,
    situation: Seq<char>,
    now: Timestamp,
)
    ensures
        suite.activated(ThreatLevel::Green, situation, now).state == (DeterrenceStateView {
            last_activation: Some(now),
            activation_count: (suite.state.activation_count + 1) as u32,
            ..DeterrenceStateView::initial()
        }),
        !suite.activated(ThreatLevel::Green, situation, now).state.siren_active,
        suite.activated(ThreatLevel::Green, situation, now).state.strobe_pattern
            == StrobePattern::Off,
        !suite.activated(ThreatLevel::Green, situation, now).state.voice_active,
        suite.commands(ThreatLevel::Green, situation) == deactivation_commands(),
{
}

/// The record after an activation depends on the level, the situation, the
/// settings, the messages and the time, and on the record before only
/// through its count of activations.
pub proof fn lemma_activation_forgets_prior_state(
    one: DeterrenceSuiteView,
    other: DeterrenceSuiteView,
    level: ThreatLevel,
    situation: Seq<char>,
    now: Timestamp,
)
    requires
        one.config == other.config,
        one.messages == other.messages,
        one.state.activation_count == other.state.activation_count,
    ensures
        one.activated(level, situation, now) == other.activated(level, situation, now),
        one.commands(level, situation) == other.commands(level, situation),
{
}

/// With the documented messages, an activation speaks the message of
/// [`message_text`].
pub proof fn lemma_standard_activation(
    suite: DeterrenceSuiteView,
    level: ThreatLevel,
    situation: Seq<char>,
    now: Timestamp,
)
    requires
        suite.messages == MessageTableView::standard(),
        level != ThreatLevel::Green,
    ensures
        suite.activated(level, situation, now).state.current_message == Some(
            message_text(level, situation),
        ),
        suite.commands(level, situation)[2] == (DeterrenceCommandView::Speak {
            message: message_text(level, situation),
            volume: profile_for(level, suite.config).voice_volume->0,
        }),
{
    lemma_standard_messages(level, situation);
}

} // verus!
