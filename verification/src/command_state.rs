//! The command state of one protected unit and its threat state machine.
//!
//! The threat level only ever rises through [`DroneState::escalate_threat`];
//! every rise appends one event to the mission log, and the log is
//! append-only. Lowering the level is a separate decision of the operator,
//! made by assigning the field.

use crate::stamp::{fresh_id, is_random_id, Timestamp};
use crate::text::{decimal, push_decimal};
use crate::threat_level::ThreatLevel;
use std::collections::HashMap;
use vstd::prelude::*;

verus! {

/// Where the unit is, and when that was measured.
#[derive(Debug, Clone, Copy, PartialEq, Eq, Structural)]
pub struct Position {
    /// Latitude in ten-millionths of a degree, north positive.
    pub latitude: i32,
    /// Longitude in ten-millionths of a degree, east positive.
    pub longitude: i32,
    /// Altitude in millimetres.
    pub altitude: i32,
    pub timestamp: Timestamp,
}

/// Vital signs of the protected person.
#[derive(Debug, Clone, Copy, PartialEq, Eq)]
pub struct VitalSigns {
    /// Beats per minute.
    pub heart_rate: Option<u16>,
    /// Percent.
    pub blood_oxygen: Option<u8>,
    /// Body temperature in thousandths of a degree Celsius.
    pub temperature: Option<i32>,
    /// 0 to 100.
    pub stress_level: Option<u8>,
    pub timestamp: Timestamp,
}

/// Health of the unit's own systems.
#[derive(Debug, Clone, Copy, PartialEq, Eq, Structural)]
pub struct SystemHealth {
    /// Percent.
    pub battery_level: u8,
    /// Seconds.
    pub flight_time_remaining: u32,
    /// Percent.
    pub shield_integrity: u8,
    pub fire_suppression_ready: bool,
    /// Percent.
    pub medical_supplies: u8,
    pub communication_status: bool,
    pub gps_lock: bool,
    pub timestamp: Timestamp,
}

/// What kind of occurrence a mission event records.
#[derive(Debug, Clone, Copy, PartialEq, Eq, Structural)]
pub enum EventType {
    ThreatDetected,
    SubsystemActivated,
    PoliceContacted,
    ShieldDeployed,
    FireSuppressed,
    MedicalAidDeployed,
    HackingAttempt,
    SystemMalfunction,
    MissionComplete,
    CeremonialActivation,
}

/// One entry of the mission log. An entry is never changed once it is logged.
#[derive(Debug)]
pub struct MissionEvent {
    pub id: u128,
    pub timestamp: Timestamp,
    pub event_type: EventType,
    pub description: String,
    /// The threat level at the time of the event.
    pub threat_level: ThreatLevel,
    /// The position at the time of the event.
    pub position: Position,
    pub response_actions: Vec<String>,
}

/// What a [`MissionEvent`] holds.
pub struct MissionEventView {
    pub id: u128,
    pub timestamp: Timestamp,
    pub event_type: EventType,
    pub description: Seq<char>,
    pub threat_level: ThreatLevel,
    pub position: Position,
    pub response_actions: Seq<Seq<char>>,
}

impl View for MissionEvent {
    type V = MissionEventView;

    open spec fn view(&self) -> MissionEventView {
        MissionEventView {
            id: self.id,
            timestamp: self.timestamp,
            event_type: self.event_type,
            description: self.description@,
            threat_level: self.threat_level,
            position: self.position,
            response_actions: self.response_actions.deep_view(),
        }
    }
}

impl DeepView for MissionEvent {
    type V = MissionEventView;

    open spec fn deep_view(&self) -> MissionEventView {
        self@
    }
}

impl Clone for MissionEvent {
    fn clone(&self) -> (copy: MissionEvent)
        ensures
            copy@ == self@,
    {
        let response_actions = self.response_actions.clone();
        MissionEvent {
            id: self.id,
            timestamp: self.timestamp,
            event_type: self.event_type,
            description: self.description.clone(),
            threat_level: self.threat_level,
            position: self.position,
            response_actions,
        }
    }
}

/// The single source of truth about one protected unit.
#[derive(Debug)]
pub struct DroneState {
    pub id: u128,
    pub name: String,
    pub threat_level: ThreatLevel,
    pub position: Position,
    pub target_vitals: Option<VitalSigns>,
    pub system_health: SystemHealth,
    /// Named subsystem to enabled flag.
    pub active_modules: HashMap<String, bool>,
    /// Oldest event first.
    pub mission_log: Vec<MissionEvent>,
    pub last_update: Timestamp,
}

/// What a [`DroneState`] holds.
pub struct DroneStateView {
    pub id: u128,
    pub name: Seq<char>,
    pub threat_level: ThreatLevel,
    pub position: Position,
    pub target_vitals: Option<VitalSigns>,
    pub system_health: SystemHealth,
    pub active_modules: Map<String, bool>,
    pub mission_log: Seq<MissionEventView>,
    pub last_update: Timestamp,
}

impl View for DroneState {
    type V = DroneStateView;

    open spec fn view(&self) -> DroneStateView {
        DroneStateView {
            id: self.id,
            name: self.name@,
            threat_level: self.threat_level,
            position: self.position,
            target_vitals: self.target_vitals,
            system_health: self.system_health,
            active_modules: self.active_modules@,
            mission_log: self.mission_log.deep_view(),
            last_update: self.last_update,
        }
    }
}

impl Clone for DroneState {
    /// A snapshot of the state.
    fn clone(&self) -> (copy: DroneState)
        ensures
            copy@ == self@,
    {
        let mission_log = self.mission_log.clone();
        DroneState {
            id: self.id,
            name: self.name.clone(),
            threat_level: self.threat_level,
            position: self.position,
            target_vitals: self.target_vitals,
            system_health: self.system_health,
            active_modules: self.active_modules.clone(),
            mission_log,
            last_update: self.last_update,
        }
    }
}

/// The description of the event that an escalation logs.
pub open spec fn escalation_text(level: ThreatLevel, reason: Seq<char>) -> Seq<char> {
    "Threat level escalated to "@ + level.name() + ": "@ + reason
}

/// The response action of the event that an escalation logs.
pub open spec fn assessment_text(level: ThreatLevel) -> Seq<char> {
    "Threat assessment: "@ + level.summary()
}

/// The emblem that frames the status line of a level.
pub open spec fn emblem(level: ThreatLevel) -> Seq<char> {
    match level {
        ThreatLevel::Green => "🕊️"@,
        ThreatLevel::Yellow => "⚠️"@,
        ThreatLevel::Orange => "🔥"@,
        ThreatLevel::Red => "⚔️"@,
        ThreatLevel::Omega => "🔥💀🔥"@,
    }
}

impl DroneStateView {
    /// The state of a unit that has just been commissioned.
    pub open spec fn initial(name: Seq<char>, id: u128, now: Timestamp) -> DroneStateView {
        DroneStateView {
            id,
            name,
            threat_level: ThreatLevel::Green,
            position: Position { latitude: 0, longitude: 0, altitude: 0, timestamp: now },
            target_vitals: None,
            system_health: SystemHealth {
                battery_level: 100,
                flight_time_remaining: 3600,
                shield_integrity: 100,
                fire_suppression_ready: true,
                medical_supplies: 100,
                communication_status: true,
                gps_lock: true,
                timestamp: now,
            },
            active_modules: Map::empty(),
            mission_log: Seq::empty(),
            last_update: now,
        }
    }

    /// The state after one event has been logged at `now`.
    pub open spec fn with_event(
        self,
        id: u128,
        now: Timestamp,
        event_type: EventType,
        description: Seq<char>,
        response_actions: Seq<Seq<char>>,
    ) -> DroneStateView {
        DroneStateView {
            mission_log: self.mission_log.push(
                MissionEventView {
                    id,
                    timestamp: now,
                    event_type,
                    description,
                    threat_level: self.threat_level,
                    position: self.position,
                    response_actions,
                },
            ),
            last_update: now,
            ..self
        }
    }

    /// The state after a request to escalate to `level`: unchanged unless
    /// `level` is above the current one.
    pub open spec fn escalated(
        self,
        level: ThreatLevel,
        reason: Seq<char>,
        id: u128,
        now: Timestamp,
    ) -> DroneStateView {
        if level.rank() > self.threat_level.rank() {
            DroneStateView { threat_level: level, ..self }.with_event(
                id,
                now,
                EventType::ThreatDetected,
                escalation_text(level, reason),
                seq![assessment_text(level)],
            )
        } else {
            self
        }
    }

    /// The state with only the latest `capacity` events in the log: the
    /// oldest events leave first.
    pub open spec fn with_latest_events(self, capacity: nat) -> DroneStateView {
        if self.mission_log.len() > capacity {
            DroneStateView {
                mission_log: self.mission_log.skip(self.mission_log.len() - capacity),
                ..self
            }
        } else {
            self
        }
    }

    /// Whether the unit needs immediate intervention.
    pub open spec fn is_critical(self) -> bool {
        self.threat_level.rank() >= ThreatLevel::Red.rank() || self.system_health.battery_level
            < 20 || !self.system_health.communication_status || self.system_health.shield_integrity
            < 50
    }

    /// The three-line status report.
    pub open spec fn status_text(self) -> Seq<char> {
        emblem(self.threat_level) + " Dark Phoenix "@ + self.name + " - Status: "@
            + self.threat_level.name() + " "@ + emblem(self.threat_level) + "\nBattery: "@
            + decimal(self.system_health.battery_level as nat) + "% | Shield: "@ + decimal(
            self.system_health.shield_integrity as nat,
        ) + "% | Flight Time: "@ + decimal((self.system_health.flight_time_remaining / 60) as nat)
            + "min\n"@ + self.threat_level.summary()
    }
}

/// One request to escalate, with the stamp that its event would carry.
pub struct Escalation {
    pub level: ThreatLevel,
    pub reason: Seq<char>,
    pub id: u128,
    pub now: Timestamp,
}

/// The state after a run of escalation requests, made in order.
pub open spec fn escalated_all(start: DroneStateView, requests: Seq<Escalation>) -> DroneStateView
    decreases requests.len(),
{
    if requests.len() == 0 {
        start
    } else {
        let last = requests.last();
        escalated_all(start, requests.drop_last()).escalated(
            last.level,
            last.reason,
            last.id,
            last.now,
        )
    }
}

/// The highest of a starting level and the levels of a run of requests.
pub open spec fn highest_level(start: ThreatLevel, requests: Seq<Escalation>) -> ThreatLevel
    decreases requests.len(),
{
    if requests.len() == 0 {
        start
    } else {
        highest_level(start, requests.drop_last()).higher(requests.last().level)
    }
}

/// The highest level is at least the starting level and every requested
/// level, and it is one of them.
pub proof fn lemma_highest_level_is_maximum(start: ThreatLevel, requests: Seq<Escalation>)
    ensures
        start.rank() <= highest_level(start, requests).rank(),
        forall|i: int|
            0 <= i < requests.len() ==> (#[trigger] requests[i]).level.rank() <= highest_level(
                start,
                requests,
            ).rank(),
        highest_level(start, requests) == start || exists|i: int|
            0 <= i < requests.len() && (#[trigger] requests[i]).level == highest_level(
                start,
                requests,
            ),
    decreases requests.len(),
{
    if requests.len() > 0 {
        let front = requests.drop_last();
        lemma_highest_level_is_maximum(start, front);
        let top = highest_level(start, requests);
        assert forall|i: int| 0 <= i < requests.len() implies (#[trigger] requests[i]).level.rank()
            <= top.rank() by {
            if i < front.len() {
                assert(front[i] == requests[i]);
            }
        }
        if top != start {
            if top == requests.last().level {
            } else {
                let i = choose|i: int|
                    0 <= i < front.len() && (#[trigger] front[i]).level == highest_level(
                        start,
                        front,
                    );
            }
        }
    }
}

/// Escalation is monotonic. Whatever requests are made, in whatever order:
/// the level never falls along the way; the level after them is the highest
/// of the starting level and the levels requested, that is, it is at least
/// each of them and equal to one of them (so, from `Green`, it is the
/// maximum level ever passed in); and the log only grows.
pub proof fn lemma_escalation_reaches_highest(start: DroneStateView, requests: Seq<Escalation>)
    ensures
        escalated_all(start, requests).threat_level == highest_level(
            start.threat_level,
            requests,
        ),
        forall|i: int, j: int|
            0 <= i <= j <= requests.len() ==> (#[trigger] escalated_all(
                start,
                requests.take(i),
            )).threat_level.rank() <= (#[trigger] escalated_all(
                start,
                requests.take(j),
            )).threat_level.rank(),
        start.threat_level.rank() <= escalated_all(start, requests).threat_level.rank(),
        forall|i: int|
            0 <= i < requests.len() ==> (#[trigger] requests[i]).level.rank() <= escalated_all(
                start,
                requests,
            ).threat_level.rank(),
        escalated_all(start, requests).threat_level == start.threat_level || exists|i: int|
            0 <= i < requests.len() && (#[trigger] requests[i]).level == escalated_all(
                start,
                requests,
            ).threat_level,
        start.mission_log.is_prefix_of(escalated_all(start, requests).mission_log),
    decreases requests.len(),
{
    lemma_highest_level_is_maximum(start.threat_level, requests);
    if requests.len() > 0 {
        let front = requests.drop_last();
        lemma_escalation_reaches_highest(start, front);
        assert(front.take(front.len() as int) =~= front);
        assert forall|i: int, j: int| 0 <= i <= j <= requests.len() implies (
        #[trigger] escalated_all(start, requests.take(i))).threat_level.rank() <= (
        #[trigger] escalated_all(start, requests.take(j))).threat_level.rank() by {
            if i < requests.len() {
                assert(requests.take(i) =~= front.take(i));
            }
            if j < requests.len() {
                assert(requests.take(j) =~= front.take(j));
            } else {
                assert(requests.take(j) =~= requests);
            }
        }
    }
}

/// A request for a level that is not above the current one changes nothing.
pub proof fn lemma_escalation_to_lower_level_is_noop(
    state: DroneStateView,
    level: ThreatLevel,
    reason: Seq<char>,
    id: u128,
    now: Timestamp,
)
    requires
        level.rank() <= state.threat_level.rank(),
    ensures
        state.escalated(level, reason, id, now) == state,
{
}

/// The emblem that frames the status line of a level.
fn status_emblem(level: ThreatLevel) -> (s: &'static str)
    ensures
        s@ == emblem(level),
{
    match level {
        ThreatLevel::Green => "🕊️",
        ThreatLevel::Yellow => "⚠️",
        ThreatLevel::Orange => "🔥",
        ThreatLevel::Red => "⚔️",
        ThreatLevel::Omega => "🔥💀🔥",
    }
}

impl DroneState {
    /// Commissions a unit under a fresh identifier, at the current time.
    pub fn new(name: String) -> (state: DroneState)
        ensures
            exists|id: u128, now: Timestamp|
                {
                    &&& is_random_id(id)
                    &&& now.millis >= 0
                    &&& state@ == #[trigger] DroneStateView::initial(name@, id, now)
                },
    {
        let id: u128 = fresh_id();
        let now = Timestamp::now();
        DroneState::new_at(name, id, now)
    }

    /// Commissions a unit under the identifier `id` at the time `now`:
    /// level `Green`, at the origin, in full health, with an empty log.
    pub fn new_at(name: String, id: u128, now: Timestamp) -> (state: DroneState)
        ensures
            state@ == DroneStateView::initial(name@, id, now),
    {
        let state = DroneState {
            id,
            name,
            threat_level: ThreatLevel::Green,
            position: Position { latitude: 0, longitude: 0, altitude: 0, timestamp: now },
            target_vitals: None,
            system_health: SystemHealth {
                battery_level: 100,
                flight_time_remaining: 3600,
                shield_integrity: 100,
                fire_suppression_ready: true,
                medical_supplies: 100,
                communication_status: true,
                gps_lock: true,
                timestamp: now,
            },
            active_modules: HashMap::new(),
            mission_log: Vec::new(),
            last_update: now,
        };
        assert(state.mission_log.deep_view() =~= Seq::empty());
        state
    }

    /// Appends an event, stamped with a fresh identifier and the current
    /// time, to the mission log.
    pub fn log_event(
        &mut self,
        event_type: EventType,
        description: String,
        response_actions: Vec<String>,
    )
        ensures
            exists|id: u128, now: Timestamp|
                {
                    &&& is_random_id(id)
                    &&& now.millis >= 0
                    &&& final(self)@ == #[trigger] old(self)@.with_event(
                        id,
                        now,
                        event_type,
                        description@,
                        response_actions.deep_view(),
                    )
                },
    {
        let id: u128 = fresh_id();
        let now = Timestamp::now();
        self.log_event_at(id, now, event_type, description, response_actions);
    }

    /// Appends an event to the mission log. The event records the threat
    /// level and the position that the unit has at this moment; nothing but
    /// the log and the time of the last update changes.
    pub fn log_event_at(
        &mut self,
        id: u128,
        now: Timestamp,
        event_type: EventType,
        description: String,
        response_actions: Vec<String>,
    )
        ensures
            final(self)@ == old(self)@.with_event(
                id,
                now,
                event_type,
                description@,
                response_actions.deep_view(),
            ),
    {
        let event = MissionEvent {
            id,
            timestamp: now,
            event_type,
            description,
            threat_level: self.threat_level,
            position: self.position,
            response_actions,
        };
        let ghost logged = event@;
        self.mission_log.push(event);
        self.last_update = now;
        assert(self.mission_log.deep_view() =~= old(self).mission_log.deep_view().push(logged));
    }

    /// Raises the threat level to `new_level`, logging the rise under a
    /// fresh identifier at the current time. A level that is not above the
    /// current one changes nothing.
    pub fn escalate_threat(&mut self, new_level: ThreatLevel, reason: String)
        ensures
            exists|id: u128, now: Timestamp|
                {
                    &&& is_random_id(id)
                    &&& now.millis >= 0
                    &&& final(self)@ == #[trigger] old(self)@.escalated(new_level, reason@, id, now)
                },
            new_level.rank() <= old(self).threat_level.rank() ==> *final(self) == *old(self),
    {
        let id: u128 = fresh_id();
        let now = Timestamp::now();
        self.escalate_threat_at(new_level, reason, id, now);
    }

    /// Raises the threat level to `new_level` and logs a `ThreatDetected`
    /// event that names the new level and the reason. A level that is not
    /// above the current one changes nothing: no event, no update.
    pub fn escalate_threat_at(
        &mut self,
        new_level: ThreatLevel,
        reason: String,
        id: u128,
        now: Timestamp,
    )
        ensures
            final(self)@ == old(self)@.escalated(new_level, reason@, id, now),
            new_level.rank() <= old(self).threat_level.rank() ==> *final(self) == *old(self),
    {
        if new_level > self.threat_level {
            self.threat_level = new_level;
            let mut description = String::from_str("Threat level escalated to ");
            description.append(new_level.as_str());
            description.append(": ");
            description.append(reason.as_str());
            let mut action = String::from_str("Threat assessment: ");
            action.append(new_level.description());
            let mut actions: Vec<String> = Vec::new();
            actions.push(action);
            assert(actions.deep_view() =~= seq![assessment_text(new_level)]);
            self.log_event_at(id, now, EventType::ThreatDetected, description, actions);
        }
    }

    /// Bounds the mission log: of more than `capacity` events only the latest
    /// `capacity` stay, in their order. Nothing else changes.
    pub fn retain_latest_events(&mut self, capacity: usize)
        ensures
            final(self)@ == old(self)@.with_latest_events(capacity as nat),
            final(self)@.mission_log.len() <= capacity,
            old(self)@.mission_log.len() <= capacity ==> *final(self) == *old(self),
    {
        let count: usize = self.mission_log.len();
        if count > capacity {
            let ghost before = self.mission_log.deep_view();
            let kept = self.mission_log.split_off(count - capacity);
            assert(kept.deep_view() =~= before.skip(count - capacity));
            self.mission_log = kept;
        }
    }

    /// Whether the unit needs immediate intervention: the level is `Red` or
    /// above, the battery is under 20 %, communication is lost, or the
    /// shield is under 50 %.
    pub fn is_critical(&self) -> (critical: bool)
        ensures
            critical == self@.is_critical(),
            critical == (self.threat_level.rank() >= 3 || self.system_health.battery_level < 20
                || !self.system_health.communication_status || self.system_health.shield_integrity
                < 50),
    {
        self.threat_level >= ThreatLevel::Red || self.system_health.battery_level < 20
            || !self.system_health.communication_status || self.system_health.shield_integrity
            < 50
    }

    /// The three-line status report: the level between its emblems, the
    /// battery and shield percentages with the flight time left in whole
    /// minutes, and the description of the level.
    pub fn mythic_status(&self) -> (report: String)
        ensures
            report@ == self@.status_text(),
    {
        let mark = status_emblem(self.threat_level);
        let mut report = String::from_str(mark);
        report.append(" Dark Phoenix ");
        report.append(self.name.as_str());
        report.append(" - Status: ");
        report.append(self.threat_level.as_str());
        report.append(" ");
        report.append(mark);
        report.append("\nBattery: ");
        push_decimal(&mut report, self.system_health.battery_level as u64);
        report.append("% | Shield: ");
        push_decimal(&mut report, self.system_health.shield_integrity as u64);
        report.append("% | Flight Time: ");
        push_decimal(&mut report, (self.system_health.flight_time_remaining / 60) as u64);
        report.append("min\n");
        report.append(self.threat_level.description());
        report
    }
}

} // verus!
