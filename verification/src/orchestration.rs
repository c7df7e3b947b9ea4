//! The protection-cycle scheduler.
//!
//! [`DarkPhoenixCore`] owns the command state. One protection cycle updates
//! the health of the unit, feeds the threat assessment of the tick into the
//! threat state machine, and answers with the level and the posture that the
//! caller dispatches to the controllers. A cycle only ever raises the threat
//! level. After an emergency landing no cycle changes anything any more.
//!
//! The mission log grows without bound unless the core is given a capacity;
//! with one, the core keeps only the latest events, and the oldest leave
//! first.
//!
//! Ticking, waiting for the assessment, and guarding the core against
//! concurrent access are the caller's part.

use crate::command_state::{DroneState, DroneStateView, EventType, SystemHealth};
use crate::stamp::{fresh_id, is_random_id, Timestamp};
use crate::threat_detection::{ThreatAssessment, ThreatAssessmentView};
use crate::threat_level::ThreatLevel;
use vstd::prelude::*;

verus! {

/// The time from one tick to the next, in milliseconds: ten cycles a second.
pub const CYCLE_PERIOD_MILLIS: u64 = 100;

/// The battery level, in percent, under which the unit escalates by itself.
pub const CRITICAL_BATTERY: u8 = 20;

/// The posture that the unit takes at a threat level.
#[derive(Debug, Clone, Copy, PartialEq, Eq, Structural)]
pub enum ResponsePosture {
    /// Passive monitoring.
    PassiveMonitoring,
    /// Increased sensor sensitivity.
    HeightenedAwareness,
    /// Defensive posture; deterrence is prepared.
    DefensiveProtocols,
    /// All deterrence systems active.
    AllSystemsActive,
    /// Maximum protection, all systems deployed.
    OmegaProtocol,
}

impl ResponsePosture {
    /// The posture of a level.
    pub open spec fn of(level: ThreatLevel) -> ResponsePosture {
        match level {
            ThreatLevel::Green => ResponsePosture::PassiveMonitoring,
            ThreatLevel::Yellow => ResponsePosture::HeightenedAwareness,
            ThreatLevel::Orange => ResponsePosture::DefensiveProtocols,
            ThreatLevel::Red => ResponsePosture::AllSystemsActive,
            ThreatLevel::Omega => ResponsePosture::OmegaProtocol,
        }
    }

    /// The notice that announces the posture; passive monitoring is silent.
    pub open spec fn announcement(self) -> Option<Seq<char>> {
        match self {
            ResponsePosture::PassiveMonitoring => None,
            ResponsePosture::HeightenedAwareness => Some("🟡 Heightened awareness mode active"@),
            ResponsePosture::DefensiveProtocols => Some("🟠 Defensive protocols engaged"@),
            ResponsePosture::AllSystemsActive => Some("🔴 High threat - all systems active"@),
            ResponsePosture::OmegaProtocol => Some("💀 OMEGA PROTOCOL - DARK PHOENIX RISING 💀"@),
        }
    }

    /// The notice that announces the posture; passive monitoring is silent.
    pub fn notice(&self) -> (notice: Option<&'static str>)
        ensures
            notice is Some <==> self.announcement() is Some,
            notice matches Some(text) ==> Some(text@) == self.announcement(),
    {
        match self {
            ResponsePosture::PassiveMonitoring => None,
            ResponsePosture::HeightenedAwareness => Some("🟡 Heightened awareness mode active"),
            ResponsePosture::DefensiveProtocols => Some("🟠 Defensive protocols engaged"),
            ResponsePosture::AllSystemsActive => Some("🔴 High threat - all systems active"),
            ResponsePosture::OmegaProtocol => Some("💀 OMEGA PROTOCOL - DARK PHOENIX RISING 💀"),
        }
    }
}

/// How a protection cycle ended.
#[derive(Debug, Clone, Copy, PartialEq, Eq, Structural)]
pub enum CycleOutcome {
    /// The unit has landed: the cycle did nothing.
    Halted,
    /// The cycle ran; the level and the posture are to be dispatched.
    Completed { level: ThreatLevel, posture: ResponsePosture },
}

/// The reason that a critical battery gives for an escalation.
pub open spec fn battery_reason() -> Seq<char> {
    "Critical battery level detected"@
}

/// The description of the event that igniting logs.
pub open spec fn awakening_text() -> Seq<char> {
    "Dark Phoenix has awakened. Guardian protocols active."@
}

/// The response actions of the event that igniting logs.
pub open spec fn awakening_actions() -> Seq<Seq<char>> {
    seq!["All systems online"@, "Protection mode engaged"@]
}

/// The description of the event that an emergency landing logs.
pub open spec fn landing_text() -> Seq<char> {
    "Emergency landing initiated"@
}

/// The response actions of the event that an emergency landing logs.
pub open spec fn landing_actions() -> Seq<Seq<char>> {
    seq!["All systems shutting down safely"@]
}

/// The battery level after one cycle: one percent less, never under zero.
pub open spec fn decayed(battery_level: u8) -> u8 {
    if battery_level > 0 {
        (battery_level - 1) as u8
    } else {
        0
    }
}

/// The state after the health update of one cycle: the battery decays, and
/// a battery under 20 % escalates a unit that is below `Orange` to `Orange`.
pub open spec fn health_updated(state: DroneStateView, id: u128, now: Timestamp) -> DroneStateView {
    let drained = DroneStateView {
        system_health: SystemHealth {
            battery_level: decayed(state.system_health.battery_level),
            ..state.system_health
        },
        ..state
    };
    if drained.system_health.battery_level < CRITICAL_BATTERY && drained.threat_level.rank()
        < ThreatLevel::Orange.rank() {
        drained.escalated(ThreatLevel::Orange, battery_reason(), id, now)
    } else {
        drained
    }
}

/// The state after the threat assessment of one cycle: the assessed level
/// is fed to the escalation, with the description of the assessment as the
/// reason. Without an assessment nothing changes.
pub open spec fn threat_assessed(
    state: DroneStateView,
    assessment: Option<ThreatAssessmentView>,
    id: u128,
    now: Timestamp,
) -> DroneStateView {
    match assessment {
        Some(a) => state.escalated(a.threat_level, a.description, id, now),
        None => state,
    }
}

/// The state after one whole protection cycle.
pub open spec fn cycled(
    state: DroneStateView,
    assessment: Option<ThreatAssessmentView>,
    health_id: u128,
    threat_id: u128,
    now: Timestamp,
) -> DroneStateView {
    threat_assessed(health_updated(state, health_id, now), assessment, threat_id, now)
}

/// The state with its mission log held to a capacity, if there is one.
pub open spec fn bounded(state: DroneStateView, capacity: Option<usize>) -> DroneStateView {
    match capacity {
        Some(c) => state.with_latest_events(c as nat),
        None => state,
    }
}

/// What a [`DarkPhoenixCore`] holds.
pub struct DarkPhoenixCoreView {
    pub state: DroneStateView,
    pub landed: bool,
    /// The most events that the mission log keeps; none for no bound.
    pub log_capacity: Option<usize>,
}

impl DarkPhoenixCoreView {
    /// The core after one protection cycle: unchanged once the unit has
    /// landed.
    pub open spec fn after_cycle(
        self,
        assessment: Option<ThreatAssessmentView>,
        health_id: u128,
        threat_id: u128,
        now: Timestamp,
    ) -> DarkPhoenixCoreView {
        if self.landed {
            self
        } else {
            DarkPhoenixCoreView {
                state: bounded(
                    cycled(self.state, assessment, health_id, threat_id, now),
                    self.log_capacity,
                ),
                ..self
            }
        }
    }

    /// How one protection cycle ends.
    pub open spec fn cycle_outcome(
        self,
        assessment: Option<ThreatAssessmentView>,
        health_id: u128,
        threat_id: u128,
        now: Timestamp,
    ) -> CycleOutcome {
        if self.landed {
            CycleOutcome::Halted
        } else {
            let level = cycled(self.state, assessment, health_id, threat_id, now).threat_level;
            CycleOutcome::Completed { level, posture: ResponsePosture::of(level) }
        }
    }

    /// The core after igniting at `now`.
    pub open spec fn ignited(self, id: u128, now: Timestamp) -> DarkPhoenixCoreView {
        DarkPhoenixCoreView {
            state: bounded(
                self.state.with_event(
                    id,
                    now,
                    EventType::CeremonialActivation,
                    awakening_text(),
                    awakening_actions(),
                ),
                self.log_capacity,
            ),
            ..self
        }
    }

    /// The core after an emergency landing at `now`.
    pub open spec fn landed_at(self, id: u128, now: Timestamp) -> DarkPhoenixCoreView {
        DarkPhoenixCoreView {
            state: bounded(
                self.state.with_event(
                    id,
                    now,
                    EventType::SystemMalfunction,
                    landing_text(),
                    landing_actions(),
                ),
                self.log_capacity,
            ),
            landed: true,
            ..self
        }
    }

    /// Whether the mission log is within the capacity.
    pub open spec fn log_is_bounded(self) -> bool {
        self.log_capacity matches Some(c) ==> self.state.mission_log.len() <= c
    }
}

/// The orchestration engine of one unit: the command state, and whether the
/// unit has landed for good.
pub struct DarkPhoenixCore {
    state: DroneState,
    landed: bool,
    log_capacity: Option<usize>,
}

impl View for DarkPhoenixCore {
    type V = DarkPhoenixCoreView;

    closed spec fn view(&self) -> DarkPhoenixCoreView {
        DarkPhoenixCoreView {
            state: self.state@,
            landed: self.landed,
            log_capacity: self.log_capacity,
        }
    }
}

impl DarkPhoenixCore {
    /// The engine of a unit that is commissioned now under the given name.
    pub fn new(drone_name: String) -> (engine: DarkPhoenixCore)
        ensures
            !engine@.landed,
            engine@.log_capacity is None,
            exists|id: u128, now: Timestamp|
                {
                    &&& is_random_id(id)
                    &&& now.millis >= 0
                    &&& engine@.state == #[trigger] DroneStateView::initial(drone_name@, id, now)
                },
    {
        DarkPhoenixCore::with_state(DroneState::new(drone_name))
    }

    /// The engine of a unit in the given state, in flight, with a mission
    /// log that grows without bound.
    pub fn with_state(state: DroneState) -> (engine: DarkPhoenixCore)
        ensures
            engine@ == (DarkPhoenixCoreView { state: state@, landed: false, log_capacity: None }),
    {
        DarkPhoenixCore { state, landed: false, log_capacity: None }
    }

    /// The engine of a unit in the given state, in flight, with a mission
    /// log that keeps the latest `capacity` events.
    pub fn with_log_capacity(state: DroneState, capacity: usize) -> (engine: DarkPhoenixCore)
        ensures
            engine@ == (DarkPhoenixCoreView {
                state: state@.with_latest_events(capacity as nat),
                landed: false,
                log_capacity: Some(capacity),
            }),
            engine@.log_is_bounded(),
    {
        let mut state = state;
        state.retain_latest_events(capacity);
        DarkPhoenixCore { state, landed: false, log_capacity: Some(capacity) }
    }

    /// Holds the mission log to its capacity, if there is one.
    fn bound_log(&mut self)
        ensures
            final(self)@ == (DarkPhoenixCoreView {
                state: bounded(old(self)@.state, old(self)@.log_capacity),
                ..old(self)@
            }),
            final(self)@.log_is_bounded(),
    {
        match self.log_capacity {
            Some(capacity) => {
                self.state.retain_latest_events(capacity);
            },
            None => {},
        }
    }

    /// Logs the awakening of the unit, under a fresh identifier at the
    /// current time. The cycling that follows is the caller's loop.
    pub fn ignite(&mut self)
        ensures
            exists|id: u128, now: Timestamp|
                {
                    &&& is_random_id(id)
                    &&& now.millis >= 0
                    &&& final(self)@ == #[trigger] old(self)@.ignited(id, now)
                },
    {
        let id: u128 = fresh_id();
        let now = Timestamp::now();
        self.ignite_at(id, now);
    }

    /// Logs the awakening of the unit as a ceremonial activation.
    pub fn ignite_at(&mut self, id: u128, now: Timestamp)
        ensures
            final(self)@ == old(self)@.ignited(id, now),
            final(self)@.log_is_bounded(),
    {
        let mut actions: Vec<String> = Vec::new();
        actions.push(String::from_str("All systems online"));
        actions.push(String::from_str("Protection mode engaged"));
        assert(actions.deep_view() =~= awakening_actions());
        self.state.log_event_at(
            id,
            now,
            EventType::CeremonialActivation,
            String::from_str("Dark Phoenix has awakened. Guardian protocols active."),
            actions,
        );
        self.bound_log();
    }

    /// One protection cycle at the current time.
    pub fn protection_cycle(&mut self, assessment: Option<&ThreatAssessment>) -> (outcome:
        CycleOutcome)
        ensures
            exists|health_id: u128, threat_id: u128, now: Timestamp|
                {
                    &&& is_random_id(health_id)
                    &&& is_random_id(threat_id)
                    &&& now.millis >= 0
                    &&& final(self)@ == #[trigger] old(self)@.after_cycle(
                        assessment.deep_view(),
                        health_id,
                        threat_id,
                        now,
                    )
                    &&& outcome == #[trigger] old(self)@.cycle_outcome(
                        assessment.deep_view(),
                        health_id,
                        threat_id,
                        now,
                    )
                },
            old(self)@.landed ==> outcome == CycleOutcome::Halted && *final(self) == *old(self),
            final(self)@.state.threat_level.rank() >= old(self)@.state.threat_level.rank(),
    {
        let health_id: u128 = fresh_id();
        let threat_id: u128 = fresh_id();
        let now = Timestamp::now();
        self.protection_cycle_at(assessment, health_id, threat_id, now)
    }

    /// One protection cycle at `now`, in this order: the health update, the
    /// threat assessment, the response coordination. `assessment` is the
    /// assessment of this tick, if one arrived in time.
    ///
    /// The cycle never lowers the threat level, and it appends at most two
    /// events: one under `health_id` if the battery forces an escalation,
    /// one under `threat_id` if the assessment does. Once the unit has
    /// landed, the cycle changes nothing.
    pub fn protection_cycle_at(
        &mut self,
        assessment: Option<&ThreatAssessment>,
        health_id: u128,
        threat_id: u128,
        now: Timestamp,
    ) -> (outcome: CycleOutcome)
        ensures
            final(self)@ == old(self)@.after_cycle(
                assessment.deep_view(),
                health_id,
                threat_id,
                now,
            ),
            outcome == old(self)@.cycle_outcome(assessment.deep_view(), health_id, threat_id, now),
            old(self)@.landed ==> outcome == CycleOutcome::Halted && *final(self) == *old(self),
            final(self)@.state.threat_level.rank() >= old(self)@.state.threat_level.rank(),
            final(self)@.state.system_health.battery_level
                <= old(self)@.state.system_health.battery_level,
            !old(self)@.landed ==> final(self)@.log_is_bounded(),
    {
        if self.landed {
            return CycleOutcome::Halted;
        }
        DarkPhoenixCore::update_system_health(&mut self.state, health_id, now);
        DarkPhoenixCore::assess_threats(&mut self.state, assessment, threat_id, now);
        self.bound_log();
        let posture = DarkPhoenixCore::coordinate_response(&self.state);
        CycleOutcome::Completed { level: self.state.threat_level, posture }
    }

    /// The health update of a cycle: the battery loses one percent, and a
    /// battery under 20 % escalates a unit below `Orange` to `Orange`.
    pub fn update_system_health(state: &mut DroneState, id: u128, now: Timestamp)
        ensures
            final(state)@ == health_updated(old(state)@, id, now),
            final(state)@.threat_level.rank() >= old(state)@.threat_level.rank(),
            final(state)@.system_health.battery_level <= old(state)@.system_health.battery_level,
    {
        if state.system_health.battery_level > 0 {
            state.system_health.battery_level = state.system_health.battery_level - 1;
        }
        if state.system_health.battery_level < CRITICAL_BATTERY && state.threat_level
            < ThreatLevel::Orange {
            state.escalate_threat_at(
                ThreatLevel::Orange,
                String::from_str("Critical battery level detected"),
                id,
                now,
            );
        }
    }

    /// The threat assessment of a cycle: the assessed level is fed to the
    /// escalation, so it can raise the level and never lowers it.
    pub fn assess_threats(
        state: &mut DroneState,
        assessment: Option<&ThreatAssessment>,
        id: u128,
        now: Timestamp,
    )
        ensures
            final(state)@ == threat_assessed(old(state)@, assessment.deep_view(), id, now),
            final(state)@.threat_level.rank() >= old(state)@.threat_level.rank(),
            final(state)@.system_health == old(state)@.system_health,
    {
        match assessment {
            Some(found) => {
                state.escalate_threat_at(found.threat_level, found.description.clone(), id, now);
            },
            None => {},
        }
    }

    /// The response coordination of a cycle: the posture of the present
    /// threat level.
    pub fn coordinate_response(state: &DroneState) -> (posture: ResponsePosture)
        ensures
            posture == ResponsePosture::of(state.threat_level),
    {
        match state.threat_level {
            ThreatLevel::Green => ResponsePosture::PassiveMonitoring,
            ThreatLevel::Yellow => ResponsePosture::HeightenedAwareness,
            ThreatLevel::Orange => ResponsePosture::DefensiveProtocols,
            ThreatLevel::Red => ResponsePosture::AllSystemsActive,
            ThreatLevel::Omega => ResponsePosture::OmegaProtocol,
        }
    }

    /// The status report of the unit.
    pub fn get_status(&self) -> (report: String)
        ensures
            report@ == self@.state.status_text(),
    {
        self.state.mythic_status()
    }

    /// The command state, to read.
    pub fn state(&self) -> (state: &DroneState)
        ensures
            state@ == self@.state,
    {
        &self.state
    }

    /// Whether the unit has landed for good.
    pub fn has_landed(&self) -> (landed: bool)
        ensures
            landed == self@.landed,
    {
        self.landed
    }

    /// Lands the unit at the current time.
    pub fn emergency_landing(&mut self)
        ensures
            final(self)@.landed,
            exists|id: u128, now: Timestamp|
                {
                    &&& is_random_id(id)
                    &&& now.millis >= 0
                    &&& final(self)@ == #[trigger] old(self)@.landed_at(id, now)
                },
    {
        let id: u128 = fresh_id();
        let now = Timestamp::now();
        self.emergency_landing_at(id, now);
    }

    /// Lands the unit: the landing is logged as a system malfunction, and
    /// from now on no protection cycle changes anything.
    pub fn emergency_landing_at(&mut self, id: u128, now: Timestamp)
        ensures
            final(self)@ == old(self)@.landed_at(id, now),
            final(self)@.landed,
            final(self)@.log_is_bounded(),
    {
        let mut actions: Vec<String> = Vec::new();
        actions.push(String::from_str("All systems shutting down safely"));
        assert(actions.deep_view() =~= landing_actions());
        self.state.log_event_at(
            id,
            now,
            EventType::SystemMalfunction,
            String::from_str("Emergency landing initiated"),
            actions,
        );
        self.bound_log();
        self.landed = true;
    }
}

/// A protection cycle never lowers the threat level, whatever the
/// assessment says, and only ever drains the battery.
pub proof fn lemma_cycle_never_lowers_level(
    state: DroneStateView,
    assessment: Option<ThreatAssessmentView>,
    health_id: u128,
    threat_id: u128,
    now: Timestamp,
)
    ensures
        cycled(state, assessment, health_id, threat_id, now).threat_level.rank()
            >= state.threat_level.rank(),
        assessment matches Some(a) ==> cycled(
            state,
            assessment,
            health_id,
            threat_id,
            now,
        ).threat_level.rank() >= a.threat_level.rank(),
        cycled(state, assessment, health_id, threat_id, now).system_health.battery_level
            <= state.system_health.battery_level,
        state.mission_log.is_prefix_of(
            cycled(state, assessment, health_id, threat_id, now).mission_log,
        ),
{
}

/// The mission log of a core with a capacity stays within it: whatever the
/// core does leaves at most that many events, and they are the latest.
pub proof fn lemma_mission_log_stays_bounded(
    engine: DarkPhoenixCoreView,
    assessment: Option<ThreatAssessmentView>,
    health_id: u128,
    threat_id: u128,
    id: u128,
    now: Timestamp,
)
    ensures
        engine.ignited(id, now).log_is_bounded(),
        engine.landed_at(id, now).log_is_bounded(),
        !engine.landed ==> engine.after_cycle(
            assessment,
            health_id,
            threat_id,
            now,
        ).log_is_bounded(),
        engine.log_is_bounded() ==> engine.after_cycle(
            assessment,
            health_id,
            threat_id,
            now,
        ).log_is_bounded(),
        engine.log_capacity != Some(0usize) ==> engine.landed_at(
            id,
            now,
        ).state.mission_log.last().id == id,
{
}

/// After an emergency landing every protection cycle is halted and changes
/// nothing.
pub proof fn lemma_landing_halts_cycling(
    engine: DarkPhoenixCoreView,
    landing_id: u128,
    landing: Timestamp,
    assessment: Option<ThreatAssessmentView>,
    health_id: u128,
    threat_id: u128,
    now: Timestamp,
)
    ensures
        engine.landed_at(landing_id, landing).after_cycle(assessment, health_id, threat_id, now)
            == engine.landed_at(landing_id, landing),
        engine.landed_at(landing_id, landing).cycle_outcome(assessment, health_id, threat_id, now)
            == CycleOutcome::Halted,
{
}

} // verus!
