//! The fire-suppression controller.
//!
//! The controller scores the fire risk from temperature and smoke, and
//! decides from it whether to stand by, to prepare the nozzle, or to
//! discharge. Discharge is gated twice: by a cooldown since the last
//! activation, which an emergency or a manual override bypasses, and by the
//! readiness of the system, which nothing bypasses.
//!
//! Each operation updates the record of the controller and answers with the
//! [`FireAction`] that it decided on; [`FireSuppressionSystem::commands`]
//! gives the actuator commands that carry an action out. Reading the sensors,
//! driving the valve and the nozzle, and timing the automatic stop are the
//! caller's part.
//!
//! Temperatures, pressures, capacities and smoke levels are held in
//! thousandths; the risk score is held in millionths.

use crate::stamp::{fresh_id, is_random_id, Timestamp};
use crate::text::{one_decimal, push_one_decimal, push_whole, whole};
use vstd::prelude::*;

verus! {

/// Settings of the fire-suppression controller.
#[derive(Debug, Clone, Copy, PartialEq, Eq, Structural)]
pub struct FireSuppressionConfig {
    /// Temperature above which heat counts towards the risk, in thousandths
    /// of a degree Celsius.
    pub auto_activation_temp: i32,
    /// Smoke detection sensitivity, in thousandths.
    pub smoke_sensitivity: i32,
    /// Longest discharge, in seconds.
    pub max_discharge_duration: u32,
    /// Shortest time between two activations that are neither emergencies
    /// nor manual, in seconds.
    pub cooldown_period: u32,
    /// Whether an operator may override the cooldown.
    pub allow_manual_override: bool,
    /// Lowest extinguisher pressure at which the system may fire, in
    /// thousandths of a PSI.
    pub min_pressure: i32,
}

impl FireSuppressionConfig {
    /// The documented defaults: heat counts above 60 °C, sensitivity 0.7,
    /// bursts of at most 10 s, 30 s of cooldown, manual override allowed,
    /// and at least 100 PSI.
    pub open spec fn standard() -> FireSuppressionConfig {
        FireSuppressionConfig {
            auto_activation_temp: 60_000,
            smoke_sensitivity: 700,
            max_discharge_duration: 10,
            cooldown_period: 30,
            allow_manual_override: true,
            min_pressure: 100_000,
        }
    }
}

impl Default for FireSuppressionConfig {
    fn default() -> (config: FireSuppressionConfig)
        ensures
            config == FireSuppressionConfig::standard(),
    {
        FireSuppressionConfig {
            auto_activation_temp: 60_000,
            smoke_sensitivity: 700,
            max_discharge_duration: 10,
            cooldown_period: 30,
            allow_manual_override: true,
            min_pressure: 100_000,
        }
    }
}

/// Where the nozzle stands.
#[derive(Debug, Clone, Copy, PartialEq, Eq, Structural)]
pub enum NozzlePosition {
    /// Stored.
    Retracted,
    /// Extended, ready for suppression.
    Deployed,
    /// Aiming at the source of the fire.
    Targeting,
    /// Emergency deployment, widest coverage.
    Emergency,
}

impl NozzlePosition {
    /// The one-line description of the position.
    pub open spec fn summary(self) -> Seq<char> {
        match self {
            NozzlePosition::Retracted => "Nozzle retracted and secured"@,
            NozzlePosition::Deployed => "Nozzle deployed and ready"@,
            NozzlePosition::Targeting => "Nozzle targeting fire source"@,
            NozzlePosition::Emergency => "Emergency deployment active"@,
        }
    }

    /// The one-line description of the position.
    pub fn description(&self) -> (s: &'static str)
        ensures
            s@ == self.summary(),
    {
        match self {
            NozzlePosition::Retracted => "Nozzle retracted and secured",
            NozzlePosition::Deployed => "Nozzle deployed and ready",
            NozzlePosition::Targeting => "Nozzle targeting fire source",
            NozzlePosition::Emergency => "Emergency deployment active",
        }
    }
}

/// How well the suppression system itself is.
#[derive(Debug, Clone, Copy, PartialEq, Eq, Structural)]
pub enum SystemHealth {
    /// Everything in order.
    Optimal,
    /// Some issues, still functional.
    Degraded,
    /// Major problems, limited function.
    Critical,
    /// Not functional.
    Offline,
}

/// What kind of occurrence a fire event records.
#[derive(Debug, Clone, Copy, PartialEq, Eq, Structural)]
pub enum FireEventType {
    TemperatureSpike,
    SmokeDetected,
    FlameDetected,
    FireSuppressed,
    SystemActivated,
    ManualOverride,
    EmergencyShutdown,
}

/// The band that a fire risk falls in.
#[derive(Debug, Clone, Copy, PartialEq, Eq, Structural, PartialOrd, Ord)]
pub enum FireSeverity {
    /// Minor heat or smoke.
    Low,
    /// Significant risk of fire.
    Medium,
    /// Active fire that needs suppression.
    High,
    /// Major fire emergency.
    Critical,
}

/// The record of the fire-suppression controller.
#[derive(Debug, Clone, Copy, PartialEq, Eq)]
pub struct FireSuppressionState {
    pub system_armed: bool,
    /// Thousandths of a PSI.
    pub extinguisher_pressure: i32,
    /// Thousandths of a percent of the full charge.
    pub extinguisher_capacity: i32,
    pub nozzle_position: NozzlePosition,
    /// Thousandths of a degree Celsius.
    pub current_temperature: i32,
    /// Thousandths, 0 to 1000.
    pub smoke_level: i32,
    pub last_activation: Option<Timestamp>,
    pub total_activations: u32,
    pub system_health: SystemHealth,
    pub discharge_active: bool,
    pub manual_override_active: bool,
}

impl FireSuppressionState {
    /// The record of a system at rest: armed, at 150 PSI and full charge,
    /// nozzle retracted, at 20 °C without smoke, never activated.
    pub open spec fn initial() -> FireSuppressionState {
        FireSuppressionState {
            system_armed: true,
            extinguisher_pressure: 150_000,
            extinguisher_capacity: 100_000,
            nozzle_position: NozzlePosition::Retracted,
            current_temperature: 20_000,
            smoke_level: 0,
            last_activation: None,
            total_activations: 0,
            system_health: SystemHealth::Optimal,
            discharge_active: false,
            manual_override_active: false,
        }
    }
}

impl Default for FireSuppressionState {
    fn default() -> (state: FireSuppressionState)
        ensures
            state == FireSuppressionState::initial(),
    {
        FireSuppressionState {
            system_armed: true,
            extinguisher_pressure: 150_000,
            extinguisher_capacity: 100_000,
            nozzle_position: NozzlePosition::Retracted,
            current_temperature: 20_000,
            smoke_level: 0,
            last_activation: None,
            total_activations: 0,
            system_health: SystemHealth::Optimal,
            discharge_active: false,
            manual_override_active: false,
        }
    }
}

/// One entry of the fire event history.
#[derive(Debug)]
pub struct FireEvent {
    pub id: u128,
    pub timestamp: Timestamp,
    pub event_type: FireEventType,
    /// Thousandths of a degree Celsius.
    pub temperature: i32,
    /// Thousandths.
    pub smoke_level: i32,
    /// Estimated x and y of the fire relative to the unit, in millimetres.
    pub location_estimate: Option<(i32, i32)>,
    /// The severity assessed at the time of the event.
    pub severity: FireSeverity,
    pub response_actions: Vec<String>,
}

/// What a [`FireEvent`] holds.
pub struct FireEventView {
    pub id: u128,
    pub timestamp: Timestamp,
    pub event_type: FireEventType,
    pub temperature: i32,
    pub smoke_level: i32,
    pub location_estimate: Option<(i32, i32)>,
    pub severity: FireSeverity,
    pub response_actions: Seq<Seq<char>>,
}

impl View for FireEvent {
    type V = FireEventView;

    open spec fn view(&self) -> FireEventView {
        FireEventView {
            id: self.id,
            timestamp: self.timestamp,
            event_type: self.event_type,
            temperature: self.temperature,
            smoke_level: self.smoke_level,
            location_estimate: self.location_estimate,
            severity: self.severity,
            response_actions: self.response_actions.deep_view(),
        }
    }
}

impl DeepView for FireEvent {
    type V = FireEventView;

    open spec fn deep_view(&self) -> FireEventView {
        self@
    }
}

impl Clone for FireEvent {
    fn clone(&self) -> (copy: FireEvent)
        ensures
            copy@ == self@,
    {
        let response_actions = self.response_actions.clone();
        FireEvent {
            id: self.id,
            timestamp: self.timestamp,
            event_type: self.event_type,
            temperature: self.temperature,
            smoke_level: self.smoke_level,
            location_estimate: self.location_estimate,
            severity: self.severity,
            response_actions,
        }
    }
}

/// What the sensors read in one cycle. A sensor that could not be read
/// leaves its place empty, and the controller holds the last known value.
#[derive(Debug, Clone, Copy, PartialEq, Eq)]
pub struct SensorReadings {
    /// Thousandths of a degree Celsius.
    pub temperature: Option<i32>,
    /// Thousandths, 0 to 1000.
    pub smoke_level: Option<i32>,
    /// Thousandths of a PSI.
    pub pressure: Option<i32>,
}

/// Why an activation was refused.
#[derive(Debug, Clone, Copy, PartialEq, Eq, Structural)]
pub enum FireSuppressionError {
    /// The system is not armed, the pressure is under the minimum, the
    /// charge is nearly spent, or the system is offline.
    NotReady,
}

impl FireSuppressionError {
    /// The message of the error.
    pub open spec fn text(self) -> Seq<char> {
        "System not ready"@
    }

    /// The message of the error.
    pub fn message(&self) -> (s: &'static str)
        ensures
            s@ == self.text(),
    {
        "System not ready"
    }
}

/// What the controller decided to do.
#[derive(Debug, Clone, Copy, PartialEq, Eq, Structural)]
pub enum FireAction {
    /// Nothing to do.
    Idle,
    /// The discharge was stopped and the nozzle retracted.
    DischargeStopped,
    /// The nozzle was deployed, ready for a discharge.
    NozzlePrepared,
    /// An activation was skipped because the cooldown has not run out.
    CoolingDown,
    /// A discharge aimed at the fire was started.
    Activated,
    /// An emergency discharge was started.
    EmergencyActivated,
}

/// One command to an actuator, a sensor or the timer.
#[derive(Debug, Clone, Copy, PartialEq, Eq, Structural)]
pub enum FireCommand {
    DeployNozzle,
    TargetFire,
    EmergencyDeploy,
    RetractNozzle,
    OpenValve,
    CloseValve,
    ReadPressure,
    ReadTemperature,
    ReadSmoke,
    /// Let this much time pass before the next command.
    Wait { millis: u64 },
    /// Close the valve after this much time whatever happens meanwhile, and
    /// then report [`FireSuppressionSystem::auto_stop`].
    ScheduleAutoStop { seconds: u32 },
}

/// The most events that the history keeps.
pub const EVENT_CAPACITY: usize = 100;

/// How many of the oldest events leave when the history overflows.
pub const EVENT_TRIM: usize = 10;

/// How long the valve settles before the nozzle retracts, in milliseconds.
pub const SETTLE_MILLIS: u64 = 2000;

/// The fire risk in millionths: six tenths of the heat factor plus four
/// tenths of the smoke level. The heat factor is the excess over 20 °C as a
/// fraction of 50 °C, never negative, and counts only while the temperature
/// is above the threshold.
pub open spec fn risk_score(temperature: i32, smoke_level: i32, threshold: i32) -> int {
    let heat: int = if temperature > threshold && temperature > 20_000 {
        12 * (temperature - 20_000)
    } else {
        0
    };
    heat + 400 * smoke_level
}

/// The band of a risk score: critical from 0.8, high from 0.6, medium from
/// 0.3, low below.
pub open spec fn severity_of(score: int) -> FireSeverity {
    if score >= 800_000 {
        FireSeverity::Critical
    } else if score >= 600_000 {
        FireSeverity::High
    } else if score >= 300_000 {
        FireSeverity::Medium
    } else {
        FireSeverity::Low
    }
}

/// The history after one more event: the event goes to the end, and once
/// the history exceeds its capacity the oldest ten leave.
pub open spec fn logged(history: Seq<FireEventView>, event: FireEventView) -> Seq<FireEventView> {
    let grown = history.push(event);
    if grown.len() > EVENT_CAPACITY {
        grown.skip(EVENT_TRIM as int)
    } else {
        grown
    }
}

/// The actuator commands that carry out an action.
pub open spec fn commands_for(action: FireAction, config: FireSuppressionConfig) -> Seq<
    FireCommand,
> {
    match action {
        FireAction::Idle => Seq::empty(),
        FireAction::CoolingDown => Seq::empty(),
        FireAction::DischargeStopped => seq![
            FireCommand::CloseValve,
            FireCommand::Wait { millis: SETTLE_MILLIS },
            FireCommand::RetractNozzle,
        ],
        FireAction::NozzlePrepared => seq![FireCommand::DeployNozzle],
        FireAction::Activated => seq![
            FireCommand::TargetFire,
            FireCommand::OpenValve,
            FireCommand::ScheduleAutoStop { seconds: config.max_discharge_duration },
        ],
        FireAction::EmergencyActivated => seq![
            FireCommand::EmergencyDeploy,
            FireCommand::OpenValve,
            FireCommand::ScheduleAutoStop { seconds: config.max_discharge_duration },
        ],
    }
}

/// The commands of the self-test: deploy the nozzle, wait a second, read
/// the pressure and the sensors, retract the nozzle.
pub open spec fn test_commands() -> Seq<FireCommand> {
    seq![
        FireCommand::DeployNozzle,
        FireCommand::Wait { millis: 1000 },
        FireCommand::ReadPressure,
        FireCommand::ReadTemperature,
        FireCommand::ReadSmoke,
        FireCommand::RetractNozzle,
    ]
}

/// The description of the event that an activation logs.
pub open spec fn activation_text(emergency: bool) -> Seq<char> {
    if emergency {
        "EMERGENCY fire suppression activated"@
    } else {
        "STANDARD fire suppression activated"@
    }
}

/// The description of the event that preparing the nozzle logs.
pub open spec fn preparation_text() -> Seq<char> {
    "Fire suppression system prepared for activation"@
}

/// The description of the event that a manual activation logs.
pub open spec fn override_text() -> Seq<char> {
    "Manual fire suppression override activated"@
}

/// The description of the event that stopping the discharge logs.
pub open spec fn stop_text() -> Seq<char> {
    "Fire suppression discharge stopped"@
}

/// The mark of a health in the status line.
pub open spec fn health_mark(health: SystemHealth) -> Seq<char> {
    match health {
        SystemHealth::Optimal => "✅"@,
        SystemHealth::Degraded => "⚠️"@,
        SystemHealth::Critical => "🔴"@,
        SystemHealth::Offline => "💀"@,
    }
}

/// The mark of the activity in the status line: discharging, nozzle out, or
/// at rest.
pub open spec fn activity_mark(state: FireSuppressionState) -> Seq<char> {
    if state.discharge_active {
        "🔥🚨"@
    } else if state.nozzle_position != NozzlePosition::Retracted {
        "⚡"@
    } else {
        "🛡️"@
    }
}

/// What a [`FireSuppressionSystem`] holds.
pub struct FireSystemView {
    pub config: FireSuppressionConfig,
    pub state: FireSuppressionState,
    /// Oldest event first.
    pub event_history: Seq<FireEventView>,
}

impl FireSystemView {
    /// The severity of the present readings.
    pub open spec fn severity(self) -> FireSeverity {
        severity_of(
            risk_score(
                self.state.current_temperature,
                self.state.smoke_level,
                self.config.auto_activation_temp,
            ),
        )
    }

    /// The readiness gate: armed, pressure at or above the minimum, more
    /// than 5 % of the charge left, and not offline.
    pub open spec fn is_ready(self) -> bool {
        self.state.system_armed && self.state.extinguisher_pressure >= self.config.min_pressure
            && self.state.extinguisher_capacity > 5_000 && self.state.system_health
            != SystemHealth::Offline
    }

    /// The health that the present pressure and charge give: critical under
    /// the minimum pressure, degraded under 20 % of the charge, else optimal.
    pub open spec fn health(self) -> SystemHealth {
        if self.state.extinguisher_pressure < self.config.min_pressure {
            SystemHealth::Critical
        } else if self.state.extinguisher_capacity < 20_000 {
            SystemHealth::Degraded
        } else {
            SystemHealth::Optimal
        }
    }

    /// Whether less than the cooldown period has passed at `now` since the
    /// last activation.
    pub open spec fn in_cooldown(self, now: Timestamp) -> bool {
        self.state.last_activation matches Some(last) && now.since(last)
            < self.config.cooldown_period * 1000
    }

    /// The system after one event has been logged at `now`. The event
    /// records the present readings and their severity.
    pub open spec fn with_event(
        self,
        id: u128,
        now: Timestamp,
        event_type: FireEventType,
        description: Seq<char>,
    ) -> FireSystemView {
        FireSystemView {
            event_history: logged(
                self.event_history,
                FireEventView {
                    id,
                    timestamp: now,
                    event_type,
                    temperature: self.state.current_temperature,
                    smoke_level: self.state.smoke_level,
                    location_estimate: None,
                    severity: self.severity(),
                    response_actions: seq![description],
                },
            ),
            ..self
        }
    }

    /// The system after the health has been brought up to date.
    pub open spec fn with_health(self) -> FireSystemView {
        FireSystemView {
            state: FireSuppressionState { system_health: self.health(), ..self.state },
            ..self
        }
    }

    /// The system after a round of sensor readings: each reading that came
    /// in replaces the value on record, each that did not leaves it, and
    /// the health follows.
    pub open spec fn with_readings(self, readings: SensorReadings) -> FireSystemView {
        FireSystemView {
            state: FireSuppressionState {
                current_temperature: match readings.temperature {
                    Some(t) => t,
                    None => self.state.current_temperature,
                },
                smoke_level: match readings.smoke_level {
                    Some(s) => s,
                    None => self.state.smoke_level,
                },
                extinguisher_pressure: match readings.pressure {
                    Some(p) => p,
                    None => self.state.extinguisher_pressure,
                },
                ..self.state
            },
            ..self
        }.with_health()
    }

    /// What a request to activate at `now` comes to: skipped while cooling
    /// down, unless it is an emergency or the manual override is set;
    /// refused when the system is not ready; else carried out.
    pub open spec fn activation(self, now: Timestamp, emergency: bool) -> Result<
        FireAction,
        FireSuppressionError,
    > {
        if !emergency && !self.state.manual_override_active && self.in_cooldown(now) {
            Ok(FireAction::CoolingDown)
        } else if !self.is_ready() {
            Err(FireSuppressionError::NotReady)
        } else if emergency {
            Ok(FireAction::EmergencyActivated)
        } else {
            Ok(FireAction::Activated)
        }
    }

    /// Whether the cooldown cannot skip a request, whatever the clock reads:
    /// the request is an emergency, the manual override is set, or the
    /// system has never been activated.
    pub open spec fn exempt(self, emergency: bool) -> bool {
        emergency || self.state.manual_override_active || self.state.last_activation is None
    }

    /// Whether a request to activate at `now` is carried out: the system is
    /// ready, and the cooldown does not skip the request.
    pub open spec fn fires(self, now: Timestamp, emergency: bool) -> bool {
        self.is_ready() && (emergency || self.state.manual_override_active || !self.in_cooldown(
            now,
        ))
    }

    /// Whether a request to activate is carried out at some reading of the
    /// clock.
    pub open spec fn may_fire(self, emergency: bool) -> bool {
        exists|now: Timestamp| now.millis >= 0 && #[trigger] self.fires(now, emergency)
    }

    /// The system after a request to activate at `now`: unchanged when the
    /// request is skipped or refused.
    pub open spec fn activated(self, id: u128, now: Timestamp, emergency: bool) -> FireSystemView {
        match self.activation(now, emergency) {
            Ok(FireAction::Activated) | Ok(FireAction::EmergencyActivated) => FireSystemView {
                state: FireSuppressionState {
                    nozzle_position: if emergency {
                        NozzlePosition::Emergency
                    } else {
                        NozzlePosition::Targeting
                    },
                    discharge_active: true,
                    last_activation: Some(now),
                    total_activations: (self.state.total_activations + 1) as u32,
                    ..self.state
                },
                ..self
            }.with_event(id, now, FireEventType::SystemActivated, activation_text(emergency)),
            _ => self,
        }
    }

    /// The system with the manual override set.
    pub open spec fn overridden(self) -> FireSystemView {
        FireSystemView {
            state: FireSuppressionState { manual_override_active: true, ..self.state },
            ..self
        }
    }

    /// The system after a manual activation at `now`. A system that is
    /// ready sets the override, activates whatever the cooldown says, and
    /// logs the activation and the override, in this order. A system that
    /// is not ready stays as it is, override included.
    pub open spec fn manually_activated(
        self,
        activation_id: u128,
        override_id: u128,
        now: Timestamp,
    ) -> FireSystemView {
        if self.is_ready() {
            self.overridden().activated(activation_id, now, false).with_event(
                override_id,
                now,
                FireEventType::ManualOverride,
                override_text(),
            )
        } else {
            self
        }
    }

    /// The system after a request to stop the discharge at `now`: unchanged
    /// when nothing is discharging.
    pub open spec fn stopped(self, id: u128, now: Timestamp) -> FireSystemView {
        if self.state.discharge_active {
            FireSystemView {
                state: FireSuppressionState {
                    discharge_active: false,
                    manual_override_active: false,
                    nozzle_position: NozzlePosition::Retracted,
                    ..self.state
                },
                ..self
            }.with_event(id, now, FireEventType::FireSuppressed, stop_text())
        } else {
            self
        }
    }

    /// The system after a request to prepare at `now`: unchanged unless the
    /// nozzle is retracted.
    pub open spec fn prepared(self, id: u128, now: Timestamp) -> FireSystemView {
        if self.state.nozzle_position == NozzlePosition::Retracted {
            FireSystemView {
                state: FireSuppressionState {
                    nozzle_position: NozzlePosition::Deployed,
                    ..self.state
                },
                ..self
            }.with_event(id, now, FireEventType::SystemActivated, preparation_text())
        } else {
            self
        }
    }

    /// The system after the automatic stop has closed the valve.
    pub open spec fn auto_stopped(self) -> FireSystemView {
        FireSystemView {
            state: FireSuppressionState { discharge_active: false, ..self.state },
            ..self
        }
    }

    /// What one monitoring cycle decides, given the readings of the cycle:
    /// at low risk to stop a running discharge, at medium risk to prepare
    /// the nozzle, at high risk to activate, at critical risk to activate
    /// as an emergency.
    pub open spec fn monitor_action(self, readings: SensorReadings, now: Timestamp) -> Result<
        FireAction,
        FireSuppressionError,
    > {
        let read = self.with_readings(readings);
        match read.severity() {
            FireSeverity::Low => if read.state.discharge_active {
                Ok(FireAction::DischargeStopped)
            } else {
                Ok(FireAction::Idle)
            },
            FireSeverity::Medium => if read.state.nozzle_position == NozzlePosition::Retracted {
                Ok(FireAction::NozzlePrepared)
            } else {
                Ok(FireAction::Idle)
            },
            FireSeverity::High => read.activation(now, false),
            FireSeverity::Critical => read.activation(now, true),
        }
    }

    /// Whether the monitoring cycle with these readings carries out an
    /// activation at `now`.
    pub open spec fn cycle_fires(self, readings: SensorReadings, now: Timestamp) -> bool {
        let read = self.with_readings(readings);
        match read.severity() {
            FireSeverity::High => read.fires(now, false),
            FireSeverity::Critical => read.fires(now, true),
            _ => false,
        }
    }

    /// Whether the monitoring cycle with these readings carries out an
    /// activation at some reading of the clock.
    pub open spec fn cycle_may_fire(self, readings: SensorReadings) -> bool {
        exists|now: Timestamp| now.millis >= 0 && #[trigger] self.cycle_fires(readings, now)
    }

    /// The system after one monitoring cycle.
    pub open spec fn monitored(
        self,
        readings: SensorReadings,
        id: u128,
        now: Timestamp,
    ) -> FireSystemView {
        let read = self.with_readings(readings);
        match read.severity() {
            FireSeverity::Low => read.stopped(id, now),
            FireSeverity::Medium => read.prepared(id, now),
            FireSeverity::High => read.activated(id, now, false),
            FireSeverity::Critical => read.activated(id, now, true),
        }
    }

    /// The one-line status summary.
    pub open spec fn status_text(self) -> Seq<char> {
        activity_mark(self.state) + " Fire Suppression "@ + self.state.nozzle_position.summary()
            + " | Health: "@ + health_mark(self.state.system_health) + " | Pressure: "@ + whole(
            self.state.extinguisher_pressure as int,
        ) + " PSI | Capacity: "@ + whole(self.state.extinguisher_capacity as int) + "% | Temp: "@
            + one_decimal(self.state.current_temperature as int) + "°C | Smoke: "@ + one_decimal(
            self.state.smoke_level * 100,
        ) + "%"@
    }
}

/// The fire risk of a temperature and a smoke level, in millionths.
pub fn fire_risk_score(temperature: i32, smoke_level: i32, threshold: i32) -> (score: i64)
    ensures
        score == risk_score(temperature, smoke_level, threshold),
{
    let heat: i64 = if temperature > threshold && temperature > 20_000 {
        12 * (temperature as i64 - 20_000)
    } else {
        0
    };
    heat + 400 * (smoke_level as i64)
}

/// The band of a risk score given in millionths.
pub fn fire_severity(score: i64) -> (severity: FireSeverity)
    ensures
        severity == severity_of(score as int),
{
    if score >= 800_000 {
        FireSeverity::Critical
    } else if score >= 600_000 {
        FireSeverity::High
    } else if score >= 300_000 {
        FireSeverity::Medium
    } else {
        FireSeverity::Low
    }
}

/// The text of the event that an activation logs.
fn activation_description(emergency: bool) -> (text: String)
    ensures
        text@ == activation_text(emergency),
{
    if emergency {
        String::from_str("EMERGENCY fire suppression activated")
    } else {
        String::from_str("STANDARD fire suppression activated")
    }
}

/// The mark of a health in the status line.
fn health_emblem(health: SystemHealth) -> (s: &'static str)
    ensures
        s@ == health_mark(health),
{
    match health {
        SystemHealth::Optimal => "✅",
        SystemHealth::Degraded => "⚠️",
        SystemHealth::Critical => "🔴",
        SystemHealth::Offline => "💀",
    }
}

/// The mark of the activity in the status line.
fn activity_emblem(state: &FireSuppressionState) -> (s: &'static str)
    ensures
        s@ == activity_mark(*state),
{
    if state.discharge_active {
        "🔥🚨"
    } else if state.nozzle_position != NozzlePosition::Retracted {
        "⚡"
    } else {
        "🛡️"
    }
}

/// The record after a round of sensor readings, with the health brought up
/// to date.
fn read_state(
    state: FireSuppressionState,
    config: FireSuppressionConfig,
    readings: SensorReadings,
) -> (read: FireSuppressionState)
    ensures
        forall|history: Seq<FireEventView>|
            read == (#[trigger] FireSystemView {
                config,
                state,
                event_history: history,
            }.with_readings(readings)).state,
{
    let mut read = state;
    match readings.temperature {
        Some(temperature) => {
            read.current_temperature = temperature;
        },
        None => {},
    }
    match readings.smoke_level {
        Some(smoke_level) => {
            read.smoke_level = smoke_level;
        },
        None => {},
    }
    match readings.pressure {
        Some(pressure) => {
            read.extinguisher_pressure = pressure;
        },
        None => {},
    }
    read.system_health = if read.extinguisher_pressure < config.min_pressure {
        SystemHealth::Critical
    } else if read.extinguisher_capacity < 20_000 {
        SystemHealth::Degraded
    } else {
        SystemHealth::Optimal
    };
    read
}

/// What a request to activate at `now` comes to for a given record.
fn decide(
    state: FireSuppressionState,
    config: FireSuppressionConfig,
    now: Timestamp,
    emergency: bool,
) -> (outcome: Result<FireAction, FireSuppressionError>)
    ensures
        forall|history: Seq<FireEventView>|
            outcome == (#[trigger] FireSystemView {
                config,
                state,
                event_history: history,
            }.activation(now, emergency)),
{
    let cooling = !emergency && !state.manual_override_active && match state.last_activation {
        Some(last) => now.millis_since(&last) < (config.cooldown_period as i128) * 1000,
        None => false,
    };
    let ready = state.system_armed && state.extinguisher_pressure >= config.min_pressure
        && state.extinguisher_capacity > 5_000 && state.system_health != SystemHealth::Offline;
    if cooling {
        Ok(FireAction::CoolingDown)
    } else if !ready {
        Err(FireSuppressionError::NotReady)
    } else if emergency {
        Ok(FireAction::EmergencyActivated)
    } else {
        Ok(FireAction::Activated)
    }
}

/// The fire-suppression controller: its settings, its record, and the
/// bounded history of its events.
pub struct FireSuppressionSystem {
    config: FireSuppressionConfig,
    state: FireSuppressionState,
    event_history: Vec<FireEvent>,
}

impl View for FireSuppressionSystem {
    type V = FireSystemView;

    closed spec fn view(&self) -> FireSystemView {
        FireSystemView {
            config: self.config,
            state: self.state,
            event_history: self.event_history.deep_view(),
        }
    }
}

impl FireSuppressionSystem {
    /// The event history never exceeds its capacity.
    #[verifier::type_invariant]
    spec fn within_capacity(&self) -> bool {
        self.event_history@.len() <= EVENT_CAPACITY
    }

    /// A controller at rest with the given settings and no events.
    pub fn new(config: FireSuppressionConfig) -> (system: FireSuppressionSystem)
        ensures
            system@ == (FireSystemView {
                config,
                state: FireSuppressionState::initial(),
                event_history: Seq::empty(),
            }),
    {
        FireSuppressionSystem::with_state(config, FireSuppressionState::default())
    }

    /// A controller with the given settings that takes up a given record,
    /// with no events.
    pub fn with_state(config: FireSuppressionConfig, state: FireSuppressionState) -> (system:
        FireSuppressionSystem)
        ensures
            system@ == (FireSystemView { config, state, event_history: Seq::empty() }),
    {
        let system = FireSuppressionSystem { config, state, event_history: Vec::new() };
        assert(system.event_history.deep_view() =~= Seq::empty());
        system
    }

    /// One monitoring cycle at the current time: takes the readings of the
    /// cycle, assesses the risk and responds to it. The count of activations
    /// must have room wherever the cycle may carry out an activation.
    pub fn monitor_and_respond(&mut self, readings: SensorReadings) -> (result: Result<
        FireAction,
        FireSuppressionError,
    >)
        requires
            old(self)@.cycle_may_fire(readings) ==> old(self)@.state.total_activations < u32::MAX,
        ensures
            exists|id: u128, now: Timestamp|
                {
                    &&& is_random_id(id)
                    &&& now.millis >= 0
                    &&& result == #[trigger] old(self)@.monitor_action(readings, now)
                    &&& final(self)@ == #[trigger] old(self)@.monitored(readings, id, now)
                },
            final(self)@.state.current_temperature == old(self)@.with_readings(
                readings,
            ).state.current_temperature,
            final(self)@.state.smoke_level == old(self)@.with_readings(readings).state.smoke_level,
            final(self)@.state.extinguisher_pressure == old(self)@.with_readings(
                readings,
            ).state.extinguisher_pressure,
            final(self)@.state.system_health == old(self)@.with_readings(
                readings,
            ).state.system_health,
            result is Err ==> !old(self)@.with_readings(readings).is_ready() && final(self)@
                == old(self)@.with_readings(readings),
    {
        let id: u128 = fresh_id();
        let now = Timestamp::now();
        self.monitor_and_respond_at(readings, id, now)
    }

    /// One monitoring cycle at `now`. The readings are taken first and the
    /// health is brought up to date; then, by the severity of the risk: at
    /// low risk a running discharge is stopped, at medium risk the nozzle is
    /// prepared, at high risk the system is activated, and at critical risk
    /// it is activated as an emergency. An event that the cycle logs
    /// carries the identifier `id`. The count of activations must have room
    /// where the cycle carries out an activation, and nowhere else.
    pub fn monitor_and_respond_at(
        &mut self,
        readings: SensorReadings,
        id: u128,
        now: Timestamp,
    ) -> (result: Result<FireAction, FireSuppressionError>)
        requires
            old(self)@.cycle_fires(readings, now) ==> old(self)@.state.total_activations
                < u32::MAX,
        ensures
            result == old(self)@.monitor_action(readings, now),
            final(self)@ == old(self)@.monitored(readings, id, now),
    {
        self.update_sensors(readings);
        match self.assess_fire_risk() {
            FireSeverity::Low => Ok(self.stop_discharge_at(id, now)),
            FireSeverity::Medium => Ok(self.prepare_for_suppression_at(id, now)),
            FireSeverity::High => self.activate_suppression_at(id, now, false),
            FireSeverity::Critical => self.activate_suppression_at(id, now, true),
        }
    }

    /// What one monitoring cycle with these readings would decide at `now`.
    /// Nothing changes.
    pub fn monitor_action(&self, readings: SensorReadings, now: Timestamp) -> (action: Result<
        FireAction,
        FireSuppressionError,
    >)
        ensures
            action == self@.monitor_action(readings, now),
            (action matches Ok(FireAction::Activated) || action matches Ok(
                FireAction::EmergencyActivated,
            )) <==> self@.cycle_fires(readings, now),
    {
        let read = read_state(self.state, self.config, readings);
        match fire_severity(
            fire_risk_score(
                read.current_temperature,
                read.smoke_level,
                self.config.auto_activation_temp,
            ),
        ) {
            FireSeverity::Low => if read.discharge_active {
                Ok(FireAction::DischargeStopped)
            } else {
                Ok(FireAction::Idle)
            },
            FireSeverity::Medium => if read.nozzle_position == NozzlePosition::Retracted {
                Ok(FireAction::NozzlePrepared)
            } else {
                Ok(FireAction::Idle)
            },
            FireSeverity::High => decide(read, self.config, now, false),
            FireSeverity::Critical => decide(read, self.config, now, true),
        }
    }

    /// Takes a round of sensor readings and brings the health up to date. A
    /// sensor that could not be read keeps its last known value.
    pub fn update_sensors(&mut self, readings: SensorReadings)
        ensures
            final(self)@ == old(self)@.with_readings(readings),
    {
        proof {
            use_type_invariant(&*self);
        }
        self.state = read_state(self.state, self.config, readings);
    }

    /// The severity of the present readings: a function of the temperature,
    /// the smoke level and the configured threshold alone.
    pub fn assess_fire_risk(&self) -> (severity: FireSeverity)
        ensures
            severity == self@.severity(),
            severity == severity_of(
                risk_score(
                    self@.state.current_temperature,
                    self@.state.smoke_level,
                    self@.config.auto_activation_temp,
                ),
            ),
    {
        fire_severity(
            fire_risk_score(
                self.state.current_temperature,
                self.state.smoke_level,
                self.config.auto_activation_temp,
            ),
        )
    }

    /// Deploys the nozzle, at the current time, if it is retracted.
    pub fn prepare_for_suppression(&mut self) -> (action: FireAction)
        ensures
            action == if old(self)@.state.nozzle_position == NozzlePosition::Retracted {
                FireAction::NozzlePrepared
            } else {
                FireAction::Idle
            },
            exists|id: u128, now: Timestamp|
                {
                    &&& is_random_id(id)
                    &&& now.millis >= 0
                    &&& final(self)@ == #[trigger] old(self)@.prepared(id, now)
                },
    {
        let id: u128 = fresh_id();
        let now = Timestamp::now();
        self.prepare_for_suppression_at(id, now)
    }

    /// Deploys the nozzle if it is retracted, and logs that the system was
    /// prepared; no discharge starts. Otherwise nothing changes.
    pub fn prepare_for_suppression_at(&mut self, id: u128, now: Timestamp) -> (action: FireAction)
        ensures
            action == if old(self)@.state.nozzle_position == NozzlePosition::Retracted {
                FireAction::NozzlePrepared
            } else {
                FireAction::Idle
            },
            final(self)@ == old(self)@.prepared(id, now),
    {
        proof {
            use_type_invariant(&*self);
        }
        if self.state.nozzle_position == NozzlePosition::Retracted {
            self.state.nozzle_position = NozzlePosition::Deployed;
            self.log_fire_event(
                id,
                now,
                FireEventType::SystemActivated,
                String::from_str("Fire suppression system prepared for activation"),
            );
            FireAction::NozzlePrepared
        } else {
            FireAction::Idle
        }
    }

    /// Requests an activation at the current time. The count of
    /// activations must have room wherever the request may be carried out.
    pub fn activate_suppression(&mut self, emergency: bool) -> (result: Result<
        FireAction,
        FireSuppressionError,
    >)
        requires
            old(self)@.may_fire(emergency) ==> old(self)@.state.total_activations < u32::MAX,
        ensures
            exists|id: u128, now: Timestamp|
                {
                    &&& is_random_id(id)
                    &&& now.millis >= 0
                    &&& result == #[trigger] old(self)@.activation(now, emergency)
                    &&& final(self)@ == #[trigger] old(self)@.activated(id, now, emergency)
                },
            result is Err ==> !old(self)@.is_ready(),
            !old(self)@.is_ready() ==> *final(self) == *old(self),
            old(self)@.exempt(emergency) ==> result == if !old(self)@.is_ready() {
                Err::<FireAction, FireSuppressionError>(FireSuppressionError::NotReady)
            } else if emergency {
                Ok::<FireAction, FireSuppressionError>(FireAction::EmergencyActivated)
            } else {
                Ok::<FireAction, FireSuppressionError>(FireAction::Activated)
            },
            result matches Ok(FireAction::CoolingDown) ==> {
                &&& *final(self) == *old(self)
                &&& !old(self)@.exempt(emergency)
            },
            (result matches Ok(FireAction::Activated) || result matches Ok(
                FireAction::EmergencyActivated,
            )) ==> {
                &&& final(self)@.state.discharge_active
                &&& final(self)@.state.total_activations == old(self)@.state.total_activations + 1
                &&& final(self)@.state.last_activation is Some
                &&& final(self)@.state.nozzle_position == if emergency {
                    NozzlePosition::Emergency
                } else {
                    NozzlePosition::Targeting
                }
                &&& final(self)@.event_history.last().event_type == FireEventType::SystemActivated
            },
    {
        let id: u128 = fresh_id();
        let now = Timestamp::now();
        self.activate_suppression_at(id, now, emergency)
    }

    /// What a request to activate at `now` would come to. Nothing changes.
    pub fn activation(&self, now: Timestamp, emergency: bool) -> (outcome: Result<
        FireAction,
        FireSuppressionError,
    >)
        ensures
            outcome == self@.activation(now, emergency),
            (outcome matches Ok(FireAction::Activated) || outcome matches Ok(
                FireAction::EmergencyActivated,
            )) <==> self@.fires(now, emergency),
    {
        decide(self.state, self.config, now, emergency)
    }

    /// Requests an activation at `now`.
    ///
    /// While less than the cooldown period has passed since the last
    /// activation, the request is skipped, unless it is an emergency or the
    /// manual override is set. A request that is not skipped is refused
    /// when the system is not ready. A skipped or refused request changes
    /// nothing.
    ///
    /// Otherwise the nozzle takes the emergency position for an emergency
    /// and aims at the fire else, the discharge starts, `now` becomes the
    /// time of the last activation, the count of activations rises by one,
    /// and the activation is logged under the identifier `id`. The count
    /// must have room where the request is carried out, and nowhere else.
    pub fn activate_suppression_at(
        &mut self,
        id: u128,
        now: Timestamp,
        emergency: bool,
    ) -> (result: Result<FireAction, FireSuppressionError>)
        requires
            old(self)@.fires(now, emergency) ==> old(self)@.state.total_activations < u32::MAX,
        ensures
            result == old(self)@.activation(now, emergency),
            final(self)@ == old(self)@.activated(id, now, emergency),
            result is Ok <==> old(self)@.is_ready() || (!emergency && old(self)@.in_cooldown(now)
                && !old(self)@.state.manual_override_active),
            !old(self)@.fires(now, emergency) ==> *final(self) == *old(self),
            old(self)@.fires(now, emergency) ==> final(self)@.state.total_activations
                == old(self)@.state.total_activations + 1,
    {
        proof {
            use_type_invariant(&*self);
        }
        let outcome = self.activation(now, emergency);
        match outcome {
            Ok(FireAction::Activated) | Ok(FireAction::EmergencyActivated) => {
                self.state.nozzle_position = if emergency {
                    NozzlePosition::Emergency
                } else {
                    NozzlePosition::Targeting
                };
                self.state.discharge_active = true;
                self.state.last_activation = Some(now);
                self.state.total_activations = self.state.total_activations + 1;
                self.log_fire_event(
                    id,
                    now,
                    FireEventType::SystemActivated,
                    activation_description(emergency),
                );
            },
            _ => {},
        }
        outcome
    }

    /// Activates by hand at the current time, overriding the cooldown. The
    /// count of activations must have room where the system is ready.
    pub fn manual_activate(&mut self) -> (result: Result<FireAction, FireSuppressionError>)
        requires
            old(self)@.is_ready() ==> old(self)@.state.total_activations < u32::MAX,
        ensures
            result == if old(self)@.is_ready() {
                Ok::<FireAction, FireSuppressionError>(FireAction::Activated)
            } else {
                Err::<FireAction, FireSuppressionError>(FireSuppressionError::NotReady)
            },
            exists|activation_id: u128, override_id: u128, now: Timestamp|
                {
                    &&& is_random_id(activation_id)
                    &&& is_random_id(override_id)
                    &&& now.millis >= 0
                    &&& final(self)@ == #[trigger] old(self)@.manually_activated(
                        activation_id,
                        override_id,
                        now,
                    )
                },
            result is Err ==> *final(self) == *old(self),
            result is Ok ==> {
                &&& final(self)@.state.manual_override_active
                &&& final(self)@.state.discharge_active
                &&& final(self)@.state.total_activations == old(self)@.state.total_activations + 1
                &&& final(self)@.event_history.last().event_type == FireEventType::ManualOverride
            },
    {
        let activation_id: u128 = fresh_id();
        let override_id: u128 = fresh_id();
        let now = Timestamp::now();
        self.manual_activate_at(activation_id, override_id, now)
    }

    /// Activates by hand at `now`.
    ///
    /// A system that is not ready refuses the request and stays as it is:
    /// the override is not set. A system that is ready sets the manual
    /// override, so that the cooldown does not apply, starts the discharge,
    /// and logs the activation under `activation_id` and the override under
    /// `override_id`. The count of activations must have room where the
    /// system is ready.
    pub fn manual_activate_at(
        &mut self,
        activation_id: u128,
        override_id: u128,
        now: Timestamp,
    ) -> (result: Result<FireAction, FireSuppressionError>)
        requires
            old(self)@.is_ready() ==> old(self)@.state.total_activations < u32::MAX,
        ensures
            result == if old(self)@.is_ready() {
                Ok::<FireAction, FireSuppressionError>(FireAction::Activated)
            } else {
                Err::<FireAction, FireSuppressionError>(FireSuppressionError::NotReady)
            },
            final(self)@ == old(self)@.manually_activated(activation_id, override_id, now),
            result is Err ==> *final(self) == *old(self),
    {
        proof {
            use_type_invariant(&*self);
        }
        if !self.is_system_ready() {
            return Err(FireSuppressionError::NotReady);
        }
        self.state.manual_override_active = true;
        let result = self.activate_suppression_at(activation_id, now, false);
        self.log_fire_event(
            override_id,
            now,
            FireEventType::ManualOverride,
            String::from_str("Manual fire suppression override activated"),
        );
        result
    }

    /// Stops a running discharge at the current time.
    pub fn stop_discharge(&mut self) -> (action: FireAction)
        ensures
            action == if old(self)@.state.discharge_active {
                FireAction::DischargeStopped
            } else {
                FireAction::Idle
            },
            exists|id: u128, now: Timestamp|
                {
                    &&& is_random_id(id)
                    &&& now.millis >= 0
                    &&& final(self)@ == #[trigger] old(self)@.stopped(id, now)
                },
    {
        let id: u128 = fresh_id();
        let now = Timestamp::now();
        self.stop_discharge_at(id, now)
    }

    /// Stops a running discharge: the discharge and the manual override
    /// end, the nozzle retracts, and the stop is logged. Without a running
    /// discharge nothing changes.
    pub fn stop_discharge_at(&mut self, id: u128, now: Timestamp) -> (action: FireAction)
        ensures
            action == if old(self)@.state.discharge_active {
                FireAction::DischargeStopped
            } else {
                FireAction::Idle
            },
            final(self)@ == old(self)@.stopped(id, now),
            !old(self)@.state.discharge_active ==> *final(self) == *old(self),
    {
        proof {
            use_type_invariant(&*self);
        }
        if self.state.discharge_active {
            self.state.discharge_active = false;
            self.state.manual_override_active = false;
            self.state.nozzle_position = NozzlePosition::Retracted;
            self.log_fire_event(
                id,
                now,
                FireEventType::FireSuppressed,
                String::from_str("Fire suppression discharge stopped"),
            );
            FireAction::DischargeStopped
        } else {
            FireAction::Idle
        }
    }

    /// Records that the automatic stop has closed the valve: the discharge
    /// is over, and nothing else changes. Answers whether a discharge was
    /// running, so whether this call is the one that ended it.
    pub fn auto_stop(&mut self) -> (ended: bool)
        ensures
            ended == old(self)@.state.discharge_active,
            final(self)@ == old(self)@.auto_stopped(),
            !final(self)@.state.discharge_active,
            !ended ==> *final(self) == *old(self),
    {
        proof {
            use_type_invariant(&*self);
        }
        let ended = self.state.discharge_active;
        self.state.discharge_active = false;
        ended
    }

    /// Whether the system may fire: armed, pressure at or above the
    /// minimum, more than 5 % of the charge left, and not offline.
    pub fn is_system_ready(&self) -> (ready: bool)
        ensures
            ready == self@.is_ready(),
    {
        self.state.system_armed && self.state.extinguisher_pressure >= self.config.min_pressure
            && self.state.extinguisher_capacity > 5_000 && self.state.system_health
            != SystemHealth::Offline
    }

    /// Brings the health up to date: critical under the minimum pressure,
    /// degraded under 20 % of the charge, else optimal.
    pub fn update_system_health(&mut self)
        ensures
            final(self)@ == old(self)@.with_health(),
    {
        proof {
            use_type_invariant(&*self);
        }
        if self.state.extinguisher_pressure < self.config.min_pressure {
            self.state.system_health = SystemHealth::Critical;
        } else if self.state.extinguisher_capacity < 20_000 {
            self.state.system_health = SystemHealth::Degraded;
        } else {
            self.state.system_health = SystemHealth::Optimal;
        }
    }

    /// Appends an event to the history. The event records the present
    /// readings and their severity, and carries the description as its one
    /// response action. Once the history exceeds [`EVENT_CAPACITY`], the
    /// [`EVENT_TRIM`] oldest events leave.
    pub fn log_fire_event(
        &mut self,
        id: u128,
        now: Timestamp,
        event_type: FireEventType,
        description: String,
    )
        ensures
            final(self)@ == old(self)@.with_event(id, now, event_type, description@),
    {
        let ghost before = self.event_history.deep_view();
        let mut response_actions: Vec<String> = Vec::new();
        response_actions.push(description);
        assert(response_actions.deep_view() =~= seq![description@]);
        let event = FireEvent {
            id,
            timestamp: now,
            event_type,
            temperature: self.state.current_temperature,
            smoke_level: self.state.smoke_level,
            location_estimate: None,
            severity: self.assess_fire_risk(),
            response_actions,
        };
        let ghost added = event@;
        proof {
            use_type_invariant(&*self);
        }
        let mut history: Vec<FireEvent> = Vec::new();
        core::mem::swap(&mut history, &mut self.event_history);
        if history.len() >= EVENT_CAPACITY {
            let mut kept = history.split_off(EVENT_TRIM);
            kept.push(event);
            assert(kept.deep_view() =~= before.push(added).skip(EVENT_TRIM as int));
            self.event_history = kept;
        } else {
            history.push(event);
            assert(history.deep_view() =~= before.push(added));
            self.event_history = history;
        }
    }

    /// The record of the controller.
    pub fn get_status(&self) -> (state: &FireSuppressionState)
        ensures
            *state == self@.state,
    {
        &self.state
    }

    /// The settings in force.
    pub fn config(&self) -> (config: &FireSuppressionConfig)
        ensures
            *config == self@.config,
    {
        &self.config
    }

    /// The event history, oldest event first; never more than
    /// [`EVENT_CAPACITY`] long.
    pub fn event_history(&self) -> (history: &[FireEvent])
        ensures
            history@.len() == self@.event_history.len(),
            forall|i: int|
                0 <= i < history@.len() ==> (#[trigger] history@[i])@ == self@.event_history[i],
            history@.len() <= EVENT_CAPACITY,
    {
        proof {
            use_type_invariant(self);
        }
        self.event_history.as_slice()
    }

    /// The actuator commands that carry out `action`, in order.
    pub fn commands(&self, action: FireAction) -> (commands: Vec<FireCommand>)
        ensures
            commands@ == commands_for(action, self@.config),
    {
        let mut commands: Vec<FireCommand> = Vec::new();
        match action {
            FireAction::Idle => {},
            FireAction::CoolingDown => {},
            FireAction::DischargeStopped => {
                commands.push(FireCommand::CloseValve);
                commands.push(FireCommand::Wait { millis: SETTLE_MILLIS });
                commands.push(FireCommand::RetractNozzle);
            },
            FireAction::NozzlePrepared => {
                commands.push(FireCommand::DeployNozzle);
            },
            FireAction::Activated => {
                commands.push(FireCommand::TargetFire);
                commands.push(FireCommand::OpenValve);
                commands.push(
                    FireCommand::ScheduleAutoStop { seconds: self.config.max_discharge_duration },
                );
            },
            FireAction::EmergencyActivated => {
                commands.push(FireCommand::EmergencyDeploy);
                commands.push(FireCommand::OpenValve);
                commands.push(
                    FireCommand::ScheduleAutoStop { seconds: self.config.max_discharge_duration },
                );
            },
        }
        commands
    }

    /// The one-line status summary: activity, nozzle, health, pressure and
    /// charge in whole numbers, temperature and smoke percentage with one
    /// decimal.
    pub fn status_summary(&self) -> (summary: String)
        ensures
            summary@ == self@.status_text(),
    {
        let mut summary = String::from_str(activity_emblem(&self.state));
        summary.append(" Fire Suppression ");
        summary.append(self.state.nozzle_position.description());
        summary.append(" | Health: ");
        summary.append(health_emblem(self.state.system_health));
        summary.append(" | Pressure: ");
        push_whole(&mut summary, self.state.extinguisher_pressure as i64);
        summary.append(" PSI | Capacity: ");
        push_whole(&mut summary, self.state.extinguisher_capacity as i64);
        summary.append("% | Temp: ");
        push_one_decimal(&mut summary, self.state.current_temperature as i64);
        summary.append("°C | Smoke: ");
        push_one_decimal(&mut summary, self.state.smoke_level as i64 * 100);
        summary.append("%");
        summary
    }

    /// The commands of the self-test. The test changes nothing in the
    /// record of the controller.
    pub fn system_test(&self) -> (commands: Vec<FireCommand>)
        ensures
            commands@ == test_commands(),
    {
        let mut commands: Vec<FireCommand> = Vec::new();
        commands.push(FireCommand::DeployNozzle);
        commands.push(FireCommand::Wait { millis: 1000 });
        commands.push(FireCommand::ReadPressure);
        commands.push(FireCommand::ReadTemperature);
        commands.push(FireCommand::ReadSmoke);
        commands.push(FireCommand::RetractNozzle);
        commands
    }
}

/// Two ordinary requests within the cooldown period perform the action at
/// most once. If the first of them is carried out, at `first`, then a second
/// at `second`, less than the cooldown period later, is skipped: it changes
/// nothing, so the count of activations has risen by one, not by two.
pub proof fn lemma_second_activation_within_cooldown_is_skipped(
    system: FireSystemView,
    first_id: u128,
    second_id: u128,
    first: Timestamp,
    second: Timestamp,
)
    requires
        !system.state.manual_override_active,
        second.since(first) < system.config.cooldown_period * 1000,
    ensures
        system.fires(first, false) ==> {
            let once = system.activated(first_id, first, false);
            &&& once.state.last_activation == Some(first)
            &&& once.state.discharge_active
            &&& !once.fires(second, false)
            &&& once.activation(second, false) matches Ok(FireAction::CoolingDown)
            &&& once.activated(second_id, second, false) == once
            &&& commands_for(FireAction::CoolingDown, once.config) == Seq::<FireCommand>::empty()
        },
        system.fires(first, false) && system.state.total_activations < u32::MAX
            ==> system.activated(first_id, first, false).activated(
            second_id,
            second,
            false,
        ).state.total_activations == system.state.total_activations + 1,
        !system.fires(first, false) ==> system.activated(first_id, first, false) == system,
{
}

/// An emergency request is carried out whenever the system is ready,
/// whatever the time of the last activation: the cooldown does not apply.
pub proof fn lemma_emergency_ignores_cooldown(system: FireSystemView, id: u128, now: Timestamp)
    requires
        system.is_ready(),
    ensures
        system.fires(now, true),
        system.activation(now, true) matches Ok(FireAction::EmergencyActivated),
        system.activated(id, now, true).state.discharge_active,
        system.activated(id, now, true).state.nozzle_position == NozzlePosition::Emergency,
        system.activated(id, now, true).state.last_activation == Some(now),
        system.state.total_activations < u32::MAX ==> system.activated(
            id,
            now,
            true,
        ).state.total_activations == system.state.total_activations + 1,
        system.activated(id, now, true).event_history.last().event_type
            == FireEventType::SystemActivated,
{
}

/// A system that is not ready (so one whose pressure is under the minimum)
/// never fires: every request, ordinary, emergency or by hand, leaves it
/// unchanged and yields no command, and every request that the cooldown
/// does not skip is refused.
pub proof fn lemma_unready_system_refuses(
    system: FireSystemView,
    id: u128,
    now: Timestamp,
    emergency: bool,
)
    requires
        !system.is_ready(),
    ensures
        !system.fires(now, emergency),
        !system.may_fire(emergency),
        system.activated(id, now, emergency) == system,
        system.manually_activated(id, id, now) == system,
        system.activation(now, emergency) matches Ok(action) ==> commands_for(
            action,
            system.config,
        ) == Seq::<FireCommand>::empty(),
        system.activation(now, emergency) == if !emergency
            && !system.state.manual_override_active && system.in_cooldown(now) {
            Ok::<FireAction, FireSuppressionError>(FireAction::CoolingDown)
        } else {
            Err::<FireAction, FireSuppressionError>(FireSuppressionError::NotReady)
        },
        emergency ==> system.activation(now, emergency) == Err::<FireAction, FireSuppressionError>(
            FireSuppressionError::NotReady,
        ),
{
}

/// A pressure under the minimum makes the system not ready, whatever else
/// its record holds.
pub proof fn lemma_low_pressure_is_not_ready(system: FireSystemView)
    requires
        system.state.extinguisher_pressure < system.config.min_pressure,
    ensures
        !system.is_ready(),
        system.health() == SystemHealth::Critical,
{
}

/// The automatic stop ends a discharge once and is idempotent. After it no
/// discharge is running; a second stop changes nothing; and it changes
/// nothing either when no discharge was running, as after a stop by hand.
pub proof fn lemma_auto_stop_is_idempotent(system: FireSystemView, id: u128, now: Timestamp)
    ensures
        !system.auto_stopped().state.discharge_active,
        system.auto_stopped().auto_stopped() == system.auto_stopped(),
        !system.state.discharge_active ==> system.auto_stopped() == system,
        system.stopped(id, now).auto_stopped() == system.stopped(id, now),
{
}

/// Every discharge that starts comes with the order to stop it after the
/// longest discharge that the settings allow.
pub proof fn lemma_activation_schedules_auto_stop(config: FireSuppressionConfig, emergency: bool)
    ensures
        commands_for(
            if emergency {
                FireAction::EmergencyActivated
            } else {
                FireAction::Activated
            },
            config,
        ).last() == (FireCommand::ScheduleAutoStop { seconds: config.max_discharge_duration }),
{
}

/// The event history stays within its capacity.
pub proof fn lemma_history_stays_bounded(history: Seq<FireEventView>, event: FireEventView)
    requires
        history.len() <= EVENT_CAPACITY,
    ensures
        logged(history, event).len() <= EVENT_CAPACITY,
        logged(history, event).last() == event,
{
}

} // verus!
