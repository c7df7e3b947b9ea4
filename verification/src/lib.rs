//! Orchestration engine of an autonomous protection unit.
//!
//! The crate holds the shared command state with its escalation-only threat
//! state machine ([`command_state`]), the threat assessments and their risk
//! score ([`threat_detection`]), the deterrence and fire-suppression
//! controllers ([`deterrence`], [`fire_suppression`]), and the
//! protection-cycle scheduler ([`orchestration`]).
//!
//! Every controller is a state machine: it takes plain readings and the
//! current time, updates its own record, and hands back the commands for the
//! actuators. Sensors, actuators, timers and locks live with the caller.
//! What a controller does is stated over a model of its record, a `View`,
//! and the laws that relate several operations are proved over the same
//! model.
//!
//! Quantities that a sensor reports as a fraction or a decimal number
//! (temperature, pressure, smoke level, confidence, ...) are held as whole
//! numbers of thousandths; see [`units`]. Times are held in milliseconds
//! since the epoch and identifiers as 128-bit numbers; see [`stamp`].

pub mod units;
pub mod stamp;
pub mod text;
pub mod threat_level;
pub mod command_state;
pub mod threat_detection;
pub mod fire_suppression;
pub mod deterrence;
pub mod orchestration;
