//! Threat assessments, their evidence, and the aggregate risk score.
//!
//! An assessment is an input of the engine: the perception that produces a
//! real one lives outside this crate. [`UltraSeekerEngine`] keeps a bounded
//! history of assessments, scores it, and carries a built-in generator of
//! calm assessments that stands in for the perception.
//!
//! Confidences and evidence scores are held in thousandths, the severity
//! multipliers in tenths, and the risk score in millionths.

use crate::command_state::Position;
use crate::stamp::{fresh_id, is_random_id, Timestamp};
use crate::text::same_text;
use crate::threat_level::ThreatLevel;
use vstd::prelude::*;

verus! {

/// The kinds of threat that an assessment can name.
#[derive(Debug, Clone, Copy, PartialEq, Eq, Structural)]
pub enum ThreatType {
    /// Physical aggression detected.
    PhysicalAggression,
    /// Weapon presence identified.
    WeaponDetected,
    /// Erratic movement patterns.
    ErraticBehavior,
    /// Hostile intent read from body language.
    HostileIntent,
    /// Several aggressors acting together.
    GroupThreat,
    /// Fire, chemicals and the like.
    EnvironmentalHazard,
    /// Threat from a vehicle.
    VehicleThreat,
    /// Attempted cyber attack.
    CyberThreat,
    /// Anomaly that needs investigation.
    UnknownAnomaly,
}

impl ThreatType {
    /// The severity multiplier of the kind, in tenths: from 11 (1.1) for an
    /// unknown anomaly to 20 (2.0) for a weapon.
    pub open spec fn multiplier(self) -> nat {
        match self {
            ThreatType::PhysicalAggression => 15,
            ThreatType::WeaponDetected => 20,
            ThreatType::ErraticBehavior => 12,
            ThreatType::HostileIntent => 13,
            ThreatType::GroupThreat => 18,
            ThreatType::EnvironmentalHazard => 16,
            ThreatType::VehicleThreat => 17,
            ThreatType::CyberThreat => 14,
            ThreatType::UnknownAnomaly => 11,
        }
    }

    /// The one-line description of the kind.
    pub open spec fn summary(self) -> Seq<char> {
        match self {
            ThreatType::PhysicalAggression => "Physical aggression or violence detected"@,
            ThreatType::WeaponDetected => "Weapon or dangerous object identified"@,
            ThreatType::ErraticBehavior => "Erratic or suspicious movement patterns"@,
            ThreatType::HostileIntent => "Hostile body language or intent detected"@,
            ThreatType::GroupThreat => "Multiple coordinated aggressors"@,
            ThreatType::EnvironmentalHazard => "Environmental danger present"@,
            ThreatType::VehicleThreat => "Vehicle-based threat identified"@,
            ThreatType::CyberThreat => "Cyber attack or hacking attempt"@,
            ThreatType::UnknownAnomaly => "Unknown anomaly requiring investigation"@,
        }
    }

    /// The severity multiplier of the kind, in tenths.
    pub fn severity_multiplier(&self) -> (tenths: u32)
        ensures
            tenths == self.multiplier(),
            11 <= tenths <= 20,
    {
        match self {
            ThreatType::PhysicalAggression => 15,
            ThreatType::WeaponDetected => 20,
            ThreatType::ErraticBehavior => 12,
            ThreatType::HostileIntent => 13,
            ThreatType::GroupThreat => 18,
            ThreatType::EnvironmentalHazard => 16,
            ThreatType::VehicleThreat => 17,
            ThreatType::CyberThreat => 14,
            ThreatType::UnknownAnomaly => 11,
        }
    }

    /// The one-line description of the kind.
    pub fn description(&self) -> (s: &'static str)
        ensures
            s@ == self.summary(),
    {
        match self {
            ThreatType::PhysicalAggression => "Physical aggression or violence detected",
            ThreatType::WeaponDetected => "Weapon or dangerous object identified",
            ThreatType::ErraticBehavior => "Erratic or suspicious movement patterns",
            ThreatType::HostileIntent => "Hostile body language or intent detected",
            ThreatType::GroupThreat => "Multiple coordinated aggressors",
            ThreatType::EnvironmentalHazard => "Environmental danger present",
            ThreatType::VehicleThreat => "Vehicle-based threat identified",
            ThreatType::CyberThreat => "Cyber attack or hacking attempt",
            ThreatType::UnknownAnomaly => "Unknown anomaly requiring investigation",
        }
    }
}

/// One object that the camera made out.
#[derive(Debug)]
pub struct ObjectDetection {
    pub object_type: String,
    /// Thousandths.
    pub confidence: i32,
    /// x, y, width and height, each in thousandths of the frame.
    pub bounding_box: (i32, i32, i32, i32),
    /// Thousandths.
    pub threat_relevance: i32,
}

/// What an [`ObjectDetection`] holds.
pub struct ObjectDetectionView {
    pub object_type: Seq<char>,
    pub confidence: i32,
    pub bounding_box: (i32, i32, i32, i32),
    pub threat_relevance: i32,
}

impl View for ObjectDetection {
    type V = ObjectDetectionView;

    open spec fn view(&self) -> ObjectDetectionView {
        ObjectDetectionView {
            object_type: self.object_type@,
            confidence: self.confidence,
            bounding_box: self.bounding_box,
            threat_relevance: self.threat_relevance,
        }
    }
}

impl DeepView for ObjectDetection {
    type V = ObjectDetectionView;

    open spec fn deep_view(&self) -> ObjectDetectionView {
        self@
    }
}

impl Clone for ObjectDetection {
    fn clone(&self) -> (copy: ObjectDetection)
        ensures
            copy@ == self@,
    {
        ObjectDetection {
            object_type: self.object_type.clone(),
            confidence: self.confidence,
            bounding_box: self.bounding_box,
            threat_relevance: self.threat_relevance,
        }
    }
}

/// What the camera saw.
#[derive(Debug)]
pub struct VisualEvidence {
    pub object_detections: Vec<ObjectDetection>,
    /// Thousandths.
    pub body_language_score: i32,
    /// Thousandths.
    pub weapon_confidence: i32,
    pub crowd_density: u32,
    pub lighting_conditions: String,
}

/// What a [`VisualEvidence`] holds.
pub struct VisualEvidenceView {
    pub object_detections: Seq<ObjectDetectionView>,
    pub body_language_score: i32,
    pub weapon_confidence: i32,
    pub crowd_density: u32,
    pub lighting_conditions: Seq<char>,
}

impl View for VisualEvidence {
    type V = VisualEvidenceView;

    open spec fn view(&self) -> VisualEvidenceView {
        VisualEvidenceView {
            object_detections: self.object_detections.deep_view(),
            body_language_score: self.body_language_score,
            weapon_confidence: self.weapon_confidence,
            crowd_density: self.crowd_density,
            lighting_conditions: self.lighting_conditions@,
        }
    }
}

impl DeepView for VisualEvidence {
    type V = VisualEvidenceView;

    open spec fn deep_view(&self) -> VisualEvidenceView {
        self@
    }
}

impl Clone for VisualEvidence {
    fn clone(&self) -> (copy: VisualEvidence)
        ensures
            copy@ == self@,
    {
        let object_detections = self.object_detections.clone();
        VisualEvidence {
            object_detections,
            body_language_score: self.body_language_score,
            weapon_confidence: self.weapon_confidence,
            crowd_density: self.crowd_density,
            lighting_conditions: self.lighting_conditions.clone(),
        }
    }
}

/// What the microphones heard.
#[derive(Debug)]
pub struct AudioEvidence {
    /// Thousandths of a decibel.
    pub volume_level: i32,
    /// Thousandths.
    pub aggression_score: i32,
    pub keyword_matches: Vec<String>,
    /// Thousandths.
    pub voice_stress_level: i32,
    pub gunshot_detected: bool,
    pub scream_detected: bool,
}

/// What an [`AudioEvidence`] holds.
pub struct AudioEvidenceView {
    pub volume_level: i32,
    pub aggression_score: i32,
    pub keyword_matches: Seq<Seq<char>>,
    pub voice_stress_level: i32,
    pub gunshot_detected: bool,
    pub scream_detected: bool,
}

impl View for AudioEvidence {
    type V = AudioEvidenceView;

    open spec fn view(&self) -> AudioEvidenceView {
        AudioEvidenceView {
            volume_level: self.volume_level,
            aggression_score: self.aggression_score,
            keyword_matches: self.keyword_matches.deep_view(),
            voice_stress_level: self.voice_stress_level,
            gunshot_detected: self.gunshot_detected,
            scream_detected: self.scream_detected,
        }
    }
}

impl DeepView for AudioEvidence {
    type V = AudioEvidenceView;

    open spec fn deep_view(&self) -> AudioEvidenceView {
        self@
    }
}

impl Clone for AudioEvidence {
    fn clone(&self) -> (copy: AudioEvidence)
        ensures
            copy@ == self@,
    {
        let keyword_matches = self.keyword_matches.clone();
        AudioEvidence {
            volume_level: self.volume_level,
            aggression_score: self.aggression_score,
            keyword_matches,
            voice_stress_level: self.voice_stress_level,
            gunshot_detected: self.gunshot_detected,
            scream_detected: self.scream_detected,
        }
    }
}

/// How the subject moved.
#[derive(Debug, Clone, Copy, PartialEq, Eq, Structural)]
pub struct MovementEvidence {
    /// Thousandths.
    pub velocity_anomaly: i32,
    pub direction_changes: u32,
    pub proximity_violations: u32,
    pub pursuit_behavior: bool,
    pub escape_attempts: bool,
}

/// What the biometric sensors read.
#[derive(Debug)]
pub struct BiometricEvidence {
    pub elevated_heart_rate: bool,
    /// Thousandths.
    pub stress_hormones: Option<i32>,
    /// Thousandths of a degree Fahrenheit.
    pub body_temperature: Option<i32>,
    pub breathing_pattern: Option<String>,
}

/// What a [`BiometricEvidence`] holds.
pub struct BiometricEvidenceView {
    pub elevated_heart_rate: bool,
    pub stress_hormones: Option<i32>,
    pub body_temperature: Option<i32>,
    pub breathing_pattern: Option<Seq<char>>,
}

impl View for BiometricEvidence {
    type V = BiometricEvidenceView;

    open spec fn view(&self) -> BiometricEvidenceView {
        BiometricEvidenceView {
            elevated_heart_rate: self.elevated_heart_rate,
            stress_hormones: self.stress_hormones,
            body_temperature: self.body_temperature,
            breathing_pattern: self.breathing_pattern.deep_view(),
        }
    }
}

impl DeepView for BiometricEvidence {
    type V = BiometricEvidenceView;

    open spec fn deep_view(&self) -> BiometricEvidenceView {
        self@
    }
}

impl Clone for BiometricEvidence {
    fn clone(&self) -> (copy: BiometricEvidence)
        ensures
            copy@ == self@,
    {
        let breathing_pattern = match &self.breathing_pattern {
            Some(pattern) => Some(pattern.clone()),
            None => None,
        };
        BiometricEvidence {
            elevated_heart_rate: self.elevated_heart_rate,
            stress_hormones: self.stress_hormones,
            body_temperature: self.body_temperature,
            breathing_pattern,
        }
    }
}

/// What the environmental sensors read.
#[derive(Debug)]
pub struct EnvironmentalEvidence {
    /// Thousandths of a degree.
    pub temperature_anomaly: Option<i32>,
    pub smoke_detected: bool,
    pub chemical_traces: Vec<String>,
    pub structural_damage: bool,
    pub weather_conditions: String,
}

/// What an [`EnvironmentalEvidence`] holds.
pub struct EnvironmentalEvidenceView {
    pub temperature_anomaly: Option<i32>,
    pub smoke_detected: bool,
    pub chemical_traces: Seq<Seq<char>>,
    pub structural_damage: bool,
    pub weather_conditions: Seq<char>,
}

impl View for EnvironmentalEvidence {
    type V = EnvironmentalEvidenceView;

    open spec fn view(&self) -> EnvironmentalEvidenceView {
        EnvironmentalEvidenceView {
            temperature_anomaly: self.temperature_anomaly,
            smoke_detected: self.smoke_detected,
            chemical_traces: self.chemical_traces.deep_view(),
            structural_damage: self.structural_damage,
            weather_conditions: self.weather_conditions@,
        }
    }
}

impl DeepView for EnvironmentalEvidence {
    type V = EnvironmentalEvidenceView;

    open spec fn deep_view(&self) -> EnvironmentalEvidenceView {
        self@
    }
}

impl Clone for EnvironmentalEvidence {
    fn clone(&self) -> (copy: EnvironmentalEvidence)
        ensures
            copy@ == self@,
    {
        let chemical_traces = self.chemical_traces.clone();
        EnvironmentalEvidence {
            temperature_anomaly: self.temperature_anomaly,
            smoke_detected: self.smoke_detected,
            chemical_traces,
            structural_damage: self.structural_damage,
            weather_conditions: self.weather_conditions.clone(),
        }
    }
}

/// The evidence behind an assessment. The engine carries it along and never
/// reads it.
#[derive(Debug)]
pub struct ThreatEvidence {
    pub visual_data: Option<VisualEvidence>,
    pub audio_data: Option<AudioEvidence>,
    pub movement_data: Option<MovementEvidence>,
    pub biometric_data: Option<BiometricEvidence>,
    pub environmental_data: Option<EnvironmentalEvidence>,
}

/// What a [`ThreatEvidence`] holds.
pub struct ThreatEvidenceView {
    pub visual_data: Option<VisualEvidenceView>,
    pub audio_data: Option<AudioEvidenceView>,
    pub movement_data: Option<MovementEvidence>,
    pub biometric_data: Option<BiometricEvidenceView>,
    pub environmental_data: Option<EnvironmentalEvidenceView>,
}

impl View for ThreatEvidence {
    type V = ThreatEvidenceView;

    open spec fn view(&self) -> ThreatEvidenceView {
        ThreatEvidenceView {
            visual_data: self.visual_data.deep_view(),
            audio_data: self.audio_data.deep_view(),
            movement_data: self.movement_data,
            biometric_data: self.biometric_data.deep_view(),
            environmental_data: self.environmental_data.deep_view(),
        }
    }
}

impl Clone for ThreatEvidence {
    fn clone(&self) -> (copy: ThreatEvidence)
        ensures
            copy@ == self@,
    {
        let visual_data = match &self.visual_data {
            Some(visual) => Some(visual.clone()),
            None => None,
        };
        let audio_data = match &self.audio_data {
            Some(audio) => Some(audio.clone()),
            None => None,
        };
        let biometric_data = match &self.biometric_data {
            Some(biometric) => Some(biometric.clone()),
            None => None,
        };
        let environmental_data = match &self.environmental_data {
            Some(environmental) => Some(environmental.clone()),
            None => None,
        };
        ThreatEvidence {
            visual_data,
            audio_data,
            movement_data: self.movement_data,
            biometric_data,
            environmental_data,
        }
    }
}

/// One assessment of the situation: the snapshot that a protection cycle
/// consumes.
#[derive(Debug)]
pub struct ThreatAssessment {
    pub id: u128,
    pub timestamp: Timestamp,
    pub threat_level: ThreatLevel,
    /// Thousandths, 0 to 1000.
    pub confidence: u32,
    pub threat_types: Vec<ThreatType>,
    pub position: Option<Position>,
    pub description: String,
    pub recommended_actions: Vec<String>,
    pub evidence: ThreatEvidence,
}

/// What a [`ThreatAssessment`] holds.
pub struct ThreatAssessmentView {
    pub id: u128,
    pub timestamp: Timestamp,
    pub threat_level: ThreatLevel,
    pub confidence: u32,
    pub threat_types: Seq<ThreatType>,
    pub position: Option<Position>,
    pub description: Seq<char>,
    pub recommended_actions: Seq<Seq<char>>,
    pub evidence: ThreatEvidenceView,
}

impl View for ThreatAssessment {
    type V = ThreatAssessmentView;

    open spec fn view(&self) -> ThreatAssessmentView {
        ThreatAssessmentView {
            id: self.id,
            timestamp: self.timestamp,
            threat_level: self.threat_level,
            confidence: self.confidence,
            threat_types: self.threat_types@,
            position: self.position,
            description: self.description@,
            recommended_actions: self.recommended_actions.deep_view(),
            evidence: self.evidence@,
        }
    }
}

impl DeepView for ThreatAssessment {
    type V = ThreatAssessmentView;

    open spec fn deep_view(&self) -> ThreatAssessmentView {
        self@
    }
}

impl Clone for ThreatAssessment {
    fn clone(&self) -> (copy: ThreatAssessment)
        ensures
            copy@ == self@,
    {
        let threat_types = self.threat_types.clone();
        let recommended_actions = self.recommended_actions.clone();
        ThreatAssessment {
            id: self.id,
            timestamp: self.timestamp,
            threat_level: self.threat_level,
            confidence: self.confidence,
            threat_types,
            position: self.position,
            description: self.description.clone(),
            recommended_actions,
            evidence: self.evidence.clone(),
        }
    }
}

/// Settings of the detection engine.
#[derive(Debug)]
pub struct ThreatDetectionConfig {
    /// Thousandths, 0 to 1000.
    pub sensitivity_level: i32,
    /// Thousandths.
    pub false_positive_tolerance: i32,
    pub update_frequency_hz: u32,
    pub enabled_threat_types: Vec<ThreatType>,
    /// Thousandths.
    pub confidence_threshold: i32,
}

/// What a [`ThreatDetectionConfig`] holds.
pub struct ThreatDetectionConfigView {
    pub sensitivity_level: i32,
    pub false_positive_tolerance: i32,
    pub update_frequency_hz: u32,
    pub enabled_threat_types: Seq<ThreatType>,
    pub confidence_threshold: i32,
}

impl View for ThreatDetectionConfig {
    type V = ThreatDetectionConfigView;

    open spec fn view(&self) -> ThreatDetectionConfigView {
        ThreatDetectionConfigView {
            sensitivity_level: self.sensitivity_level,
            false_positive_tolerance: self.false_positive_tolerance,
            update_frequency_hz: self.update_frequency_hz,
            enabled_threat_types: self.enabled_threat_types@,
            confidence_threshold: self.confidence_threshold,
        }
    }
}

impl ThreatDetectionConfigView {
    /// The documented defaults: sensitivity 0.7, tolerance 0.1, 30 updates a
    /// second, threshold 0.6, and every kind enabled but vehicle, cyber and
    /// unknown.
    pub open spec fn standard() -> ThreatDetectionConfigView {
        ThreatDetectionConfigView {
            sensitivity_level: 700,
            false_positive_tolerance: 100,
            update_frequency_hz: 30,
            enabled_threat_types: seq![
                ThreatType::PhysicalAggression,
                ThreatType::WeaponDetected,
                ThreatType::ErraticBehavior,
                ThreatType::HostileIntent,
                ThreatType::GroupThreat,
                ThreatType::EnvironmentalHazard,
            ],
            confidence_threshold: 600,
        }
    }
}

impl Clone for ThreatDetectionConfig {
    fn clone(&self) -> (copy: ThreatDetectionConfig)
        ensures
            copy@ == self@,
    {
        let enabled_threat_types = self.enabled_threat_types.clone();
        ThreatDetectionConfig {
            sensitivity_level: self.sensitivity_level,
            false_positive_tolerance: self.false_positive_tolerance,
            update_frequency_hz: self.update_frequency_hz,
            enabled_threat_types,
            confidence_threshold: self.confidence_threshold,
        }
    }
}

impl Default for ThreatDetectionConfig {
    fn default() -> (config: ThreatDetectionConfig)
        ensures
            config@ == ThreatDetectionConfigView::standard(),
    {
        let mut enabled_threat_types: Vec<ThreatType> = Vec::new();
        enabled_threat_types.push(ThreatType::PhysicalAggression);
        enabled_threat_types.push(ThreatType::WeaponDetected);
        enabled_threat_types.push(ThreatType::ErraticBehavior);
        enabled_threat_types.push(ThreatType::HostileIntent);
        enabled_threat_types.push(ThreatType::GroupThreat);
        enabled_threat_types.push(ThreatType::EnvironmentalHazard);
        assert(enabled_threat_types@
            =~= ThreatDetectionConfigView::standard().enabled_threat_types);
        ThreatDetectionConfig {
            sensitivity_level: 700,
            false_positive_tolerance: 100,
            update_frequency_hz: 30,
            enabled_threat_types,
            confidence_threshold: 600,
        }
    }
}

/// The latest raw reading of one sensor.
#[derive(Debug)]
pub struct SensorInput {
    pub sensor_type: String,
    pub data: Vec<u8>,
    pub timestamp: Timestamp,
    /// Thousandths, 0 to 1000.
    pub quality: u32,
}

/// What a [`SensorInput`] holds.
pub struct SensorInputView {
    pub sensor_type: Seq<char>,
    pub data: Seq<u8>,
    pub timestamp: Timestamp,
    pub quality: u32,
}

impl View for SensorInput {
    type V = SensorInputView;

    open spec fn view(&self) -> SensorInputView {
        SensorInputView {
            sensor_type: self.sensor_type@,
            data: self.data@,
            timestamp: self.timestamp,
            quality: self.quality,
        }
    }
}

impl DeepView for SensorInput {
    type V = SensorInputView;

    open spec fn deep_view(&self) -> SensorInputView {
        self@
    }
}

impl Clone for SensorInput {
    fn clone(&self) -> (copy: SensorInput)
        ensures
            copy@ == self@,
    {
        let data = self.data.clone();
        SensorInput {
            sensor_type: self.sensor_type.clone(),
            data,
            timestamp: self.timestamp,
            quality: self.quality,
        }
    }
}

/// The most assessments that the history keeps.
pub const HISTORY_CAPACITY: usize = 1000;

/// How many of the oldest assessments leave when the history overflows.
pub const HISTORY_TRIM: usize = 100;

/// How many of the latest assessments the risk score looks at.
pub const SCORE_WINDOW: usize = 10;

/// The evidence of a calm scene, as the built-in generator reports it.
pub open spec fn calm_evidence() -> ThreatEvidenceView {
    ThreatEvidenceView {
        visual_data: Some(
            VisualEvidenceView {
                object_detections: Seq::empty(),
                body_language_score: 100,
                weapon_confidence: 0,
                crowd_density: 1,
                lighting_conditions: "Good"@,
            },
        ),
        audio_data: Some(
            AudioEvidenceView {
                volume_level: 45_000,
                aggression_score: 100,
                keyword_matches: Seq::empty(),
                voice_stress_level: 200,
                gunshot_detected: false,
                scream_detected: false,
            },
        ),
        movement_data: Some(
            MovementEvidence {
                velocity_anomaly: 0,
                direction_changes: 0,
                proximity_violations: 0,
                pursuit_behavior: false,
                escape_attempts: false,
            },
        ),
        biometric_data: Some(
            BiometricEvidenceView {
                elevated_heart_rate: false,
                stress_hormones: Some(300),
                body_temperature: Some(98_600),
                breathing_pattern: Some("Normal"@),
            },
        ),
        environmental_data: Some(
            EnvironmentalEvidenceView {
                temperature_anomaly: None,
                smoke_detected: false,
                chemical_traces: Seq::empty(),
                structural_damage: false,
                weather_conditions: "Clear"@,
            },
        ),
    }
}

/// Whether the built-in generator reports an anomaly at `now`: during the
/// first five seconds of every five minutes, and at any time before 1970.
pub open spec fn in_anomaly_window(now: Timestamp) -> bool {
    now.whole_seconds() < 0 || now.whole_seconds() % 300 < 5
}

/// The assessment that the built-in generator makes at `now`.
pub open spec fn generated_assessment(id: u128, now: Timestamp) -> ThreatAssessmentView {
    if in_anomaly_window(now) {
        ThreatAssessmentView {
            id,
            timestamp: now,
            threat_level: ThreatLevel::Yellow,
            confidence: 700,
            threat_types: seq![ThreatType::ErraticBehavior],
            position: None,
            description: "Unusual movement pattern detected - monitoring"@,
            recommended_actions: seq!["Increase monitoring sensitivity"@],
            evidence: calm_evidence(),
        }
    } else {
        ThreatAssessmentView {
            id,
            timestamp: now,
            threat_level: ThreatLevel::Green,
            confidence: 950,
            threat_types: Seq::empty(),
            position: None,
            description: "All systems nominal - no threats detected"@,
            recommended_actions: seq!["Continue passive monitoring"@],
            evidence: calm_evidence(),
        }
    }
}

/// The history after one more assessment: the assessment goes to the end,
/// and once the history exceeds its capacity the oldest hundred leave.
pub open spec fn recorded(
    history: Seq<ThreatAssessmentView>,
    assessment: ThreatAssessmentView,
) -> Seq<ThreatAssessmentView> {
    let grown = history.push(assessment);
    if grown.len() > HISTORY_CAPACITY {
        grown.skip(HISTORY_TRIM as int)
    } else {
        grown
    }
}

/// The sum of the severity multipliers of a list of kinds, in tenths.
pub open spec fn multiplier_sum(kinds: Seq<ThreatType>) -> nat
    decreases kinds.len(),
{
    if kinds.len() == 0 {
        0
    } else {
        multiplier_sum(kinds.drop_last()) + kinds.last().multiplier()
    }
}

/// What one assessment adds to the risk score, in millionths: its level's
/// ordinal, times its confidence, times one plus a tenth of the sum of its
/// severity multipliers.
pub open spec fn contribution(assessment: ThreatAssessmentView) -> nat {
    assessment.threat_level.rank() * assessment.confidence as nat * (100 + multiplier_sum(
        assessment.threat_types,
    )) * 10
}

/// The sum of the contributions of a run of assessments.
pub open spec fn contribution_sum(assessments: Seq<ThreatAssessmentView>) -> nat
    decreases assessments.len(),
{
    if assessments.len() == 0 {
        0
    } else {
        contribution_sum(assessments.drop_last()) + contribution(assessments.last())
    }
}

/// The latest assessments of a history, at most ten.
pub open spec fn recent(history: Seq<ThreatAssessmentView>) -> Seq<ThreatAssessmentView> {
    if history.len() > SCORE_WINDOW {
        history.skip(history.len() - SCORE_WINDOW)
    } else {
        history
    }
}

/// The aggregate risk score of a history, in millionths: the mean
/// contribution of its latest assessments, rounded down; 0 for an empty
/// history.
pub open spec fn risk_score(history: Seq<ThreatAssessmentView>) -> nat {
    if history.len() == 0 {
        0
    } else {
        contribution_sum(recent(history)) / recent(history).len()
    }
}

/// The sensor readings on file, by sensor type; a later reading of a sensor
/// replaces the earlier one.
pub open spec fn readings_by_sensor(inputs: Seq<SensorInputView>) -> Map<
    Seq<char>,
    SensorInputView,
>
    decreases inputs.len(),
{
    if inputs.len() == 0 {
        Map::empty()
    } else {
        readings_by_sensor(inputs.drop_last()).insert(inputs.last().sensor_type, inputs.last())
    }
}

/// No two readings on file belong to the same sensor.
pub open spec fn one_reading_per_sensor(inputs: Seq<SensorInputView>) -> bool {
    forall|i: int, j: int|
        0 <= i < j < inputs.len() ==> (#[trigger] inputs[i]).sensor_type != (
        #[trigger] inputs[j]).sensor_type
}

/// With one reading per sensor, each reading on file is the one filed under
/// its sensor.
proof fn lemma_reading_on_file(inputs: Seq<SensorInputView>, at: int)
    requires
        one_reading_per_sensor(inputs),
        0 <= at < inputs.len(),
    ensures
        readings_by_sensor(inputs).dom().contains(inputs[at].sensor_type),
        readings_by_sensor(inputs)[inputs[at].sensor_type] == inputs[at],
    decreases inputs.len(),
{
    if at < inputs.len() - 1 {
        let front = inputs.drop_last();
        lemma_reading_on_file(front, at);
    }
}

/// A sensor without a reading is not on file.
proof fn lemma_sensor_not_on_file(inputs: Seq<SensorInputView>, sensor: Seq<char>)
    requires
        forall|i: int| 0 <= i < inputs.len() ==> (#[trigger] inputs[i]).sensor_type != sensor,
    ensures
        !readings_by_sensor(inputs).dom().contains(sensor),
    decreases inputs.len(),
{
    if inputs.len() > 0 {
        lemma_sensor_not_on_file(inputs.drop_last(), sensor);
    }
}

/// Replacing the reading of a sensor in place files the new reading under
/// that sensor.
proof fn lemma_replace_reading(inputs: Seq<SensorInputView>, at: int, reading: SensorInputView)
    requires
        one_reading_per_sensor(inputs),
        0 <= at < inputs.len(),
        inputs[at].sensor_type == reading.sensor_type,
    ensures
        readings_by_sensor(inputs.update(at, reading)) == readings_by_sensor(inputs).insert(
            reading.sensor_type,
            reading,
        ),
        one_reading_per_sensor(inputs.update(at, reading)),
    decreases inputs.len(),
{
    let replaced = inputs.update(at, reading);
    let front = inputs.drop_last();
    if at == inputs.len() - 1 {
        assert(replaced.drop_last() =~= front);
    } else {
        lemma_replace_reading(front, at, reading);
        assert(replaced.drop_last() =~= front.update(at, reading));
    }
}

/// The detection engine: its settings, the bounded history of assessments,
/// and the latest reading of each sensor.
pub struct UltraSeekerEngine {
    config: ThreatDetectionConfig,
    /// Oldest assessment first, never more than [`HISTORY_CAPACITY`].
    threat_history: Vec<ThreatAssessment>,
    /// The readings on file, one for each sensor, in the order in which the
    /// sensors first reported.
    sensor_inputs: Vec<SensorInput>,
}

/// What an [`UltraSeekerEngine`] holds.
pub struct UltraSeekerEngineView {
    pub config: ThreatDetectionConfigView,
    /// Oldest assessment first.
    pub threat_history: Seq<ThreatAssessmentView>,
    pub sensor_inputs: Map<Seq<char>, SensorInputView>,
}

impl View for UltraSeekerEngine {
    type V = UltraSeekerEngineView;

    closed spec fn view(&self) -> UltraSeekerEngineView {
        UltraSeekerEngineView {
            config: self.config@,
            threat_history: self.threat_history.deep_view(),
            sensor_inputs: readings_by_sensor(self.sensor_inputs.deep_view()),
        }
    }
}

impl UltraSeekerEngine {
    /// The history never exceeds its capacity, and every sensor has at most
    /// one reading on file.
    #[verifier::type_invariant]
    spec fn well_formed(&self) -> bool {
        &&& self.threat_history@.len() <= HISTORY_CAPACITY
        &&& one_reading_per_sensor(self.sensor_inputs.deep_view())
    }

    /// An engine with the given settings, no history and no readings.
    pub fn new(config: ThreatDetectionConfig) -> (engine: UltraSeekerEngine)
        ensures
            engine@ == (UltraSeekerEngineView {
                config: config@,
                threat_history: Seq::empty(),
                sensor_inputs: Map::empty(),
            }),
    {
        let engine = UltraSeekerEngine {
            config,
            threat_history: Vec::new(),
            sensor_inputs: Vec::new(),
        };
        assert(engine.threat_history.deep_view() =~= Seq::empty());
        engine
    }

    /// The settings in force.
    pub fn config(&self) -> (config: &ThreatDetectionConfig)
        ensures
            config@ == self@.config,
    {
        &self.config
    }

    /// Makes one assessment with the built-in generator, under a fresh
    /// identifier at the current time, records it in the history and
    /// returns it.
    pub fn analyze_threats(&mut self) -> (assessment: ThreatAssessment)
        ensures
            exists|id: u128, now: Timestamp|
                {
                    &&& is_random_id(id)
                    &&& now.millis >= 0
                    &&& assessment@ == #[trigger] generated_assessment(id, now)
                },
            final(self)@ == (UltraSeekerEngineView {
                threat_history: recorded(old(self)@.threat_history, assessment@),
                ..old(self)@
            }),
    {
        let id: u128 = fresh_id();
        let now = Timestamp::now();
        let assessment = UltraSeekerEngine::generate_assessment(id, now);
        self.record_assessment(assessment.clone());
        assessment
    }

    /// Adds an assessment to the end of the history. Once the history
    /// exceeds [`HISTORY_CAPACITY`], the [`HISTORY_TRIM`] oldest leave.
    pub fn record_assessment(&mut self, assessment: ThreatAssessment)
        ensures
            final(self)@ == (UltraSeekerEngineView {
                threat_history: recorded(old(self)@.threat_history, assessment@),
                ..old(self)@
            }),
            final(self)@.threat_history.len() <= HISTORY_CAPACITY,
    {
        proof {
            use_type_invariant(&*self);
        }
        let ghost before = self.threat_history.deep_view();
        let ghost added = assessment@;
        let mut history: Vec<ThreatAssessment> = Vec::new();
        core::mem::swap(&mut history, &mut self.threat_history);
        if history.len() >= HISTORY_CAPACITY {
            let mut kept = history.split_off(HISTORY_TRIM);
            kept.push(assessment);
            assert(kept.deep_view() =~= before.push(added).skip(HISTORY_TRIM as int));
            self.threat_history = kept;
        } else {
            history.push(assessment);
            assert(history.deep_view() =~= before.push(added));
            self.threat_history = history;
        }
    }

    /// The assessment that the built-in generator makes at `now`: a calm
    /// scene at level `Green`, but for the first five seconds of every five
    /// minutes, when it reports erratic movement at level `Yellow`.
    pub fn generate_assessment(id: u128, now: Timestamp) -> (assessment: ThreatAssessment)
        ensures
            assessment@ == generated_assessment(id, now),
    {
        let evidence = ThreatEvidence {
            visual_data: Some(
                VisualEvidence {
                    object_detections: Vec::new(),
                    body_language_score: 100,
                    weapon_confidence: 0,
                    crowd_density: 1,
                    lighting_conditions: String::from_str("Good"),
                },
            ),
            audio_data: Some(
                AudioEvidence {
                    volume_level: 45_000,
                    aggression_score: 100,
                    keyword_matches: Vec::new(),
                    voice_stress_level: 200,
                    gunshot_detected: false,
                    scream_detected: false,
                },
            ),
            movement_data: Some(
                MovementEvidence {
                    velocity_anomaly: 0,
                    direction_changes: 0,
                    proximity_violations: 0,
                    pursuit_behavior: false,
                    escape_attempts: false,
                },
            ),
            biometric_data: Some(
                BiometricEvidence {
                    elevated_heart_rate: false,
                    stress_hormones: Some(300),
                    body_temperature: Some(98_600),
                    breathing_pattern: Some(String::from_str("Normal")),
                },
            ),
            environmental_data: Some(
                EnvironmentalEvidence {
                    temperature_anomaly: None,
                    smoke_detected: false,
                    chemical_traces: Vec::new(),
                    structural_damage: false,
                    weather_conditions: String::from_str("Clear"),
                },
            ),
        };
        proof {
            let view = evidence@;
            assert(view.visual_data->0.object_detections =~= Seq::empty());
            assert(view.environmental_data->0.chemical_traces =~= Seq::empty());
        }
        let seconds: i64 = now.seconds();
        let mut threat_types: Vec<ThreatType> = Vec::new();
        let mut recommended_actions: Vec<String> = Vec::new();
        if seconds < 0 || seconds % 300 < 5 {
            threat_types.push(ThreatType::ErraticBehavior);
            recommended_actions.push(String::from_str("Increase monitoring sensitivity"));
            assert(recommended_actions.deep_view() =~= seq![
                "Increase monitoring sensitivity"@,
            ]);
            ThreatAssessment {
                id,
                timestamp: now,
                threat_level: ThreatLevel::Yellow,
                confidence: 700,
                threat_types,
                position: None,
                description: String::from_str("Unusual movement pattern detected - monitoring"),
                recommended_actions,
                evidence,
            }
        } else {
            recommended_actions.push(String::from_str("Continue passive monitoring"));
            assert(recommended_actions.deep_view() =~= seq!["Continue passive monitoring"@]);
            ThreatAssessment {
                id,
                timestamp: now,
                threat_level: ThreatLevel::Green,
                confidence: 950,
                threat_types,
                position: None,
                description: String::from_str("All systems nominal - no threats detected"),
                recommended_actions,
                evidence,
            }
        }
    }

    /// Files a raw sensor reading, taken at the current time, under its
    /// sensor type.
    pub fn update_sensor_input(&mut self, sensor_type: String, data: Vec<u8>)
        ensures
            exists|now: Timestamp|
                now.millis >= 0 && final(self)@ == (UltraSeekerEngineView {
                    sensor_inputs: old(self)@.sensor_inputs.insert(
                        sensor_type@,
                        #[trigger] filed_reading(sensor_type@, data@, now),
                    ),
                    ..old(self)@
                }),
    {
        let now = Timestamp::now();
        self.update_sensor_input_at(sensor_type, data, now);
    }

    /// Files a raw sensor reading, taken at `now`, under its sensor type,
    /// in place of any earlier reading of that sensor. A reading on file is
    /// of full quality.
    pub fn update_sensor_input_at(&mut self, sensor_type: String, data: Vec<u8>, now: Timestamp)
        ensures
            final(self)@ == (UltraSeekerEngineView {
                sensor_inputs: old(self)@.sensor_inputs.insert(
                    sensor_type@,
                    filed_reading(sensor_type@, data@, now),
                ),
                ..old(self)@
            }),
    {
        proof {
            use_type_invariant(&*self);
        }
        let ghost before = self.sensor_inputs.deep_view();
        let ghost reading = filed_reading(sensor_type@, data@, now);
        let mut inputs: Vec<SensorInput> = Vec::new();
        core::mem::swap(&mut inputs, &mut self.sensor_inputs);
        let mut at: usize = 0;
        while at < inputs.len() && !same_text(
            inputs[at].sensor_type.as_str(),
            sensor_type.as_str(),
        )
            invariant
                at <= inputs.len(),
                inputs.deep_view() == before,
                forall|i: int| 0 <= i < at ==> (#[trigger] before[i]).sensor_type != sensor_type@,
            decreases inputs.len() - at,
        {
            at += 1;
        }
        let input = SensorInput { sensor_type, data, timestamp: now, quality: 1000 };
        if at < inputs.len() {
            proof {
                lemma_replace_reading(before, at as int, reading);
            }
            inputs.set(at, input);
            assert(inputs.deep_view() =~= before.update(at as int, reading));
        } else {
            inputs.push(input);
            assert(inputs.deep_view() =~= before.push(reading));
            assert(before.push(reading).drop_last() =~= before);
        }
        self.sensor_inputs = inputs;
    }

    /// The reading on file for a sensor, if there is one.
    pub fn sensor_input(&self, sensor_type: &str) -> (input: Option<&SensorInput>)
        ensures
            input is Some <==> self@.sensor_inputs.dom().contains(sensor_type@),
            input matches Some(found) ==> found@ == self@.sensor_inputs[sensor_type@],
    {
        proof {
            use_type_invariant(self);
        }
        let ghost on_file = self.sensor_inputs.deep_view();
        let mut at: usize = 0;
        while at < self.sensor_inputs.len()
            invariant
                at <= self.sensor_inputs.len(),
                on_file == self.sensor_inputs.deep_view(),
                one_reading_per_sensor(on_file),
                forall|i: int| 0 <= i < at ==> (#[trigger] on_file[i]).sensor_type != sensor_type@,
            decreases self.sensor_inputs.len() - at,
        {
            if same_text(self.sensor_inputs[at].sensor_type.as_str(), sensor_type) {
                proof {
                    lemma_reading_on_file(on_file, at as int);
                }
                return Some(&self.sensor_inputs[at]);
            }
            at += 1;
        }
        proof {
            lemma_sensor_not_on_file(on_file, sensor_type@);
        }
        None
    }

    /// Sets the sensitivity, in thousandths, held to the range 0 to 1000.
    pub fn adjust_sensitivity(&mut self, new_sensitivity: i32)
        ensures
            final(self)@ == (UltraSeekerEngineView {
                config: ThreatDetectionConfigView {
                    sensitivity_level: if new_sensitivity < 0 {
                        0
                    } else if new_sensitivity > 1000 {
                        1000
                    } else {
                        new_sensitivity
                    },
                    ..old(self)@.config
                },
                ..old(self)@
            }),
    {
        proof {
            use_type_invariant(&*self);
        }
        self.config.sensitivity_level = if new_sensitivity < 0 {
            0
        } else if new_sensitivity > 1000 {
            1000
        } else {
            new_sensitivity
        };
    }

    /// The history, oldest assessment first; never more than
    /// [`HISTORY_CAPACITY`] long.
    pub fn get_threat_history(&self) -> (history: &[ThreatAssessment])
        ensures
            history@.len() == self@.threat_history.len(),
            forall|i: int|
                0 <= i < history@.len() ==> (#[trigger] history@[i])@ == self@.threat_history[i],
            history@.len() <= HISTORY_CAPACITY,
    {
        proof {
            use_type_invariant(self);
        }
        self.threat_history.as_slice()
    }

    /// The aggregate risk score of the history, in millionths.
    pub fn calculate_risk_score(&self) -> (score: u128)
        ensures
            score == risk_score(self@.threat_history),
    {
        let count: usize = self.threat_history.len();
        if count == 0 {
            return 0;
        }
        let first: usize = if count > SCORE_WINDOW {
            count - SCORE_WINDOW
        } else {
            0
        };
        let ghost history = self.threat_history.deep_view();
        assert(recent(history) =~= history.subrange(first as int, count as int));
        let mut total: u128 = 0;
        let mut at: usize = first;
        while at < count
            invariant
                first <= at <= count,
                count == self.threat_history.len(),
                count - first <= SCORE_WINDOW,
                history == self.threat_history.deep_view(),
                total == contribution_sum(history.subrange(first as int, at as int)),
                total <= (at - first) * CONTRIBUTION_LIMIT,
            decreases count - at,
        {
            let part: u128 = assessment_contribution(&self.threat_history[at]);
            assert(history.subrange(first as int, at + 1).drop_last() =~= history.subrange(
                first as int,
                at as int,
            ));
            total = total + part;
            at += 1;
        }
        total / ((count - first) as u128)
    }
}

/// The reading that is filed for a sensor at `now`.
pub open spec fn filed_reading(
    sensor_type: Seq<char>,
    data: Seq<u8>,
    now: Timestamp,
) -> SensorInputView {
    SensorInputView { sensor_type, data, timestamp: now, quality: 1000 }
}

/// No contribution reaches this bound, so ten of them fit in 128 bits.
pub const CONTRIBUTION_LIMIT: u128 = 0x1000_0000_0000_0000_0000_0000_0000;

/// What one assessment adds to the risk score, in millionths.
pub fn assessment_contribution(assessment: &ThreatAssessment) -> (part: u128)
    ensures
        part == contribution(assessment@),
        part <= CONTRIBUTION_LIMIT,
{
    let kinds = &assessment.threat_types;
    let mut multipliers: u128 = 0;
    let mut at: usize = 0;
    while at < kinds.len()
        invariant
            at <= kinds.len(),
            multipliers == multiplier_sum(kinds@.take(at as int)),
            multipliers <= 20 * at,
        decreases kinds.len() - at,
    {
        assert(kinds@.take(at + 1).drop_last() =~= kinds@.take(at as int));
        multipliers = multipliers + kinds[at].severity_multiplier() as u128;
        at += 1;
    }
    assert(kinds@.take(at as int) =~= kinds@);
    let rank: u128 = assessment.threat_level.ordinal() as u128;
    let confidence: u128 = assessment.confidence as u128;
    assert(rank * confidence <= 4 * 0xffff_ffff) by (nonlinear_arith)
        requires
            rank <= 4,
            confidence <= 0xffff_ffff,
    ;
    let weighted: u128 = rank * confidence;
    let factor: u128 = 100 + multipliers;
    assert(weighted * factor * 10 <= CONTRIBUTION_LIMIT) by (nonlinear_arith)
        requires
            weighted <= 4 * 0xffff_ffff,
            factor <= 100 + 20 * 0xffff_ffff_ffff_ffff,
    ;
    assert(weighted * factor <= weighted * factor * 10) by (nonlinear_arith);
    weighted * factor * 10
}

} // verus!
