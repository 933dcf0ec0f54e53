//! Data types for BMD transmission planning.

use vstd::prelude::*;

verus! {

/// Temporal flow experience.
#[derive(Debug, Clone, Copy, PartialEq, Eq, Structural)]
pub enum TemporalFlow {
    /// Ordinary forward flow.
    Forward,
    /// Subjectively accelerated flow.
    Accelerated,
    /// Subjectively decelerated flow.
    Decelerated,
    /// Suspended flow.
    Suspended,
    /// Recursive flow.
    Recursive,
}

/// Communication goal types.
#[derive(Debug, Clone)]
pub enum CommunicationGoal {
    /// Transmit a named cognitive pattern.
    PatternTransmission(String),
    /// Bring about a named emotional state change.
    EmotionalStateChange(String),
    /// Shift a named cognitive framework.
    CognitiveFrameworkShift(String),
    /// Install a named memory.
    MemoryInstallation(String),
    /// Influence a named behaviour.
    BehavioralInfluence(String),
    /// Expand consciousness along a named axis.
    ConsciousnessExpansion(String),
}

/// Transmission timing parameters, in Unix seconds and second counts.
#[derive(Debug, Clone)]
pub struct TransmissionTiming {
    /// Best moment to transmit.
    pub optimal_transmission_time: u64,
    /// Length of the preparation phase.
    pub preparation_phase_duration: u64,
    /// Length of the transmission phase.
    pub transmission_phase_duration: u64,
    /// Length of the integration phase.
    pub integration_phase_duration: u64,
    /// Intervals at which to repeat the transmission.
    pub repetition_intervals: Vec<u64>,
}

} // verus!
