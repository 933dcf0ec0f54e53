//! Error taxonomy for S-entropy operations.
//!
//! Every operation that can fail surfaces one of these closed kinds, never a
//! raw unclassified error.  Kinds that wrap a foreign failure (I/O,
//! serialization, internal) carry the foreign error's description as text.

use vstd::prelude::*;
use vstd::string::StringExecFns;
use crate::{marker_text, memorial_significance_marker};

verus! {

/// Result alias for S-entropy operations.
pub type SEntropyResult<T> = Result<T, SEntropyError>;

/// Closed set of failure kinds for S-entropy operations.
#[derive(Debug, Clone)]
pub enum SEntropyError {
    /// S-entropy calculation and measurement errors.
    SEntropyCalculation {
        /// What failed.
        message: String,
    },
    /// Tri-dimensional alignment errors.
    TriDimensionalAlignment {
        /// Dimension in which alignment failed.
        dimension: String,
        /// Why alignment failed.
        reason: String,
    },
    /// Navigation and manifold errors.
    Navigation {
        /// Operation that failed.
        operation: String,
        /// Failure details.
        details: String,
    },
    /// Consciousness integration errors.
    ConsciousnessIntegration {
        /// Mode in force.
        mode: String,
        /// Boundary that was violated.
        violation: String,
    },
    /// BMD operation errors.
    BMDOperation {
        /// Operation mode that failed.
        operation_mode: String,
        /// Why it failed.
        reason: String,
    },
    /// Cross-domain transfer errors.
    CrossDomainTransfer {
        /// Source domain.
        source: String,
        /// Target domain.
        target: String,
        /// Efficiency issue encountered.
        efficiency_issue: String,
    },
    /// Strategic impossibility errors.
    StrategicImpossibility {
        /// Kind of impossibility.
        impossibility_type: String,
        /// Global viability issue.
        global_viability_issue: String,
    },
    /// Temporal precision errors; both precisions are in nanos.
    TemporalPrecision {
        /// Target precision.
        target_precision: i64,
        /// Achieved precision.
        achieved_precision: i64,
    },
    /// Memory optimization errors.
    MemoryOptimization {
        /// Kind of optimization.
        optimization_type: String,
        /// Memory issue encountered.
        memory_issue: String,
    },
    /// Universal transformation errors.
    UniversalTransformation {
        /// Kind of problem being transformed.
        problem_type: String,
        /// Transformation failure.
        stsl_error: String,
    },
    /// Identity-marker validation errors.
    MemorialSignificance {
        /// Marker that was expected.
        expected: String,
        /// Marker that was found.
        actual: String,
    },
    /// Framework boundary violations.
    BoundaryViolation {
        /// Kind of boundary.
        boundary_type: String,
        /// Violation details.
        violation_details: String,
    },
    /// Observer-process integration errors; the separation is in nanos.
    ObserverProcessIntegration {
        /// Separation distance that exceeded the threshold.
        separation_distance: i64,
    },
    /// Predetermined manifold access errors.
    PredeterminedManifoldAccess {
        /// Kind of manifold.
        manifold_type: String,
        /// Access issue encountered.
        access_issue: String,
    },
    /// Disposable generation errors.
    DisposableGeneration {
        /// Kind of generation.
        generation_type: String,
        /// Disposal issue encountered.
        disposal_issue: String,
    },
    /// Oscillation endpoint errors.
    OscillationEndpoint {
        /// Kind of endpoint.
        endpoint_type: String,
        /// Accessibility issue encountered.
        accessibility_issue: String,
    },
    /// Entropy solver service errors.
    EntropySolverService {
        /// Service operation that failed.
        service_operation: String,
        /// Solver issue encountered.
        solver_issue: String,
    },
    /// Zero computation errors.
    ZeroComputation {
        /// Computation that was expected to be navigation.
        computation_type: String,
    },
    /// Configuration and environment errors.
    Configuration {
        /// Configuration key at fault.
        config_key: String,
        /// What is wrong with it.
        config_issue: String,
    },
    /// I/O errors passed through from a storage collaborator, as text.
    Io {
        /// Description of the foreign I/O error.
        operation: String,
    },
    /// Serialization errors passed through from a collaborator, as text.
    Serialization {
        /// Description of the foreign serialization error.
        format: String,
    },
    /// Generic internal errors.
    Internal {
        /// Failure details.
        details: String,
    },
}

impl SEntropyError {
    /// Create an S-entropy calculation error.
    pub fn s_entropy_calculation(message: String) -> (e: Self)
        ensures
            e matches SEntropyError::SEntropyCalculation { message: m } && m == message,
    {
        SEntropyError::SEntropyCalculation { message }
    }

    /// Create a tri-dimensional alignment error.
    pub fn tri_dimensional_alignment(dimension: String, reason: String) -> (e: Self)
        ensures
            e matches SEntropyError::TriDimensionalAlignment { dimension: d, reason: r } && d
                == dimension && r == reason,
    {
        SEntropyError::TriDimensionalAlignment { dimension, reason }
    }

    /// Create an identity-marker validation error.
    pub fn memorial_significance(expected: String, actual: String) -> (e: Self)
        ensures
            e matches SEntropyError::MemorialSignificance { expected: x, actual: a } && x
                == expected && a == actual,
    {
        SEntropyError::MemorialSignificance { expected, actual }
    }

    /// Create a framework boundary violation error.
    pub fn boundary_violation(boundary_type: String, violation_details: String) -> (e: Self)
        ensures
            e matches SEntropyError::BoundaryViolation {
                boundary_type: b,
                violation_details: v,
            } && b == boundary_type && v == violation_details,
    {
        SEntropyError::BoundaryViolation { boundary_type, violation_details }
    }

    /// Create an observer-process integration error.
    pub fn observer_process_integration(separation_distance: i64) -> (e: Self)
        ensures
            e matches SEntropyError::ObserverProcessIntegration { separation_distance: s } && s
                == separation_distance,
    {
        SEntropyError::ObserverProcessIntegration { separation_distance }
    }

    /// Create a zero computation error.
    pub fn zero_computation(computation_type: String) -> (e: Self)
        ensures
            e matches SEntropyError::ZeroComputation { computation_type: c } && c
                == computation_type,
    {
        SEntropyError::ZeroComputation { computation_type }
    }

    /// Whether this error is an identity-marker validation failure.
    pub fn is_memorial_significance_error(&self) -> (b: bool)
        ensures
            b == (self matches SEntropyError::MemorialSignificance { .. }),
    {
        matches!(self, SEntropyError::MemorialSignificance { .. })
    }

    /// Whether this error relates to consciousness boundaries.
    pub fn is_consciousness_boundary_error(&self) -> (b: bool)
        ensures
            b == (self matches SEntropyError::ConsciousnessIntegration { .. } || self
                matches SEntropyError::BoundaryViolation { .. }),
    {
        matches!(
            self,
            SEntropyError::ConsciousnessIntegration { .. } | SEntropyError::BoundaryViolation { .. }
        )
    }

    /// Whether this error relates to S-entropy calculation.
    pub fn is_s_entropy_calculation_error(&self) -> (b: bool)
        ensures
            b == (self matches SEntropyError::SEntropyCalculation { .. } || self
                matches SEntropyError::TriDimensionalAlignment { .. }),
    {
        matches!(
            self,
            SEntropyError::SEntropyCalculation { .. }
                | SEntropyError::TriDimensionalAlignment { .. }
        )
    }

    /// The severity of this error kind.
    pub open spec fn spec_severity(self) -> ErrorSeverity {
        match self {
            SEntropyError::MemorialSignificance { .. } => ErrorSeverity::Critical,
            SEntropyError::BoundaryViolation { .. } => ErrorSeverity::Critical,
            SEntropyError::ConsciousnessIntegration { .. } => ErrorSeverity::High,
            SEntropyError::SEntropyCalculation { .. } => ErrorSeverity::High,
            SEntropyError::TriDimensionalAlignment { .. } => ErrorSeverity::High,
            SEntropyError::ZeroComputation { .. } => ErrorSeverity::Medium,
            SEntropyError::Navigation { .. } => ErrorSeverity::Medium,
            SEntropyError::TemporalPrecision { .. } => ErrorSeverity::Medium,
            _ => ErrorSeverity::Low,
        }
    }

    /// Get this error's severity level.
    pub fn severity(&self) -> (s: ErrorSeverity)
        ensures
            s == self.spec_severity(),
    {
        match self {
            SEntropyError::MemorialSignificance { .. } => ErrorSeverity::Critical,
            SEntropyError::BoundaryViolation { .. } => ErrorSeverity::Critical,
            SEntropyError::ConsciousnessIntegration { .. } => ErrorSeverity::High,
            SEntropyError::SEntropyCalculation { .. } => ErrorSeverity::High,
            SEntropyError::TriDimensionalAlignment { .. } => ErrorSeverity::High,
            SEntropyError::ZeroComputation { .. } => ErrorSeverity::Medium,
            SEntropyError::Navigation { .. } => ErrorSeverity::Medium,
            SEntropyError::TemporalPrecision { .. } => ErrorSeverity::Medium,
            _ => ErrorSeverity::Low,
        }
    }
}

/// Error severity levels.
#[derive(Debug, Clone, Copy, PartialEq, Eq, Structural)]
pub enum ErrorSeverity {
    /// Operation can continue with degraded functionality.
    Low,
    /// Operation should be retried or an alternative approach used.
    Medium,
    /// Operation must be stopped and corrected.
    High,
    /// Framework integrity is compromised.
    Critical,
}

impl ErrorSeverity {
    /// Whether this severity level requires immediate attention.
    pub fn requires_immediate_attention(&self) -> (b: bool)
        ensures
            b == (self is High || self is Critical),
    {
        matches!(self, ErrorSeverity::High | ErrorSeverity::Critical)
    }

    /// Whether this severity level allows the operation to continue.
    pub fn allows_continuation(&self) -> (b: bool)
        ensures
            b == (self is Low || self is Medium),
    {
        matches!(self, ErrorSeverity::Low | ErrorSeverity::Medium)
    }
}

/// Check an identity marker against the expected constant: `Ok` exactly when
/// it matches, and otherwise the marker-validation error naming both.
pub fn validate_memorial_significance(actual: &str) -> (r: SEntropyResult<()>)
    ensures
        r is Ok <==> actual@ == marker_text(),
        r matches Err(e) ==> e matches SEntropyError::MemorialSignificance {
            expected: x,
            actual: a,
        } && x@ == marker_text() && a@ == actual@,
{
    let expected: String = memorial_significance_marker().to_owned();
    let got: String = actual.to_owned();
    if got == expected {
        Ok(())
    } else {
        Err(SEntropyError::memorial_significance(expected, got))
    }
}

/// Check that an operation is in the allowed list: `Ok` exactly when some
/// entry equals it, and otherwise a boundary-violation error naming it.
pub fn check_framework_boundary(operation: &str, allowed_operations: &[&str]) -> (r: SEntropyResult<
    (),
>)
    ensures
        r is Ok <==> exists|i: int|
            0 <= i < allowed_operations@.len() && allowed_operations@[i]@ == operation@,
        r matches Err(e) ==> e matches SEntropyError::BoundaryViolation { .. },
{
    let op: String = operation.to_owned();
    let n: usize = allowed_operations.len();
    let mut i: usize = 0;
    while i < n
        invariant
            i <= n,
            n == allowed_operations@.len(),
            op@ == operation@,
            forall|j: int| 0 <= j < i ==> allowed_operations@[j]@ != operation@,
        decreases n - i,
    {
        let candidate: String = allowed_operations[i].to_owned();
        if candidate == op {
            return Ok(());
        }
        i = i + 1;
    }
    let mut details: String = "Operation '".to_owned();
    details.append(operation);
    details.append("' not in allowed list");
    Err(SEntropyError::boundary_violation("operation_boundary".to_owned(), details))
}

} // verus!
