//! Fiducial-marker acquisition core.
//!
//! The library owns the decision logic of a marker-acquisition session:
//! a camera driver captures frames, a preprocessing chain enhances them,
//! a square-fiducial detector reports candidate markers, and the session
//! loops until exactly one candidate is visible, yielding its four corner
//! points. Frame capture, image preprocessing and the detection algorithm
//! itself are outside collaborators; this crate verifies the retry and
//! termination policy, the acceptance criterion, the parameter handling
//! and the corner extraction that sit between them.

pub mod detection;
pub mod geometry;
pub mod params;
pub mod session;
