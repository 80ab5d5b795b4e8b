use vstd::prelude::*;
use crate::geometry::{AcquiredCorners, Quad};

verus! {

/// One detected marker candidate: the symbol identifier the dictionary
/// lookup assigned to it, and its four corner points in the order the
/// detector produced them.
#[derive(Clone, Copy, PartialEq, Eq, Structural, Debug)]
pub struct MarkerCandidate {
    /// Dictionary symbol id of the decoded marker.
    pub id: i32,
    /// The candidate's corners, in detector winding order.
    pub corners: Quad,
}

/// Everything one detector invocation produced: the decoded candidates,
/// and the quadrilateral regions the detector considered and rejected.
/// The rejected regions are diagnostic only and are never consumed by
/// the acquisition logic.
#[derive(Clone, PartialEq, Eq, Debug)]
pub struct DetectionResult {
    pub candidates: Vec<MarkerCandidate>,
    pub rejected: Vec<Quad>,
}

impl DetectionResult {
    /// How many candidates this invocation decoded.
    pub open spec fn candidate_count(self) -> nat {
        self.candidates@.len()
    }
}

/// The acceptance criterion of the acquisition loop: an iteration is
/// accepted exactly when the detector decoded a single candidate.
/// Zero candidates and several simultaneous candidates both cause a
/// retry; the policy deliberately never picks among several.
pub open spec fn accepts(candidate_count: nat) -> bool {
    candidate_count == 1
}

/// Says that `r` is the extraction of candidate `c`: the output corners
/// are exactly the candidate's corners, order included.
pub open spec fn extracted_from(r: AcquiredCorners, c: MarkerCandidate) -> bool {
    r.corners == c.corners
}

/// Copies the accepted candidate's four corners, in detector order,
/// into the fixed output structure. No geometric correction is applied:
/// the caller receives the raw image-plane coordinates.
pub fn extract(candidate: &MarkerCandidate) -> (r: AcquiredCorners)
    ensures
        extracted_from(r, *candidate),
        r.corners.points() == candidate.corners.points(),
{
    AcquiredCorners { corners: candidate.corners }
}

/// Extraction is a function of the candidate alone: any two outputs
/// extracted from the same candidate are identical. In particular,
/// calling `extract` twice on one candidate yields equal values.
pub proof fn lemma_extract_unique(c: MarkerCandidate, r1: AcquiredCorners, r2: AcquiredCorners)
    requires
        extracted_from(r1, c),
        extracted_from(r2, c),
    ensures
        r1 == r2,
{
}

} // verus!
