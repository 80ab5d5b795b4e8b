use marker_acquisition::detection::{extract, DetectionResult, MarkerCandidate};
use marker_acquisition::geometry::{AcquiredCorners, Point, Quad};
use marker_acquisition::params::{CaptureConfig, DetectionParameters};
use marker_acquisition::session::{Action, AcquisitionError, Event, Session, Step};

fn quad(seed: u32) -> Quad {
    Quad::new(
        Point::new(seed, seed + 1),
        Point::new(seed + 2, seed + 3),
        Point::new(seed + 4, seed + 5),
        Point::new(seed + 6, seed + 7),
    )
}

fn candidate(id: i32, seed: u32) -> MarkerCandidate {
    MarkerCandidate { id, corners: quad(seed) }
}

fn result_with_counts(n: usize, seed: u32) -> DetectionResult {
    let mut candidates = Vec::new();
    for k in 0..n {
        candidates.push(candidate(k as i32, seed + 100 * k as u32));
    }
    DetectionResult { candidates, rejected: Vec::new() }
}

fn params_10_31_3() -> DetectionParameters {
    DetectionParameters::new(10, 31, 3)
}

#[test]
fn initial_corners_are_zero() {
    let r = AcquiredCorners::initial();
    let z = Point::zero();
    assert_eq!(r.corners, Quad::new(z, z, z, z));
    assert_eq!(z.x_bits, 0);
    assert_eq!(z.y_bits, 0);
}

#[test]
fn quad_keeps_corner_order() {
    let q = quad(10);
    assert_eq!(q.c0, Point::new(10, 11));
    assert_eq!(q.c1, Point::new(12, 13));
    assert_eq!(q.c2, Point::new(14, 15));
    assert_eq!(q.c3, Point::new(16, 17));
}

#[test]
fn detection_parameters_hold_given_bounds() {
    let p = params_10_31_3();
    assert_eq!(p.win_size_min, 10);
    assert_eq!(p.win_size_max, 31);
    assert_eq!(p.win_size_step, 3);
}

#[test]
fn capture_config_holds_given_mode() {
    let c = CaptureConfig::new(1920, 1080, 30);
    assert_eq!(c.width, 1920);
    assert_eq!(c.height, 1080);
    assert_eq!(c.fps, 30);
}

#[test]
fn extract_copies_points_in_order() {
    let c = candidate(42, 1000);
    let r = extract(&c);
    assert_eq!(r.corners, c.corners);
    assert_eq!(r.corners.c0, Point::new(1000, 1001));
    assert_eq!(r.corners.c3, Point::new(1006, 1007));
}

#[test]
fn extract_twice_is_identical() {
    let c = candidate(9, 77);
    let first = extract(&c);
    let second = extract(&c);
    assert_eq!(first, second);
}

#[test]
fn new_session_requests_a_capture() {
    let s = Session::new(params_10_31_3());
    assert_eq!(s.pending_action(), Action::CaptureFrame);
}

#[test]
fn captured_frame_goes_to_preprocessing() {
    let mut s = Session::new(params_10_31_3());
    let r = s.step(Event::FrameCaptured);
    assert_eq!(r, Step::Continue(Action::PreprocessFrame));
    assert_eq!(s.pending_action(), Action::PreprocessFrame);
}

#[test]
fn preprocessed_frame_goes_to_detector_with_session_params() {
    let p = params_10_31_3();
    let mut s = Session::new(p);
    s.step(Event::FrameCaptured);
    let r = s.step(Event::FramePreprocessed);
    assert_eq!(r, Step::Continue(Action::DetectMarkers(p)));
    assert_eq!(s.pending_action(), Action::DetectMarkers(p));
}

#[test]
fn zero_candidates_cause_retry() {
    let mut s = Session::new(params_10_31_3());
    s.step(Event::FrameCaptured);
    s.step(Event::FramePreprocessed);
    let r = s.step(Event::MarkersDetected(result_with_counts(0, 0)));
    assert_eq!(r, Step::Continue(Action::CaptureFrame));
    assert_eq!(s.pending_action(), Action::CaptureFrame);
}

#[test]
fn two_candidates_cause_retry() {
    let mut s = Session::new(params_10_31_3());
    s.step(Event::FrameCaptured);
    s.step(Event::FramePreprocessed);
    let r = s.step(Event::MarkersDetected(result_with_counts(2, 0)));
    assert_eq!(r, Step::Continue(Action::CaptureFrame));
}

#[test]
fn single_candidate_is_accepted_with_its_points() {
    let mut s = Session::new(params_10_31_3());
    s.step(Event::FrameCaptured);
    s.step(Event::FramePreprocessed);
    let c = candidate(5, 500);
    let r = s.step(Event::MarkersDetected(DetectionResult {
        candidates: vec![c],
        rejected: Vec::new(),
    }));
    assert_eq!(r, Step::Accepted(AcquiredCorners { corners: c.corners }));
}

#[test]
fn stream_end_fails_the_session() {
    let mut s = Session::new(params_10_31_3());
    let r = s.step(Event::StreamEnded);
    assert_eq!(r, Step::Failed(AcquisitionError::StreamEnded));
}

#[test]
fn stream_end_mid_loop_fails_the_session() {
    let mut s = Session::new(params_10_31_3());
    s.step(Event::FrameCaptured);
    s.step(Event::FramePreprocessed);
    s.step(Event::MarkersDetected(result_with_counts(3, 0)));
    let r = s.step(Event::StreamEnded);
    assert_eq!(r, Step::Failed(AcquisitionError::StreamEnded));
}

#[test]
fn error_variants_are_distinct() {
    assert_ne!(AcquisitionError::DeviceUnavailable, AcquisitionError::UnsupportedMode);
    assert_ne!(AcquisitionError::DeviceUnavailable, AcquisitionError::StreamEnded);
    assert_ne!(AcquisitionError::UnsupportedMode, AcquisitionError::StreamEnded);
}

#[test]
fn scripted_counts_0_2_0_1_accepts_the_fourth() {
    let mut s = Session::new(params_10_31_3());
    let script = vec![
        result_with_counts(0, 0),
        result_with_counts(2, 10),
        result_with_counts(0, 20),
        result_with_counts(1, 4000),
    ];
    let (corners, detects) = s.acquire_scripted(&script);
    assert_eq!(detects, 4);
    assert_eq!(
        corners,
        Some(AcquiredCorners { corners: quad(4000) })
    );
}

#[test]
fn scripted_never_single_ends_with_stream() {
    let mut s = Session::new(params_10_31_3());
    let script = vec![
        result_with_counts(0, 0),
        result_with_counts(2, 10),
        result_with_counts(5, 20),
    ];
    let (corners, detects) = s.acquire_scripted(&script);
    assert_eq!(corners, None);
    assert_eq!(detects, 3);
}

#[test]
fn configured_device_failing_first_capture_runs_no_detection() {
    let config = CaptureConfig::new(1920, 1080, 30);
    assert_eq!(config, CaptureConfig::new(1920, 1080, 30));
    let mut s = Session::new(params_10_31_3());
    let script: Vec<DetectionResult> = Vec::new();
    let (corners, detects) = s.acquire_scripted(&script);
    assert_eq!(corners, None);
    assert_eq!(detects, 0);
}

#[test]
fn params_pass_through_unmodified_across_retries() {
    let p = params_10_31_3();
    let mut s = Session::new(p);
    for round in 0..3 {
        assert_eq!(s.pending_action(), Action::CaptureFrame);
        s.step(Event::FrameCaptured);
        let to_detector = s.step(Event::FramePreprocessed);
        assert_eq!(to_detector, Step::Continue(Action::DetectMarkers(p)));
        let r = s.step(Event::MarkersDetected(result_with_counts(round % 2 * 2, 0)));
        assert_eq!(r, Step::Continue(Action::CaptureFrame));
    }
    s.step(Event::FrameCaptured);
    let to_detector = s.step(Event::FramePreprocessed);
    assert_eq!(to_detector, Step::Continue(Action::DetectMarkers(p)));
}

#[test]
fn accepted_candidate_keeps_rejected_regions_out_of_result() {
    let c = candidate(1, 300);
    let res = DetectionResult {
        candidates: vec![c],
        rejected: vec![quad(900), quad(910)],
    };
    let mut s = Session::new(params_10_31_3());
    s.step(Event::FrameCaptured);
    s.step(Event::FramePreprocessed);
    let r = s.step(Event::MarkersDetected(res));
    assert_eq!(r, Step::Accepted(AcquiredCorners { corners: quad(300) }));
}
