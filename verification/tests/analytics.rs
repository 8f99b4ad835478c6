use gpxalyzer::decorate_speed;
use gpxalyzer::get_elevation;
use gpxalyzer::get_lattitude;
use gpxalyzer::get_longitude;
use gpxalyzer::get_range_lattitude;
use gpxalyzer::get_range_longitude;
use gpxalyzer::get_speed;
use gpxalyzer::get_time;
use gpxalyzer::AnnotationError;
use gpxalyzer::ExtentError;
use gpxalyzer::FieldError;
use gpxalyzer::TrackSegment;
use gpxalyzer::Waypoint;
use gpxalyzer::DEFAULT_WINDOW;

fn wp(latitude: i64, longitude: i64, time: Option<i64>) -> Waypoint {
    Waypoint { latitude, longitude, elevation: None, time, speed: None }
}

fn segment_of(points: Vec<Waypoint>) -> TrackSegment {
    let mut seg = TrackSegment::new();
    for p in points {
        seg.push(p);
    }
    seg
}

#[test]
fn it_works() {
    assert_eq!(2 + 2, 4);
}

#[test]
fn annotate_window_one_uniform_speed() {
    // Twenty points, one second apart, each consecutive pair 10 metres
    // (10_000 mm) apart: every annotated point moves at 10 m/s, and the
    // final point has no speed assigned.
    let mut seg = TrackSegment::new();
    for i in 0..20 {
        seg.push(wp(0, 1000 * i, Some(i)));
    }
    let r = decorate_speed(&mut seg, 1, &|_a: Waypoint, _b: Waypoint| 10_000u64);
    assert_eq!(r, Ok(()));
    let speeds = get_speed(&seg);
    assert_eq!(speeds.len(), 20);
    for i in 0..19 {
        assert_eq!(speeds[i], 10_000);
    }
    assert_eq!(seg.points[19].speed, None);
    assert_eq!(speeds[19], 0);
}

#[test]
fn annotate_wider_window() {
    // Ten points, three seconds apart; a window of four spans twelve
    // seconds.  With 60 metres between windowed pairs, the speed is 5 m/s
    // for the first six points, and the trailing four stay unannotated.
    let mut seg = TrackSegment::new();
    for i in 0..10 {
        seg.push(wp(0, 0, Some(3 * i)));
    }
    let r = decorate_speed(&mut seg, 4, &|_a: Waypoint, _b: Waypoint| 60_000u64);
    assert_eq!(r, Ok(()));
    let speeds = get_speed(&seg);
    for i in 0..6 {
        assert_eq!(speeds[i], 5_000);
    }
    for i in 6..10 {
        assert_eq!(seg.points[i].speed, None);
        assert_eq!(speeds[i], 0);
    }
}

#[test]
fn annotate_default_window() {
    // Twenty points, one second apart; the default window of fifteen spans
    // fifteen seconds, so with 15 metres between windowed pairs the speed
    // is 1 m/s for the first five points and the trailing fifteen stay
    // unannotated.
    let mut seg = TrackSegment::new();
    for i in 0..20 {
        seg.push(wp(0, 0, Some(i)));
    }
    let r = decorate_speed(&mut seg, DEFAULT_WINDOW, &|_a: Waypoint, _b: Waypoint| 15_000u64);
    assert_eq!(r, Ok(()));
    for i in 0..5 {
        assert_eq!(seg.points[i].speed, Some(1_000));
    }
    for i in 5..20 {
        assert_eq!(seg.points[i].speed, None);
    }
}

#[test]
fn annotate_uses_distance_argument() {
    // The annotator really feeds each pair of endpoints to the distance
    // function: with a distance derived from the longitude gap, unequal
    // gaps give unequal speeds.
    let mut seg = segment_of(vec![
        wp(0, 0, Some(0)),
        wp(0, 1000, Some(1)),
        wp(0, 3000, Some(2)),
    ]);
    let dist = |a: Waypoint, b: Waypoint| (b.longitude - a.longitude).unsigned_abs();
    let r = decorate_speed(&mut seg, 1, &dist);
    assert_eq!(r, Ok(()));
    assert_eq!(seg.points[0].speed, Some(1000));
    assert_eq!(seg.points[1].speed, Some(2000));
    assert_eq!(seg.points[2].speed, None);
}

#[test]
fn annotate_empty_segment() {
    let mut seg = TrackSegment::new();
    let r = decorate_speed(&mut seg, 1, &|_a: Waypoint, _b: Waypoint| 0u64);
    assert_eq!(r, Err(AnnotationError::EmptySegment));
}

#[test]
fn annotate_invalid_window_zero() {
    let mut seg = segment_of(vec![wp(0, 0, Some(0)), wp(0, 0, Some(1)), wp(0, 0, Some(2))]);
    let r = decorate_speed(&mut seg, 0, &|_a: Waypoint, _b: Waypoint| 0u64);
    assert_eq!(r, Err(AnnotationError::InvalidWindow));
}

#[test]
fn annotate_invalid_window_too_large() {
    let mut seg = segment_of(vec![wp(0, 0, Some(0)), wp(0, 0, Some(1)), wp(0, 0, Some(2))]);
    let r = decorate_speed(&mut seg, 3, &|_a: Waypoint, _b: Waypoint| 0u64);
    assert_eq!(r, Err(AnnotationError::InvalidWindow));
    let r = decorate_speed(&mut seg, 5, &|_a: Waypoint, _b: Waypoint| 0u64);
    assert_eq!(r, Err(AnnotationError::InvalidWindow));
}

#[test]
fn annotate_missing_timestamp() {
    let mut seg = segment_of(vec![wp(0, 0, Some(0)), wp(0, 0, None), wp(0, 0, Some(2))]);
    let r = decorate_speed(&mut seg, 1, &|_a: Waypoint, _b: Waypoint| 100u64);
    assert_eq!(r, Err(AnnotationError::MissingTimestamp));
}

#[test]
fn annotate_zero_duration() {
    let mut seg = segment_of(vec![wp(0, 0, Some(5)), wp(0, 0, Some(5)), wp(0, 0, Some(6))]);
    let r = decorate_speed(&mut seg, 1, &|_a: Waypoint, _b: Waypoint| 100u64);
    assert_eq!(r, Err(AnnotationError::ZeroDuration));
}

#[test]
fn annotate_backwards_time() {
    // Timestamps out of chronological order admit no meaningful speed and
    // are reported like a degenerate duration.
    let mut seg = segment_of(vec![wp(0, 0, Some(5)), wp(0, 0, Some(3)), wp(0, 0, Some(1))]);
    let r = decorate_speed(&mut seg, 1, &|_a: Waypoint, _b: Waypoint| 100u64);
    assert_eq!(r, Err(AnnotationError::ZeroDuration));
}

#[test]
fn annotate_reports_first_fault() {
    // The pair at index 1 has a zero duration and the pair at index 2 lacks
    // a timestamp; the scan runs in point order, so the zero duration wins.
    let mut seg = segment_of(vec![
        wp(0, 0, Some(0)),
        wp(0, 0, Some(1)),
        wp(0, 0, Some(1)),
        wp(0, 0, None),
    ]);
    let r = decorate_speed(&mut seg, 1, &|_a: Waypoint, _b: Waypoint| 100u64);
    assert_eq!(r, Err(AnnotationError::ZeroDuration));
}

#[test]
fn annotate_error_leaves_segment_unchanged() {
    let original = vec![
        wp(10, 20, Some(0)),
        wp(30, 40, Some(1)),
        wp(50, 60, Some(1)),
        wp(70, 80, Some(3)),
    ];
    let mut seg = segment_of(original.clone());
    let r = decorate_speed(&mut seg, 1, &|_a: Waypoint, _b: Waypoint| 100u64);
    assert_eq!(r, Err(AnnotationError::ZeroDuration));
    assert_eq!(seg.points, original);
}

#[test]
fn speed_defaults_to_zero() {
    // A never-annotated segment reads out as all-zero speeds.
    let seg = segment_of(vec![wp(1, 2, None), wp(3, 4, Some(7)), wp(5, 6, None), wp(7, 8, None), wp(9, 10, None)]);
    assert_eq!(get_speed(&seg), vec![0, 0, 0, 0, 0]);
}

#[test]
fn latitude_range_values() {
    let seg = segment_of(vec![
        wp(47_600_000, 8_000_000, None),
        wp(47_500_000, 8_100_000, None),
        wp(47_650_000, 7_900_000, None),
    ]);
    assert_eq!(get_range_lattitude(&seg), Ok((47_500_000, 47_650_000)));
    assert_eq!(get_range_longitude(&seg), Ok((7_900_000, 8_100_000)));
}

#[test]
fn range_single_point() {
    let seg = segment_of(vec![wp(-33_850_000, 151_200_000, None)]);
    assert_eq!(get_range_lattitude(&seg), Ok((-33_850_000, -33_850_000)));
    assert_eq!(get_range_longitude(&seg), Ok((151_200_000, 151_200_000)));
}

#[test]
fn range_of_empty_segment() {
    let seg = TrackSegment::new();
    assert_eq!(get_range_lattitude(&seg), Err(ExtentError::EmptySegment));
    assert_eq!(get_range_longitude(&seg), Err(ExtentError::EmptySegment));
}

#[test]
fn extract_coordinates() {
    let seg = segment_of(vec![wp(1, -4, None), wp(2, -5, None), wp(3, -6, None)]);
    assert_eq!(get_lattitude(&seg), vec![1, 2, 3]);
    assert_eq!(get_longitude(&seg), vec![-4, -5, -6]);
}

#[test]
fn extract_time_values() {
    let seg = segment_of(vec![wp(0, 0, Some(100)), wp(0, 0, Some(160)), wp(0, 0, Some(230))]);
    assert_eq!(get_time(&seg), Ok(vec![100, 160, 230]));
}

#[test]
fn extract_time_missing() {
    let seg = segment_of(vec![wp(0, 0, Some(100)), wp(0, 0, Some(160)), wp(0, 0, None), wp(0, 0, None)]);
    assert_eq!(get_time(&seg), Err(FieldError::MissingField(2)));
}

#[test]
fn extract_elevation_values() {
    let mut seg = segment_of(vec![wp(0, 0, None), wp(0, 0, None)]);
    seg.points[0].elevation = Some(420_000);
    seg.points[1].elevation = Some(421_500);
    assert_eq!(get_elevation(&seg), Ok(vec![420_000, 421_500]));
}

#[test]
fn extract_elevation_missing() {
    let mut seg = segment_of(vec![wp(0, 0, None), wp(0, 0, None)]);
    seg.points[1].elevation = Some(421_500);
    assert_eq!(get_elevation(&seg), Err(FieldError::MissingField(0)));
}
