use vstd::prelude::*;

use crate::errors::AnnotationError;
use crate::track::TrackSegment;
use crate::track::Waypoint;
use vstd::pervasive::VecAdditionalExecFns;

verus! {

/// A default annotation window, averaging each speed over fifteen samples
/// (usually around fifteen seconds of track).  A wide window rejects GPS
/// jitter at the cost of a coarser, delayed signal and a wider unannotated
/// trailing region; a window of one gives noisy instantaneous speeds.  The
/// window is always an explicit argument of `decorate_speed`, so this is
/// nothing more than a documented starting choice.
pub const DEFAULT_WINDOW: usize = 15;

/// Both endpoints of the pair starting at `i` carry a timestamp.
pub open spec fn pair_timed(s: Seq<Waypoint>, window: int, i: int) -> bool {
    s[i].time is Some && s[i + window].time is Some
}

/// Elapsed seconds from point `i` to point `i + window`; meaningful when the
/// pair is timed.
pub open spec fn pair_duration(s: Seq<Waypoint>, window: int, i: int) -> int {
    s[i + window].time->Some_0 - s[i].time->Some_0
}

/// The pair starting at `i` admits a speed: both timestamps present and time
/// strictly advancing across the pair.
pub open spec fn pair_ok(s: Seq<Waypoint>, window: int, i: int) -> bool {
    pair_timed(s, window, i) && pair_duration(s, window, i) > 0
}

/// The error the pair starting at `i` is reported with, when it has one.
/// A missing timestamp is reported before a degenerate duration, since the
/// duration is not even defined without both timestamps.
pub open spec fn pair_fault(s: Seq<Waypoint>, window: int, i: int) -> Option<AnnotationError> {
    if !pair_timed(s, window, i) {
        Some(AnnotationError::MissingTimestamp)
    } else if pair_duration(s, window, i) <= 0 {
        Some(AnnotationError::ZeroDuration)
    } else {
        None
    }
}

/// The first fault among the pairs starting at `i, i + 1, ...`, scanning in
/// point order.
pub open spec fn scan_fault(s: Seq<Waypoint>, window: int, i: int) -> Option<AnnotationError>
    decreases s.len() - window - i,
{
    if i < 0 || i >= s.len() - window {
        None
    } else if pair_fault(s, window, i) is Some {
        pair_fault(s, window, i)
    } else {
        scan_fault(s, window, i + 1)
    }
}

/// What speed annotation reports for a segment and a window: the structural
/// checks first, then the first faulty pair in point order, and nothing when
/// annotation succeeds.
pub open spec fn annotate_fault(s: Seq<Waypoint>, window: int) -> Option<AnnotationError> {
    if s.len() == 0 {
        Some(AnnotationError::EmptySegment)
    } else if window < 1 || window >= s.len() {
        Some(AnnotationError::InvalidWindow)
    } else {
        scan_fault(s, window, 0)
    }
}

/// The annotated speed, in millimetres per second rounded toward zero, for a
/// pair `d` millimetres apart in space and `dur` seconds apart in time.
pub open spec fn speed_value(d: u64, dur: int) -> u64
    recommends
        dur > 0,
{
    (d as int / dur) as u64
}

/// `w` with its speed set to `sp` and every other field unchanged.
pub open spec fn with_speed(w: Waypoint, sp: u64) -> Waypoint {
    Waypoint { speed: Some(sp), ..w }
}

/// `annotated` is what the point `s[i]` becomes under annotation with
/// `dist`: its speed is `d / dur` for some distance `d` that `dist` can
/// return on the pair starting at `i`, and its other fields are unchanged.
pub open spec fn annotated_from<F: Fn(Waypoint, Waypoint) -> u64>(
    dist: F,
    s: Seq<Waypoint>,
    window: int,
    i: int,
    annotated: Waypoint,
) -> bool {
    exists|d: u64|
        #[trigger] call_ensures(dist, (s[i], s[i + window]), d) && annotated == with_speed(
            s[i],
            speed_value(d, pair_duration(s, window, i)),
        )
}

/// On a segment whose pairs are uniformly spaced — the distance function can
/// only return `d` millimetres for any pair, and every pair a window apart
/// spans the same `t` seconds — successful annotation gives every annotated
/// point the same speed `d / t`, while the trailing `window` points keep
/// whatever speed they had (none, when the segment was fresh).
pub proof fn lemma_uniform_annotation<F: Fn(Waypoint, Waypoint) -> u64>(
    dist: F,
    before: Seq<Waypoint>,
    after: Seq<Waypoint>,
    window: int,
    d: u64,
    t: int,
)
    requires
        0 < window < before.len(),
        after.len() == before.len(),
        t > 0,
        forall|p: Waypoint, q: Waypoint, r: u64| #[trigger] call_ensures(dist, (p, q), r) ==> r == d,
        forall|i: int| 0 <= i < before.len() - window ==> pair_duration(before, window, i) == t,
        forall|i: int|
            0 <= i < before.len() - window ==> annotated_from(
                dist,
                before,
                window,
                i,
                #[trigger] after[i],
            ),
        forall|i: int| before.len() - window <= i < before.len() ==> #[trigger] after[i] == before[i],
    ensures
        forall|i: int|
            0 <= i < before.len() - window ==> (#[trigger] after[i]).speed == Some(
                (d as int / t) as u64,
            ),
        forall|i: int|
            before.len() - window <= i < before.len() ==> (#[trigger] after[i]).speed
                == before[i].speed,
{
    assert forall|i: int| 0 <= i < before.len() - window implies (#[trigger] after[i]).speed
        == Some((d as int / t) as u64) by {
        let dd = choose|dd: u64|
            call_ensures(dist, (before[i], before[i + window]), dd) && after[i] == with_speed(
                before[i],
                speed_value(dd, pair_duration(before, window, i)),
            );
        assert(dd == d);
    }
}

/// Assigns a windowed speed to every point of the segment that has a full
/// window of look-ahead data.
///
/// For each index `i` below `n - window`, the speed of point `i` becomes the
/// distance from point `i` to point `i + window` divided by the seconds
/// elapsed between them; the trailing `window` points keep their fields
/// untouched (there is not enough look-ahead to compute a speed for them).
/// On any error the segment is left entirely unchanged.
///
/// The distance between two waypoints, in millimetres, is computed by the
/// caller-supplied function `dist`: geodesic distance is floating-point work
/// and lives outside this crate, and the contract here states the annotated
/// speeds in terms of whatever values `dist` may return.
#[verifier::loop_isolation(false)]
pub fn decorate_speed<F: Fn(Waypoint, Waypoint) -> u64>(
    ts: &mut TrackSegment,
    window: usize,
    dist: &F,
) -> (r: Result<(), AnnotationError>)
    requires
        forall|p: Waypoint, q: Waypoint| #[trigger] call_requires(*dist, (p, q)),
    ensures
        r is Err <==> annotate_fault(old(ts)@, window as int) is Some,
        r is Err ==> r == Err::<(), AnnotationError>(
            annotate_fault(old(ts)@, window as int)->Some_0,
        ) && final(ts)@ == old(ts)@,
        r is Ok ==> {
            &&& final(ts)@.len() == old(ts)@.len()
            &&& forall|i: int|
                0 <= i < old(ts)@.len() - window ==> pair_ok(old(ts)@, window as int, i)
            &&& forall|i: int|
                0 <= i < old(ts)@.len() - window ==> annotated_from(
                    *dist,
                    old(ts)@,
                    window as int,
                    i,
                    #[trigger] final(ts)@[i],
                )
            &&& forall|i: int|
                old(ts)@.len() - window <= i < old(ts)@.len() ==> final(ts)@[i] == old(ts)@[i]
        },
{
    let ghost s0 = ts@;
    let n = ts.points.len();
    if n == 0 {
        return Err(AnnotationError::EmptySegment);
    }
    if window == 0 || window >= n {
        return Err(AnnotationError::InvalidWindow);
    }
    let limit = n - window;

    // First pass: find the first faulty pair, if any, leaving the segment
    // untouched.  Reading both endpoints by copy keeps every borrow of the
    // point collection short-lived.
    let mut i: usize = 0;
    while i < limit
        invariant
            ts@ == s0,
            i <= limit,
            forall|j: int| 0 <= j < i ==> pair_ok(s0, window as int, j),
            scan_fault(s0, window as int, i as int) == scan_fault(s0, window as int, 0),
        decreases limit - i,
    {
        let p = ts.points[i];
        let q = ts.points[i + window];
        match (p.time, q.time) {
            (Some(pt), Some(qt)) => {
                if qt <= pt {
                    proof {
                        assert(pair_fault(s0, window as int, i as int) == Some(
                            AnnotationError::ZeroDuration,
                        ));
                        assert(scan_fault(s0, window as int, i as int) == Some(
                            AnnotationError::ZeroDuration,
                        ));
                    }
                    return Err(AnnotationError::ZeroDuration);
                }
            },
            _ => {
                proof {
                    assert(pair_fault(s0, window as int, i as int) == Some(
                        AnnotationError::MissingTimestamp,
                    ));
                    assert(scan_fault(s0, window as int, i as int) == Some(
                        AnnotationError::MissingTimestamp,
                    ));
                }
                return Err(AnnotationError::MissingTimestamp);
            },
        }
        i += 1;
    }
    proof {
        assert(scan_fault(s0, window as int, limit as int) is None);
    }

    // Second pass: every pair is sound, so annotate in place.  Both
    // endpoints are read by copy before the single write back to slot `i`;
    // slot `i + window` has not been written yet, so the pair read at `i`
    // is the original data.
    let mut i: usize = 0;
    while i < limit
        invariant
            i <= limit,
            ts@.len() == s0.len(),
            forall|j: int| 0 <= j < limit ==> pair_ok(s0, window as int, j),
            forall|j: int| i <= j < s0.len() ==> #[trigger] ts@[j] == s0[j],
            forall|j: int|
                0 <= j < i ==> annotated_from(*dist, s0, window as int, j, #[trigger] ts@[j]),
        decreases limit - i,
    {
        proof {
            assert(ts@[i as int] == s0[i as int]);
            assert(ts@[i + window as int] == s0[i + window as int]);
            assert(pair_ok(s0, window as int, i as int));
        }
        let p = ts.points[i];
        let q = ts.points[i + window];
        let d = dist(p, q);
        let pt: i64 = match p.time {
            Some(t) => t,
            None => {
                proof {
                    assert(false);
                }
                0
            },
        };
        let qt: i64 = match q.time {
            Some(t) => t,
            None => {
                proof {
                    assert(false);
                }
                0
            },
        };
        let dur: u64 = (qt as i128 - pt as i128) as u64;
        proof {
            assert(dur == pair_duration(s0, window as int, i as int));
        }
        let sp: u64 = d / dur;
        let mut wp = p;
        wp.speed = Some(sp);
        ts.points.set(i, wp);
        proof {
            assert(ts@[i as int] == with_speed(s0[i as int], speed_value(d, dur as int)));
        }
        i += 1;
    }
    Ok(())
}

} // verus!
