use vstd::prelude::*;

use crate::errors::ExtentError;
use crate::errors::FieldError;
use crate::track::TrackSegment;
use crate::track::Waypoint;

verus! {

/// The latitudes of a segment, one per point, in point order.
pub open spec fn lat_seq(s: Seq<Waypoint>) -> Seq<i64> {
    s.map_values(|w: Waypoint| w.latitude)
}

/// The longitudes of a segment, one per point, in point order.
pub open spec fn lon_seq(s: Seq<Waypoint>) -> Seq<i64> {
    s.map_values(|w: Waypoint| w.longitude)
}

/// The speed a point reads out as: its annotated value, or zero where no
/// speed has been assigned.  "Not yet annotated" is a defined state, not an
/// error, so extraction substitutes a default instead of failing.
pub open spec fn speed_or_zero(w: Waypoint) -> u64 {
    match w.speed {
        Some(v) => v,
        None => 0,
    }
}

/// The per-point speeds a segment reads out as.
pub open spec fn speed_seq(s: Seq<Waypoint>) -> Seq<u64> {
    s.map_values(|w: Waypoint| speed_or_zero(w))
}

/// The elevations of a segment; meaningful when every point carries one.
pub open spec fn elevation_seq(s: Seq<Waypoint>) -> Seq<i64> {
    s.map_values(|w: Waypoint| w.elevation->Some_0)
}

/// The timestamps of a segment; meaningful when every point carries one.
pub open spec fn time_seq(s: Seq<Waypoint>) -> Seq<i64> {
    s.map_values(|w: Waypoint| w.time->Some_0)
}

/// The latitude of every waypoint of the segment, in point order.
pub fn get_lattitude(ts: &TrackSegment) -> (r: Vec<i64>)
    ensures
        r@ == lat_seq(ts@),
{
    let mut r: Vec<i64> = Vec::new();
    let n = ts.points.len();
    for i in 0..n
        invariant
            n == ts@.len(),
            r@.len() == i,
            forall|j: int| 0 <= j < i ==> r@[j] == ts@[j].latitude,
    {
        r.push(ts.points[i].latitude);
    }
    proof {
        assert(r@ =~= lat_seq(ts@));
    }
    r
}

/// The longitude of every waypoint of the segment, in point order.
pub fn get_longitude(ts: &TrackSegment) -> (r: Vec<i64>)
    ensures
        r@ == lon_seq(ts@),
{
    let mut r: Vec<i64> = Vec::new();
    let n = ts.points.len();
    for i in 0..n
        invariant
            n == ts@.len(),
            r@.len() == i,
            forall|j: int| 0 <= j < i ==> r@[j] == ts@[j].longitude,
    {
        r.push(ts.points[i].longitude);
    }
    proof {
        assert(r@ =~= lon_seq(ts@));
    }
    r
}

/// The speed of every waypoint of the segment, in point order, reading
/// unannotated points as zero.
pub fn get_speed(ts: &TrackSegment) -> (r: Vec<u64>)
    ensures
        r@ == speed_seq(ts@),
{
    let mut r: Vec<u64> = Vec::new();
    let n = ts.points.len();
    for i in 0..n
        invariant
            n == ts@.len(),
            r@.len() == i,
            forall|j: int| 0 <= j < i ==> r@[j] == speed_or_zero(ts@[j]),
    {
        match ts.points[i].speed {
            Some(v) => r.push(v),
            None => r.push(0),
        }
    }
    proof {
        assert(r@ =~= speed_seq(ts@));
    }
    r
}

/// The timestamp of every waypoint, in point order, or the index of the
/// first waypoint that carries none.
pub fn get_time(ts: &TrackSegment) -> (r: Result<Vec<i64>, FieldError>)
    ensures
        (match r {
            Ok(v) => {
                &&& forall|i: int| 0 <= i < ts@.len() ==> (#[trigger] ts@[i].time) is Some
                &&& v@ == time_seq(ts@)
            },
            Err(e) => (exists|k: int|
                {
                    &&& 0 <= k < ts@.len()
                    &&& e == FieldError::MissingField(k as usize)
                    &&& (#[trigger] ts@[k].time) is None
                    &&& forall|j: int| 0 <= j < k ==> (#[trigger] ts@[j].time) is Some
                }),
        }),
{
    let mut v: Vec<i64> = Vec::new();
    let n = ts.points.len();
    for i in 0..n
        invariant
            n == ts@.len(),
            v@.len() == i,
            forall|j: int| 0 <= j < i ==> (#[trigger] ts@[j].time) is Some,
            forall|j: int| 0 <= j < i ==> v@[j] == ts@[j].time->Some_0,
    {
        match ts.points[i].time {
            Some(t) => v.push(t),
            None => {
                return Err(FieldError::MissingField(i));
            },
        }
    }
    proof {
        assert(v@ =~= time_seq(ts@));
    }
    Ok(v)
}

/// The elevation of every waypoint, in point order, or the index of the
/// first waypoint that carries none.
pub fn get_elevation(ts: &TrackSegment) -> (r: Result<Vec<i64>, FieldError>)
    ensures
        (match r {
            Ok(v) => {
                &&& forall|i: int| 0 <= i < ts@.len() ==> (#[trigger] ts@[i].elevation) is Some
                &&& v@ == elevation_seq(ts@)
            },
            Err(e) => (exists|k: int|
                {
                    &&& 0 <= k < ts@.len()
                    &&& e == FieldError::MissingField(k as usize)
                    &&& (#[trigger] ts@[k].elevation) is None
                    &&& forall|j: int| 0 <= j < k ==> (#[trigger] ts@[j].elevation) is Some
                }),
        }),
{
    let mut v: Vec<i64> = Vec::new();
    let n = ts.points.len();
    for i in 0..n
        invariant
            n == ts@.len(),
            v@.len() == i,
            forall|j: int| 0 <= j < i ==> (#[trigger] ts@[j].elevation) is Some,
            forall|j: int| 0 <= j < i ==> v@[j] == ts@[j].elevation->Some_0,
    {
        match ts.points[i].elevation {
            Some(e) => v.push(e),
            None => {
                return Err(FieldError::MissingField(i));
            },
        }
    }
    proof {
        assert(v@ =~= elevation_seq(ts@));
    }
    Ok(v)
}

/// The smallest and largest latitude over all points of the segment.
pub fn get_range_lattitude(ts: &TrackSegment) -> (r: Result<(i64, i64), ExtentError>)
    ensures
        r is Err <==> ts@.len() == 0,
        r is Err ==> r == Err::<(i64, i64), ExtentError>(ExtentError::EmptySegment),
        r is Ok ==> ({
            let mn = r->Ok_0.0;
            let mx = r->Ok_0.1;
            &&& mn <= mx
            &&& exists|i: int| 0 <= i < ts@.len() && #[trigger] ts@[i].latitude == mn
            &&& exists|i: int| 0 <= i < ts@.len() && #[trigger] ts@[i].latitude == mx
            &&& forall|i: int| 0 <= i < ts@.len() ==> mn <= #[trigger] ts@[i].latitude <= mx
        }),
{
    let n = ts.points.len();
    if n == 0 {
        return Err(ExtentError::EmptySegment);
    }
    let mut max_lat = ts.points[0].latitude;
    let mut min_lat = max_lat;
    for i in 1..n
        invariant
            n == ts@.len(),
            min_lat <= max_lat,
            exists|k: int| 0 <= k < i && #[trigger] ts@[k].latitude == min_lat,
            exists|k: int| 0 <= k < i && #[trigger] ts@[k].latitude == max_lat,
            forall|k: int| 0 <= k < i ==> min_lat <= #[trigger] ts@[k].latitude <= max_lat,
    {
        let lat = ts.points[i].latitude;
        if max_lat < lat {
            max_lat = lat;
        } else if min_lat > lat {
            min_lat = lat;
        }
    }
    Ok((min_lat, max_lat))
}

/// The smallest and largest longitude over all points of the segment.
pub fn get_range_longitude(ts: &TrackSegment) -> (r: Result<(i64, i64), ExtentError>)
    ensures
        r is Err <==> ts@.len() == 0,
        r is Err ==> r == Err::<(i64, i64), ExtentError>(ExtentError::EmptySegment),
        r is Ok ==> ({
            let mn = r->Ok_0.0;
            let mx = r->Ok_0.1;
            &&& mn <= mx
            &&& exists|i: int| 0 <= i < ts@.len() && #[trigger] ts@[i].longitude == mn
            &&& exists|i: int| 0 <= i < ts@.len() && #[trigger] ts@[i].longitude == mx
            &&& forall|i: int| 0 <= i < ts@.len() ==> mn <= #[trigger] ts@[i].longitude <= mx
        }),
{
    let n = ts.points.len();
    if n == 0 {
        return Err(ExtentError::EmptySegment);
    }
    let mut max_lng = ts.points[0].longitude;
    let mut min_lng = max_lng;
    for i in 1..n
        invariant
            n == ts@.len(),
            min_lng <= max_lng,
            exists|k: int| 0 <= k < i && #[trigger] ts@[k].longitude == min_lng,
            exists|k: int| 0 <= k < i && #[trigger] ts@[k].longitude == max_lng,
            forall|k: int| 0 <= k < i ==> min_lng <= #[trigger] ts@[k].longitude <= max_lng,
    {
        let lng = ts.points[i].longitude;
        if max_lng < lng {
            max_lng = lng;
        } else if min_lng > lng {
            min_lng = lng;
        }
    }
    Ok((min_lng, max_lng))
}

/// Reading out the speeds of a segment that was never annotated gives a
/// sequence of zeros, one per point.
pub proof fn lemma_speed_default_when_unannotated(s: Seq<Waypoint>)
    requires
        forall|i: int| 0 <= i < s.len() ==> (#[trigger] s[i].speed) is None,
    ensures
        speed_seq(s) == Seq::new(s.len(), |i: int| 0u64),
{
    assert(speed_seq(s) =~= Seq::new(s.len(), |i: int| 0u64));
}

} // verus!
