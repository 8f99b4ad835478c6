use vstd::prelude::*;

verus! {

/// A single geographic sample of a GPS track.
///
/// All fields are fixed-point integers, so that arithmetic on them is exact:
/// coordinates are in microdegrees (one millionth of a degree), elevation in
/// millimetres, timestamps in whole seconds relative to a common epoch, and
/// speed in millimetres per second.
#[derive(Clone, Copy, Debug, PartialEq)]
pub struct Waypoint {
    /// Latitude in microdegrees.  Always present.
    pub latitude: i64,
    /// Longitude in microdegrees.  Always present.
    pub longitude: i64,
    /// Elevation in millimetres; `None` when the source did not record one.
    pub elevation: Option<i64>,
    /// Timestamp in whole seconds since a common epoch; `None` when the
    /// source did not record one.
    pub time: Option<i64>,
    /// Derived speed in millimetres per second.  Never supplied by a parser:
    /// it stays `None` until speed annotation fills it in.
    pub speed: Option<u64>,
}

/// An ordered sequence of waypoints, assumed chronological (ascending
/// timestamps) by convention of the source format.
#[derive(Debug, PartialEq)]
pub struct TrackSegment {
    pub points: Vec<Waypoint>,
}

impl View for TrackSegment {
    type V = Seq<Waypoint>;

    open spec fn view(&self) -> Seq<Waypoint> {
        self.points@
    }
}

impl TrackSegment {
    /// A segment with no points yet.
    pub fn new() -> (r: TrackSegment)
        ensures
            r@ == Seq::<Waypoint>::empty(),
    {
        TrackSegment { points: Vec::new() }
    }

    /// Appends one waypoint at the end of the segment.
    pub fn push(&mut self, wp: Waypoint)
        ensures
            final(self)@ == old(self)@.push(wp),
    {
        self.points.push(wp);
    }

    /// The number of points in the segment.
    pub fn len(&self) -> (n: usize)
        ensures
            n == self@.len(),
    {
        self.points.len()
    }
}

} // verus!
