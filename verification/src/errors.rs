use vstd::prelude::*;

verus! {

/// Why speed annotation refused a segment.
#[derive(Clone, Copy, Debug, PartialEq, Eq, Structural)]
pub enum AnnotationError {
    /// The segment holds no points at all.
    EmptySegment,
    /// The window is zero, or at least the number of points, so no pair of
    /// points lies a full window apart.
    InvalidWindow,
    /// One of the two points being compared carries no timestamp.
    MissingTimestamp,
    /// The elapsed time between the two compared points is not positive:
    /// either the timestamps coincide, or they are out of chronological
    /// order, and in both cases no meaningful speed exists.
    ZeroDuration,
}

/// Why an extent (minimum/maximum) query failed.
#[derive(Clone, Copy, Debug, PartialEq, Eq, Structural)]
pub enum ExtentError {
    /// The segment holds no points, so no extremum exists.
    EmptySegment,
}

/// Why a per-field projection failed.
#[derive(Clone, Copy, Debug, PartialEq, Eq, Structural)]
pub enum FieldError {
    /// The point at the given index (the first such point) lacks the
    /// requested field.
    MissingField(usize),
}

} // verus!
