//! Track-segment analytics for GPS recordings.
//!
//! A track segment is an ordered, chronologically sorted sequence of
//! waypoints.  This crate derives a per-point speed signal from the raw
//! position and time samples, computes coordinate extents, and projects a
//! segment into parallel per-field sequences for downstream consumption.
//!
//! All quantities are held in fixed-point integer units (microdegrees,
//! millimetres, whole seconds), so every computation here is exact and fully
//! specified.  Conversion from floating-point sources, and the geodesic
//! distance computation itself, live with the caller: the speed annotator
//! takes the distance function as an argument and states what holds of the
//! result for any value the function may return.

pub mod errors;
pub mod extract;
pub mod speed;
pub mod track;

pub use errors::AnnotationError;
pub use errors::ExtentError;
pub use errors::FieldError;
pub use extract::get_elevation;
pub use extract::get_lattitude;
pub use extract::get_longitude;
pub use extract::get_range_lattitude;
pub use extract::get_range_longitude;
pub use extract::get_speed;
pub use extract::get_time;
pub use speed::decorate_speed;
pub use speed::DEFAULT_WINDOW;
pub use track::TrackSegment;
pub use track::Waypoint;
