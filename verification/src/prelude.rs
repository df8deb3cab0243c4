//! The names that most users need.
pub use crate::axis::{Axis, AxisKeyed};
pub use crate::coord::{Coord, Primitive};
pub use crate::expand_by::ExpandBy;
pub use crate::map::CoordMap;
pub use crate::move_by::MoveBy;
pub use crate::point::Point;
pub use crate::point_range::{PointBound, PointRange, PointRangeBounds};
pub use crate::point_range_iterator::{PointRangeIterator, PointRangeIteratorInclusive};
pub use crate::point_step::PointStep;
pub use crate::rect::Rect;
pub use crate::size::Size;
pub use crate::transpose::Transpose;
pub use crate::vector::Vector;
pub use crate::zero::Zero;
