//! A two-axis coordinate algebra with verified contracts.
//!
//! Every value here is an ordered pair `(x, y)`: positions, displacements,
//! extents, rectangles and tuples of these. One trait, [`Coord`], says what a
//! pair is; mapping, access by axis and transposition are written once over
//! it. Arithmetic between the concrete types is defined component by
//! component. Spans of points are walked in row-major order, with any step,
//! and the sequence of points that a walk gives is stated over the integers.
pub mod axis;
pub mod coord;
pub mod expand_by;
pub mod map;
pub mod move_by;
pub mod ops;
pub mod point;
pub mod point_range;
pub mod point_range_iterator;
pub mod point_step;
pub mod points;
pub mod prelude;
pub mod rect;
pub mod size;
pub mod transpose;
pub mod tuple;
pub mod vector;
pub mod walk;
pub mod zero;

pub use crate::axis::{Axis, AxisKeyed};
pub use crate::coord::{Coord, Primitive};
pub use crate::expand_by::ExpandBy;
pub use crate::map::CoordMap;
pub use crate::move_by::MoveBy;
pub use crate::point::Point;
pub use crate::point_range::{PointBound, PointRange, PointRangeBounds};
pub use crate::point_range_iterator::{PointRangeIterator, PointRangeIteratorInclusive};
pub use crate::point_step::PointStep;
pub use crate::rect::Rect;
pub use crate::size::Size;
pub use crate::transpose::Transpose;
pub use crate::vector::Vector;
pub use crate::zero::Zero;
