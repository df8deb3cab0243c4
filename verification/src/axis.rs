//! The two axes, and access to the components of a pair by axis.
use vstd::prelude::*;
use vstd::std_specs::ops::{AddSpec, DivSpec, MulSpec, SubSpec};
use crate::coord::Coord;

verus! {

/// One of the two axes of a pair.
#[derive(Debug, Clone, Copy, PartialEq, Eq, Hash, Structural)]
pub enum Axis {
    X,
    Y,
}

impl Axis {
    /// The other axis.
    pub open spec fn flip(self) -> Axis {
        match self {
            Axis::X => Axis::Y,
            Axis::Y => Axis::X,
        }
    }

    /// The other axis.
    pub fn transpose(self) -> (r: Axis)
        ensures
            r == self.flip(),
    {
        match self {
            Axis::X => Axis::Y,
            Axis::Y => Axis::X,
        }
    }

    /// Swapping the axes twice gives the axis back.
    pub proof fn lemma_flip_involution(self)
        ensures
            self.flip().flip() == self,
    {
    }
}

/// The component of `c` on `axis`.
pub open spec fn component<C: Coord>(c: C, axis: Axis) -> C::Item {
    match axis {
        Axis::X => c.x_of(),
        Axis::Y => c.y_of(),
    }
}

/// `c` with the component on `axis` replaced by `value`, the other kept.
pub open spec fn with_component<C: Coord>(c: C, axis: Axis, value: C::Item) -> C {
    match axis {
        Axis::X => C::pair(value, c.y_of()),
        Axis::Y => C::pair(c.x_of(), value),
    }
}

/// Access to the components of a pair by axis.
pub trait AxisKeyed: Coord {
    /// The component on `axis`.
    fn get(&self, axis: Axis) -> (r: Self::Item)
        ensures
            r == component(*self, axis),
    {
        match axis {
            Axis::X => self.x(),
            Axis::Y => self.y(),
        }
    }

    /// The pair with the component on `axis` replaced by `value`.
    fn set(&self, axis: Axis, value: Self::Item) -> (r: Self)
        ensures
            r == with_component(*self, axis, value),
    {
        match axis {
            Axis::X => Self::from_x_y(value, self.y()),
            Axis::Y => Self::from_x_y(self.x(), value),
        }
    }

    /// The pair with the component on `axis` increased by `value`.
    fn add<V>(&self, axis: Axis, value: V) -> (r: Self) where
        Self::Item: core::ops::Add<V, Output = Self::Item>,

        requires
            component(*self, axis).add_req(value),
        ensures
            <Self::Item as AddSpec<V>>::obeys_add_spec() ==> r == with_component(
                *self,
                axis,
                component(*self, axis).add_spec(value),
            ),
    {
        self.set(axis, self.get(axis) + value)
    }

    /// The pair with the component on `axis` decreased by `value`.
    fn sub<V>(&self, axis: Axis, value: V) -> (r: Self) where
        Self::Item: core::ops::Sub<V, Output = Self::Item>,

        requires
            component(*self, axis).sub_req(value),
        ensures
            <Self::Item as SubSpec<V>>::obeys_sub_spec() ==> r == with_component(
                *self,
                axis,
                component(*self, axis).sub_spec(value),
            ),
    {
        self.set(axis, self.get(axis) - value)
    }

    /// The pair with the component on `axis` multiplied by `value`.
    fn mul<V>(&self, axis: Axis, value: V) -> (r: Self) where
        Self::Item: core::ops::Mul<V, Output = Self::Item>,

        requires
            component(*self, axis).mul_req(value),
        ensures
            <Self::Item as MulSpec<V>>::obeys_mul_spec() ==> r == with_component(
                *self,
                axis,
                component(*self, axis).mul_spec(value),
            ),
    {
        self.set(axis, self.get(axis) * value)
    }

    /// The pair with the component on `axis` divided by `value`.
    fn div<V>(&self, axis: Axis, value: V) -> (r: Self) where
        Self::Item: core::ops::Div<V, Output = Self::Item>,

        requires
            component(*self, axis).div_req(value),
        ensures
            <Self::Item as DivSpec<V>>::obeys_div_spec() ==> r == with_component(
                *self,
                axis,
                component(*self, axis).div_spec(value),
            ),
    {
        self.set(axis, self.get(axis) / value)
    }
}

impl<T: Coord> AxisKeyed for T {
}

/// Writing back what was read changes nothing, on either axis.
pub proof fn lemma_set_what_get<C: Coord>(v: C, axis: Axis)
    ensures
        with_component(v, axis, component(v, axis)) == v,
{
    v.lemma_rebuild();
}

/// Writing a component makes it the one that is read on that axis, and
/// leaves the one on the other axis as it was.
pub proof fn lemma_get_what_set<C: Coord>(v: C, axis: Axis, value: C::Item)
    ensures
        component(with_component(v, axis, value), axis) == value,
        component(with_component(v, axis, value), axis.flip()) == component(v, axis.flip()),
{
    C::lemma_projections(value, v.y_of());
    C::lemma_projections(v.x_of(), value);
}

} // verus!
