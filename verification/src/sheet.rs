//! The sheet's bounds, as far as pen input needs them.

use parry2d_f64::bounding_volume::Aabb;
use parry2d_f64::bounding_volume::BoundingVolume;
use parry2d_f64::math::Vector;
use vstd::prelude::*;

verus! {

/// parry's axis-aligned bounding box. Its corners are opaque to the verifier.
#[verifier::external_type_specification]
#[verifier::external_body]
pub struct ExAabb(parry2d_f64::bounding_volume::Aabb);

/// parry's vector of two coordinates. Its coordinates are opaque to the verifier.
#[verifier::external_type_specification]
#[verifier::external_body]
pub struct ExVector(parry2d_f64::math::Vector);

/// The box that parry's `BoundingVolume::loosened` makes of `bounds` and of
/// `margin` as the amount: `bounds` grown by the margin on every side.
pub uninterp spec fn loosened_box(bounds: Aabb, margin: u32) -> Aabb;

/// What parry's `Aabb::contains_local_point` answers for `bounds` and `point`:
/// whether no coordinate of the point lies below the box's lower corner or
/// above its upper one.
pub uninterp spec fn box_contains(bounds: Aabb, point: Vector) -> bool;

/// Calls parry's `BoundingVolume::loosened` on `bounds`, with `margin` as the
/// amount. The box that comes back depends on the two alone and is named, not
/// computed: its corners are floats. parry panics on a negative amount, which
/// an unsigned margin never is.
#[verifier::external_body]
pub(crate) fn loosened(bounds: &Aabb, margin: u32) -> (grown: Aabb)
    ensures
        grown == loosened_box(*bounds, margin),
{
    bounds.loosened(margin.into())
}

/// Calls parry's `Aabb::contains_local_point`. The answer depends on the box
/// and the point alone and is named, not computed.
#[verifier::external_body]
pub(crate) fn contains_local_point(bounds: &Aabb, point: &Vector) -> (inside: bool)
    ensures
        inside == box_contains(*bounds, *point),
{
    bounds.contains_local_point(*point)
}

/// Whether `point` lies within `bounds` grown by `margin` on every side.
pub(crate) fn within_loosened(bounds: &Aabb, margin: u32, point: &Vector) -> (inside: bool)
    ensures
        inside == box_contains(loosened_box(*bounds, margin), *point),
{
    let grown = loosened(bounds, margin);
    contains_local_point(&grown, point)
}

} // verus!
