//! The collision engine: keeps dynamic objects out of obstacles.
//!
//! Every object has an axis-aligned hitbox around its position. When the
//! hitbox of a dynamic object reaches into that of an obstacle, the dynamic
//! object is pushed out along the axis on which it has entered least.

use vstd::prelude::*;
use crate::fixed::{clamp_i64, clamp_wide, fx_mul, fx_mul_spec};
use crate::objects::GenericObject;
use crate::vector::Vector3;

verus! {

/// An axis-aligned box: on each axis it covers `centre - half ..= centre + half`.
#[derive(Clone, Copy, Debug, PartialEq, Eq, Structural)]
pub struct Hitbox {
    pub centre: Vector3,
    pub half: Vector3,
}

/// The three axes of space.
#[derive(Clone, Copy, Debug, PartialEq, Eq, Structural)]
pub enum Axis {
    X,
    Y,
    Z,
}

/// Half the width of a hitbox on one axis: the size at which the object is
/// drawn times its hitbox factor. A negative product counts as no width.
pub open spec fn extent(scale: i64, factor: i64) -> i64 {
    if fx_mul_spec(scale, factor) < 0 {
        0
    } else {
        fx_mul_spec(scale, factor)
    }
}

/// The hitbox of an object at `centre` that is drawn at `scale` with hitbox factor `factor`.
pub open spec fn hitbox_at(centre: Vector3, scale: Vector3, factor: Vector3) -> Hitbox {
    Hitbox {
        centre,
        half: Vector3 {
            x: extent(scale.x, factor.x),
            y: extent(scale.y, factor.y),
            z: extent(scale.z, factor.z),
        },
    }
}

/// The hitbox of an object.
pub open spec fn hitbox_of(o: GenericObject) -> Hitbox {
    hitbox_at(o.spec_position(), o.spec_scale(), o.spec_hitbox_scale())
}

/// The hitboxes of a list of objects, in the order of the list.
pub open spec fn hitboxes(objects: Seq<GenericObject>) -> Seq<Hitbox> {
    Seq::new(objects.len(), |i: int| hitbox_of(objects[i]))
}

/// The component of a vector on an axis.
pub open spec fn along(v: Vector3, axis: Axis) -> i64 {
    match axis {
        Axis::X => v.x,
        Axis::Y => v.y,
        Axis::Z => v.z,
    }
}

/// How far two intervals reach into each other: positive exactly when they
/// share more than a boundary point.
pub open spec fn depth_1d(c1: i64, h1: i64, c2: i64, h2: i64) -> int {
    if c1 >= c2 {
        h1 + h2 - (c1 - c2)
    } else {
        h1 + h2 - (c2 - c1)
    }
}

/// How far `a` reaches into `b` on an axis.
pub open spec fn depth(a: Hitbox, b: Hitbox, axis: Axis) -> int {
    depth_1d(along(a.centre, axis), along(a.half, axis), along(b.centre, axis), along(b.half, axis))
}

/// Whether two hitboxes reach into each other: they must do so on all three axes.
pub open spec fn overlaps(a: Hitbox, b: Hitbox) -> bool {
    depth(a, b, Axis::X) > 0 && depth(a, b, Axis::Y) > 0 && depth(a, b, Axis::Z) > 0
}

/// The axis on which `a` reaches least into `b`; on a tie x goes before y, and y before z.
pub open spec fn least_axis(a: Hitbox, b: Hitbox) -> Axis {
    if depth(a, b, Axis::X) <= depth(a, b, Axis::Y) && depth(a, b, Axis::X) <= depth(
        a,
        b,
        Axis::Z,
    ) {
        Axis::X
    } else if depth(a, b, Axis::Y) <= depth(a, b, Axis::Z) {
        Axis::Y
    } else {
        Axis::Z
    }
}

/// Where on an axis the centre of `a` has to be for `a` to touch `b` from
/// the side on which it is now, before that place is clamped into `i64`.
pub open spec fn contact(a: Hitbox, b: Hitbox, axis: Axis) -> int {
    if along(a.centre, axis) >= along(b.centre, axis) {
        along(b.centre, axis) + (along(a.half, axis) + along(b.half, axis))
    } else {
        along(b.centre, axis) - (along(a.half, axis) + along(b.half, axis))
    }
}

/// A vector with its component on one axis replaced.
pub open spec fn with_component(v: Vector3, axis: Axis, c: i64) -> Vector3 {
    match axis {
        Axis::X => Vector3 { x: c, y: v.y, z: v.z },
        Axis::Y => Vector3 { x: v.x, y: c, z: v.z },
        Axis::Z => Vector3 { x: v.x, y: v.y, z: c },
    }
}

/// The centre of `a` after it has been resolved against the obstacle `b`:
/// unchanged if the two do not overlap, else moved along the axis of least
/// depth until they touch.
pub open spec fn resolved(a: Hitbox, b: Hitbox) -> Vector3 {
    if overlaps(a, b) {
        with_component(a.centre, least_axis(a, b), clamp_i64(contact(a, b, least_axis(a, b))))
    } else {
        a.centre
    }
}

/// The centre of a box with half-widths `half` that starts at `centre` and is
/// resolved against each of `obstacles` in turn.
pub open spec fn resolved_all(centre: Vector3, half: Vector3, obstacles: Seq<Hitbox>) -> Vector3
    decreases obstacles.len(),
{
    if obstacles.len() == 0 {
        centre
    } else {
        resolved(
            Hitbox { centre: resolved_all(centre, half, obstacles.drop_last()), half },
            obstacles.last(),
        )
    }
}

/// The centre of the dynamic box at index `i` after it has been resolved
/// against every static box and then against every other dynamic box.
pub open spec fn collided_one(dynamics: Seq<Hitbox>, statics: Seq<Hitbox>, i: int) -> Vector3 {
    resolved_all(
        resolved_all(dynamics[i].centre, dynamics[i].half, statics),
        dynamics[i].half,
        dynamics.remove(i),
    )
}

/// The dynamic boxes after those from index `i` on have been resolved, one
/// after the other; each sees the others where they stand at its turn.
pub open spec fn collided_from(dynamics: Seq<Hitbox>, statics: Seq<Hitbox>, i: int) -> Seq<Hitbox>
    decreases dynamics.len() - i,
{
    if 0 <= i < dynamics.len() {
        collided_from(
            dynamics.update(
                i,
                Hitbox { centre: collided_one(dynamics, statics, i), half: dynamics[i].half },
            ),
            statics,
            i + 1,
        )
    } else {
        dynamics
    }
}

/// The dynamic boxes after one pass of the engine.
pub open spec fn collided(dynamics: Seq<Hitbox>, statics: Seq<Hitbox>) -> Seq<Hitbox> {
    collided_from(dynamics, statics, 0)
}

/// Whether no dynamic box reaches into a static box or into another dynamic box.
pub open spec fn separated(dynamics: Seq<Hitbox>, statics: Seq<Hitbox>) -> bool {
    &&& forall|i: int, j: int|
        0 <= i < dynamics.len() && 0 <= j < statics.len() ==> !overlaps(
            #[trigger] dynamics[i],
            #[trigger] statics[j],
        )
    &&& forall|i: int, k: int|
        0 <= i < dynamics.len() && 0 <= k < dynamics.len() && i != k ==> !overlaps(
            #[trigger] dynamics[i],
            #[trigger] dynamics[k],
        )
}

/// Whether the place where `a` touches `b` on the axis of least depth can be
/// written as an `i64`.
pub open spec fn contact_in_range(a: Hitbox, b: Hitbox) -> bool {
    i64::MIN <= contact(a, b, least_axis(a, b)) <= i64::MAX
}

/// A box that does not overlap an obstacle is left where it is.
pub proof fn lemma_resolve_keeps_separated(a: Hitbox, b: Hitbox)
    requires
        !overlaps(a, b),
    ensures
        resolved(a, b) == a.centre,
{
}

/// A box that overlaps an obstacle is moved along the axis of least depth
/// alone, by exactly that depth, away from the centre of the obstacle.
pub proof fn lemma_resolve_displacement(a: Hitbox, b: Hitbox)
    requires
        overlaps(a, b),
        contact_in_range(a, b),
    ensures
        ({
            let axis = least_axis(a, b);
            let moved = resolved(a, b);
            &&& forall|other: Axis| other != axis ==> along(moved, other) == along(a.centre, other)
            &&& along(a.centre, axis) >= along(b.centre, axis) ==> along(moved, axis) - along(
                a.centre,
                axis,
            ) == depth(a, b, axis)
            &&& along(a.centre, axis) < along(b.centre, axis) ==> along(moved, axis) - along(
                a.centre,
                axis,
            ) == -depth(a, b, axis)
        }),
{
}

/// After a box has been resolved against an obstacle, the two do not overlap.
pub proof fn lemma_resolve_separates(a: Hitbox, b: Hitbox)
    requires
        contact_in_range(a, b),
    ensures
        !overlaps(Hitbox { centre: resolved(a, b), half: a.half }, b),
{
}

/// Resolving a box against the same obstacle a second time moves it no further.
pub proof fn lemma_resolve_idempotent(a: Hitbox, b: Hitbox)
    requires
        contact_in_range(a, b),
    ensures
        resolved(Hitbox { centre: resolved(a, b), half: a.half }, b) == resolved(a, b),
{
    lemma_resolve_separates(a, b);
}

/// A box that overlaps none of a list of obstacles is left where it is by all of them.
pub proof fn lemma_resolved_all_separated(centre: Vector3, half: Vector3, obstacles: Seq<Hitbox>)
    requires
        forall|j: int|
            0 <= j < obstacles.len() ==> !overlaps(Hitbox { centre, half }, #[trigger] obstacles[j]),
    ensures
        resolved_all(centre, half, obstacles) == centre,
    decreases obstacles.len(),
{
    if obstacles.len() > 0 {
        lemma_resolved_all_separated(centre, half, obstacles.drop_last());
    }
}

/// One pass of the engine over boxes that are already separated moves none of them.
pub proof fn lemma_collided_from_separated(dynamics: Seq<Hitbox>, statics: Seq<Hitbox>, i: int)
    requires
        separated(dynamics, statics),
        0 <= i,
    ensures
        collided_from(dynamics, statics, i) == dynamics,
    decreases dynamics.len() - i,
{
    if i < dynamics.len() {
        let me = dynamics[i];
        lemma_resolved_all_separated(me.centre, me.half, statics);
        let others = dynamics.remove(i);
        assert forall|k: int| 0 <= k < others.len() implies !overlaps(
            Hitbox { centre: me.centre, half: me.half },
            #[trigger] others[k],
        ) by {
            if k < i {
                assert(others[k] == dynamics[k]);
            } else {
                assert(others[k] == dynamics[k + 1]);
            }
        }
        lemma_resolved_all_separated(me.centre, me.half, others);
        assert(dynamics.update(i, Hitbox { centre: me.centre, half: me.half }) =~= dynamics);
        lemma_collided_from_separated(dynamics, statics, i + 1);
    }
}

/// The engine is stable: on objects that are already separated it is a
/// no-op, however often it is applied.
pub proof fn lemma_collided_stable(dynamics: Seq<Hitbox>, statics: Seq<Hitbox>)
    requires
        separated(dynamics, statics),
    ensures
        collided(dynamics, statics) == dynamics,
        collided(collided(dynamics, statics), statics) == dynamics,
{
    lemma_collided_from_separated(dynamics, statics, 0);
}

/// One pass of the engine loses no box and changes no box's size.
pub proof fn lemma_collided_from_shape(dynamics: Seq<Hitbox>, statics: Seq<Hitbox>, i: int)
    requires
        0 <= i,
    ensures
        collided_from(dynamics, statics, i).len() == dynamics.len(),
        forall|k: int|
            0 <= k < dynamics.len() ==> (#[trigger] collided_from(dynamics, statics, i)[k]).half
                == dynamics[k].half,
    decreases dynamics.len() - i,
{
    if i < dynamics.len() {
        let next = dynamics.update(
            i,
            Hitbox { centre: collided_one(dynamics, statics, i), half: dynamics[i].half },
        );
        lemma_collided_from_shape(next, statics, i + 1);
    }
}

/// Half the width of a hitbox on one axis.
fn half_width(scale: i64, factor: i64) -> (r: i64)
    ensures
        r == extent(scale, factor),
{
    let e = fx_mul(scale, factor);
    if e < 0 {
        0
    } else {
        e
    }
}

/// The hitbox of an object.
pub fn hitbox(o: &GenericObject) -> (r: Hitbox)
    ensures
        r == hitbox_of(*o),
{
    let scale = o.scale();
    let factor = o.hitbox_scale();
    Hitbox {
        centre: o.position(),
        half: Vector3 {
            x: half_width(scale.x, factor.x),
            y: half_width(scale.y, factor.y),
            z: half_width(scale.z, factor.z),
        },
    }
}

/// How far two intervals reach into each other.
fn interval_depth(c1: i64, h1: i64, c2: i64, h2: i64) -> (r: i128)
    ensures
        r == depth_1d(c1, h1, c2, h2),
{
    let reach: i128 = h1 as i128 + h2 as i128;
    if c1 >= c2 {
        reach - (c1 as i128 - c2 as i128)
    } else {
        reach - (c2 as i128 - c1 as i128)
    }
}

/// Where the centre of the first interval has to be for it to touch the
/// second from the side on which it is now.
fn interval_contact(c1: i64, h1: i64, c2: i64, h2: i64) -> (r: i64)
    ensures
        r == clamp_i64(
            if c1 >= c2 {
                c2 + (h1 + h2)
            } else {
                c2 - (h1 + h2)
            },
        ),
{
    let reach: i128 = h1 as i128 + h2 as i128;
    if c1 >= c2 {
        clamp_wide(c2 as i128 + reach)
    } else {
        clamp_wide(c2 as i128 - reach)
    }
}

/// Whether two hitboxes reach into each other.
pub fn intersects(a: &Hitbox, b: &Hitbox) -> (r: bool)
    ensures
        r == overlaps(*a, *b),
{
    interval_depth(a.centre.x, a.half.x, b.centre.x, b.half.x) > 0 && interval_depth(
        a.centre.y,
        a.half.y,
        b.centre.y,
        b.half.y,
    ) > 0 && interval_depth(a.centre.z, a.half.z, b.centre.z, b.half.z) > 0
}

/// Resolves the box `a` against the obstacle `b` and returns the new centre of `a`.
pub fn resolve(a: &Hitbox, b: &Hitbox) -> (r: Vector3)
    ensures
        r == resolved(*a, *b),
{
    let dx = interval_depth(a.centre.x, a.half.x, b.centre.x, b.half.x);
    let dy = interval_depth(a.centre.y, a.half.y, b.centre.y, b.half.y);
    let dz = interval_depth(a.centre.z, a.half.z, b.centre.z, b.half.z);
    if !(dx > 0 && dy > 0 && dz > 0) {
        return a.centre;
    }
    if dx <= dy && dx <= dz {
        let x = interval_contact(a.centre.x, a.half.x, b.centre.x, b.half.x);
        Vector3 { x, y: a.centre.y, z: a.centre.z }
    } else if dy <= dz {
        let y = interval_contact(a.centre.y, a.half.y, b.centre.y, b.half.y);
        Vector3 { x: a.centre.x, y, z: a.centre.z }
    } else {
        let z = interval_contact(a.centre.z, a.half.z, b.centre.z, b.half.z);
        Vector3 { x: a.centre.x, y: a.centre.y, z }
    }
}

/// One pass of the engine: every dynamic object, in the order of the list,
/// is resolved against every static object and then against every other
/// dynamic object. Only positions of dynamic objects change.
pub fn calculate_collisions(
    dynamic_objects: &mut Vec<GenericObject>,
    static_objects: &Vec<GenericObject>,
)
    ensures
        final(dynamic_objects)@.len() == old(dynamic_objects)@.len(),
        forall|i: int|
            0 <= i < old(dynamic_objects)@.len() ==> #[trigger] final(dynamic_objects)@[i] == old(
                dynamic_objects,
            )@[i].moved_to(
                collided(hitboxes(old(dynamic_objects)@), hitboxes(static_objects@))[i].centre,
            ),
{
    let ghost start = hitboxes(dynamic_objects@);
    let ghost walls = hitboxes(static_objects@);
    let n = dynamic_objects.len();
    let mut i: usize = 0;
    while i < n
        invariant
            n == dynamic_objects@.len(),
            n == old(dynamic_objects)@.len(),
            i <= n,
            walls == hitboxes(static_objects@),
            collided_from(hitboxes(dynamic_objects@), walls, i as int) == collided(start, walls),
            forall|k: int|
                0 <= k < n ==> #[trigger] dynamic_objects@[k] == old(dynamic_objects)@[k].moved_to(
                    dynamic_objects@[k].spec_position(),
                ),
        decreases n - i,
    {
        let ghost boxes = hitboxes(dynamic_objects@);
        let me = hitbox(&dynamic_objects[i]);
        let mut centre = me.centre;
        let mut j: usize = 0;
        while j < static_objects.len()
            invariant
                j <= static_objects@.len(),
                walls == hitboxes(static_objects@),
                centre == resolved_all(me.centre, me.half, walls.take(j as int)),
            decreases static_objects@.len() - j,
        {
            let wall = hitbox(&static_objects[j]);
            proof {
                assert(walls.take(j + 1).drop_last() =~= walls.take(j as int));
                assert(walls.take(j + 1).last() == wall);
            }
            centre = resolve(&Hitbox { centre, half: me.half }, &wall);
            j += 1;
        }
        proof {
            assert(walls.take(j as int) =~= walls);
        }
        let ghost from_walls = centre;
        let ghost others = boxes.remove(i as int);
        let mut k: usize = 0;
        while k < n
            invariant
                n == dynamic_objects@.len(),
                i < n,
                k <= n,
                boxes == hitboxes(dynamic_objects@),
                others == boxes.remove(i as int),
                centre == resolved_all(
                    from_walls,
                    me.half,
                    others.take(
                        if k <= i {
                            k as int
                        } else {
                            k - 1
                        },
                    ),
                ),
            decreases n - k,
        {
            if k != i {
                let other = hitbox(&dynamic_objects[k]);
                proof {
                    let m: int = if k < i {
                        k as int
                    } else {
                        k - 1
                    };
                    assert(others.take(m + 1).drop_last() =~= others.take(m));
                    assert(others.take(m + 1).last() == other);
                }
                centre = resolve(&Hitbox { centre, half: me.half }, &other);
            }
            k += 1;
        }
        proof {
            assert(others.take(n - 1) =~= others);
            assert(centre == collided_one(boxes, walls, i as int));
        }
        dynamic_objects[i].set_position(centre);
        proof {
            assert(hitboxes(dynamic_objects@) =~= boxes.update(
                i as int,
                Hitbox { centre, half: boxes[i as int].half },
            ));
        }
        i += 1;
    }
    proof {
        assert forall|i: int| 0 <= i < n implies #[trigger] dynamic_objects@[i] == old(
            dynamic_objects,
        )@[i].moved_to(collided(start, walls)[i].centre) by {
            assert(hitboxes(dynamic_objects@)[i].centre == dynamic_objects@[i].spec_position());
        }
    }
}

} // verus!
