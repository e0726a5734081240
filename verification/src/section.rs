//! Construction of the world: square cells on a grid, each with an optional
//! floor and up to four walls.

use vstd::prelude::*;
use crate::fixed::{
    clamp_i64, clamp_wide, fx_add, fx_add_spec, fx_mul, fx_mul_spec, fx_sub, fx_sub_spec,
};
use crate::objects::{unit_factor, GenericObject, StaticObject};
use crate::send_structs::SendStaticObjectView;
use crate::vector::Vector3;

verus! {

/// One half, as a fixed-point number.
pub const HALF: i64 = 500_000;

/// Half the height of a wall, and the height of its centre above the ground.
pub const WALL_HEIGHT: i64 = 10_000_000;

/// Half the thickness of a wall.
pub const WALL_THICKNESS: i64 = 500_000;

/// Half the thickness of a floor.
pub const FLOOR_THICKNESS: i64 = 1_000_000;

/// A cell of the world at column `x` and row `z` of a grid of squares with
/// edge length `size`, and what is to be built in it. Columns grow to the
/// left, rows grow towards the viewer.
#[derive(Clone, Copy, Debug, PartialEq, Eq, Structural)]
pub struct Section {
    pub x: i32,
    pub z: i32,
    pub size: i64,
    pub has_floor: bool,
    pub has_left_wall: bool,
    pub has_right_wall: bool,
    pub has_back_wall: bool,
    pub has_front_wall: bool,
}

/// The coordinate of the centre of the cell with the given grid index.
pub open spec fn cell_centre(index: i32, size: i64) -> i64 {
    clamp_i64(index * size)
}

/// Half the edge length of a cell.
pub open spec fn half_cell(size: i64) -> i64 {
    fx_mul_spec(size, HALF)
}

/// The floor of a cell: a slab under the whole cell, centred on the ground.
pub open spec fn floor_piece(s: Section) -> SendStaticObjectView {
    SendStaticObjectView {
        pos: Vector3 { x: cell_centre(s.x, s.size), y: 0, z: cell_centre(s.z, s.size) },
        size: Vector3 { x: half_cell(s.size), y: FLOOR_THICKNESS, z: half_cell(s.size) },
        hitbox_scale: unit_factor(),
        model: "unit_floor"@,
    }
}

/// A wall along the x axis of a cell, centred at `z`.
pub open spec fn wall_along_x(s: Section, z: i64) -> SendStaticObjectView {
    SendStaticObjectView {
        pos: Vector3 { x: cell_centre(s.x, s.size), y: WALL_HEIGHT, z },
        size: Vector3 { x: half_cell(s.size), y: WALL_HEIGHT, z: WALL_THICKNESS },
        hitbox_scale: unit_factor(),
        model: "unit_cube"@,
    }
}

/// A wall along the z axis of a cell, centred at `x`.
pub open spec fn wall_along_z(s: Section, x: i64) -> SendStaticObjectView {
    SendStaticObjectView {
        pos: Vector3 { x, y: WALL_HEIGHT, z: cell_centre(s.z, s.size) },
        size: Vector3 { x: WALL_THICKNESS, y: WALL_HEIGHT, z: half_cell(s.size) },
        hitbox_scale: unit_factor(),
        model: "unit_cube"@,
    }
}

/// The wall on the left edge of a cell, where x is largest.
pub open spec fn left_wall_piece(s: Section) -> SendStaticObjectView {
    wall_along_z(s, fx_add_spec(cell_centre(s.x, s.size), half_cell(s.size)))
}

/// The wall on the right edge of a cell, where x is smallest.
pub open spec fn right_wall_piece(s: Section) -> SendStaticObjectView {
    wall_along_z(s, fx_sub_spec(cell_centre(s.x, s.size), half_cell(s.size)))
}

/// The wall on the far edge of a cell, where z is smallest.
pub open spec fn back_wall_piece(s: Section) -> SendStaticObjectView {
    wall_along_x(s, fx_sub_spec(cell_centre(s.z, s.size), half_cell(s.size)))
}

/// The wall on the near edge of a cell, where z is largest.
pub open spec fn front_wall_piece(s: Section) -> SendStaticObjectView {
    wall_along_x(s, fx_add_spec(cell_centre(s.z, s.size), half_cell(s.size)))
}

/// `piece` if it is wanted, else nothing.
pub open spec fn optional_piece(wanted: bool, piece: SendStaticObjectView) -> Seq<
    SendStaticObjectView,
> {
    if wanted {
        seq![piece]
    } else {
        Seq::empty()
    }
}

/// What a cell contributes to the world: its floor, then its left, right,
/// back and front wall, as far as it has them.
pub open spec fn section_pieces(s: Section) -> Seq<SendStaticObjectView> {
    optional_piece(s.has_floor, floor_piece(s)) + optional_piece(
        s.has_left_wall,
        left_wall_piece(s),
    ) + optional_piece(s.has_right_wall, right_wall_piece(s)) + optional_piece(
        s.has_back_wall,
        back_wall_piece(s),
    ) + optional_piece(s.has_front_wall, front_wall_piece(s))
}

/// What a list of cells contributes to the world, cell after cell.
pub open spec fn pieces_of(sections: Seq<Section>) -> Seq<SendStaticObjectView>
    decreases sections.len(),
{
    if sections.len() == 0 {
        Seq::empty()
    } else {
        pieces_of(sections.drop_last()) + section_pieces(sections.last())
    }
}

/// What snapshots of a list of objects as static objects hold.
pub open spec fn static_snapshots(objects: Seq<GenericObject>) -> Seq<SendStaticObjectView> {
    Seq::new(objects.len(), |i: int| objects[i].static_snapshot())
}

/// Whether every object of a list is an obstacle.
pub open spec fn all_static(objects: Seq<GenericObject>) -> bool {
    forall|i: int| 0 <= i < objects.len() ==> #[trigger] objects[i] is StaticObject
}

/// The coordinate of the centre of the cell with the given grid index.
fn centre_of(index: i32, size: i64) -> (r: i64)
    ensures
        r == cell_centre(index, size),
{
    assert(-0x4000_0000_0000_0000_0000_0000_0000_0000 <= index * size
        <= 0x4000_0000_0000_0000_0000_0000_0000_0000) by (nonlinear_arith)
        requires
            -0x8000_0000 <= index <= 0x8000_0000,
            -0x8000_0000_0000_0000 <= size <= 0x8000_0000_0000_0000,
    ;
    clamp_wide(index as i128 * size as i128)
}

/// An obstacle with the hitbox of its drawn size.
fn piece(position: Vector3, scale: Vector3, model: &str) -> (r: GenericObject)
    ensures
        r is StaticObject,
        r.static_snapshot() == (SendStaticObjectView {
            pos: position,
            size: scale,
            hitbox_scale: unit_factor(),
            model: model@,
        }),
{
    GenericObject::StaticObject(StaticObject::new(position, scale, model.to_owned()))
}

impl Section {
    /// An empty cell at column `x` and row `z` of a grid of squares with edge length `size`.
    pub fn new(x: i32, z: i32, size: i64) -> (r: Section)
        ensures
            r == (Section {
                x,
                z,
                size,
                has_floor: false,
                has_left_wall: false,
                has_right_wall: false,
                has_back_wall: false,
                has_front_wall: false,
            }),
    {
        Section {
            x,
            z,
            size,
            has_floor: false,
            has_left_wall: false,
            has_right_wall: false,
            has_back_wall: false,
            has_front_wall: false,
        }
    }

    /// The same cell with a floor.
    pub fn floor(self) -> (r: Section)
        ensures
            r == (Section { has_floor: true, ..self }),
    {
        Section { has_floor: true, ..self }
    }

    /// The same cell with a wall on its left edge.
    pub fn left_wall(self) -> (r: Section)
        ensures
            r == (Section { has_left_wall: true, ..self }),
    {
        Section { has_left_wall: true, ..self }
    }

    /// The same cell with a wall on its right edge.
    pub fn right_wall(self) -> (r: Section)
        ensures
            r == (Section { has_right_wall: true, ..self }),
    {
        Section { has_right_wall: true, ..self }
    }

    /// The same cell with a wall on its far edge.
    pub fn back_wall(self) -> (r: Section)
        ensures
            r == (Section { has_back_wall: true, ..self }),
    {
        Section { has_back_wall: true, ..self }
    }

    /// The same cell with a wall on its near edge.
    pub fn front_wall(self) -> (r: Section)
        ensures
            r == (Section { has_front_wall: true, ..self }),
    {
        Section { has_front_wall: true, ..self }
    }

    /// The obstacles that the cell contributes to the world.
    pub fn static_objects(&self) -> (r: Vec<GenericObject>)
        ensures
            all_static(r@),
            static_snapshots(r@) == section_pieces(*self),
    {
        let cx = centre_of(self.x, self.size);
        let cz = centre_of(self.z, self.size);
        let half = fx_mul(self.size, HALF);
        let mut objects: Vec<GenericObject> = Vec::new();
        let ghost f = optional_piece(self.has_floor, floor_piece(*self));
        let ghost l = optional_piece(self.has_left_wall, left_wall_piece(*self));
        let ghost r = optional_piece(self.has_right_wall, right_wall_piece(*self));
        let ghost b = optional_piece(self.has_back_wall, back_wall_piece(*self));
        if self.has_floor {
            objects.push(
                piece(
                    Vector3::new(cx, 0, cz),
                    Vector3::new(half, FLOOR_THICKNESS, half),
                    "unit_floor",
                ),
            );
        }
        assert(static_snapshots(objects@) =~= f);
        if self.has_left_wall {
            objects.push(
                piece(
                    Vector3::new(fx_add(cx, half), WALL_HEIGHT, cz),
                    Vector3::new(WALL_THICKNESS, WALL_HEIGHT, half),
                    "unit_cube",
                ),
            );
        }
        assert(static_snapshots(objects@) =~= f + l);
        if self.has_right_wall {
            objects.push(
                piece(
                    Vector3::new(fx_sub(cx, half), WALL_HEIGHT, cz),
                    Vector3::new(WALL_THICKNESS, WALL_HEIGHT, half),
                    "unit_cube",
                ),
            );
        }
        assert(static_snapshots(objects@) =~= f + l + r);
        if self.has_back_wall {
            objects.push(
                piece(
                    Vector3::new(cx, WALL_HEIGHT, fx_sub(cz, half)),
                    Vector3::new(half, WALL_HEIGHT, WALL_THICKNESS),
                    "unit_cube",
                ),
            );
        }
        assert(static_snapshots(objects@) =~= f + l + r + b);
        if self.has_front_wall {
            objects.push(
                piece(
                    Vector3::new(cx, WALL_HEIGHT, fx_add(cz, half)),
                    Vector3::new(half, WALL_HEIGHT, WALL_THICKNESS),
                    "unit_cube",
                ),
            );
        }
        assert(static_snapshots(objects@) =~= section_pieces(*self));
        objects
    }
}

} // verus!
