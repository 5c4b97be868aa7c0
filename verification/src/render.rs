use crate::world::World;
use vstd::arithmetic::div_mod::lemma_fundamental_div_mod;
use vstd::arithmetic::div_mod::lemma_mod_bound;
use vstd::arithmetic::mul::lemma_mul_inequality;
use vstd::prelude::*;

verus! {

/// Side of one grid cell in logical drawing units.
pub const CELL_SIZE: usize = 20;

/// Everything one frame paints, as plain numbers: the drawing surface is
/// resized to a `side` by `side` square, filled whole with the background
/// color, and then exactly one foreground square of side `cell` is painted
/// with its top-left corner at `(x, y)`. Nothing else is drawn.
#[derive(Clone, Copy, PartialEq, Eq, Structural, Debug)]
pub struct DrawCommand {
    pub side: usize,
    pub x: usize,
    pub y: usize,
    pub cell: usize,
}

/// The frame's geometry stays within the machine's integer range: both the
/// surface's side and the head's vertical offset fit once scaled by the
/// cell size.
pub open spec fn geometry_fits(head: int, width: int) -> bool {
    &&& width <= usize::MAX as int / CELL_SIZE as int
    &&& head / width <= usize::MAX as int / CELL_SIZE as int
}

/// Scaling by the cell size keeps a bounded value within the machine's
/// range.
proof fn lemma_times_cell_fits(a: int)
    requires
        0 <= a,
        a <= usize::MAX as int / CELL_SIZE as int,
    ensures
        a * CELL_SIZE as int <= usize::MAX as int,
{
    let m = usize::MAX as int;
    let c = CELL_SIZE as int;
    lemma_fundamental_div_mod(m, c);
    lemma_mul_inequality(a, m / c, c);
    lemma_mod_bound(m, c);
    vstd::arithmetic::mul::lemma_mul_is_commutative(c, m / c);
}

/// Whether a head at the given index on a grid of the given width keeps
/// the scaled geometry within the machine's integer range.
pub fn geometry_fits_at(head: usize, width: usize) -> (r: bool)
    requires
        width >= 1,
    ensures
        r == geometry_fits(head as int, width as int),
{
    width <= usize::MAX / CELL_SIZE && head / width <= usize::MAX / CELL_SIZE
}

/// Whether `frame_geometry` may be called on this world: the scaled
/// geometry fits the machine's integer range.
pub fn geometry_ok(world: &World) -> (r: bool)
    requires
        world.wf(),
    ensures
        r == geometry_fits(world.head_spec(), world.width_spec()),
{
    proof {
        world.lemma_wf();
    }
    geometry_fits_at(world.snake_head_idx(), world.width())
}

/// The geometry of one rendered frame: a square surface of
/// `width * CELL_SIZE` units, and the single foreground square of side
/// `CELL_SIZE` at the head's cell — column `head % width`, row
/// `head / width`, each scaled by the cell size.
pub fn frame_geometry(world: &World) -> (cmd: DrawCommand)
    requires
        world.wf(),
        geometry_fits(world.head_spec(), world.width_spec()),
    ensures
        cmd.side == world.width_spec() * CELL_SIZE as int,
        cmd.x == (world.head_spec() % world.width_spec()) * CELL_SIZE as int,
        cmd.y == (world.head_spec() / world.width_spec()) * CELL_SIZE as int,
        cmd.cell == CELL_SIZE,
{
    let width = world.width();
    let head = world.snake_head_idx();
    proof {
        world.lemma_wf();
        lemma_mod_bound(head as int, width as int);
        lemma_times_cell_fits(width as int);
        lemma_times_cell_fits(head as int % width as int);
        lemma_times_cell_fits(head as int / width as int);
        lemma_mul_inequality(head as int % width as int, width as int, CELL_SIZE as int);
    }
    let x = (head % width) * CELL_SIZE;
    let y = (head / width) * CELL_SIZE;
    DrawCommand { side: width * CELL_SIZE, x, y, cell: CELL_SIZE }
}

} // verus!
