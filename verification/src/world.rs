use crate::input::Flags;
use vstd::prelude::*;

verus! {

/// One cell of the snake's body, holding its linear grid index.
struct SnakeCell(usize);

/// The snake itself: a body of cells. In this design the body never grows,
/// so it always holds exactly the single head cell.
struct Snake {
    body: Vec<SnakeCell>,
}

impl Snake {
    fn new(spawn_index: usize) -> (s: Snake)
        ensures
            s.body@.len() == 1,
            s.body@[0].0 == spawn_index,
    {
        Snake { body: vec![SnakeCell(spawn_index)] }
    }
}

/// The grid world: a square board of `width` columns and the snake on it.
/// The head's position is a linear, row-major index: row `head / width`,
/// column `head % width`. The index is not confined to the board; sustained
/// movement may take it outside `[0, width * width)`, and the renderer then
/// places the cell off the visible surface.
pub struct World {
    width: usize,
    snake: Snake,
}

/// How much one application of the held-key record `f` changes the head
/// index on a grid of the given width: one column per horizontal key, one
/// row (`width`) per vertical key, all four flags counted independently
/// and additively.
pub open spec fn move_delta(width: int, f: Flags) -> int {
    (if f.right { 1int } else { 0int }) - (if f.left { 1int } else { 0int }) + width * (
    (if f.down { 1int } else { 0int }) - (if f.up { 1int } else { 0int }))
}

/// The four conditional steps of one move, taken in the fixed order left,
/// right, up, down, all stay within the machine's index range. This is the
/// only limit on movement; the board's edge is not one.
pub open spec fn move_fits(head: int, width: int, f: Flags) -> bool {
    let h1 = if f.left { head - 1 } else { head };
    let h2 = if f.right { h1 + 1 } else { h1 };
    let h3 = if f.up { h2 - width } else { h2 };
    &&& (f.left ==> head - 1 >= 0)
    &&& (f.right ==> h1 + 1 <= usize::MAX as int)
    &&& (f.up ==> h2 - width >= 0)
    &&& (f.down ==> h3 + width <= usize::MAX as int)
}

impl World {
    /// The grid's width in cells, fixed at construction.
    pub closed spec fn width_spec(self) -> int {
        self.width as int
    }

    /// The head's linear grid index.
    pub closed spec fn head_spec(self) -> int {
        self.snake.body@[0].0 as int
    }

    /// Well-formed: a positive width, and the body holding exactly the
    /// head cell.
    pub closed spec fn wf(self) -> bool {
        &&& self.width >= 1
        &&& self.snake.body@.len() == 1
    }

    /// What well-formedness gives every caller: a positive grid width and
    /// a non-negative head index.
    pub proof fn lemma_wf(self)
        requires
            self.wf(),
        ensures
            self.width_spec() >= 1,
            self.head_spec() >= 0,
    {
    }

    /// A fresh world with the given grid width and the head spawned at the
    /// given linear index.
    pub fn new(width: usize, spawn_index: usize) -> (w: World)
        requires
            width >= 1,
        ensures
            w.wf(),
            w.width_spec() == width,
            w.head_spec() == spawn_index,
    {
        World { width, snake: Snake::new(spawn_index) }
    }

    /// The grid's width in cells.
    pub fn width(&self) -> (w: usize)
        ensures
            w == self.width_spec(),
    {
        self.width
    }

    /// The head's current linear grid index.
    pub fn snake_head_idx(&self) -> (h: usize)
        requires
            self.wf(),
        ensures
            h == self.head_spec(),
    {
        self.snake.body[0].0
    }

    /// The head index that one application of `f` would produce, without
    /// applying it.
    pub fn peek_move(&self, f: Flags) -> (h: usize)
        requires
            self.wf(),
            move_fits(self.head_spec(), self.width_spec(), f),
        ensures
            h == self.head_spec() + move_delta(self.width_spec(), f),
    {
        let mut h = self.snake.body[0].0;
        if f.left {
            h = h - 1;
        }
        if f.right {
            h = h + 1;
        }
        if f.up {
            h = h - self.width;
        }
        if f.down {
            h = h + self.width;
        }
        proof {
            let w = self.width_spec();
            assert(w * (1int - 1int) == 0 && w * (1int - 0int) == w && w * (0int - 1int) == -w
                && w * (0int - 0int) == 0) by (nonlinear_arith);
        }
        h
    }

    /// Whether one application of `f` stays within the machine's index
    /// range, so that `apply_move` may be called.
    pub fn can_apply(&self, f: Flags) -> (r: bool)
        requires
            self.wf(),
        ensures
            r == move_fits(self.head_spec(), self.width_spec(), f),
    {
        let mut h = self.snake.body[0].0;
        if f.left {
            if h == 0 {
                return false;
            }
            h = h - 1;
        }
        if f.right {
            if h == usize::MAX {
                return false;
            }
            h = h + 1;
        }
        if f.up {
            if h < self.width {
                return false;
            }
            h = h - self.width;
        }
        if f.down {
            if h > usize::MAX - self.width {
                return false;
            }
        }
        true
    }

    /// Move the head once by the held-key record `f`: the four flags are
    /// read independently, in the fixed order left, right, up, down, and
    /// their deltas add up, so two perpendicular keys held together move
    /// the head diagonally.
    pub fn apply_move(&mut self, f: Flags)
        requires
            old(self).wf(),
            move_fits(old(self).head_spec(), old(self).width_spec(), f),
        ensures
            final(self).wf(),
            final(self).width_spec() == old(self).width_spec(),
            final(self).head_spec() == old(self).head_spec() + move_delta(
                old(self).width_spec(),
                f,
            ),
    {
        let h = self.peek_move(f);
        self.snake.body[0] = SnakeCell(h);
    }
}

} // verus!
