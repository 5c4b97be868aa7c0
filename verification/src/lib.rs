//! A verified core for a single-cell snake animation: a grid world holding
//! the snake's head, an input record fed by key and mouse events, the
//! geometry of each rendered frame, and the frame-limited game loop that
//! ties them together. The drawing surface, event listeners and frame
//! scheduler live outside this crate; everything here is plain state and
//! arithmetic with proved contracts.

mod game;
mod input;
mod render;
mod world;

pub use game::lemma_finished_once;
pub use game::next_frames;
pub use game::next_status;
pub use game::reschedules;
pub use game::tick_draws;
pub use game::tick_schedules;
pub use game::Game;
pub use game::Status;
pub use game::TickOutcome;
pub use game::FRAME_LIMIT;

pub use input::apply_writes;
pub use input::flag_for;
pub use input::is_arrow_key;
pub use input::key_apply;
pub use input::lemma_flags_hold_the_last_write;
pub use input::lemma_last_write_wins;
pub use input::lemma_untouched_key_keeps_its_flag;
pub use input::lemma_write_is_confined_to_its_key;
pub use input::Flags;
pub use input::UI;

pub use render::frame_geometry;
pub use render::geometry_fits;
pub use render::geometry_ok;
pub use render::DrawCommand;
pub use render::CELL_SIZE;

pub use world::move_delta;
pub use world::move_fits;
pub use world::World;
