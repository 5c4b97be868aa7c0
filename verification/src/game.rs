use crate::input::key_apply;
use crate::input::UI;
use crate::render::frame_geometry;
use crate::render::geometry_fits;
use crate::render::geometry_fits_at;
use crate::render::DrawCommand;
use crate::render::CELL_SIZE;
use crate::world::move_delta;
use crate::world::move_fits;
use crate::world::World;
use vstd::prelude::*;

verus! {

/// Lifecycle of the loop: `Stopped` before `start` and after `stop`,
/// `Running` while ticks do work, and `Finished` once the frame limit has
/// been passed. `Finished` is terminal.
#[derive(Clone, Copy, PartialEq, Eq, Structural, Debug)]
pub enum Status {
    Stopped,
    Running,
    Finished,
}

/// Once the frame count strictly exceeds this limit, the next tick moves
/// the loop to `Finished` instead of doing any work.
pub const FRAME_LIMIT: u64 = 3000;

/// What the host must do after one tick.
#[derive(Clone, Copy, PartialEq, Eq, Structural, Debug)]
pub enum TickOutcome {
    /// The frame limit has been passed: show the completion message and do
    /// not schedule another tick.
    Finish,
    /// A frame was produced: paint `draw`, show the frame count `frames`,
    /// and schedule the next tick.
    Frame { draw: DrawCommand, frames: u64 },
    /// The loop is not running: schedule the next tick and do nothing
    /// else.
    Idle,
}

/// Whether the host schedules another tick after this outcome. Only the
/// finishing outcome leaves nothing scheduled.
pub open spec fn reschedules(out: TickOutcome) -> bool {
    out != TickOutcome::Finish
}

/// The lifecycle half of one tick: the status after it. The frame-limit
/// check comes first, before any input is read, so the loop finishes as
/// soon as the count has strictly passed the limit.
pub open spec fn next_status(s: Status, frames: int) -> Status {
    if frames > FRAME_LIMIT as int {
        Status::Finished
    } else {
        s
    }
}

/// The frame count after one tick: unchanged by the finishing check and by
/// an idle tick, advanced by one by a productive frame.
pub open spec fn next_frames(s: Status, frames: int) -> int {
    if frames > FRAME_LIMIT as int {
        frames
    } else if s == Status::Running {
        frames + 1
    } else {
        frames
    }
}

/// Whether a tick taken in this state leaves another tick scheduled.
pub open spec fn tick_schedules(s: Status, frames: int) -> bool {
    frames <= FRAME_LIMIT as int
}

/// Whether a tick taken in this state reads input, moves the head and
/// paints a frame: only below the limit and only while running.
pub open spec fn tick_draws(s: Status, frames: int) -> bool {
    frames <= FRAME_LIMIT as int && s == Status::Running
}

/// Law: the loop finishes exactly once. A tick lands in `Finished`
/// exactly when the frame count has strictly passed the limit or the loop
/// already finished; a finished loop stays finished with its count frozen;
/// and the finishing tick, like every tick taken after it, leaves the host
/// nothing to schedule.
pub proof fn lemma_finished_once(s: Status, frames: int)
    requires
        s == Status::Finished ==> frames > FRAME_LIMIT as int,
    ensures
        (next_status(s, frames) == Status::Finished) <==> (frames > FRAME_LIMIT as int || s
            == Status::Finished),
        s == Status::Finished ==> next_status(s, frames) == s && next_frames(s, frames) == frames,
        next_status(s, frames) == Status::Finished ==> !tick_schedules(s, frames),
{
}

/// The loop object: the session status and frame clock it owns, the world
/// it drives, and the input record the host's event callbacks write into.
pub struct Game {
    status: Status,
    frame_count: u64,
    world: World,
    ui: UI,
}

impl Game {
    /// The session status.
    pub closed spec fn status_spec(self) -> Status {
        self.status
    }

    /// How many productive frames have been counted.
    pub closed spec fn frames_spec(self) -> int {
        self.frame_count as int
    }

    /// The world the loop drives.
    pub closed spec fn world_spec(self) -> World {
        self.world
    }

    /// The input record the loop reads once per tick.
    pub closed spec fn ui_spec(self) -> UI {
        self.ui
    }

    /// The authoritative "game is active" flag: true exactly while the
    /// loop is in `Running`.
    pub open spec fn started(self) -> bool {
        self.status_spec() == Status::Running
    }

    /// Well-formed: the world is, and a finished loop's count has indeed
    /// passed the limit.
    pub open spec fn wf(self) -> bool {
        &&& self.world_spec().wf()
        &&& (self.status_spec() == Status::Finished ==> self.frames_spec() > FRAME_LIMIT as int)
    }

    /// A fresh loop around the given world and input record: stopped, with
    /// the frame clock at zero.
    pub fn new(world: World, ui: UI) -> (g: Game)
        requires
            world.wf(),
        ensures
            g.wf(),
            g.status_spec() == Status::Stopped,
            g.frames_spec() == 0,
            g.world_spec() == world,
            g.ui_spec() == ui,
    {
        Game { status: Status::Stopped, frame_count: 0, world, ui }
    }

    /// Begin the session: a stopped loop starts running. `Finished` is
    /// terminal, so starting a finished loop changes nothing.
    pub fn start(&mut self)
        requires
            old(self).wf(),
        ensures
            final(self).wf(),
            old(self).status_spec() != Status::Finished ==> final(self).status_spec()
                == Status::Running,
            old(self).status_spec() == Status::Finished ==> final(self).status_spec()
                == Status::Finished,
            final(self).frames_spec() == old(self).frames_spec(),
            final(self).world_spec() == old(self).world_spec(),
            final(self).ui_spec() == old(self).ui_spec(),
    {
        if !matches!(self.status, Status::Finished) {
            self.status = Status::Running;
        }
    }

    /// End the session early: a running loop stops. `Finished` stays
    /// finished.
    pub fn stop(&mut self)
        requires
            old(self).wf(),
        ensures
            final(self).wf(),
            old(self).status_spec() != Status::Finished ==> final(self).status_spec()
                == Status::Stopped,
            old(self).status_spec() == Status::Finished ==> final(self).status_spec()
                == Status::Finished,
            final(self).frames_spec() == old(self).frames_spec(),
            final(self).world_spec() == old(self).world_spec(),
            final(self).ui_spec() == old(self).ui_spec(),
    {
        if !matches!(self.status, Status::Finished) {
            self.status = Status::Stopped;
        }
    }

    /// One key event, forwarded to the input record; nothing else moves.
    pub fn set_key(&mut self, key: &str, pressed: bool)
        requires
            old(self).wf(),
        ensures
            final(self).wf(),
            final(self).ui_spec().flags() == key_apply(old(self).ui_spec().flags(), key@, pressed),
            final(self).ui_spec().running() == old(self).ui_spec().running(),
            final(self).status_spec() == old(self).status_spec(),
            final(self).frames_spec() == old(self).frames_spec(),
            final(self).world_spec() == old(self).world_spec(),
    {
        self.ui.set_key(key, pressed);
    }

    /// One mouse event on the start or stop control, forwarded to the
    /// input record. It records intent only: the authoritative status is
    /// not wired to it and does not move.
    pub fn set_running(&mut self, running: bool)
        requires
            old(self).wf(),
        ensures
            final(self).wf(),
            final(self).ui_spec().running() == running,
            final(self).ui_spec().flags() == old(self).ui_spec().flags(),
            final(self).status_spec() == old(self).status_spec(),
            final(self).frames_spec() == old(self).frames_spec(),
            final(self).world_spec() == old(self).world_spec(),
    {
        self.ui.set_running(running);
    }

    /// The session status.
    pub fn status(&self) -> (s: Status)
        ensures
            s == self.status_spec(),
    {
        self.status
    }

    /// The frame clock's current count.
    pub fn frame_count(&self) -> (n: u64)
        ensures
            n == self.frames_spec(),
    {
        self.frame_count
    }

    /// The world the loop drives.
    pub fn world(&self) -> (w: &World)
        ensures
            *w == self.world_spec(),
    {
        &self.world
    }

    /// The mouse-driven running intent as last recorded.
    pub fn running_intent(&self) -> (r: bool)
        ensures
            r == self.ui_spec().running(),
    {
        self.ui.running_now()
    }

    /// What a tick in the current state needs of the machine's integer
    /// range: if it would move and draw, the move and the moved head's
    /// frame geometry must fit.
    pub open spec fn tick_fits(self) -> bool {
        tick_draws(self.status_spec(), self.frames_spec()) ==> {
            let w = self.world_spec();
            let f = self.ui_spec().flags();
            &&& move_fits(w.head_spec(), w.width_spec(), f)
            &&& geometry_fits(w.head_spec() + move_delta(w.width_spec(), f), w.width_spec())
        }
    }

    /// Whether `tick` may be called now.
    pub fn can_tick(&self) -> (r: bool)
        requires
            self.wf(),
        ensures
            r == self.tick_fits(),
    {
        if self.frame_count > FRAME_LIMIT {
            return true;
        }
        if !matches!(self.status, Status::Running) {
            return true;
        }
        let f = self.ui.snapshot();
        if !self.world.can_apply(f) {
            return false;
        }
        proof {
            self.world.lemma_wf();
        }
        let h = self.world.peek_move(f);
        geometry_fits_at(h, self.world.width())
    }

    /// One scheduled tick. First the frame-limit check: past the limit the
    /// loop finishes, before any input is read, so the final frame's input
    /// is never applied. Otherwise, while running, the tick reads the flag
    /// record once, moves the head by it, produces the frame's geometry
    /// and advances the frame clock; while not running it does nothing.
    /// The outcome tells the host what to paint, show and schedule.
    pub fn tick(&mut self) -> (out: TickOutcome)
        requires
            old(self).wf(),
            old(self).tick_fits(),
        ensures
            final(self).wf(),
            final(self).ui_spec() == old(self).ui_spec(),
            final(self).world_spec().width_spec() == old(self).world_spec().width_spec(),
            final(self).status_spec() == next_status(
                old(self).status_spec(),
                old(self).frames_spec(),
            ),
            final(self).frames_spec() == next_frames(
                old(self).status_spec(),
                old(self).frames_spec(),
            ),
            reschedules(out) == tick_schedules(old(self).status_spec(), old(self).frames_spec()),
            (out is Finish) <==> old(self).frames_spec() > FRAME_LIMIT as int,
            (out is Frame) <==> tick_draws(old(self).status_spec(), old(self).frames_spec()),
            (out is Frame) ==> old(self).started(),
            !tick_draws(old(self).status_spec(), old(self).frames_spec())
                ==> final(self).world_spec() == old(self).world_spec(),
            out matches TickOutcome::Frame { draw, frames } ==> ({
                let w0 = old(self).world_spec();
                let width = w0.width_spec();
                let h1 = w0.head_spec() + move_delta(width, old(self).ui_spec().flags());
                &&& final(self).world_spec().head_spec() == h1
                &&& frames == old(self).frames_spec() + 1
                &&& draw.cell == CELL_SIZE
                &&& draw.side == width * CELL_SIZE as int
                &&& draw.x == (h1 % width) * CELL_SIZE as int
                &&& draw.y == (h1 / width) * CELL_SIZE as int
            }),
    {
        if self.frame_count > FRAME_LIMIT {
            self.status = Status::Finished;
            return TickOutcome::Finish;
        }
        if matches!(self.status, Status::Running) {
            let f = self.ui.snapshot();
            self.world.apply_move(f);
            let draw = frame_geometry(&self.world);
            self.frame_count = self.frame_count + 1;
            return TickOutcome::Frame { draw, frames: self.frame_count };
        }
        TickOutcome::Idle
    }
}

} // verus!
