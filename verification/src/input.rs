use crate::world::move_delta;
use crate::world::move_fits;
use crate::world::World;
use vstd::prelude::*;

verus! {

/// The four movement intents, one per arrow key: a flag is true exactly
/// while its key is held down.
#[derive(Clone, Copy, PartialEq, Eq, Structural, Debug)]
pub struct Flags {
    pub left: bool,
    pub right: bool,
    pub up: bool,
    pub down: bool,
}

impl Flags {
    /// The record with no key held.
    pub open spec fn released_spec() -> Flags {
        Flags { left: false, right: false, up: false, down: false }
    }

    /// The record with no key held.
    pub fn released() -> (f: Flags)
        ensures
            f == Flags::released_spec(),
    {
        Flags { left: false, right: false, up: false, down: false }
    }
}

/// The flag record after one key event: the named arrow key's flag becomes
/// `pressed`, every other flag keeps its value, and a key identifier that
/// is no arrow key changes nothing.
pub open spec fn key_apply(f: Flags, key: Seq<char>, pressed: bool) -> Flags {
    if key == "ArrowLeft"@ {
        Flags { left: pressed, right: f.right, up: f.up, down: f.down }
    } else if key == "ArrowRight"@ {
        Flags { left: f.left, right: pressed, up: f.up, down: f.down }
    } else if key == "ArrowUp"@ {
        Flags { left: f.left, right: f.right, up: pressed, down: f.down }
    } else if key == "ArrowDown"@ {
        Flags { left: f.left, right: f.right, up: f.up, down: pressed }
    } else {
        f
    }
}

/// Character-by-character string equality, used to map key identifiers.
fn str_eq(a: &str, b: &str) -> (r: bool)
    ensures
        r == (a@ == b@),
{
    let n = a.unicode_len();
    if n != b.unicode_len() {
        return false;
    }
    let mut i: usize = 0;
    while i < n
        invariant
            i <= n,
            n == a@.len(),
            n == b@.len(),
            forall|j: int| 0 <= j < i ==> a@[j] == b@[j],
        decreases n - i,
    {
        if a.get_char(i) != b.get_char(i) {
            return false;
        }
        i = i + 1;
    }
    proof {
        assert(a@ =~= b@);
    }
    true
}

/// The input bridge between asynchronous key and mouse events and the
/// synchronous per-frame read: the flag record the event callbacks write,
/// and the mouse-driven running intent. Everything runs on one execution
/// context, so a plain owned record keeps the four flags consistent
/// within a tick.
pub struct UI {
    controls: Flags,
    mouse_down: bool,
}

impl UI {
    /// The movement flags as last written.
    pub closed spec fn flags(self) -> Flags {
        self.controls
    }

    /// The mouse-driven running intent as last written.
    pub closed spec fn running(self) -> bool {
        self.mouse_down
    }

    /// A fresh input record: no key held, mouse intent off.
    pub fn new() -> (ui: UI)
        ensures
            ui.flags() == Flags::released_spec(),
            !ui.running(),
    {
        UI { controls: Flags::released(), mouse_down: false }
    }

    /// One key event: sets the named arrow key's flag to `pressed` and
    /// leaves everything else alone; other key identifiers are a no-op.
    pub fn set_key(&mut self, key: &str, pressed: bool)
        ensures
            final(self).flags() == key_apply(old(self).flags(), key@, pressed),
            final(self).running() == old(self).running(),
    {
        if str_eq(key, "ArrowLeft") {
            self.controls.left = pressed;
        } else if str_eq(key, "ArrowRight") {
            self.controls.right = pressed;
        } else if str_eq(key, "ArrowUp") {
            self.controls.up = pressed;
        } else if str_eq(key, "ArrowDown") {
            self.controls.down = pressed;
        }
    }

    /// One mouse event on the start or stop control: records the intent.
    /// The caller logs the event; nothing else changes.
    pub fn set_running(&mut self, running: bool)
        ensures
            final(self).running() == running,
            final(self).flags() == old(self).flags(),
    {
        self.mouse_down = running;
    }

    /// The per-frame read: the whole flag record in one step, exactly as
    /// last written. The result is a copy, so repeated reads of an
    /// unchanged record give equal values.
    pub fn snapshot(&self) -> (f: Flags)
        ensures
            f == self.flags(),
    {
        self.controls
    }

    /// The mouse-driven running intent as last written.
    pub fn running_now(&self) -> (r: bool)
        ensures
            r == self.running(),
    {
        self.mouse_down
    }

    /// Apply the current flag record to the world: the per-frame move.
    pub fn update(&self, world: &mut World)
        requires
            old(world).wf(),
            move_fits(old(world).head_spec(), old(world).width_spec(), self.flags()),
        ensures
            final(world).wf(),
            final(world).width_spec() == old(world).width_spec(),
            final(world).head_spec() == old(world).head_spec() + move_delta(
                old(world).width_spec(),
                self.flags(),
            ),
    {
        let f = self.snapshot();
        world.apply_move(f);
    }
}

/// The key identifiers the input record tracks: the four arrow keys.
pub open spec fn is_arrow_key(key: Seq<char>) -> bool {
    ||| key == "ArrowLeft"@
    ||| key == "ArrowRight"@
    ||| key == "ArrowUp"@
    ||| key == "ArrowDown"@
}

/// The flag a record holds for one arrow key.
pub open spec fn flag_for(f: Flags, key: Seq<char>) -> bool
    recommends
        is_arrow_key(key),
{
    if key == "ArrowLeft"@ {
        f.left
    } else if key == "ArrowRight"@ {
        f.right
    } else if key == "ArrowUp"@ {
        f.up
    } else {
        f.down
    }
}

/// A sequence of key writes — oldest first, each a key identifier and the
/// pressed value written — applied to a record one after the other.
pub open spec fn apply_writes(f: Flags, ws: Seq<(Seq<char>, bool)>) -> Flags
    decreases ws.len(),
{
    if ws.len() == 0 {
        f
    } else {
        key_apply(apply_writes(f, ws.drop_last()), ws.last().0, ws.last().1)
    }
}

/// Law: for one key, the later of two writes wins — writing `p1` and then
/// `p2` to the same key leaves the record that writing `p2` alone leaves.
pub proof fn lemma_last_write_wins(f: Flags, key: Seq<char>, p1: bool, p2: bool)
    ensures
        key_apply(key_apply(f, key, p1), key, p2) == key_apply(f, key, p2),
{
}

/// Law: one write is confined to its own key — it sets that key's flag to
/// the value written and leaves the flag of every other arrow key alone.
pub proof fn lemma_write_is_confined_to_its_key(f: Flags, key: Seq<char>, p: bool, other: Seq<char>)
    requires
        is_arrow_key(other),
    ensures
        is_arrow_key(key) ==> flag_for(key_apply(f, key, p), key) == p,
        key != other ==> flag_for(key_apply(f, key, p), other) == flag_for(f, other),
{
}

/// Law: after any sequence of writes, the record holds for an arrow key
/// exactly the value of the last write to that key — whatever was written
/// to other keys before, between or after.
pub proof fn lemma_flags_hold_the_last_write(
    f: Flags,
    ws: Seq<(Seq<char>, bool)>,
    key: Seq<char>,
    i: int,
)
    requires
        is_arrow_key(key),
        0 <= i < ws.len(),
        ws[i].0 == key,
        forall|j: int| i < j < ws.len() ==> ws[j].0 != key,
    ensures
        flag_for(apply_writes(f, ws), key) == ws[i].1,
    decreases ws.len(),
{
    let prefix = ws.drop_last();
    if i == ws.len() - 1 {
        lemma_write_is_confined_to_its_key(apply_writes(f, prefix), key, ws[i].1, key);
    } else {
        lemma_flags_hold_the_last_write(f, prefix, key, i);
        lemma_write_is_confined_to_its_key(apply_writes(f, prefix), ws.last().0, ws.last().1, key);
    }
}

/// Law: a key that no write in the sequence names keeps the flag it had
/// before the sequence ran.
pub proof fn lemma_untouched_key_keeps_its_flag(f: Flags, ws: Seq<(Seq<char>, bool)>, key: Seq<char>)
    requires
        is_arrow_key(key),
        forall|j: int| 0 <= j < ws.len() ==> ws[j].0 != key,
    ensures
        flag_for(apply_writes(f, ws), key) == flag_for(f, key),
    decreases ws.len(),
{
    if ws.len() > 0 {
        let prefix = ws.drop_last();
        lemma_untouched_key_keeps_its_flag(f, prefix, key);
        lemma_write_is_confined_to_its_key(apply_writes(f, prefix), ws.last().0, ws.last().1, key);
    }
}

} // verus!
