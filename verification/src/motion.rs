//! The discrete part of the camera's motion: which movement keys are held,
//! which direction they ask for, and whether anything changed.

use vstd::prelude::*;
use std::time::Duration;
use crate::error::Error;
use crate::handler::EventHandler;
use crate::input::Event;
use crate::input::Key;
use crate::input::MouseState;
use crate::input::RelativeMouseState;
use crate::keys::key_at;
use crate::keys::key_dir;
use crate::keys::key_dir_spec;
use crate::keys::key_idx;
use crate::keys::key_of_slot;
use crate::keys::slot;
use crate::keys::KEY_COUNT;
use crate::time::duration_nanos;
use crate::vector::clamp_spec;
use crate::vector::Vec3i;
use crate::window::WindowState;

verus! {

/// Whether bit `i` of `mask` is set.
pub open spec fn bit_set(mask: usize, i: usize) -> bool {
    (mask >> i) & 1 == 1
}

/// The keys that `mask` records as held.
pub open spec fn held_keys(mask: usize) -> Set<Key> {
    Set::new(|key: Key| slot(key) matches Some(i) && bit_set(mask, i))
}

/// The sum of two vectors.
pub open spec fn vec_sum(a: (int, int, int), b: (int, int, int)) -> (int, int, int) {
    (a.0 + b.0, a.1 + b.1, a.2 + b.2)
}

/// The sum of the camera-frame directions of the held keys whose slot is
/// below `n`.
pub open spec fn local_sum(held: Set<Key>, n: nat) -> (int, int, int)
    decreases n,
{
    if n == 0 {
        (0, 0, 0)
    } else {
        let key = key_of_slot(n - 1);
        let rest = local_sum(held, (n - 1) as nat);
        if held.contains(key) {
            vec_sum(rest, key_dir_spec(key).0)
        } else {
            rest
        }
    }
}

/// The sum of the world-frame directions of the held keys whose slot is
/// below `n`.
pub open spec fn world_sum(held: Set<Key>, n: nat) -> (int, int, int)
    decreases n,
{
    if n == 0 {
        (0, 0, 0)
    } else {
        let key = key_of_slot(n - 1);
        let rest = world_sum(held, (n - 1) as nat);
        if held.contains(key) {
            vec_sum(rest, key_dir_spec(key).1)
        } else {
            rest
        }
    }
}

/// The direction in the frame of the camera that the held keys ask for: the
/// sum of their directions, each component limited to the interval from -1
/// to 1.
pub open spec fn local_direction(held: Set<Key>) -> (int, int, int) {
    let sum = local_sum(held, KEY_COUNT as nat);
    (clamp_spec(sum.0, -1, 1), clamp_spec(sum.1, -1, 1), clamp_spec(sum.2, -1, 1))
}

/// The direction in the frame of the world that the held keys ask for.
pub open spec fn world_direction(held: Set<Key>) -> (int, int, int) {
    world_sum(held, KEY_COUNT as nat)
}

/// What one step of motion asks for.
#[derive(Clone, Copy, Debug, PartialEq, Eq)]
pub struct Stride {
    /// The direction in the frame of the camera, not yet of unit length.
    pub local: Vec3i,
    /// The direction in the frame of the world.
    pub world: Vec3i,
    /// The length of the step in whole microseconds.
    pub micros: u128,
}

/// The held movement keys and the flag that says whether input arrived
/// since the last step.
pub struct Motion {
    /// Input arrived since the last step.
    pub updated: bool,
    /// Bit `i` is set while the key of slot `i` is held.
    pub key_mask: usize,
}

/// Setting bit `i` sets that bit and leaves the others as they were.
proof fn lemma_bit_after_set(m: usize, i: usize, j: usize)
    requires
        i < 12,
        j < 12,
    ensures
        bit_set(m | (1usize << i), j) == (j == i || bit_set(m, j)),
        m < 4096 ==> (m | (1usize << i)) < 4096,
{
    assert(((m | (1usize << i)) >> j) & 1 == 1 <==> (j == i || (m >> j) & 1 == 1)) by (bit_vector)
        requires
            i < 12,
            j < 12,
    ;
    assert(m < 4096 ==> (m | (1usize << i)) < 4096) by (bit_vector)
        requires
            i < 12,
    ;
}

/// Clearing bit `i` clears that bit and leaves the others as they were.
proof fn lemma_bit_after_clear(m: usize, i: usize, j: usize)
    requires
        i < 12,
        j < 12,
    ensures
        bit_set(m & !(1usize << i), j) == (j != i && bit_set(m, j)),
        m < 4096 ==> (m & !(1usize << i)) < 4096,
{
    assert(((m & !(1usize << i)) >> j) & 1 == 1 <==> (j != i && (m >> j) & 1 == 1))
        by (bit_vector)
        requires
            i < 12,
            j < 12,
    ;
    assert(m < 4096 ==> (m & !(1usize << i)) < 4096) by (bit_vector)
        requires
            i < 12,
    ;
}

/// A mask within the twelve slots is zero exactly if it records no key.
pub proof fn lemma_some_key_held(mask: usize)
    requires
        mask < 4096,
    ensures
        (mask != 0) == exists|key: Key| held_keys(mask).contains(key),
{
    if mask != 0 {
        assert(exists|i: usize| i < 12 && #[trigger] bit_set(mask, i)) by {
            assert(((mask >> 0usize) & 1 == 1) || ((mask >> 1usize) & 1 == 1) || ((mask >> 2usize) & 1
                == 1) || ((mask >> 3usize) & 1 == 1) || ((mask >> 4usize) & 1 == 1) || ((mask
                >> 5usize) & 1 == 1) || ((mask >> 6usize) & 1 == 1) || ((mask >> 7usize) & 1 == 1)
                || ((mask >> 8usize) & 1 == 1) || ((mask >> 9usize) & 1 == 1) || ((mask
                >> 10usize) & 1 == 1) || ((mask >> 11usize) & 1 == 1)) by (bit_vector)
                requires
                    mask != 0,
                    mask < 4096,
            ;
            assert(bit_set(mask, 0) || bit_set(mask, 1) || bit_set(mask, 2) || bit_set(mask, 3)
                || bit_set(mask, 4) || bit_set(mask, 5) || bit_set(mask, 6) || bit_set(mask, 7)
                || bit_set(mask, 8) || bit_set(mask, 9) || bit_set(mask, 10) || bit_set(mask, 11));
        }
        let i = choose|i: usize| i < 12 && #[trigger] bit_set(mask, i);
        let key = key_of_slot(i as int);
        assert(slot(key) == Some(i));
        assert(held_keys(mask).contains(key));
    } else {
        assert forall|key: Key| !held_keys(mask).contains(key) by {
            if let Some(i) = slot(key) {
                assert((0usize >> i) & 1 != 1) by (bit_vector);
            }
        }
    }
}

/// How often `key` counts in a sum over the held keys: once if it is held.
pub open spec fn pressed(held: Set<Key>, key: Key) -> int {
    if held.contains(key) {
        1
    } else {
        0
    }
}

/// The squared length of a vector.
pub open spec fn norm_sq(v: (int, int, int)) -> int {
    v.0 * v.0 + v.1 * v.1 + v.2 * v.2
}

/// Two keys are opposite if their directions are not zero and cancel.
pub open spec fn opposite(a: Key, b: Key) -> bool {
    let da = key_dir_spec(a);
    let db = key_dir_spec(b);
    &&& da != ((0int, 0int, 0int), (0int, 0int, 0int))
    &&& vec_sum(da.0, db.0) == (0int, 0int, 0int)
    &&& vec_sum(da.1, db.1) == (0int, 0int, 0int)
}

/// The directions axis by axis. In the frame of the camera, `x` counts the
/// keys to the right less those to the left, and `z` the keys backwards less
/// those forwards, each limited to the interval from -1 to 1. In the frame of
/// the world, `z` counts the key upwards less the key downwards.
pub proof fn lemma_direction_by_axis(held: Set<Key>)
    ensures
        local_direction(held) == (
            clamp_spec(
                pressed(held, Key::D) + pressed(held, Key::Right) - pressed(held, Key::A) - pressed(
                    held,
                    Key::Left,
                ),
                -1,
                1,
            ),
            0int,
            clamp_spec(
                pressed(held, Key::S) + pressed(held, Key::Down) - pressed(held, Key::W) - pressed(
                    held,
                    Key::Up,
                ),
                -1,
                1,
            ),
        ),
        world_direction(held) == (
            0int,
            0int,
            pressed(held, Key::Space) - pressed(held, Key::LShift),
        ),
{
    let w = pressed(held, Key::W);
    let up = pressed(held, Key::Up);
    let a = pressed(held, Key::A);
    let left = pressed(held, Key::Left);
    let s = pressed(held, Key::S);
    let down = pressed(held, Key::Down);
    let d = pressed(held, Key::D);
    let right = pressed(held, Key::Right);
    let space = pressed(held, Key::Space);
    let shift = pressed(held, Key::LShift);
    assert(local_sum(held, 0) == (0int, 0int, 0int));
    assert(local_sum(held, 1) == (0int, 0int, -w));
    assert(local_sum(held, 2) == (0int, 0int, -w - up));
    assert(local_sum(held, 3) == (-a, 0int, -w - up));
    assert(local_sum(held, 4) == (-a - left, 0int, -w - up));
    assert(local_sum(held, 5) == (-a - left, 0int, s - w - up));
    assert(local_sum(held, 6) == (-a - left, 0int, s + down - w - up));
    assert(local_sum(held, 7) == (d - a - left, 0int, s + down - w - up));
    assert(local_sum(held, 8) == (d + right - a - left, 0int, s + down - w - up));
    assert(local_sum(held, 9) == local_sum(held, 8));
    assert(local_sum(held, 10) == local_sum(held, 8));
    assert(local_sum(held, 11) == local_sum(held, 8));
    assert(local_sum(held, 12) == local_sum(held, 8));
    assert(world_sum(held, 0) == (0int, 0int, 0int));
    assert(world_sum(held, 1) == (0int, 0int, 0int));
    assert(world_sum(held, 2) == (0int, 0int, 0int));
    assert(world_sum(held, 3) == (0int, 0int, 0int));
    assert(world_sum(held, 4) == (0int, 0int, 0int));
    assert(world_sum(held, 5) == (0int, 0int, 0int));
    assert(world_sum(held, 6) == (0int, 0int, 0int));
    assert(world_sum(held, 7) == (0int, 0int, 0int));
    assert(world_sum(held, 8) == (0int, 0int, 0int));
    assert(world_sum(held, 9) == (0int, 0int, space));
    assert(world_sum(held, 10) == (0int, 0int, space - shift));
    assert(world_sum(held, 11) == (0int, 0int, space - shift));
    assert(world_sum(held, 12) == (0int, 0int, space - shift));
}

/// Two opposite keys held together, and no other, ask for no motion at all.
pub proof fn law_opposite_keys_cancel(a: Key, b: Key)
    requires
        opposite(a, b),
    ensures
        local_direction(set![a, b]) == (0int, 0int, 0int),
        world_direction(set![a, b]) == (0int, 0int, 0int),
{
    lemma_direction_by_axis(set![a, b]);
}

/// Keys that ask for the same direction do not add up: held together they
/// ask for what one of them asks for.
pub proof fn law_same_direction_keys_do_not_add(a: Key, b: Key)
    requires
        key_dir_spec(a) == key_dir_spec(b),
    ensures
        local_direction(set![a, b]) == key_dir_spec(a).0,
        local_direction(set![a]) == key_dir_spec(a).0,
{
    lemma_direction_by_axis(set![a, b]);
    lemma_direction_by_axis(set![a]);
}

/// A key along `x` and a key along `z` of the camera's frame, held together,
/// ask for the diagonal of their two directions. Its squared length is 2,
/// where that of a single key's direction is 1: both are other than zero, so
/// both are brought to unit length before the camera moves.
pub proof fn law_diagonal_of_two_axes(a: Key, b: Key)
    requires
        key_dir_spec(a).0.0 != 0,
        key_dir_spec(b).0.2 != 0,
    ensures
        local_direction(set![a, b]) == vec_sum(key_dir_spec(a).0, key_dir_spec(b).0),
        norm_sq(local_direction(set![a, b])) == 2,
        norm_sq(local_direction(set![a])) == 1,
        norm_sq(local_direction(set![b])) == 1,
{
    lemma_direction_by_axis(set![a, b]);
    lemma_direction_by_axis(set![a]);
    lemma_direction_by_axis(set![b]);
    let x = key_dir_spec(a).0.0;
    let z = key_dir_spec(b).0.2;
    assert(x * x == 1) by (nonlinear_arith)
        requires
            x == 1 || x == -1,
    ;
    assert(z * z == 1) by (nonlinear_arith)
        requires
            z == 1 || z == -1,
    ;
}

impl Motion {
    /// The keys that are held.
    pub open spec fn held(&self) -> Set<Key> {
        held_keys(self.key_mask)
    }

    /// The key mask uses the twelve slots only.
    pub open spec fn wf(&self) -> bool {
        self.key_mask < 4096
    }

    /// No key is held and nothing has changed.
    pub fn new() -> (m: Motion)
        ensures
            m.wf(),
            !m.updated,
            m.key_mask == 0,
            m.held() == Set::<Key>::empty(),
    {
        proof {
            assert forall|key: Key| !held_keys(0).contains(key) by {
                if let Some(i) = slot(key) {
                    assert((0usize >> i) & 1 != 1) by (bit_vector);
                }
            }
            assert(held_keys(0) =~= Set::<Key>::empty());
        }
        Motion { updated: false, key_mask: 0 }
    }

    /// `after` is `before` with the edge of `key` recorded: down if `pressed`,
    /// up otherwise. A key without a slot changes nothing.
    pub open spec fn edge_recorded(before: Motion, after: Motion, key: Key, pressed: bool) -> bool {
        match slot(key) {
            None => after == before,
            Some(i) => {
                &&& after.updated
                &&& after.key_mask == if pressed {
                    before.key_mask | (1usize << i)
                } else {
                    before.key_mask & !(1usize << i)
                }
                &&& after.held() == if pressed {
                    before.held().insert(key)
                } else {
                    before.held().remove(key)
                }
            },
        }
    }

    /// Records that `key` went down (`pressed`) or up. A key without a slot
    /// changes nothing.
    pub fn handle_key_edge(&mut self, key: Key, pressed: bool)
        ensures
            Self::edge_recorded(*old(self), *final(self), key, pressed),
            old(self).wf() ==> final(self).wf(),
    {
        if let Some(i) = key_idx(key) {
            let ghost before = self.key_mask;
            if pressed {
                self.key_mask |= 1 << i;
            } else {
                self.key_mask &= !(1 << i);
            }
            self.updated = true;
            proof {
                let after = self.key_mask;
                let expected = if pressed {
                    held_keys(before).insert(key)
                } else {
                    held_keys(before).remove(key)
                };
                lemma_bit_after_set(before, i, i);
                lemma_bit_after_clear(before, i, i);
                assert forall|k: Key| held_keys(after).contains(k) == expected.contains(k) by {
                    if let Some(j) = slot(k) {
                        lemma_bit_after_set(before, i, j);
                        lemma_bit_after_clear(before, i, j);
                    }
                }
                assert(held_keys(after) =~= expected);
            }
        }
    }

    /// Records a key event: the edge of the key that went down or up. Any
    /// other event changes nothing.
    pub fn handle_key_event(&mut self, event: &Event)
        ensures
            match *event {
                Event::KeyDown(key) => Self::edge_recorded(*old(self), *final(self), key, true),
                Event::KeyUp(key) => Self::edge_recorded(*old(self), *final(self), key, false),
                _ => *final(self) == *old(self),
            },
            old(self).wf() ==> final(self).wf(),
    {
        match event {
            Event::KeyDown(key) => self.handle_key_edge(*key, true),
            Event::KeyUp(key) => self.handle_key_edge(*key, false),
            _ => (),
        }
    }

    /// Takes a motion of the pointer by `dx` and `dy`. The result says
    /// whether the camera is to be turned: it is unless both are zero.
    pub fn handle_mouse_delta(&mut self, dx: i32, dy: i32) -> (turned: bool)
        ensures
            turned == (dx != 0 || dy != 0),
            final(self).updated == (old(self).updated || turned),
            final(self).key_mask == old(self).key_mask,
            old(self).wf() ==> final(self).wf(),
    {
        if dx != 0 || dy != 0 {
            self.updated = true;
            true
        } else {
            false
        }
    }

    /// Takes the mouse sample of a poll. The motion counts while the pointer
    /// is captured, and otherwise while the primary button is held. The
    /// result says whether the camera is to be turned.
    pub fn accept_mouse(
        &mut self,
        state: &WindowState,
        ms: &MouseState,
        rms: &RelativeMouseState,
    ) -> (turned: bool)
        ensures
            turned == ((state.mode().captured || ms.left) && (rms.x != 0 || rms.y != 0)),
            final(self).updated == (old(self).updated || turned),
            final(self).key_mask == old(self).key_mask,
            old(self).wf() ==> final(self).wf(),
    {
        if state.captured() {
            self.handle_mouse_delta(rms.x, rms.y)
        } else if ms.left {
            self.handle_mouse_delta(rms.x, rms.y)
        } else {
            false
        }
    }

    /// Whether a redraw is due: input arrived since the last step, or a key
    /// is held.
    pub fn was_updated(&self) -> (b: bool)
        ensures
            b == (self.updated || self.key_mask != 0),
            self.wf() ==> b == (self.updated || exists|key: Key|
                held_keys(self.key_mask).contains(key)),
    {
        proof {
            if self.wf() {
                lemma_some_key_held(self.key_mask);
            }
        }
        self.updated || self.key_mask != 0
    }

    /// One step of motion over the time `dt`. Says where the held keys lead
    /// and for how long, and clears the flag. A step of no time has length
    /// zero, whatever keys are held.
    pub fn step(&mut self, dt: Duration) -> (stride: Stride)
        ensures
            final(self).key_mask == old(self).key_mask,
            !final(self).updated,
            stride.local@ == local_direction(old(self).held()),
            stride.world@ == world_direction(old(self).held()),
            stride.micros == duration_nanos(dt) / 1000,
            duration_nanos(dt) == 0 ==> stride.micros == 0,
            stride.local.within(1),
            stride.world.within(1),
    {
        let ghost held = self.held();
        let mut dir = Vec3i::zeros();
        let mut idir = Vec3i::zeros();
        let mut i: usize = 0;
        while i < KEY_COUNT
            invariant
                i <= KEY_COUNT,
                held == held_keys(self.key_mask),
                dir@ == local_sum(held, i as nat),
                idir@ == world_sum(held, i as nat),
                dir.within(i as int),
                idir.within(i as int),
            decreases KEY_COUNT - i,
        {
            let mask: usize = self.key_mask;
            assert(((mask >> i) & 1 != 0) == bit_set(mask, i)) by (bit_vector);
            if ((self.key_mask >> i) & 1) != 0 {
                let (dv, di) = key_dir(key_at(i));
                dir = dir.plus(&dv);
                idir = idir.plus(&di);
            }
            i += 1;
        }
        let dir = dir.clamped(-1, 1);
        proof {
            lemma_direction_by_axis(held);
        }
        self.updated = false;
        Stride { local: dir, world: idir, micros: dt.as_micros() }
    }
}

impl EventHandler for Motion {
    /// The key event is recorded, whatever the state of the window, and
    /// never refused.
    open spec fn keys_handled(
        &self,
        state: &WindowState,
        event: &Event,
        after: &Self,
        r: Result<(), Error>,
    ) -> bool {
        &&& r is Ok
        &&& match *event {
            Event::KeyDown(key) => Self::edge_recorded(*self, *after, key, true),
            Event::KeyUp(key) => Self::edge_recorded(*self, *after, key, false),
            _ => *after == *self,
        }
        &&& self.wf() ==> after.wf()
    }

    /// The sample counts while the pointer is captured, and otherwise while
    /// the primary button is held; it sets the flag unless the pointer stood
    /// still. The keys are left alone, and no sample is refused.
    open spec fn mouse_handled(
        &self,
        state: &WindowState,
        ms: &MouseState,
        rms: &RelativeMouseState,
        after: &Self,
        r: Result<(), Error>,
    ) -> bool {
        &&& r is Ok
        &&& after.key_mask == self.key_mask
        &&& after.updated == (self.updated || ((state.mode().captured || ms.left) && (rms.x != 0
            || rms.y != 0)))
        &&& self.wf() ==> after.wf()
    }

    fn handle_keys(&mut self, _state: &WindowState, event: &Event) -> (r: Result<(), Error>) {
        self.handle_key_event(event);
        Ok(())
    }

    fn handle_mouse(
        &mut self,
        state: &WindowState,
        ms: &MouseState,
        rms: &RelativeMouseState,
    ) -> (r: Result<(), Error>) {
        let _ = self.accept_mouse(state, ms, rms);
        Ok(())
    }
}

} // verus!
