//! The movement keys: their slots in the key mask and their directions.
//!
//! Twelve keys have a slot. Eight of them move the camera in its own frame:
//! `x` to the right and `z` backwards. Two move it along the vertical axis of
//! the world. Two are kept free.

use vstd::prelude::*;
use crate::input::Key;
use crate::vector::Vec3i;

verus! {

/// The number of slots in the key mask.
pub const KEY_COUNT: usize = 12;

/// The slot of a key in the key mask, or `None` for a key that has none.
pub open spec fn slot(key: Key) -> Option<usize> {
    match key {
        Key::W => Some(0),
        Key::Up => Some(1),
        Key::A => Some(2),
        Key::Left => Some(3),
        Key::S => Some(4),
        Key::Down => Some(5),
        Key::D => Some(6),
        Key::Right => Some(7),
        Key::Space => Some(8),
        Key::LShift => Some(9),
        Key::Q => Some(10),
        Key::E => Some(11),
        _ => None,
    }
}

/// The key that has slot `i`.
pub open spec fn key_of_slot(i: int) -> Key {
    if i == 0 {
        Key::W
    } else if i == 1 {
        Key::Up
    } else if i == 2 {
        Key::A
    } else if i == 3 {
        Key::Left
    } else if i == 4 {
        Key::S
    } else if i == 5 {
        Key::Down
    } else if i == 6 {
        Key::D
    } else if i == 7 {
        Key::Right
    } else if i == 8 {
        Key::Space
    } else if i == 9 {
        Key::LShift
    } else if i == 10 {
        Key::Q
    } else {
        Key::E
    }
}

/// The direction that a key asks for: first in the frame of the camera, then
/// in the frame of the world.
pub open spec fn key_dir_spec(key: Key) -> ((int, int, int), (int, int, int)) {
    match key {
        Key::W | Key::Up => ((0, 0, -1), (0, 0, 0)),
        Key::A | Key::Left => ((-1, 0, 0), (0, 0, 0)),
        Key::S | Key::Down => ((0, 0, 1), (0, 0, 0)),
        Key::D | Key::Right => ((1, 0, 0), (0, 0, 0)),
        Key::Space => ((0, 0, 0), (0, 0, 1)),
        Key::LShift => ((0, 0, 0), (0, 0, -1)),
        _ => ((0, 0, 0), (0, 0, 0)),
    }
}

/// Slots and keys correspond one to one.
pub proof fn lemma_slots_are_distinct(key: Key, i: int)
    ensures
        0 <= i < KEY_COUNT ==> slot(key_of_slot(i)) == Some(i as usize),
        slot(key) is Some ==> slot(key)->0 < KEY_COUNT && key_of_slot(slot(key)->0 as int) == key,
{
}

/// The slot of `key` in the key mask.
pub fn key_idx(key: Key) -> (r: Option<usize>)
    ensures
        r == slot(key),
        r matches Some(i) ==> i < KEY_COUNT && key_of_slot(i as int) == key,
{
    match key {
        Key::W => Some(0),
        Key::Up => Some(1),
        Key::A => Some(2),
        Key::Left => Some(3),
        Key::S => Some(4),
        Key::Down => Some(5),
        Key::D => Some(6),
        Key::Right => Some(7),
        Key::Space => Some(8),
        Key::LShift => Some(9),
        Key::Q => Some(10),
        Key::E => Some(11),
        _ => None,
    }
}

/// The key that has slot `i`.
pub fn key_at(i: usize) -> (key: Key)
    requires
        i < KEY_COUNT,
    ensures
        key == key_of_slot(i as int),
        slot(key) == Some(i),
{
    if i == 0 {
        Key::W
    } else if i == 1 {
        Key::Up
    } else if i == 2 {
        Key::A
    } else if i == 3 {
        Key::Left
    } else if i == 4 {
        Key::S
    } else if i == 5 {
        Key::Down
    } else if i == 6 {
        Key::D
    } else if i == 7 {
        Key::Right
    } else if i == 8 {
        Key::Space
    } else if i == 9 {
        Key::LShift
    } else if i == 10 {
        Key::Q
    } else {
        Key::E
    }
}

/// The direction that `key` asks for: first in the frame of the camera, then
/// in the frame of the world. A key without a direction gives two zero
/// vectors.
pub fn key_dir(key: Key) -> (r: (Vec3i, Vec3i))
    ensures
        (r.0@, r.1@) == key_dir_spec(key),
{
    match key {
        Key::W | Key::Up => (Vec3i::new(0, 0, -1), Vec3i::zeros()),
        Key::A | Key::Left => (Vec3i::new(-1, 0, 0), Vec3i::zeros()),
        Key::S | Key::Down => (Vec3i::new(0, 0, 1), Vec3i::zeros()),
        Key::D | Key::Right => (Vec3i::new(1, 0, 0), Vec3i::zeros()),
        Key::Space => (Vec3i::zeros(), Vec3i::new(0, 0, 1)),
        Key::LShift => (Vec3i::zeros(), Vec3i::new(0, 0, -1)),
        _ => (Vec3i::zeros(), Vec3i::zeros()),
    }
}

} // verus!
