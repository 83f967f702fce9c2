use vstd::prelude::*;

verus! {

/// The keys the player responds to.
#[derive(Debug, Clone, Copy, PartialEq, Eq, Structural)]
pub enum Key {
    Space,
    ArrowLeft,
    ArrowRight,
    ArrowUp,
    ArrowDown,
    S,
    Other,
}

/// A key going down, with the state of the control modifier.
#[derive(Debug, Clone, Copy, PartialEq, Eq, Structural)]
pub struct KeyPress {
    pub key: Key,
    pub ctrl: bool,
    /// The press comes from the key being held down.
    pub repeat: bool,
}

/// One step up, at most 100.
pub open spec fn volume_up(v: u32) -> u32 {
    if v >= 100 {
        100
    } else {
        (v + 1) as u32
    }
}

/// One step down, at least 0 and at most 100.
pub open spec fn volume_down(v: u32) -> u32 {
    if v == 0 {
        0
    } else if v > 100 {
        100
    } else {
        (v - 1) as u32
    }
}

pub fn step_volume_up(v: u32) -> (r: u32)
    ensures
        r == volume_up(v),
{
    if v >= 100 {
        100
    } else {
        v + 1
    }
}

pub fn step_volume_down(v: u32) -> (r: u32)
    ensures
        r == volume_down(v),
{
    if v == 0 {
        0
    } else if v > 100 {
        100
    } else {
        v - 1
    }
}

} // verus!
