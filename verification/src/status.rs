//! Lifecycle status of a lottery round.

use vstd::prelude::*;

verus! {

/// The round lifecycle: `Done` is both the initial state (setup: charities
/// are registered, state may be reset) and the terminal state of a round
/// (entered by a resolving status update). Tickets sell only while `Open`;
/// `Paused` freezes sales without resolving.
#[derive(Clone, Copy, Debug, PartialEq, Eq, Structural)]
pub enum LotStatus {
    Open,
    Paused,
    Done,
}

impl LotStatus {
    pub fn is_done(&self) -> (r: bool)
        ensures
            r == (*self == LotStatus::Done),
    {
        *self == LotStatus::Done
    }

    pub fn is_open(&self) -> (r: bool)
        ensures
            r == (*self == LotStatus::Open),
    {
        *self == LotStatus::Open
    }

    pub fn is_paused(&self) -> (r: bool)
        ensures
            r == (*self == LotStatus::Paused),
    {
        *self == LotStatus::Paused
    }
}

} // verus!
