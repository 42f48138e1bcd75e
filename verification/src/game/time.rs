use vstd::prelude::*;

use crate::roles::RoleName;

verus! {

/// A phase announcement delivered to every participant.
#[derive(Clone, Debug)]
pub enum ONUWTime {
    Dusk,
    /// The night segment of the named effective role is taking place.
    Night(RoleName),
    Day,
    Vote,
    /// The game is over; carries the dead and the winners.
    End { dead: Vec<usize>, winners: Vec<usize> },
}

} // verus!
