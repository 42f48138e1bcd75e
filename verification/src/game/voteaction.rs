use vstd::prelude::*;

verus! {

/// A reaction a role may demand after the vote; the only one defined kills
/// one more participant (the Hunter's chain kill).
#[derive(Clone, Copy, Debug, PartialEq, Eq, Structural)]
pub enum ONUWGameVoteAction {
    Kill(usize),
}

} // verus!
