use vstd::prelude::*;

verus! {

/// Failures of engine operations.
#[derive(Clone, Copy, Debug, PartialEq, Eq, Structural)]
pub enum GameError {
    /// Construction was handed a role list whose length is not the
    /// participant count plus three.
    InvalidRoleCount { roles: usize, players: usize },
    /// The night agenda is exhausted; an end-of-agenda signal, not a fault.
    NoMoreNightActions,
    /// A vote or resolution step was invoked out of sequence.
    WrongCmdOrder,
    /// A card was asked to act at a priority its role does not own.
    UnsupportedPriority,
    /// A participant's handed-in decision was missing or outside the offered
    /// candidates.
    InvalidChoice,
}

} // verus!
