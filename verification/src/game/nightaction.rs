use vstd::prelude::*;

use crate::roles::Role;
use crate::roles::RoleName;
use crate::roletype::RoleType;

verus! {

/// One scheduled night action. A `Real` entry belongs to a card dealt to a
/// participant and executes that card's behavior; a `Fake` entry belongs to a
/// center card — nobody performs it, but its moment is still announced so the
/// night timeline looks the same to everyone.
#[derive(Clone, Copy, Debug, PartialEq, Eq, Structural)]
pub enum NightAction {
    Real { role: Role, player: usize },
    Fake { role: Role },
}

impl NightAction {
    /// The behavior captured when the entry was scheduled.
    pub open spec fn spec_role(self) -> Role {
        match self {
            NightAction::Real { role, player: _ } => role,
            NightAction::Fake { role } => role,
        }
    }

    pub fn role(&self) -> (r: Role)
        ensures
            r == self.spec_role(),
    {
        match self {
            NightAction::Real { role, player: _ } => *role,
            NightAction::Fake { role } => *role,
        }
    }
}

/// The decisions one acting participant may be asked for during a night
/// action, handed in up front as plain values. Fields that an action does not
/// consult may stay `None`.
#[derive(Clone, Copy, Debug, PartialEq, Eq, Structural, Default)]
pub struct NightChoices {
    /// Identity-copier: the participant whose role is copied.
    pub copy_target: Option<usize>,
    /// Whether an optional action (Robber, Troublemaker) is taken, or the
    /// Seer's "look at a participant instead of the center" choice.
    pub accept: Option<bool>,
    /// A chosen participant.
    pub target: Option<usize>,
    /// A second chosen participant (Troublemaker).
    pub second_target: Option<usize>,
    /// A chosen center slot.
    pub center_one: Option<usize>,
    /// A second, distinct center slot (Seer).
    pub center_two: Option<usize>,
}

impl NightChoices {
    /// No decisions at all; enough for every role without choices.
    pub fn none() -> (r: NightChoices)
        ensures
            r == NightChoices::spec_none(),
    {
        NightChoices {
            copy_target: None,
            accept: None,
            target: None,
            second_target: None,
            center_one: None,
            center_two: None,
        }
    }

    pub open spec fn spec_none() -> NightChoices {
        NightChoices {
            copy_target: None,
            accept: None,
            target: None,
            second_target: None,
            center_one: None,
            center_two: None,
        }
    }
}

/// An observable effect of a night step, for the surrounding process to
/// deliver to the participants it names.
#[derive(Clone, Copy, Debug, PartialEq, Eq, Structural)]
pub enum NightEvent {
    /// The night segment of the named effective role begins; announced to all
    /// participants.
    Announce(RoleName),
    /// Privately show `to` the role currently on `holder`'s card.
    ShowPlayerRole { to: usize, holder: usize, role: Role },
    /// Privately show `to` the role currently on a center card.
    ShowCenterRole { to: usize, slot: usize, role: Role },
    /// Privately show `to` that `holder` currently has a card of the given
    /// type.
    ShowType { to: usize, holder: usize, role_type: RoleType },
    /// A skipped (center-card) action's moment: the configured side-effect
    /// hook for skipped actions fires here.
    FakePause,
}

} // verus!
