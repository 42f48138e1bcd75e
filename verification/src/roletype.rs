use vstd::prelude::*;

use crate::roles::RoleName;

verus! {

/// Alignment of a role card for win-condition purposes.
///
/// Most roles count as `Villager`-aligned, the Werewolf counts as
/// `Werewolf`-aligned, and a few roles form their own named bucket
/// (the Minion is the only one in the catalogue).
#[derive(Clone, Copy, Debug, PartialEq, Eq, Structural)]
pub enum RoleType {
    Villager,
    Werewolf,
    Other(RoleName),
}

} // verus!
