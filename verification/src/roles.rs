use vstd::prelude::*;

use crate::roletype::RoleType;

verus! {

/// Scheduling key of a night action. Lower keys act earlier; the keys are
/// numeric so that their order is the intended one.
pub type ActionPriority = u64;

/// The closed set of role identities in the catalogue.
#[derive(Clone, Copy, Debug, PartialEq, Eq, Structural)]
pub enum RoleName {
    Doppelganger,
    Drunk,
    Hunter,
    Insomniac,
    Mason,
    Minion,
    Robber,
    Seer,
    Tanner,
    Troublemaker,
    Villager,
    Werewolf,
}

impl RoleName {
    /// Alignment of a card of this identity (an uncopied identity-copier
    /// counts as Villager-aligned).
    pub open spec fn spec_base_type(self) -> RoleType {
        match self {
            RoleName::Werewolf => RoleType::Werewolf,
            RoleName::Minion => RoleType::Other(RoleName::Minion),
            _ => RoleType::Villager,
        }
    }

    /// The night-action priority of this identity, if it acts at night.
    pub open spec fn spec_priority(self) -> Option<ActionPriority> {
        match self {
            RoleName::Doppelganger => Some(1u64),
            RoleName::Werewolf => Some(2u64),
            RoleName::Minion => Some(3u64),
            RoleName::Mason => Some(4u64),
            RoleName::Seer => Some(5u64),
            RoleName::Robber => Some(6u64),
            RoleName::Troublemaker => Some(7u64),
            RoleName::Drunk => Some(8u64),
            RoleName::Insomniac => Some(9u64),
            _ => None,
        }
    }

    /// When the identity-copier copies this role, the copied action runs
    /// right away, within the copier's own priority tier.
    pub open spec fn spec_copy_is_immediate(self) -> bool {
        match self {
            RoleName::Minion
            | RoleName::Seer
            | RoleName::Robber
            | RoleName::Troublemaker
            | RoleName::Drunk => true,
            _ => false,
        }
    }

    /// When the identity-copier copies this role, a fresh scheduler entry is
    /// inserted at the copied role's own (later) priority instead.
    pub open spec fn spec_copy_is_deferred(self) -> bool {
        match self {
            RoleName::Insomniac | RoleName::Mason | RoleName::Werewolf => true,
            _ => false,
        }
    }

    pub fn base_type(self) -> (r: RoleType)
        ensures
            r == self.spec_base_type(),
    {
        match self {
            RoleName::Werewolf => RoleType::Werewolf,
            RoleName::Minion => RoleType::Other(RoleName::Minion),
            _ => RoleType::Villager,
        }
    }

    pub fn priority(self) -> (r: Option<ActionPriority>)
        ensures
            r == self.spec_priority(),
    {
        match self {
            RoleName::Doppelganger => Some(1u64),
            RoleName::Werewolf => Some(2u64),
            RoleName::Minion => Some(3u64),
            RoleName::Mason => Some(4u64),
            RoleName::Seer => Some(5u64),
            RoleName::Robber => Some(6u64),
            RoleName::Troublemaker => Some(7u64),
            RoleName::Drunk => Some(8u64),
            RoleName::Insomniac => Some(9u64),
            _ => None,
        }
    }

    pub fn copy_is_immediate(self) -> (r: bool)
        ensures
            r == self.spec_copy_is_immediate(),
    {
        match self {
            RoleName::Minion
            | RoleName::Seer
            | RoleName::Robber
            | RoleName::Troublemaker
            | RoleName::Drunk => true,
            _ => false,
        }
    }

    pub fn copy_is_deferred(self) -> (r: bool)
        ensures
            r == self.spec_copy_is_deferred(),
    {
        match self {
            RoleName::Insomniac | RoleName::Mason | RoleName::Werewolf => true,
            _ => false,
        }
    }
}

#[derive(Clone, Copy, Debug, PartialEq, Eq, Structural)]
pub struct Villager;

#[derive(Clone, Copy, Debug, PartialEq, Eq, Structural)]
pub struct Werewolf;

#[derive(Clone, Copy, Debug, PartialEq, Eq, Structural)]
pub struct Minion;

#[derive(Clone, Copy, Debug, PartialEq, Eq, Structural)]
pub struct Mason;

#[derive(Clone, Copy, Debug, PartialEq, Eq, Structural)]
pub struct Seer;

#[derive(Clone, Copy, Debug, PartialEq, Eq, Structural)]
pub struct Robber;

#[derive(Clone, Copy, Debug, PartialEq, Eq, Structural)]
pub struct Troublemaker;

#[derive(Clone, Copy, Debug, PartialEq, Eq, Structural)]
pub struct Drunk;

#[derive(Clone, Copy, Debug, PartialEq, Eq, Structural)]
pub struct Insomniac;

#[derive(Clone, Copy, Debug, PartialEq, Eq, Structural)]
pub struct Hunter;

#[derive(Clone, Copy, Debug, PartialEq, Eq, Structural)]
pub struct Tanner;

impl Villager {
    pub fn new() -> Villager {
        Villager
    }
}

impl Werewolf {
    pub fn new() -> Werewolf {
        Werewolf
    }
}

impl Minion {
    pub fn new() -> Minion {
        Minion
    }
}

impl Mason {
    pub fn new() -> Mason {
        Mason
    }

    /// A game configuration must request Masons in pairs.
    pub fn min_amt() -> (r: usize)
        ensures
            r == RoleDef::spec_min_amt(RoleName::Mason),
    {
        2
    }

    pub fn max_amt() -> (r: usize)
        ensures
            r == RoleDef::spec_max_amt(RoleName::Mason),
    {
        2
    }
}

impl Seer {
    pub fn new() -> Seer {
        Seer
    }
}

impl Robber {
    pub fn new() -> Robber {
        Robber
    }
}

impl Troublemaker {
    pub fn new() -> Troublemaker {
        Troublemaker
    }
}

impl Drunk {
    pub fn new() -> Drunk {
        Drunk
    }
}

impl Insomniac {
    pub fn new() -> Insomniac {
        Insomniac
    }
}

impl Hunter {
    pub fn new() -> Hunter {
        Hunter
    }
}

impl Tanner {
    pub fn new() -> Tanner {
        Tanner
    }
}

/// The identity-copying role. While `copied` is `None` it behaves as a
/// Villager-aligned card with its own night action; after copying it takes on
/// the copied role's effective identity, type and win condition.
#[derive(Clone, Copy, Debug, PartialEq, Eq, Structural)]
pub struct Doppelganger {
    pub copied: Option<RoleName>,
}

impl Doppelganger {
    /// A fresh copier that has not yet copied anyone.
    pub fn new() -> (r: Doppelganger)
        ensures
            r.copied is None,
    {
        Doppelganger { copied: None }
    }
}

/// A role card's behavior: one of the closed catalogue. Every card except the
/// identity-copier is stateless.
#[derive(Clone, Copy, Debug, PartialEq, Eq, Structural)]
pub enum Role {
    Villager(Villager),
    Werewolf(Werewolf),
    Minion(Minion),
    Mason(Mason),
    Seer(Seer),
    Robber(Robber),
    Troublemaker(Troublemaker),
    Drunk(Drunk),
    Insomniac(Insomniac),
    Hunter(Hunter),
    Tanner(Tanner),
    Doppelganger(Doppelganger),
}

impl Role {
    /// The card's own identity, regardless of any copied behavior.
    pub open spec fn spec_id(self) -> RoleName {
        match self {
            Role::Villager(_) => RoleName::Villager,
            Role::Werewolf(_) => RoleName::Werewolf,
            Role::Minion(_) => RoleName::Minion,
            Role::Mason(_) => RoleName::Mason,
            Role::Seer(_) => RoleName::Seer,
            Role::Robber(_) => RoleName::Robber,
            Role::Troublemaker(_) => RoleName::Troublemaker,
            Role::Drunk(_) => RoleName::Drunk,
            Role::Insomniac(_) => RoleName::Insomniac,
            Role::Hunter(_) => RoleName::Hunter,
            Role::Tanner(_) => RoleName::Tanner,
            Role::Doppelganger(_) => RoleName::Doppelganger,
        }
    }

    /// The identity the holder must be treated as for game logic: the copied
    /// role for a copier that has copied, the card's own identity otherwise.
    pub open spec fn spec_effective_id(self) -> RoleName {
        match self {
            Role::Doppelganger(d) => match d.copied {
                Some(c) => c,
                None => RoleName::Doppelganger,
            },
            _ => self.spec_id(),
        }
    }

    /// Alignment of the card as it currently stands.
    pub open spec fn spec_role_type(self) -> RoleType {
        match self {
            Role::Doppelganger(d) => match d.copied {
                Some(c) => c.spec_base_type(),
                None => RoleType::Villager,
            },
            _ => self.spec_id().spec_base_type(),
        }
    }

    /// The priorities at which this card schedules night actions when dealt.
    /// Every role in the catalogue owns at most one.
    pub open spec fn spec_priority(self) -> Option<ActionPriority> {
        self.spec_id().spec_priority()
    }

    /// A fresh, uncopied card of the given identity.
    pub fn of_name(name: RoleName) -> (r: Role)
        ensures
            r.spec_id() == name,
            r == Role::spec_of_name(name),
    {
        match name {
            RoleName::Villager => Role::Villager(Villager),
            RoleName::Werewolf => Role::Werewolf(Werewolf),
            RoleName::Minion => Role::Minion(Minion),
            RoleName::Mason => Role::Mason(Mason),
            RoleName::Seer => Role::Seer(Seer),
            RoleName::Robber => Role::Robber(Robber),
            RoleName::Troublemaker => Role::Troublemaker(Troublemaker),
            RoleName::Drunk => Role::Drunk(Drunk),
            RoleName::Insomniac => Role::Insomniac(Insomniac),
            RoleName::Hunter => Role::Hunter(Hunter),
            RoleName::Tanner => Role::Tanner(Tanner),
            RoleName::Doppelganger => Role::Doppelganger(Doppelganger { copied: None }),
        }
    }

    pub open spec fn spec_of_name(name: RoleName) -> Role {
        match name {
            RoleName::Villager => Role::Villager(Villager),
            RoleName::Werewolf => Role::Werewolf(Werewolf),
            RoleName::Minion => Role::Minion(Minion),
            RoleName::Mason => Role::Mason(Mason),
            RoleName::Seer => Role::Seer(Seer),
            RoleName::Robber => Role::Robber(Robber),
            RoleName::Troublemaker => Role::Troublemaker(Troublemaker),
            RoleName::Drunk => Role::Drunk(Drunk),
            RoleName::Insomniac => Role::Insomniac(Insomniac),
            RoleName::Hunter => Role::Hunter(Hunter),
            RoleName::Tanner => Role::Tanner(Tanner),
            RoleName::Doppelganger => Role::Doppelganger(Doppelganger { copied: None }),
        }
    }

    pub fn id(&self) -> (r: RoleName)
        ensures
            r == self.spec_id(),
    {
        match self {
            Role::Villager(_) => RoleName::Villager,
            Role::Werewolf(_) => RoleName::Werewolf,
            Role::Minion(_) => RoleName::Minion,
            Role::Mason(_) => RoleName::Mason,
            Role::Seer(_) => RoleName::Seer,
            Role::Robber(_) => RoleName::Robber,
            Role::Troublemaker(_) => RoleName::Troublemaker,
            Role::Drunk(_) => RoleName::Drunk,
            Role::Insomniac(_) => RoleName::Insomniac,
            Role::Hunter(_) => RoleName::Hunter,
            Role::Tanner(_) => RoleName::Tanner,
            Role::Doppelganger(_) => RoleName::Doppelganger,
        }
    }

    pub fn effective_id(&self) -> (r: RoleName)
        ensures
            r == self.spec_effective_id(),
    {
        match self {
            Role::Doppelganger(d) => match d.copied {
                Some(c) => c,
                None => RoleName::Doppelganger,
            },
            _ => self.id(),
        }
    }

    pub fn role_type(&self) -> (r: RoleType)
        ensures
            r == self.spec_role_type(),
    {
        match self {
            Role::Doppelganger(d) => match d.copied {
                Some(c) => c.base_type(),
                None => RoleType::Villager,
            },
            _ => self.id().base_type(),
        }
    }

    pub fn priorities(&self) -> (r: Vec<ActionPriority>)
        ensures
            self.spec_priority() is Some ==> r@ =~= seq![self.spec_priority()->Some_0],
            self.spec_priority() is None ==> r@ =~= Seq::<ActionPriority>::empty(),
    {
        let mut v: Vec<ActionPriority> = Vec::new();
        if let Some(p) = self.id().priority() {
            v.push(p);
        }
        v
    }
}

/// Catalogue entry: a role identity together with how many copies of it a
/// game configuration may request.
#[derive(Clone, Copy, Debug, PartialEq, Eq, Structural)]
pub struct RoleDef {
    pub name: RoleName,
    pub min_amt: usize,
    pub max_amt: usize,
}

impl RoleDef {
    pub fn new(name: RoleName) -> (r: RoleDef)
        ensures
            r.name == name,
            r.min_amt == RoleDef::spec_min_amt(name),
            r.max_amt == RoleDef::spec_max_amt(name),
    {
        RoleDef { name, min_amt: RoleDef::min_amt_of(name), max_amt: RoleDef::max_amt_of(name) }
    }

    /// Fewest copies of the role a configuration may request.
    pub open spec fn spec_min_amt(name: RoleName) -> usize {
        match name {
            RoleName::Mason => 2usize,
            _ => 1usize,
        }
    }

    /// Most copies of the role a configuration may request.
    pub open spec fn spec_max_amt(name: RoleName) -> usize {
        match name {
            RoleName::Mason => 2usize,
            _ => 1usize,
        }
    }

    pub fn min_amt_of(name: RoleName) -> (r: usize)
        ensures
            r == RoleDef::spec_min_amt(name),
    {
        match name {
            RoleName::Mason => 2,
            _ => 1,
        }
    }

    pub fn max_amt_of(name: RoleName) -> (r: usize)
        ensures
            r == RoleDef::spec_max_amt(name),
    {
        match name {
            RoleName::Mason => 2,
            _ => 1,
        }
    }

    /// Instantiate a fresh card of this definition's role.
    pub fn role(&self) -> (r: Role)
        ensures
            r == Role::spec_of_name(self.name),
    {
        Role::of_name(self.name)
    }
}

/// The full catalogue, in its fixed presentation order. Consumed by the
/// configuration layer to validate and instantiate a requested role mix.
pub fn roles_catalogue() -> (r: Vec<RoleDef>)
    ensures
        r@ == spec_roles_catalogue(),
{
    let mut v: Vec<RoleDef> = Vec::new();
    v.push(RoleDef::new(RoleName::Doppelganger));
    v.push(RoleDef::new(RoleName::Drunk));
    v.push(RoleDef::new(RoleName::Hunter));
    v.push(RoleDef::new(RoleName::Insomniac));
    v.push(RoleDef::new(RoleName::Mason));
    v.push(RoleDef::new(RoleName::Minion));
    v.push(RoleDef::new(RoleName::Robber));
    v.push(RoleDef::new(RoleName::Seer));
    v.push(RoleDef::new(RoleName::Tanner));
    v.push(RoleDef::new(RoleName::Troublemaker));
    v.push(RoleDef::new(RoleName::Villager));
    v.push(RoleDef::new(RoleName::Werewolf));
    v
}

/// The catalogue in presentation order, as the executable function builds it.
pub open spec fn spec_roles_catalogue() -> Seq<RoleDef> {
    seq![
        RoleDef { name: RoleName::Doppelganger, min_amt: 1usize, max_amt: 1usize },
        RoleDef { name: RoleName::Drunk, min_amt: 1usize, max_amt: 1usize },
        RoleDef { name: RoleName::Hunter, min_amt: 1usize, max_amt: 1usize },
        RoleDef { name: RoleName::Insomniac, min_amt: 1usize, max_amt: 1usize },
        RoleDef { name: RoleName::Mason, min_amt: 2usize, max_amt: 2usize },
        RoleDef { name: RoleName::Minion, min_amt: 1usize, max_amt: 1usize },
        RoleDef { name: RoleName::Robber, min_amt: 1usize, max_amt: 1usize },
        RoleDef { name: RoleName::Seer, min_amt: 1usize, max_amt: 1usize },
        RoleDef { name: RoleName::Tanner, min_amt: 1usize, max_amt: 1usize },
        RoleDef { name: RoleName::Troublemaker, min_amt: 1usize, max_amt: 1usize },
        RoleDef { name: RoleName::Villager, min_amt: 1usize, max_amt: 1usize },
        RoleDef { name: RoleName::Werewolf, min_amt: 1usize, max_amt: 1usize },
    ]
}

} // verus!
