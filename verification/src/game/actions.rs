//! The night phase: what each role does when its priority tier is reached.
//!
//! Every action is a pure state transition: the acting participant's
//! decisions come in as [`NightChoices`] and the private reveals to deliver
//! go out as [`NightEvent`]s. Each action's contract is a relation between
//! the game view before and after the call.

use vstd::prelude::*;

use crate::game::gamerror::GameError;
use crate::game::spec_action_wf;
use crate::game::spec_has_tier;
use crate::game::spec_insert_action;
use crate::roles::ActionPriority;
use crate::game::nightaction::NightAction;
use crate::game::nightaction::NightChoices;
use crate::game::nightaction::NightEvent;
use crate::game::GameView;
use crate::game::ONUWGame;
use crate::game::CENTER_SIZE;
use crate::playerinterface::RoleTarget;
use crate::roles::Doppelganger;
use crate::roles::Drunk;
use crate::roles::Insomniac;
use crate::roles::Mason;
use crate::roles::Minion;
use crate::roles::Robber;
use crate::roles::Role;
use crate::roles::RoleName;
use crate::roles::Seer;
use crate::roles::Troublemaker;
use crate::roles::Werewolf;
use crate::roletype::RoleType;

verus! {

/// Whether a holder designation is within bounds for this game.
pub open spec fn spec_target_ok(g: GameView, t: RoleTarget) -> bool {
    match t {
        RoleTarget::Player(p) => p < g.n(),
        RoleTarget::Center(j) => j < g.center.len(),
    }
}

/// The card currently at a holder.
pub open spec fn spec_card_at(g: GameView, t: RoleTarget) -> Role {
    match t {
        RoleTarget::Player(p) => g.players[p as int],
        RoleTarget::Center(j) => g.center[j as int],
    }
}

/// The game after placing `role` at a holder, with the type index kept in
/// sync for participant holders.
pub open spec fn spec_set_card(g: GameView, t: RoleTarget, role: Role) -> GameView {
    match t {
        RoleTarget::Player(p) => GameView {
            players: g.players.update(p as int, role),
            types: g.types.update(p as int, role.spec_role_type()),
            ..g
        },
        RoleTarget::Center(j) => GameView { center: g.center.update(j as int, role), ..g },
    }
}

/// The game after exchanging the cards at two holders.
pub open spec fn spec_swap(g: GameView, a: RoleTarget, b: RoleTarget) -> GameView {
    let va = spec_card_at(g, a);
    let vb = spec_card_at(g, b);
    spec_set_card(spec_set_card(g, a, vb), b, va)
}

/// A `Result` of events as its mathematical value.
pub open spec fn spec_result_view(r: Result<Vec<NightEvent>, GameError>) -> Result<
    Seq<NightEvent>,
    GameError,
> {
    match r {
        Ok(v) => Ok(v@),
        Err(e) => Err(e),
    }
}

/// The reveals of showing `player` every *other* participant whose current
/// card has the given type, in roster order.
pub open spec fn spec_show_type_events(types: Seq<RoleType>, player: usize, rt: RoleType)
    -> Seq<NightEvent>
    decreases types.len(),
{
    if types.len() == 0 {
        Seq::empty()
    } else {
        let rest = spec_show_type_events(types.drop_last(), player, rt);
        let i = types.len() - 1;
        if i != player && types.last() == rt {
            rest.push(
                NightEvent::ShowType { to: player, holder: i as usize, role_type: rt },
            )
        } else {
            rest
        }
    }
}

/// The reveals of showing `player` every *other* participant whose current
/// card carries the given identity, in roster order.
pub open spec fn spec_show_role_events(players: Seq<Role>, player: usize, id: RoleName)
    -> Seq<NightEvent>
    decreases players.len(),
{
    if players.len() == 0 {
        Seq::empty()
    } else {
        let rest = spec_show_role_events(players.drop_last(), player, id);
        let i = players.len() - 1;
        if i != player && players.last().spec_id() == id {
            rest.push(
                NightEvent::ShowPlayerRole {
                    to: player,
                    holder: i as usize,
                    role: players.last(),
                },
            )
        } else {
            rest
        }
    }
}

impl ONUWGame {
    /// The card currently at a holder.
    pub fn card_at(&self, t: &RoleTarget) -> (r: Role)
        requires
            spec_target_ok(self@, *t),
        ensures
            r == spec_card_at(self@, *t),
    {
        match *t {
            RoleTarget::Player(p) => self.players[p],
            RoleTarget::Center(j) => self.centerroles[j],
        }
    }

    /// Place `role` at a holder, keeping the type index in sync.
    pub(crate) fn set_card(&mut self, t: &RoleTarget, role: Role)
        requires
            old(self)@.wf(),
            spec_target_ok(old(self)@, *t),
        ensures
            final(self)@ =~= spec_set_card(old(self)@, *t, role),
            final(self)@.wf(),
    {
        match *t {
            RoleTarget::Player(p) => {
                let ty = role.role_type();
                self.players.set(p, role);
                self.players_by_type.set(p, ty);
            },
            RoleTarget::Center(j) => {
                self.centerroles.set(j, role);
            },
        }
    }

    /// Exchange the cards at two holders, keeping the type index in sync for
    /// any participant endpoint. This is the relocation primitive every
    /// swapping role uses.
    pub(crate) fn swap_cards(&mut self, a: &RoleTarget, b: &RoleTarget)
        requires
            old(self)@.wf(),
            spec_target_ok(old(self)@, *a),
            spec_target_ok(old(self)@, *b),
        ensures
            final(self)@ =~= spec_swap(old(self)@, *a, *b),
            final(self)@.wf(),
    {
        let va = self.card_at(a);
        let vb = self.card_at(b);
        self.set_card(a, vb);
        self.set_card(b, va);
    }
}

/// Show `player` every other participant of the given type; also reports how
/// many were shown (zero meaning the actor is alone).
pub fn show_type(game: &ONUWGame, player: usize, role_type: RoleType) -> (r: (
    Vec<NightEvent>,
    usize,
))
    requires
        game@.wf(),
        player < game@.n(),
    ensures
        r.0@ == spec_show_type_events(game@.types, player, role_type),
        r.1 == r.0@.len(),
{
    let mut events: Vec<NightEvent> = Vec::new();
    let mut count: usize = 0;
    let mut i: usize = 0;
    while i < game.players_by_type().len()
        invariant
            game@.wf(),
            player < game@.n(),
            i <= game@.types.len(),
            events@ == spec_show_type_events(game@.types.take(i as int), player, role_type),
            count == events@.len(),
            count <= i,
        decreases game@.types.len() - i,
    {
        proof {
            assert(game@.types.take(i + 1).drop_last() =~= game@.types.take(i as int));
        }
        if i != player && game.players_by_type()[i] == role_type {
            events.push(NightEvent::ShowType { to: player, holder: i, role_type });
            count = count + 1;
        }
        i = i + 1;
    }
    proof {
        assert(game@.types.take(game@.types.len() as int) =~= game@.types);
    }
    (events, count)
}

/// Show `player` every other participant whose card carries the given
/// identity (the Masons' mutual reveal).
pub fn show_role(game: &ONUWGame, player: usize, id: RoleName) -> (r: Vec<NightEvent>)
    requires
        game@.wf(),
        player < game@.n(),
    ensures
        r@ == spec_show_role_events(game@.players, player, id),
{
    let mut events: Vec<NightEvent> = Vec::new();
    let mut i: usize = 0;
    while i < game.players().len()
        invariant
            game@.wf(),
            player < game@.n(),
            i <= game@.players.len(),
            events@ == spec_show_role_events(game@.players.take(i as int), player, id),
        decreases game@.players.len() - i,
    {
        proof {
            assert(game@.players.take(i + 1).drop_last() =~= game@.players.take(i as int));
        }
        if i != player && game.players()[i].id() == id {
            let role = game.players()[i];
            events.push(NightEvent::ShowPlayerRole { to: player, holder: i, role });
            i = i + 1;
        } else {
            i = i + 1;
        }
    }
    proof {
        assert(game@.players.take(game@.players.len() as int) =~= game@.players);
    }
    events
}

/// The Werewolf's night action as a relation between the views before and
/// after: fellow Werewolf-type holders are revealed to the actor; a lone wolf
/// with the lone-wolf option peeks one chosen center card, and fails with
/// `InvalidChoice` if no in-range center slot was chosen.
pub open spec fn spec_werewolf_action(
    pre: GameView,
    player: usize,
    c: NightChoices,
    post: GameView,
    r: Result<Seq<NightEvent>, GameError>,
) -> bool {
    let shown = spec_show_type_events(pre.types, player, RoleType::Werewolf);
    let lone = pre.options.spec_lone_wolf() && shown.len() == 0;
    &&& post == pre
    &&& match r {
        Ok(events) => if lone {
            match c.center_one {
                Some(j) => j < pre.center.len() && events == shown.push(
                    NightEvent::ShowCenterRole { to: player, slot: j, role: pre.center[j as int] },
                ),
                None => false,
            }
        } else {
            events == shown
        },
        Err(e) => {
            &&& e == GameError::InvalidChoice
            &&& lone
            &&& match c.center_one {
                Some(j) => j >= pre.center.len(),
                None => true,
            }
        },
    }
}

/// The Minion's night action: every Werewolf-type holder is revealed to the
/// actor; nothing changes and nothing can fail.
pub open spec fn spec_minion_action(
    pre: GameView,
    player: usize,
    c: NightChoices,
    post: GameView,
    r: Result<Seq<NightEvent>, GameError>,
) -> bool {
    &&& post == pre
    &&& r == Ok::<Seq<NightEvent>, GameError>(spec_show_type_events(pre.types, player, RoleType::Werewolf))
}

/// A Mason's night action: every other currently-held Mason card is revealed
/// to the actor.
pub open spec fn spec_mason_action(
    pre: GameView,
    player: usize,
    c: NightChoices,
    post: GameView,
    r: Result<Seq<NightEvent>, GameError>,
) -> bool {
    &&& post == pre
    &&& r == Ok::<Seq<NightEvent>, GameError>(spec_show_role_events(pre.players, player, RoleName::Mason))
}

/// The Insomniac's night action: the actor is shown whatever role is
/// currently on their own card.
pub open spec fn spec_insomniac_action(
    pre: GameView,
    player: usize,
    c: NightChoices,
    post: GameView,
    r: Result<Seq<NightEvent>, GameError>,
) -> bool {
    &&& post == pre
    &&& r == Ok::<Seq<NightEvent>, GameError>(
        seq![
            NightEvent::ShowPlayerRole {
                to: player,
                holder: player,
                role: pre.players[player as int],
            },
        ],
    )
}

/// The Seer's night action: either peek one other participant's role, or two
/// distinct center cards; fails with `InvalidChoice` on a missing or
/// out-of-candidates decision.
pub open spec fn spec_seer_action(
    pre: GameView,
    player: usize,
    c: NightChoices,
    post: GameView,
    r: Result<Seq<NightEvent>, GameError>,
) -> bool {
    &&& post == pre
    &&& match c.accept {
        None => r == Err::<Seq<NightEvent>, GameError>(GameError::InvalidChoice),
        Some(true) => match c.target {
            Some(t) => if t < pre.n() && t != player {
                r == Ok::<Seq<NightEvent>, GameError>(
                    seq![
                        NightEvent::ShowPlayerRole {
                            to: player,
                            holder: t,
                            role: pre.players[t as int],
                        },
                    ],
                )
            } else {
                r == Err::<Seq<NightEvent>, GameError>(GameError::InvalidChoice)
            },
            None => r == Err::<Seq<NightEvent>, GameError>(GameError::InvalidChoice),
        },
        Some(false) => match (c.center_one, c.center_two) {
            (Some(one), Some(two)) => if one < pre.center.len() && two < pre.center.len() && one
                != two {
                r == Ok::<Seq<NightEvent>, GameError>(
                    seq![
                        NightEvent::ShowCenterRole {
                            to: player,
                            slot: one,
                            role: pre.center[one as int],
                        },
                        NightEvent::ShowCenterRole {
                            to: player,
                            slot: two,
                            role: pre.center[two as int],
                        },
                    ],
                )
            } else {
                r == Err::<Seq<NightEvent>, GameError>(GameError::InvalidChoice)
            },
            _ => r == Err::<Seq<NightEvent>, GameError>(GameError::InvalidChoice),
        },
    }
}

impl Werewolf {
    /// Reveal fellow Werewolves to the actor; a lone wolf with the lone-wolf
    /// option additionally peeks one chosen center card.
    pub fn night_action(game: &mut ONUWGame, player: usize, choices: &NightChoices) -> (r: Result<
        Vec<NightEvent>,
        GameError,
    >)
        requires
            old(game)@.wf(),
            player < old(game)@.n(),
        ensures
            spec_werewolf_action(old(game)@, player, *choices, final(game)@, spec_result_view(r)),
            final(game)@.wf(),
    {
        let (mut events, count) = show_type(game, player, RoleType::Werewolf);
        if game.options().lone_wolf() && count == 0 {
            match choices.center_one {
                Some(j) => {
                    if j < CENTER_SIZE {
                        let role = game.centerroles()[j];
                        events.push(NightEvent::ShowCenterRole { to: player, slot: j, role });
                        Ok(events)
                    } else {
                        Err(GameError::InvalidChoice)
                    }
                },
                None => Err(GameError::InvalidChoice),
            }
        } else {
            Ok(events)
        }
    }
}

impl Minion {
    /// Reveal every Werewolf-type holder to the actor.
    pub fn night_action(game: &mut ONUWGame, player: usize, choices: &NightChoices) -> (r: Result<
        Vec<NightEvent>,
        GameError,
    >)
        requires
            old(game)@.wf(),
            player < old(game)@.n(),
        ensures
            spec_minion_action(old(game)@, player, *choices, final(game)@, spec_result_view(r)),
            final(game)@.wf(),
    {
        let (events, _count) = show_type(game, player, RoleType::Werewolf);
        Ok(events)
    }
}

impl Mason {
    /// Reveal every other currently-held Mason to the actor.
    pub fn night_action(game: &mut ONUWGame, player: usize, choices: &NightChoices) -> (r: Result<
        Vec<NightEvent>,
        GameError,
    >)
        requires
            old(game)@.wf(),
            player < old(game)@.n(),
        ensures
            spec_mason_action(old(game)@, player, *choices, final(game)@, spec_result_view(r)),
            final(game)@.wf(),
    {
        let events = show_role(game, player, RoleName::Mason);
        Ok(events)
    }
}

impl Insomniac {
    /// Show the actor whatever role is currently on their own card.
    pub fn night_action(game: &mut ONUWGame, player: usize, choices: &NightChoices) -> (r: Result<
        Vec<NightEvent>,
        GameError,
    >)
        requires
            old(game)@.wf(),
            player < old(game)@.n(),
        ensures
            spec_insomniac_action(old(game)@, player, *choices, final(game)@, spec_result_view(r)),
            final(game)@.wf(),
    {
        let role = game.players()[player];
        let mut events: Vec<NightEvent> = Vec::new();
        events.push(NightEvent::ShowPlayerRole { to: player, holder: player, role });
        Ok(events)
    }
}

impl Seer {
    /// Either peek one other participant's role, or two distinct center
    /// cards.
    pub fn night_action(game: &mut ONUWGame, player: usize, choices: &NightChoices) -> (r: Result<
        Vec<NightEvent>,
        GameError,
    >)
        requires
            old(game)@.wf(),
            player < old(game)@.n(),
        ensures
            spec_seer_action(old(game)@, player, *choices, final(game)@, spec_result_view(r)),
            final(game)@.wf(),
    {
        match choices.accept {
            None => Err(GameError::InvalidChoice),
            Some(true) => match choices.target {
                Some(t) => {
                    if t < game.num_players() && t != player {
                        let role = game.players()[t];
                        let mut events: Vec<NightEvent> = Vec::new();
                        events.push(NightEvent::ShowPlayerRole { to: player, holder: t, role });
                        proof {
                            assert(events@ =~= seq![
                                NightEvent::ShowPlayerRole { to: player, holder: t, role },
                            ]);
                        }
                        Ok(events)
                    } else {
                        Err(GameError::InvalidChoice)
                    }
                },
                None => Err(GameError::InvalidChoice),
            },
            Some(false) => match (choices.center_one, choices.center_two) {
                (Some(one), Some(two)) => {
                    if one < CENTER_SIZE && two < CENTER_SIZE && one != two {
                        let role_one = game.centerroles()[one];
                        let role_two = game.centerroles()[two];
                        let mut events: Vec<NightEvent> = Vec::new();
                        events.push(
                            NightEvent::ShowCenterRole { to: player, slot: one, role: role_one },
                        );
                        events.push(
                            NightEvent::ShowCenterRole { to: player, slot: two, role: role_two },
                        );
                        proof {
                            assert(events@ =~= seq![
                                NightEvent::ShowCenterRole { to: player, slot: one, role: role_one },
                                NightEvent::ShowCenterRole { to: player, slot: two, role: role_two },
                            ]);
                        }
                        Ok(events)
                    } else {
                        Err(GameError::InvalidChoice)
                    }
                },
                _ => Err(GameError::InvalidChoice),
            },
        }
    }
}


/// The parts of the game a night action can never touch: the resolution
/// results, the options, the roster size and the center-pile size.
pub open spec fn spec_night_frame(pre: GameView, post: GameView) -> bool {
    &&& post.same_resolution(pre)
    &&& post.options == pre.options
    &&& post.n() == pre.n()
    &&& post.center.len() == pre.center.len()
}

/// The Robber's night action: the actor may decline; if they accept, their
/// card is exchanged with a chosen other participant's card and the actor is
/// shown the newly-acquired role.
pub open spec fn spec_robber_action(
    pre: GameView,
    player: usize,
    c: NightChoices,
    post: GameView,
    r: Result<Seq<NightEvent>, GameError>,
) -> bool {
    match c.accept {
        None => post == pre && r == Err::<Seq<NightEvent>, GameError>(GameError::InvalidChoice),
        Some(false) => post == pre && r == Ok::<Seq<NightEvent>, GameError>(
            Seq::<NightEvent>::empty(),
        ),
        Some(true) => match c.target {
            Some(t) => if t < pre.n() && t != player {
                &&& post == spec_swap(pre, RoleTarget::Player(player), RoleTarget::Player(t))
                &&& r == Ok::<Seq<NightEvent>, GameError>(
                    seq![
                        NightEvent::ShowPlayerRole {
                            to: player,
                            holder: player,
                            role: pre.players[t as int],
                        },
                    ],
                )
            } else {
                post == pre && r == Err::<Seq<NightEvent>, GameError>(GameError::InvalidChoice)
            },
            None => post == pre && r == Err::<Seq<NightEvent>, GameError>(
                GameError::InvalidChoice,
            ),
        },
    }
}

/// The Troublemaker's night action: the actor may decline; if they accept,
/// the cards of two chosen *other* participants are exchanged with each
/// other, without anyone seeing them.
pub open spec fn spec_troublemaker_action(
    pre: GameView,
    player: usize,
    c: NightChoices,
    post: GameView,
    r: Result<Seq<NightEvent>, GameError>,
) -> bool {
    match c.accept {
        None => post == pre && r == Err::<Seq<NightEvent>, GameError>(GameError::InvalidChoice),
        Some(false) => post == pre && r == Ok::<Seq<NightEvent>, GameError>(
            Seq::<NightEvent>::empty(),
        ),
        Some(true) => match (c.target, c.second_target) {
            (Some(t1), Some(t2)) => if t1 < pre.n() && t1 != player && t2 < pre.n() && t2 != player
                && t2 != t1 {
                &&& post == spec_swap(pre, RoleTarget::Player(t1), RoleTarget::Player(t2))
                &&& r == Ok::<Seq<NightEvent>, GameError>(Seq::<NightEvent>::empty())
            } else {
                post == pre && r == Err::<Seq<NightEvent>, GameError>(GameError::InvalidChoice)
            },
            _ => post == pre && r == Err::<Seq<NightEvent>, GameError>(GameError::InvalidChoice),
        },
    }
}

/// The Drunk's night action: the actor's card is exchanged with a chosen
/// center card, without the actor seeing the new role.
pub open spec fn spec_drunk_action(
    pre: GameView,
    player: usize,
    c: NightChoices,
    post: GameView,
    r: Result<Seq<NightEvent>, GameError>,
) -> bool {
    match c.center_one {
        Some(j) => if j < pre.center.len() {
            &&& post == spec_swap(pre, RoleTarget::Player(player), RoleTarget::Center(j))
            &&& r == Ok::<Seq<NightEvent>, GameError>(Seq::<NightEvent>::empty())
        } else {
            post == pre && r == Err::<Seq<NightEvent>, GameError>(GameError::InvalidChoice)
        },
        None => post == pre && r == Err::<Seq<NightEvent>, GameError>(GameError::InvalidChoice),
    }
}

/// Dispatch table from an effective identity to its night-action relation;
/// only the eight roles that own a priority appear.
pub open spec fn spec_named_action(
    name: RoleName,
    pre: GameView,
    player: usize,
    c: NightChoices,
    post: GameView,
    r: Result<Seq<NightEvent>, GameError>,
) -> bool {
    match name {
        RoleName::Werewolf => spec_werewolf_action(pre, player, c, post, r),
        RoleName::Minion => spec_minion_action(pre, player, c, post, r),
        RoleName::Mason => spec_mason_action(pre, player, c, post, r),
        RoleName::Seer => spec_seer_action(pre, player, c, post, r),
        RoleName::Robber => spec_robber_action(pre, player, c, post, r),
        RoleName::Troublemaker => spec_troublemaker_action(pre, player, c, post, r),
        RoleName::Drunk => spec_drunk_action(pre, player, c, post, r),
        RoleName::Insomniac => spec_insomniac_action(pre, player, c, post, r),
        _ => false,
    }
}

/// The identity-copier's night action: reveal and copy a chosen other
/// participant's current effective role, update the copier's own type, then
/// either run the copied action right away (roles that only need
/// current-moment state) or insert a fresh scheduler entry at the copied
/// role's own later priority.
pub open spec fn spec_doppelganger_action(
    pre: GameView,
    player: usize,
    c: NightChoices,
    post: GameView,
    r: Result<Seq<NightEvent>, GameError>,
) -> bool {
    if pre.players[player as int].spec_id() != RoleName::Doppelganger {
        post == pre && r == Err::<Seq<NightEvent>, GameError>(GameError::UnsupportedPriority)
    } else {
        match c.copy_target {
            Some(t) => if t < pre.n() && t != player {
                let copied = pre.players[t as int].spec_effective_id();
                let newcard = Role::Doppelganger(Doppelganger { copied: Some(copied) });
                let mid = spec_set_card(pre, RoleTarget::Player(player), newcard);
                let copy_events = seq![
                    NightEvent::ShowPlayerRole {
                        to: player,
                        holder: t,
                        role: pre.players[t as int],
                    },
                    NightEvent::ShowPlayerRole { to: player, holder: player, role: newcard },
                ];
                if copied.spec_copy_is_immediate() {
                    exists|inner: Result<Seq<NightEvent>, GameError>|
                        {
                            &&& #[trigger] spec_named_action(copied, mid, player, c, post, inner)
                            &&& r == (match inner {
                                Ok(ev) => Ok::<Seq<NightEvent>, GameError>(copy_events + ev),
                                Err(e) => Err::<Seq<NightEvent>, GameError>(e),
                            })
                        }
                } else if copied.spec_copy_is_deferred() {
                    &&& post == (GameView {
                        agenda: spec_insert_action(
                            mid.agenda,
                            copied.spec_priority()->Some_0,
                            NightAction::Real { role: newcard, player },
                        ),
                        ..mid
                    })
                    &&& r == Ok::<Seq<NightEvent>, GameError>(copy_events)
                } else {
                    post == mid && r == Ok::<Seq<NightEvent>, GameError>(copy_events)
                }
            } else {
                post == pre && r == Err::<Seq<NightEvent>, GameError>(GameError::InvalidChoice)
            },
            None => post == pre && r == Err::<Seq<NightEvent>, GameError>(
                GameError::InvalidChoice,
            ),
        }
    }
}


impl Robber {
    /// The actor may decline; if they accept, their card is exchanged with a
    /// chosen other participant's card and the newly-acquired role is shown
    /// to them.
    pub fn night_action(game: &mut ONUWGame, player: usize, choices: &NightChoices) -> (r: Result<
        Vec<NightEvent>,
        GameError,
    >)
        requires
            old(game)@.wf(),
            player < old(game)@.n(),
        ensures
            spec_robber_action(old(game)@, player, *choices, final(game)@, spec_result_view(r)),
            final(game)@.wf(),
            spec_night_frame(old(game)@, final(game)@),
            final(game)@.agenda == old(game)@.agenda,
    {
        match choices.accept {
            None => Err(GameError::InvalidChoice),
            Some(false) => {
                let events: Vec<NightEvent> = Vec::new();
                proof {
                    assert(events@ =~= Seq::<NightEvent>::empty());
                }
                Ok(events)
            },
            Some(true) => match choices.target {
                Some(t) => {
                    if t < game.num_players() && t != player {
                        let stolen = game.players()[t];
                        game.swap_cards(&RoleTarget::Player(player), &RoleTarget::Player(t));
                        let mut events: Vec<NightEvent> = Vec::new();
                        events.push(
                            NightEvent::ShowPlayerRole { to: player, holder: player, role: stolen },
                        );
                        proof {
                            assert(events@ =~= seq![
                                NightEvent::ShowPlayerRole {
                                    to: player,
                                    holder: player,
                                    role: old(game)@.players[t as int],
                                },
                            ]);
                        }
                        Ok(events)
                    } else {
                        Err(GameError::InvalidChoice)
                    }
                },
                None => Err(GameError::InvalidChoice),
            },
        }
    }
}

impl Troublemaker {
    /// The actor may decline; if they accept, the cards of two chosen other
    /// participants are exchanged with each other, unseen.
    pub fn night_action(game: &mut ONUWGame, player: usize, choices: &NightChoices) -> (r: Result<
        Vec<NightEvent>,
        GameError,
    >)
        requires
            old(game)@.wf(),
            player < old(game)@.n(),
        ensures
            spec_troublemaker_action(
                old(game)@,
                player,
                *choices,
                final(game)@,
                spec_result_view(r),
            ),
            final(game)@.wf(),
            spec_night_frame(old(game)@, final(game)@),
            final(game)@.agenda == old(game)@.agenda,
    {
        match choices.accept {
            None => Err(GameError::InvalidChoice),
            Some(false) => {
                let events: Vec<NightEvent> = Vec::new();
                proof {
                    assert(events@ =~= Seq::<NightEvent>::empty());
                }
                Ok(events)
            },
            Some(true) => match (choices.target, choices.second_target) {
                (Some(t1), Some(t2)) => {
                    if t1 < game.num_players() && t1 != player && t2 < game.num_players() && t2
                        != player && t2 != t1 {
                        game.swap_cards(&RoleTarget::Player(t1), &RoleTarget::Player(t2));
                        let events: Vec<NightEvent> = Vec::new();
                        proof {
                            assert(events@ =~= Seq::<NightEvent>::empty());
                        }
                        Ok(events)
                    } else {
                        Err(GameError::InvalidChoice)
                    }
                },
                _ => Err(GameError::InvalidChoice),
            },
        }
    }
}

impl Drunk {
    /// The actor's card is exchanged with a chosen center card, unseen.
    pub fn night_action(game: &mut ONUWGame, player: usize, choices: &NightChoices) -> (r: Result<
        Vec<NightEvent>,
        GameError,
    >)
        requires
            old(game)@.wf(),
            player < old(game)@.n(),
        ensures
            spec_drunk_action(old(game)@, player, *choices, final(game)@, spec_result_view(r)),
            final(game)@.wf(),
            spec_night_frame(old(game)@, final(game)@),
            final(game)@.agenda == old(game)@.agenda,
    {
        match choices.center_one {
            Some(j) => {
                if j < CENTER_SIZE {
                    game.swap_cards(&RoleTarget::Player(player), &RoleTarget::Center(j));
                    let events: Vec<NightEvent> = Vec::new();
                    proof {
                        assert(events@ =~= Seq::<NightEvent>::empty());
                    }
                    Ok(events)
                } else {
                    Err(GameError::InvalidChoice)
                }
            },
            None => Err(GameError::InvalidChoice),
        }
    }
}

impl Doppelganger {
    /// Reveal and copy a chosen other participant's current effective role;
    /// run the copied action now if it is in the immediate set, or schedule
    /// it at the copied role's own later priority if it is in the deferred
    /// set.
    pub fn night_action(game: &mut ONUWGame, player: usize, choices: &NightChoices) -> (r: Result<
        Vec<NightEvent>,
        GameError,
    >)
        requires
            old(game)@.wf(),
            player < old(game)@.n(),
        ensures
            spec_doppelganger_action(
                old(game)@,
                player,
                *choices,
                final(game)@,
                spec_result_view(r),
            ),
            final(game)@.wf(),
            spec_night_frame(old(game)@, final(game)@),
            forall|i: int|
                0 <= i < final(game)@.agenda.len() ==> spec_has_tier(
                    old(game)@.agenda,
                    #[trigger] final(game)@.agenda[i].0,
                ) || final(game)@.agenda[i].0 >= 2,
    {
        let own = game.players()[player];
        if own.id() != RoleName::Doppelganger {
            return Err(GameError::UnsupportedPriority);
        }
        let t = match choices.copy_target {
            Some(t) => t,
            None => {
                return Err(GameError::InvalidChoice);
            },
        };
        if t >= game.num_players() || t == player {
            return Err(GameError::InvalidChoice);
        }
        let ghost pre = game@;
        let target_card = game.players()[t];
        let copied = target_card.effective_id();
        let newcard = Role::Doppelganger(Doppelganger { copied: Some(copied) });
        let mut events: Vec<NightEvent> = Vec::new();
        events.push(NightEvent::ShowPlayerRole { to: player, holder: t, role: target_card });
        events.push(NightEvent::ShowPlayerRole { to: player, holder: player, role: newcard });
        let ghost copy_events = seq![
            NightEvent::ShowPlayerRole { to: player, holder: t, role: pre.players[t as int] },
            NightEvent::ShowPlayerRole { to: player, holder: player, role: newcard },
        ];
        proof {
            assert(events@ =~= copy_events);
        }
        game.set_card(&RoleTarget::Player(player), newcard);
        let ghost mid = game@;
        if copied.copy_is_immediate() {
            let inner = match copied {
                RoleName::Minion => Minion::night_action(game, player, choices),
                RoleName::Seer => Seer::night_action(game, player, choices),
                RoleName::Robber => Robber::night_action(game, player, choices),
                RoleName::Troublemaker => Troublemaker::night_action(game, player, choices),
                RoleName::Drunk => Drunk::night_action(game, player, choices),
                _ => {
                    proof {
                        assert(false);
                    }
                    Err(GameError::InvalidChoice)
                },
            };
            let ghost innerview = spec_result_view(inner);
            match inner {
                Ok(mut iv) => {
                    let ghost ivs = iv@;
                    events.append(&mut iv);
                    proof {
                        assert(events@ =~= copy_events + ivs);
                        assert(spec_named_action(copied, mid, player, *choices, game@, innerview));
                    }
                    Ok(events)
                },
                Err(e) => {
                    proof {
                        assert(spec_named_action(copied, mid, player, *choices, game@, innerview));
                    }
                    Err(e)
                },
            }
        } else if copied.copy_is_deferred() {
            let p = match copied.priority() {
                Some(p) => p,
                None => {
                    proof {
                        assert(false);
                    }
                    0
                },
            };
            game.add_night_action_at_priority(p, NightAction::Real { role: newcard, player });
            proof {
                assert(game@ =~= (GameView {
                    agenda: spec_insert_action(
                        mid.agenda,
                        copied.spec_priority()->Some_0,
                        NightAction::Real { role: newcard, player },
                    ),
                    ..mid
                }));
            }
            Ok(events)
        } else {
            Ok(events)
        }
    }
}

/// The night-action relation of one card asked to act at one priority tier:
/// an identity-copier card acts itself at its own tier; otherwise the card's
/// effective role acts if the tier is the one it owns, and anything else is
/// an `UnsupportedPriority` error with nothing changed.
pub open spec fn spec_card_action(
    card: Role,
    pre: GameView,
    priority: ActionPriority,
    player: usize,
    c: NightChoices,
    post: GameView,
    r: Result<Seq<NightEvent>, GameError>,
) -> bool {
    if card.spec_id() == RoleName::Doppelganger && priority == 1 {
        spec_doppelganger_action(pre, player, c, post, r)
    } else if card.spec_effective_id().spec_priority() == Some(priority) {
        spec_named_action(card.spec_effective_id(), pre, player, c, post, r)
    } else {
        post == pre && r == Err::<Seq<NightEvent>, GameError>(GameError::UnsupportedPriority)
    }
}

impl Role {
    /// Execute this card's behavior for the given priority tier on behalf of
    /// `player`.
    pub fn action_at_priority(
        &self,
        priority: ActionPriority,
        game: &mut ONUWGame,
        player: usize,
        choices: &NightChoices,
    ) -> (r: Result<Vec<NightEvent>, GameError>)
        requires
            old(game)@.wf(),
            player < old(game)@.n(),
        ensures
            spec_card_action(
                *self,
                old(game)@,
                priority,
                player,
                *choices,
                final(game)@,
                spec_result_view(r),
            ),
            final(game)@.wf(),
            spec_night_frame(old(game)@, final(game)@),
            forall|i: int|
                0 <= i < final(game)@.agenda.len() ==> spec_has_tier(
                    old(game)@.agenda,
                    #[trigger] final(game)@.agenda[i].0,
                ) || final(game)@.agenda[i].0 > priority,
            priority != 1 ==> final(game)@.agenda == old(game)@.agenda,
    {
        if self.id() == RoleName::Doppelganger && priority == 1 {
            Doppelganger::night_action(game, player, choices)
        } else {
            let eff = self.effective_id();
            match eff.priority() {
                Some(p) => {
                    if p == priority {
                        match eff {
                            RoleName::Werewolf => Werewolf::night_action(game, player, choices),
                            RoleName::Minion => Minion::night_action(game, player, choices),
                            RoleName::Mason => Mason::night_action(game, player, choices),
                            RoleName::Seer => Seer::night_action(game, player, choices),
                            RoleName::Robber => Robber::night_action(game, player, choices),
                            RoleName::Troublemaker => Troublemaker::night_action(
                                game,
                                player,
                                choices,
                            ),
                            RoleName::Drunk => Drunk::night_action(game, player, choices),
                            RoleName::Insomniac => Insomniac::night_action(game, player, choices),
                            _ => {
                                proof {
                                    assert(false);
                                }
                                Err(GameError::UnsupportedPriority)
                            },
                        }
                    } else {
                        Err(GameError::UnsupportedPriority)
                    }
                },
                None => Err(GameError::UnsupportedPriority),
            }
        }
    }
}




/// Prefix events onto a tier-run result; an error reports nothing of the
/// aborted tier, so it swallows them.
pub open spec fn spec_prepend_events(
    evs: Seq<NightEvent>,
    r: Result<Seq<NightEvent>, GameError>,
) -> Result<Seq<NightEvent>, GameError> {
    match r {
        Ok(t) => Ok(evs + t),
        Err(e) => Err(e),
    }
}

/// The announcement opening an entry's moment: present only when the
/// previous entry's effective role differs.
pub open spec fn spec_announce_head(last: Option<RoleName>, eff: RoleName) -> Seq<NightEvent> {
    if last != Some(eff) {
        seq![NightEvent::Announce(eff)]
    } else {
        Seq::empty()
    }
}

/// One priority tier executed entry by entry, left to right: the state
/// threads through, consecutive actions of one effective role share one
/// announcement, a `Fake` entry contributes the skipped-action pause, and
/// the first failing action aborts the tier with its error.
pub open spec fn spec_tier_run(
    entries: Seq<NightAction>,
    priority: ActionPriority,
    choices: Seq<NightChoices>,
    last: Option<RoleName>,
    pre: GameView,
    post: GameView,
    r: Result<Seq<NightEvent>, GameError>,
) -> bool
    decreases entries.len(),
{
    if entries.len() == 0 {
        post == pre && r == Ok::<Seq<NightEvent>, GameError>(Seq::empty())
    } else {
        let a = entries[0];
        let eff = a.spec_role().spec_effective_id();
        let head = spec_announce_head(last, eff);
        match a {
            NightAction::Fake { role: _ } => exists|r2: Result<Seq<NightEvent>, GameError>|
                #![all_triggers]
                {
                    &&& spec_tier_run(
                        entries.drop_first(),
                        priority,
                        choices,
                        Some(eff),
                        pre,
                        post,
                        r2,
                    )
                    &&& r == spec_prepend_events(head.push(NightEvent::FakePause), r2)
                },
            NightAction::Real { role, player } => {
                ||| exists|mid: GameView, e: GameError|
                    #![trigger spec_card_action(role, pre, priority, player,
                        choices[player as int], mid, Err::<Seq<NightEvent>, GameError>(e))]
                    {
                        &&& spec_card_action(
                            role,
                            pre,
                            priority,
                            player,
                            choices[player as int],
                            mid,
                            Err::<Seq<NightEvent>, GameError>(e),
                        )
                        &&& post == mid
                        &&& r == Err::<Seq<NightEvent>, GameError>(e)
                    }
                ||| exists|
                    mid: GameView,
                    ev: Seq<NightEvent>,
                    r2: Result<Seq<NightEvent>, GameError>,
                |
                    #![trigger spec_card_action(role, pre, priority, player,
                        choices[player as int], mid, Ok::<Seq<NightEvent>, GameError>(ev)),
                        spec_prepend_events(spec_announce_head(last, eff) + ev, r2)]
                    {
                        &&& spec_card_action(
                            role,
                            pre,
                            priority,
                            player,
                            choices[player as int],
                            mid,
                            Ok::<Seq<NightEvent>, GameError>(ev),
                        )
                        &&& spec_tier_run(
                            entries.drop_first(),
                            priority,
                            choices,
                            Some(eff),
                            mid,
                            post,
                            r2,
                        )
                        &&& r == spec_prepend_events(head + ev, r2)
                    }
            },
        }
    }
}

proof fn lemma_prepend_events_empty(r: Result<Seq<NightEvent>, GameError>)
    ensures
        spec_prepend_events(Seq::empty(), r) == r,
{
    match r {
        Ok(t) => {
            assert(Seq::<NightEvent>::empty() + t =~= t);
        },
        Err(_) => {
        },
    }
}

proof fn lemma_prepend_events_assoc(
    a: Seq<NightEvent>,
    b: Seq<NightEvent>,
    r: Result<Seq<NightEvent>, GameError>,
)
    ensures
        spec_prepend_events(a, spec_prepend_events(b, r)) == spec_prepend_events(a + b, r),
{
    match r {
        Ok(t) => {
            assert(a + (b + t) =~= (a + b) + t);
        },
        Err(_) => {
        },
    }
}

proof fn lemma_tier_run_step_fake(
    entries: Seq<NightAction>,
    k: int,
    priority: ActionPriority,
    choices: Seq<NightChoices>,
    last0: Option<RoleName>,
    pre: GameView,
    post2: GameView,
    r2: Result<Seq<NightEvent>, GameError>,
    role: Role,
)
    requires
        0 <= k < entries.len(),
        entries[k] == (NightAction::Fake { role }),
        spec_tier_run(
            entries.skip(k + 1),
            priority,
            choices,
            Some(role.spec_effective_id()),
            pre,
            post2,
            r2,
        ),
    ensures
        spec_tier_run(
            entries.skip(k),
            priority,
            choices,
            last0,
            pre,
            post2,
            spec_prepend_events(
                spec_announce_head(last0, role.spec_effective_id()).push(NightEvent::FakePause),
                r2,
            ),
        ),
{
    assert(entries.skip(k).drop_first() =~= entries.skip(k + 1));
    assert(entries.skip(k)[0] == entries[k]);
    let a = entries.skip(k)[0];
    let eff = a.spec_role().spec_effective_id();
    assert(eff == role.spec_effective_id());
    assert(spec_tier_run(
        entries.skip(k).drop_first(),
        priority,
        choices,
        Some(eff),
        pre,
        post2,
        r2,
    ));
}

proof fn lemma_tier_run_step_real_ok(
    entries: Seq<NightAction>,
    k: int,
    priority: ActionPriority,
    choices: Seq<NightChoices>,
    last0: Option<RoleName>,
    pre: GameView,
    mid: GameView,
    ivs: Seq<NightEvent>,
    post2: GameView,
    r2: Result<Seq<NightEvent>, GameError>,
    role: Role,
    player: usize,
)
    requires
        0 <= k < entries.len(),
        entries[k] == (NightAction::Real { role, player }),
        spec_card_action(
            role,
            pre,
            priority,
            player,
            choices[player as int],
            mid,
            Ok::<Seq<NightEvent>, GameError>(ivs),
        ),
        spec_tier_run(
            entries.skip(k + 1),
            priority,
            choices,
            Some(role.spec_effective_id()),
            mid,
            post2,
            r2,
        ),
    ensures
        spec_tier_run(
            entries.skip(k),
            priority,
            choices,
            last0,
            pre,
            post2,
            spec_prepend_events(
                spec_announce_head(last0, role.spec_effective_id()) + ivs,
                r2,
            ),
        ),
{
    assert(entries.skip(k).drop_first() =~= entries.skip(k + 1));
    assert(entries.skip(k)[0] == entries[k]);
    let a = entries.skip(k)[0];
    match a {
        NightAction::Real { role: rr, player: pp } => {
            assert(rr == role);
            assert(pp == player);
            let effa = a.spec_role().spec_effective_id();
            assert(effa == role.spec_effective_id());
            assert(spec_card_action(
                rr,
                pre,
                priority,
                pp,
                choices[pp as int],
                mid,
                Ok::<Seq<NightEvent>, GameError>(ivs),
            ));
            assert(spec_tier_run(
                entries.skip(k).drop_first(),
                priority,
                choices,
                Some(effa),
                mid,
                post2,
                r2,
            ));
            assert(spec_prepend_events(spec_announce_head(last0, effa) + ivs, r2)
                == spec_prepend_events(
                spec_announce_head(last0, role.spec_effective_id()) + ivs,
                r2,
            ));
        },
        _ => {
            assert(false);
        },
    }
}

proof fn lemma_tier_run_step_real_err(
    entries: Seq<NightAction>,
    k: int,
    priority: ActionPriority,
    choices: Seq<NightChoices>,
    last0: Option<RoleName>,
    pre: GameView,
    mid: GameView,
    e: GameError,
    role: Role,
    player: usize,
)
    requires
        0 <= k < entries.len(),
        entries[k] == (NightAction::Real { role, player }),
        spec_card_action(
            role,
            pre,
            priority,
            player,
            choices[player as int],
            mid,
            Err::<Seq<NightEvent>, GameError>(e),
        ),
    ensures
        spec_tier_run(
            entries.skip(k),
            priority,
            choices,
            last0,
            pre,
            mid,
            Err::<Seq<NightEvent>, GameError>(e),
        ),
{
    assert(entries.skip(k)[0] == entries[k]);
    let a = entries.skip(k)[0];
    match a {
        NightAction::Real { role: rr, player: pp } => {
            assert(rr == role);
            assert(pp == player);
            assert(spec_card_action(
                rr,
                pre,
                priority,
                pp,
                choices[pp as int],
                mid,
                Err::<Seq<NightEvent>, GameError>(e),
            ));
        },
        _ => {
            assert(false);
        },
    }
}

impl ONUWGame {
    /// Pop and execute the lowest remaining priority tier of the night
    /// agenda, in insertion order. Each acting participant's decisions are
    /// read from `choices` at their roster index; the reveals and
    /// announcements to deliver come back as events. Consecutive actions of
    /// the same effective role share a single announcement, and the first
    /// failing action aborts the tier with its error (the full execution is
    /// pinned by [`spec_tier_run`]).
    ///
    /// Once the agenda is exhausted this fails with `NoMoreNightActions` and
    /// changes nothing: the signal to stop the night loop. A tier is
    /// consumed exactly once, and anything the tier itself schedules (the
    /// identity-copier's deferred entry) lands strictly above the consumed
    /// key, never at or below it.
    pub fn perform_next_night_action(&mut self, choices: &Vec<NightChoices>) -> (r: Result<
        Vec<NightEvent>,
        GameError,
    >)
        requires
            old(self)@.wf(),
            choices@.len() == old(self)@.n(),
        ensures
            final(self)@.wf(),
            final(self)@.same_resolution(old(self)@),
            final(self)@.options == old(self)@.options,
            final(self)@.n() == old(self)@.n(),
            (r == Err::<Vec<NightEvent>, GameError>(GameError::NoMoreNightActions))
                <==> old(self)@.agenda.len() == 0,
            old(self)@.agenda.len() == 0 ==> final(self)@ == old(self)@,
            old(self)@.agenda.len() > 0 ==> spec_tier_run(
                old(self)@.agenda[0].1,
                old(self)@.agenda[0].0,
                choices@,
                None::<RoleName>,
                (GameView { agenda: old(self)@.agenda.drop_first(), ..old(self)@ }),
                final(self)@,
                spec_result_view(r),
            ),
            old(self)@.agenda.len() > 0 ==> forall|i: int|
                0 <= i < final(self)@.agenda.len()
                    ==> #[trigger] final(self)@.agenda[i].0 > old(self)@.agenda[0].0,
            old(self)@.agenda.len() > 0 && old(self)@.agenda[0].0 != 1 && r is Ok
                ==> final(self)@.agenda == old(self)@.agenda.drop_first(),
    {
        if self.nightactions.len() == 0 {
            return Err(GameError::NoMoreNightActions);
        }
        let ghost pre = self@;
        let tier = self.nightactions.remove(0);
        let priority = tier.priority;
        let ghost start = self@;
        proof {
            assert(self@.agenda =~= pre.agenda.drop_first());
            assert(start =~= (GameView { agenda: pre.agenda.drop_first(), ..pre }));
            assert(pre.agenda[0] == (priority, tier.actions@));
            assert forall|i: int| 0 <= i < self@.agenda.len() implies #[trigger] self@.agenda[i].0
                > priority by {
                assert(self@.agenda[i] == pre.agenda[i + 1]);
            }
            assert forall|k2: int|
                0 <= k2 < tier.actions@.len() implies spec_action_wf(
                #[trigger] tier.actions@[k2],
                pre.n(),
            ) by {
                assert(spec_action_wf(pre.agenda[0].1[k2], pre.n()));
            }
        }
        let mut events: Vec<NightEvent> = Vec::new();
        let mut last_role: Option<RoleName> = None;
        proof {
            assert(tier.actions@.skip(0) =~= tier.actions@);
            assert forall|post2: GameView, r2: Result<Seq<NightEvent>, GameError>|
                #[trigger] spec_tier_run(
                tier.actions@.skip(0),
                priority,
                choices@,
                last_role,
                self@,
                post2,
                r2,
            ) implies spec_tier_run(
                tier.actions@,
                priority,
                choices@,
                None::<RoleName>,
                start,
                post2,
                spec_prepend_events(events@, r2),
            ) by {
                lemma_prepend_events_empty(r2);
                assert(events@ =~= Seq::<NightEvent>::empty());
            }
        }
        let mut k: usize = 0;
        while k < tier.actions.len()
            invariant
                self@.wf(),
                pre == old(self)@,
                pre.agenda.len() > 0,
                priority == pre.agenda[0].0,
                tier.actions@ == pre.agenda[0].1,
                start == (GameView { agenda: pre.agenda.drop_first(), ..pre }),
                k <= tier.actions@.len(),
                choices@.len() == pre.n(),
                self@.n() == pre.n(),
                self@.options == pre.options,
                self@.same_resolution(pre),
                forall|k2: int|
                    0 <= k2 < tier.actions@.len() ==> spec_action_wf(
                        #[trigger] tier.actions@[k2],
                        pre.n(),
                    ),
                forall|i: int|
                    0 <= i < self@.agenda.len() ==> #[trigger] self@.agenda[i].0 > priority,
                priority != 1 ==> self@.agenda == pre.agenda.drop_first(),
                forall|post2: GameView, r2: Result<Seq<NightEvent>, GameError>|
                    #[trigger] spec_tier_run(
                        tier.actions@.skip(k as int),
                        priority,
                        choices@,
                        last_role,
                        self@,
                        post2,
                        r2,
                    ) ==> spec_tier_run(
                        tier.actions@,
                        priority,
                        choices@,
                        None::<RoleName>,
                        start,
                        post2,
                        spec_prepend_events(events@, r2),
                    ),
            decreases tier.actions@.len() - k,
        {
            let ghost entries = tier.actions@;
            let ghost events0 = events@;
            let ghost last0 = last_role;
            let ghost state0 = self@;
            let action = tier.actions[k];
            let role = action.role();
            let eff = role.effective_id();
            let ghost head = spec_announce_head(last0, eff);
            let announce = match last_role {
                Some(lr) => lr != eff,
                None => true,
            };
            if announce {
                events.push(NightEvent::Announce(eff));
                last_role = Some(eff);
            }
            proof {
                assert(last_role == Some(eff));
                assert(events@ =~= events0 + head);
                assert(entries.skip(k as int).drop_first() =~= entries.skip(k + 1));
                assert(entries.skip(k as int)[0] == entries[k as int]);
            }
            match action {
                NightAction::Real { role, player } => {
                    let ghost before = self@;
                    let c = choices[player];
                    let res = role.action_at_priority(priority, self, player, &c);
                    proof {
                        assert forall|i: int|
                            0 <= i < self@.agenda.len() implies #[trigger] self@.agenda[i].0
                            > priority by {
                            if spec_has_tier(before.agenda, self@.agenda[i].0) {
                                let j = choose|j: int|
                                    0 <= j < before.agenda.len() && before.agenda[j].0
                                        == self@.agenda[i].0;
                                assert(before.agenda[j].0 > priority);
                            }
                        }
                    }
                    match res {
                        Ok(mut ev) => {
                            let ghost ivs = ev@;
                            events.append(&mut ev);
                            proof {
                                let mid = self@;
                                assert(entries[k as int] == (NightAction::Real { role, player }));
                                assert(events@ =~= events0 + (head + ivs));
                                assert forall|
                                    post2: GameView,
                                    r2: Result<Seq<NightEvent>, GameError>,
                                |
                                    #[trigger] spec_tier_run(
                                    entries.skip(k + 1),
                                    priority,
                                    choices@,
                                    last_role,
                                    mid,
                                    post2,
                                    r2,
                                ) implies spec_tier_run(
                                    entries,
                                    priority,
                                    choices@,
                                    None::<RoleName>,
                                    start,
                                    post2,
                                    spec_prepend_events(events@, r2),
                                ) by {
                                    lemma_tier_run_step_real_ok(
                                        entries,
                                        k as int,
                                        priority,
                                        choices@,
                                        last0,
                                        state0,
                                        mid,
                                        ivs,
                                        post2,
                                        r2,
                                        role,
                                        player,
                                    );
                                    assert(spec_tier_run(
                                        entries.skip(k as int),
                                        priority,
                                        choices@,
                                        last0,
                                        state0,
                                        post2,
                                        spec_prepend_events(head + ivs, r2),
                                    ));
                                    lemma_prepend_events_assoc(events0, head + ivs, r2);
                                }
                            }
                        },
                        Err(e) => {
                            proof {
                                assert(e != GameError::NoMoreNightActions);
                                let mid = self@;
                                assert(entries[k as int] == (NightAction::Real { role, player }));
                                lemma_tier_run_step_real_err(
                                    entries,
                                    k as int,
                                    priority,
                                    choices@,
                                    last0,
                                    state0,
                                    mid,
                                    e,
                                    role,
                                    player,
                                );
                                assert(spec_tier_run(
                                    entries.skip(k as int),
                                    priority,
                                    choices@,
                                    last0,
                                    state0,
                                    mid,
                                    Err::<Seq<NightEvent>, GameError>(e),
                                ));
                                assert(spec_tier_run(
                                    entries,
                                    priority,
                                    choices@,
                                    None::<RoleName>,
                                    start,
                                    mid,
                                    spec_prepend_events(events0, Err(e)),
                                ));
                            }
                            return Err(e);
                        },
                    }
                },
                NightAction::Fake { role: _ } => {
                    events.push(NightEvent::FakePause);
                    proof {
                        assert(entries[k as int] == (NightAction::Fake { role }));
                        assert(events@ =~= events0 + head.push(NightEvent::FakePause));
                        assert forall|post2: GameView, r2: Result<Seq<NightEvent>, GameError>|
                            #[trigger] spec_tier_run(
                            entries.skip(k + 1),
                            priority,
                            choices@,
                            last_role,
                            self@,
                            post2,
                            r2,
                        ) implies spec_tier_run(
                            entries,
                            priority,
                            choices@,
                            None::<RoleName>,
                            start,
                            post2,
                            spec_prepend_events(events@, r2),
                        ) by {
                            lemma_tier_run_step_fake(
                                entries,
                                k as int,
                                priority,
                                choices@,
                                last0,
                                state0,
                                post2,
                                r2,
                                role,
                            );
                            assert(spec_tier_run(
                                entries.skip(k as int),
                                priority,
                                choices@,
                                last0,
                                state0,
                                post2,
                                spec_prepend_events(head.push(NightEvent::FakePause), r2),
                            ));
                            lemma_prepend_events_assoc(
                                events0,
                                head.push(NightEvent::FakePause),
                                r2,
                            );
                        }
                    }
                },
            }
            k = k + 1;
        }
        proof {
            assert(tier.actions@.skip(tier.actions@.len() as int)
                =~= Seq::<NightAction>::empty());
            assert(spec_tier_run(
                tier.actions@.skip(tier.actions@.len() as int),
                priority,
                choices@,
                last_role,
                self@,
                self@,
                Ok::<Seq<NightEvent>, GameError>(Seq::empty()),
            ));
            assert(spec_prepend_events(events@, Ok::<Seq<NightEvent>, GameError>(Seq::empty()))
                == Ok::<Seq<NightEvent>, GameError>(events@)) by {
                assert(events@ + Seq::<NightEvent>::empty() =~= events@);
            }
        }
        Ok(events)
    }
}

} // verus!
