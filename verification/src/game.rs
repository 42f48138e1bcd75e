//! The game engine: construction and dealing, the priority-ordered night
//! agenda, and the state every operation threads through. The night actions
//! themselves live in [`actions`], the vote and win-condition pipeline in
//! [`resolution`].

pub mod actions;
pub mod gamerror;
pub mod nightaction;
pub mod options;
pub mod resolution;
pub mod time;
pub mod voteaction;

use vstd::prelude::*;
use vstd::seq_lib::*;

use self::gamerror::GameError;
use self::nightaction::NightAction;
use self::nightaction::NightEvent;
use self::options::Options;
use crate::roles::ActionPriority;
use crate::roles::Role;
use crate::roles::RoleName;
use crate::roles::spec_roles_catalogue;
use crate::roletype::RoleType;

verus! {

/// One priority tier of the night agenda: its key and its pending actions in
/// insertion order.
#[derive(Clone, Debug)]
pub(crate) struct NightTier {
    pub(crate) priority: ActionPriority,
    pub(crate) actions: Vec<NightAction>,
}

/// The number of undealt cards forming the center pile.
pub const CENTER_SIZE: usize = 3;

/// The game engine: the card in front of each participant, the type index,
/// the center pile, the remaining night agenda, and the vote/resolution
/// results, each populated at most once and strictly in order.
///
/// Participants are indices `0..n` into the roster the surrounding process
/// keeps; all I/O with them happens outside the engine.
pub struct ONUWGame {
    players: Vec<Role>,
    players_by_type: Vec<RoleType>,
    centerroles: Vec<Role>,
    options: Options,
    nightactions: Vec<NightTier>,
    votes: Option<Vec<usize>>,
    dead: Option<Vec<bool>>,
    winners: Option<Vec<bool>>,
}

/// The mathematical state of a game: what each contract speaks of.
#[verifier::ext_equal]
pub ghost struct GameView {
    pub players: Seq<Role>,
    pub types: Seq<RoleType>,
    pub center: Seq<Role>,
    pub options: Options,
    pub agenda: Seq<(ActionPriority, Seq<NightAction>)>,
    pub votes: Option<Seq<usize>>,
    pub dead: Option<Seq<bool>>,
    pub winners: Option<Seq<bool>>,
}

impl GameView {
    /// Number of participants.
    pub open spec fn n(self) -> nat {
        self.players.len()
    }

    /// Well-formedness: the invariants every engine operation preserves.
    ///
    /// In particular the type index always agrees with the card each
    /// participant currently holds, the agenda keys are strictly ascending
    /// with no empty tier, and votes, dead and winners are populated only in
    /// that order.
    pub open spec fn wf(self) -> bool {
        &&& self.types.len() == self.n()
        &&& self.n() + CENTER_SIZE <= usize::MAX
        &&& self.center.len() == CENTER_SIZE
        &&& forall|i: int|
            0 <= i < self.n() ==> #[trigger] self.types[i] == self.players[i].spec_role_type()
        &&& spec_agenda_wf(self.agenda, self.n())
        &&& match self.votes {
            Some(v) => spec_votes_wf(v, self.n()),
            None => true,
        }
        &&& self.dead is Some ==> {
            &&& self.votes is Some
            &&& self.dead->Some_0.len() == self.n()
        }
        &&& self.winners is Some ==> {
            &&& self.dead is Some
            &&& self.winners->Some_0.len() == self.n()
        }
    }

    /// The night phase never touches the vote and resolution results.
    pub open spec fn same_resolution(self, other: GameView) -> bool {
        &&& self.votes == other.votes
        &&& self.dead == other.dead
        &&& self.winners == other.winners
    }
}

impl View for ONUWGame {
    type V = GameView;

    closed spec fn view(&self) -> GameView {
        GameView {
            players: self.players@,
            types: self.players_by_type@,
            center: self.centerroles@,
            options: self.options,
            agenda: self.nightactions@.map_values(|t: NightTier| (t.priority, t.actions@)),
            votes: match self.votes {
                Some(v) => Some(v@),
                None => None,
            },
            dead: match self.dead {
                Some(v) => Some(v@),
                None => None,
            },
            winners: match self.winners {
                Some(v) => Some(v@),
                None => None,
            },
        }
    }
}

impl ONUWGame {
    /// The card currently in front of each participant.
    pub open spec fn spec_players(self) -> Seq<Role> {
        self@.players
    }

    /// The type index: the alignment of each participant's current card.
    pub open spec fn spec_types(self) -> Seq<RoleType> {
        self@.types
    }

    /// The center pile.
    pub open spec fn spec_center(self) -> Seq<Role> {
        self@.center
    }

    pub open spec fn spec_options(self) -> Options {
        self@.options
    }

    /// The remaining night agenda: priority tiers in ascending key order.
    pub open spec fn spec_agenda(self) -> Seq<(ActionPriority, Seq<NightAction>)> {
        self@.agenda
    }

    pub open spec fn spec_votes(self) -> Option<Seq<usize>> {
        self@.votes
    }

    pub open spec fn spec_dead(self) -> Option<Seq<bool>> {
        self@.dead
    }

    pub open spec fn spec_winners(self) -> Option<Seq<bool>> {
        self@.winners
    }

    /// Number of participants.
    pub open spec fn n(self) -> nat {
        self@.n()
    }

    /// Well-formedness of the underlying view.
    pub open spec fn wf(self) -> bool {
        self@.wf()
    }
}

/// A vote list is total: every participant names another participant.
pub open spec fn spec_votes_wf(votes: Seq<usize>, n: nat) -> bool {
    &&& votes.len() == n
    &&& forall|i: int| 0 <= i < votes.len() ==> #[trigger] votes[i] < n && votes[i] != i
}

/// Agenda well-formedness: keys strictly ascending, no tier empty, and every
/// real entry names a participant of the roster.
pub open spec fn spec_agenda_wf(agenda: Seq<(ActionPriority, Seq<NightAction>)>, n: nat) -> bool {
    &&& forall|i: int, j: int| 0 <= i < j < agenda.len() ==> agenda[i].0 < agenda[j].0
    &&& forall|i: int| 0 <= i < agenda.len() ==> #[trigger] agenda[i].1.len() > 0
    &&& forall|i: int, k: int|
        0 <= i < agenda.len() && 0 <= k < #[trigger] agenda[i].1.len()
            ==> spec_action_wf(#[trigger] agenda[i].1[k], n)
}

pub open spec fn spec_action_wf(a: NightAction, n: nat) -> bool {
    match a {
        NightAction::Real { role: _, player } => player < n,
        NightAction::Fake { role: _ } => true,
    }
}

/// The scheduler entries contributed by the dealt cards (in participant
/// order) for one priority key.
pub open spec fn spec_real_entries(players: Seq<Role>, p: ActionPriority) -> Seq<NightAction>
    decreases players.len(),
{
    if players.len() == 0 {
        Seq::empty()
    } else {
        let rest = spec_real_entries(players.drop_last(), p);
        let i = players.len() - 1;
        if players.last().spec_priority() == Some(p) {
            rest.push(NightAction::Real { role: players.last(), player: i as usize })
        } else {
            rest
        }
    }
}

/// The scheduler entries contributed by the center cards (in slot order) for
/// one priority key.
pub open spec fn spec_fake_entries(center: Seq<Role>, p: ActionPriority) -> Seq<NightAction>
    decreases center.len(),
{
    if center.len() == 0 {
        Seq::empty()
    } else {
        let rest = spec_fake_entries(center.drop_last(), p);
        if center.last().spec_priority() == Some(p) {
            rest.push(NightAction::Fake { role: center.last() })
        } else {
            rest
        }
    }
}

/// All entries of one priority tier right after the deal: dealt cards in
/// participant order, then center cards in slot order.
pub open spec fn spec_tier_entries(players: Seq<Role>, center: Seq<Role>, p: ActionPriority)
    -> Seq<NightAction> {
    spec_real_entries(players, p) + spec_fake_entries(center, p)
}

/// The agenda right after the deal, restricted to priority keys `1..=p`:
/// one tier per key that at least one card schedules an action at.
pub open spec fn spec_agenda_upto(players: Seq<Role>, center: Seq<Role>, p: int)
    -> Seq<(ActionPriority, Seq<NightAction>)>
    decreases p,
{
    if p <= 0 {
        Seq::empty()
    } else {
        let rest = spec_agenda_upto(players, center, p - 1);
        let t = spec_tier_entries(players, center, p as ActionPriority);
        if t.len() > 0 {
            rest.push((p as ActionPriority, t))
        } else {
            rest
        }
    }
}

/// The highest priority key any role in the catalogue owns.
pub open spec fn spec_max_priority() -> int {
    9
}

/// The whole agenda right after the deal.
pub open spec fn spec_initial_agenda(players: Seq<Role>, center: Seq<Role>)
    -> Seq<(ActionPriority, Seq<NightAction>)> {
    spec_agenda_upto(players, center, spec_max_priority())
}

proof fn lemma_real_entries_wf(players: Seq<Role>, p: ActionPriority, n: nat)
    requires
        players.len() <= n,
    ensures
        forall|k: int|
            0 <= k < spec_real_entries(players, p).len() ==> spec_action_wf(
                #[trigger] spec_real_entries(players, p)[k],
                n,
            ),
    decreases players.len(),
{
    if players.len() > 0 {
        lemma_real_entries_wf(players.drop_last(), p, n);
        let rest = spec_real_entries(players.drop_last(), p);
        let whole = spec_real_entries(players, p);
        assert forall|k: int| 0 <= k < whole.len() implies spec_action_wf(whole[k], n) by {
            if k < rest.len() {
                assert(spec_action_wf(rest[k], n));
            }
        }
    }
}

proof fn lemma_fake_entries_wf(center: Seq<Role>, p: ActionPriority, n: nat)
    ensures
        forall|k: int|
            0 <= k < spec_fake_entries(center, p).len() ==> spec_action_wf(
                #[trigger] spec_fake_entries(center, p)[k],
                n,
            ),
    decreases center.len(),
{
    if center.len() > 0 {
        lemma_fake_entries_wf(center.drop_last(), p, n);
        let rest = spec_fake_entries(center.drop_last(), p);
        let whole = spec_fake_entries(center, p);
        assert forall|k: int| 0 <= k < whole.len() implies spec_action_wf(whole[k], n) by {
            if k < rest.len() {
                assert(spec_action_wf(rest[k], n));
            }
        }
    }
}

proof fn lemma_agenda_upto_wf(players: Seq<Role>, center: Seq<Role>, p: int, n: nat)
    requires
        players.len() <= n,
        p <= spec_max_priority(),
    ensures
        spec_agenda_wf(spec_agenda_upto(players, center, p), n),
        forall|i: int|
            0 <= i < spec_agenda_upto(players, center, p).len() ==> 1 <= #[trigger] spec_agenda_upto(
                players,
                center,
                p,
            )[i].0 <= p,
    decreases p,
{
    if p > 0 {
        lemma_agenda_upto_wf(players, center, p - 1, n);
        lemma_real_entries_wf(players, p as ActionPriority, n);
        lemma_fake_entries_wf(center, p as ActionPriority, n);
        let rest = spec_agenda_upto(players, center, p - 1);
        let reals = spec_real_entries(players, p as ActionPriority);
        let fakes = spec_fake_entries(center, p as ActionPriority);
        let t = spec_tier_entries(players, center, p as ActionPriority);
        if t.len() > 0 {
            let whole = rest.push((p as ActionPriority, t));
            assert forall|i: int, k: int|
                0 <= i < whole.len() && 0 <= k < #[trigger] whole[i].1.len() implies spec_action_wf(
                #[trigger] whole[i].1[k],
                n,
            ) by {
                if i < rest.len() {
                    assert(spec_action_wf(rest[i].1[k], n));
                } else {
                    assert(whole[i].1 == t);
                    if k < reals.len() {
                        assert(t[k] == reals[k]);
                        assert(spec_action_wf(reals[k], n));
                    } else {
                        assert(t[k] == fakes[k - reals.len()]);
                        assert(spec_action_wf(fakes[k - reals.len()], n));
                    }
                }
            }
        }
    }
}

impl ONUWGame {
    /// Build a game: deal `roles` to `n_players` participants and the center
    /// pile, build the type index, and schedule every card's night actions.
    ///
    /// Unless the deterministic-deal option is set, the roles are shuffled
    /// uniformly at random first; the first `n_players` cards go to the
    /// participants in roster order and the remaining three form the center
    /// pile. Fails, and the game is never created, unless the role count is
    /// exactly the participant count plus three.
    pub fn new(n_players: usize, roles: Vec<Role>, options: Options) -> (r: Result<
        ONUWGame,
        GameError,
    >)
        ensures
            match r {
                Err(e) => {
                    &&& roles@.len() != n_players + 3
                    &&& e == (GameError::InvalidRoleCount {
                        roles: roles@.len() as usize,
                        players: n_players,
                    })
                },
                Ok(g) => {
                    &&& roles@.len() == n_players + 3
                    &&& g.wf()
                    &&& g.n() == n_players
                    &&& g.spec_options() == options
                    &&& g.spec_votes() is None
                    &&& g.spec_dead() is None
                    &&& g.spec_winners() is None
                    &&& (g.spec_players() + g.spec_center()).to_multiset() == roles@.to_multiset()
                    &&& options.spec_debug_set_roles() ==> g.spec_players() == roles@.take(
                        n_players as int,
                    ) && g.spec_center() == roles@.skip(n_players as int)
                    &&& g.spec_agenda() == spec_initial_agenda(g.spec_players(), g.spec_center())
                },
            },
    {
        if roles.len() < 3 || roles.len() - 3 != n_players {
            return Err(GameError::InvalidRoleCount { roles: roles.len(), players: n_players });
        }
        let ghost orig = roles@;
        let mut shuffled = roles;
        if !options.debug_set_roles() {
            shuffle_roles(&mut shuffled);
        }
        let ghost all = shuffled@;
        proof {
            assert(all.to_multiset() == orig.to_multiset());
        }

        let mut players: Vec<Role> = Vec::new();
        let mut i: usize = 0;
        while i < n_players
            invariant
                i <= n_players,
                shuffled@ == all,
                all.len() == n_players + 3,
                players@ == all.take(i as int),
            decreases n_players - i,
        {
            proof {
                assert(all.take(i + 1) =~= all.take(i as int).push(all[i as int]));
            }
            players.push(shuffled[i]);
            i = i + 1;
        }

        let mut centerroles: Vec<Role> = Vec::new();
        let mut j: usize = n_players;
        while j < shuffled.len()
            invariant
                n_players <= j <= n_players + 3,
                shuffled@ == all,
                all.len() == n_players + 3,
                centerroles@ == all.subrange(n_players as int, j as int),
            decreases shuffled@.len() - j,
        {
            proof {
                assert(all.subrange(n_players as int, j + 1) =~= all.subrange(
                    n_players as int,
                    j as int,
                ).push(all[j as int]));
            }
            centerroles.push(shuffled[j]);
            j = j + 1;
        }
        proof {
            assert(players@ + centerroles@ =~= all);
            assert(centerroles@ =~= all.skip(n_players as int));
        }

        let mut players_by_type: Vec<RoleType> = Vec::new();
        let mut i: usize = 0;
        while i < n_players
            invariant
                i <= n_players,
                players@.len() == n_players,
                players_by_type@.len() == i,
                forall|k: int|
                    0 <= k < i ==> #[trigger] players_by_type@[k]
                        == players@[k].spec_role_type(),
            decreases n_players - i,
        {
            let t = players[i].role_type();
            players_by_type.push(t);
            i = i + 1;
        }

        let mut nightactions: Vec<NightTier> = Vec::new();
        let mut p: u64 = 1;
        while p <= 9
            invariant
                1 <= p <= 10,
                players@.len() == n_players,
                centerroles@.len() == 3,
                nightactions@.map_values(|t: NightTier| (t.priority, t.actions@))
                    == spec_agenda_upto(players@, centerroles@, p - 1),
            decreases 10 - p,
        {
            let ghost prev_agenda = nightactions@.map_values(
                |t: NightTier| (t.priority, t.actions@),
            );
            let mut tier: Vec<NightAction> = Vec::new();
            let mut i: usize = 0;
            while i < players.len()
                invariant
                    i <= players@.len(),
                    players@.len() == n_players,
                    tier@ == spec_real_entries(players@.take(i as int), p),
                decreases players@.len() - i,
            {
                proof {
                    assert(players@.take(i + 1).drop_last() =~= players@.take(i as int));
                }
                if let Some(q) = players[i].id().priority() {
                    if q == p {
                        tier.push(NightAction::Real { role: players[i], player: i });
                    }
                }
                i = i + 1;
            }
            proof {
                assert(players@.take(players@.len() as int) =~= players@);
            }
            let mut j: usize = 0;
            while j < centerroles.len()
                invariant
                    j <= centerroles@.len(),
                    players@.len() == n_players,
                    tier@ == spec_real_entries(players@, p) + spec_fake_entries(
                        centerroles@.take(j as int),
                        p,
                    ),
                decreases centerroles@.len() - j,
            {
                proof {
                    assert(centerroles@.take(j + 1).drop_last() =~= centerroles@.take(j as int));
                }
                if let Some(q) = centerroles[j].id().priority() {
                    if q == p {
                        tier.push(NightAction::Fake { role: centerroles[j] });
                    }
                }
                j = j + 1;
            }
            proof {
                assert(centerroles@.take(centerroles@.len() as int) =~= centerroles@);
                assert(tier@ == spec_tier_entries(players@, centerroles@, p as int as u64));
            }
            if tier.len() > 0 {
                nightactions.push(NightTier { priority: p, actions: tier });
                proof {
                    assert(nightactions@.map_values(|t: NightTier| (t.priority, t.actions@))
                        =~= prev_agenda.push((p, spec_tier_entries(players@, centerroles@, p))));
                }
            }
            p = p + 1;
        }

        let game = ONUWGame {
            players,
            players_by_type,
            centerroles,
            options,
            nightactions,
            votes: None,
            dead: None,
            winners: None,
        };
        proof {
            lemma_agenda_upto_wf(game.spec_players(), game.spec_center(), spec_max_priority(),
                game.n());
        }
        Ok(game)
    }

    /// Number of participants in the game.
    pub fn num_players(&self) -> (r: usize)
        ensures
            r == self.n(),
    {
        self.players.len()
    }

    /// The lowest remaining priority key of the night agenda, without
    /// consuming it; `None` once the agenda is exhausted.
    pub fn peek_next_night_action(&self) -> (r: Option<ActionPriority>)
        ensures
            match r {
                None => self.spec_agenda().len() == 0,
                Some(p) => self.spec_agenda().len() > 0 && p == self.spec_agenda()[0].0,
            },
    {
        if self.nightactions.len() == 0 {
            None
        } else {
            Some(self.nightactions[0].priority)
        }
    }

    /// Every participant except `player`, in roster order: the candidate list
    /// offered wherever a participant must choose someone other than
    /// themselves.
    pub fn all_other_players(&self, player: usize) -> (r: Vec<usize>)
        requires
            player < self.n(),
        ensures
            r@.len() == self.n() - 1,
            forall|k: int| 0 <= k < r@.len() ==> #[trigger] r@[k] == if k < player { k } else { k + 1 },
    {
        let mut v: Vec<usize> = Vec::new();
        let mut i: usize = 0;
        while i < self.players.len()
            invariant
                i <= self.n(),
                player < self.n(),
                v@.len() == if i <= player { i as int } else { i - 1 },
                forall|k: int| 0 <= k < v@.len() ==> #[trigger] v@[k] == if k < player { k } else { k + 1 },
            decreases self.n() - i,
        {
            if i != player {
                v.push(i);
            }
            i = i + 1;
        }
        v
    }
}

/// Whether the agenda still holds a tier with the given priority key.
pub open spec fn spec_has_tier(
    agenda: Seq<(ActionPriority, Seq<NightAction>)>,
    p: ActionPriority,
) -> bool {
    exists|i: int| 0 <= i < agenda.len() && agenda[i].0 == p
}

/// The index of the tier with the given key (unique in a well-formed agenda).
pub open spec fn spec_tier_index(
    agenda: Seq<(ActionPriority, Seq<NightAction>)>,
    p: ActionPriority,
) -> int {
    choose|i: int| 0 <= i < agenda.len() && agenda[i].0 == p
}

/// Where a fresh tier with key `p` belongs in an ascending agenda: after all
/// lower keys.
pub open spec fn spec_insert_index(
    agenda: Seq<(ActionPriority, Seq<NightAction>)>,
    p: ActionPriority,
) -> int
    decreases agenda.len(),
{
    if agenda.len() == 0 {
        0
    } else if agenda[0].0 < p {
        1 + spec_insert_index(agenda.drop_first(), p)
    } else {
        0
    }
}

/// The agenda after scheduling one more action at the given priority:
/// appended to the tier with that key if it exists, else a fresh tier at the
/// ascending position.
pub open spec fn spec_insert_action(
    agenda: Seq<(ActionPriority, Seq<NightAction>)>,
    p: ActionPriority,
    a: NightAction,
) -> Seq<(ActionPriority, Seq<NightAction>)> {
    if spec_has_tier(agenda, p) {
        let i = spec_tier_index(agenda, p);
        agenda.update(i, (p, agenda[i].1.push(a)))
    } else {
        agenda.insert(spec_insert_index(agenda, p), (p, seq![a]))
    }
}

proof fn lemma_insert_index_characterization(
    agenda: Seq<(ActionPriority, Seq<NightAction>)>,
    p: ActionPriority,
    i: int,
)
    requires
        0 <= i <= agenda.len(),
        forall|k: int| 0 <= k < i ==> #[trigger] agenda[k].0 < p,
        i < agenda.len() ==> agenda[i].0 >= p,
    ensures
        spec_insert_index(agenda, p) == i,
    decreases agenda.len(),
{
    if agenda.len() > 0 && agenda[0].0 < p {
        assert forall|k: int| 0 <= k < i - 1 implies #[trigger] agenda.drop_first()[k].0 < p by {
            assert(agenda.drop_first()[k] == agenda[k + 1]);
        }
        lemma_insert_index_characterization(agenda.drop_first(), p, i - 1);
    }
}

impl ONUWGame {
    /// Schedule one more action at the given priority key. New tiers join the
    /// agenda at their ascending position; an action for a key that already
    /// has a tier joins the end of that tier's list.
    pub(crate) fn add_night_action_at_priority(
        &mut self,
        priority: ActionPriority,
        action: NightAction,
    )
        requires
            old(self).wf(),
            spec_action_wf(action, old(self).n()),
        ensures
            final(self).wf(),
            final(self).spec_agenda() == spec_insert_action(
                old(self).spec_agenda(),
                priority,
                action,
            ),
            final(self).spec_players() == old(self).spec_players(),
            final(self).spec_types() == old(self).spec_types(),
            final(self).spec_center() == old(self).spec_center(),
            final(self).spec_options() == old(self).spec_options(),
            final(self).spec_votes() == old(self).spec_votes(),
            final(self).spec_dead() == old(self).spec_dead(),
            final(self).spec_winners() == old(self).spec_winners(),
            forall|i: int|
                0 <= i < final(self)@.agenda.len() ==> spec_has_tier(
                    old(self)@.agenda,
                    #[trigger] final(self)@.agenda[i].0,
                ) || final(self)@.agenda[i].0 == priority,
    {
        let ghost agenda0 = self.spec_agenda();
        let mut i: usize = 0;
        while i < self.nightactions.len() && self.nightactions[i].priority < priority
            invariant
                0 <= i <= self.nightactions@.len(),
                forall|k: int| 0 <= k < i ==> #[trigger] self.nightactions@[k].priority < priority,
                agenda0 == self.nightactions@.map_values(|t: NightTier| (t.priority, t.actions@)),
            decreases self.nightactions@.len() - i,
        {
            i = i + 1;
        }
        if i < self.nightactions.len() && self.nightactions[i].priority == priority {
            let mut tier = self.nightactions.remove(i);
            tier.actions.push(action);
            self.nightactions.insert(i, tier);
            proof {
                assert(spec_has_tier(agenda0, priority));
                let j = spec_tier_index(agenda0, priority);
                if j != i {
                    assert(agenda0[j].0 == agenda0[i as int].0);
                    assert(false);
                }
                assert(self.spec_agenda() =~= agenda0.update(
                    i as int,
                    (priority, agenda0[i as int].1.push(action)),
                ));
            }
        } else {
            let mut actions: Vec<NightAction> = Vec::new();
            actions.push(action);
            self.nightactions.insert(i, NightTier { priority, actions });
            proof {
                if spec_has_tier(agenda0, priority) {
                    let j = spec_tier_index(agenda0, priority);
                    assert(agenda0[j].0 == priority);
                    assert(false);
                }
                lemma_insert_index_characterization(agenda0, priority, i as int);
                assert(self.spec_agenda() =~= agenda0.insert(i as int, (priority, seq![action])));
            }
        }
        proof {
            let a1 = self.spec_agenda();
            assert forall|x: int, y: int| 0 <= x < y < a1.len() implies a1[x].0 < a1[y].0 by {
                assert(spec_agenda_wf(agenda0, old(self).n()));
            }
        }
    }

    /// The card currently in front of each participant.
    pub fn players(&self) -> (r: &Vec<Role>)
        ensures
            r@ == self.spec_players(),
    {
        &self.players
    }

    /// The type index: the current alignment of each participant's card.
    pub fn players_by_type(&self) -> (r: &Vec<RoleType>)
        ensures
            r@ == self.spec_types(),
    {
        &self.players_by_type
    }

    /// The center pile.
    pub fn centerroles(&self) -> (r: &Vec<Role>)
        ensures
            r@ == self.spec_center(),
    {
        &self.centerroles
    }

    pub fn options(&self) -> (r: &Options)
        ensures
            *r == self.spec_options(),
    {
        &self.options
    }

    pub fn votes(&self) -> (r: &Option<Vec<usize>>)
        ensures
            match *r {
                Some(v) => self.spec_votes() == Some(v@),
                None => self.spec_votes() is None,
            },
    {
        &self.votes
    }

    pub fn dead(&self) -> (r: &Option<Vec<bool>>)
        ensures
            match *r {
                Some(v) => self.spec_dead() == Some(v@),
                None => self.spec_dead() is None,
            },
    {
        &self.dead
    }

    pub fn winners(&self) -> (r: &Option<Vec<bool>>)
        ensures
            match *r {
                Some(v) => self.spec_winners() == Some(v@),
                None => self.spec_winners() is None,
            },
    {
        &self.winners
    }
}

/// How many cards in the sequence carry the given identity.
pub open spec fn spec_count_id(cards: Seq<Role>, name: RoleName) -> nat
    decreases cards.len(),
{
    if cards.len() == 0 {
        0
    } else {
        spec_count_id(cards.drop_last(), name) + if cards.last().spec_id() == name {
            1nat
        } else {
            0nat
        }
    }
}

proof fn lemma_count_id_le_len(cards: Seq<Role>, name: RoleName)
    ensures
        spec_count_id(cards, name) <= cards.len(),
    decreases cards.len(),
{
    if cards.len() > 0 {
        lemma_count_id_le_len(cards.drop_last(), name);
    }
}

/// How many cards of the vector carry the given identity.
fn count_id(cards: &Vec<Role>, name: RoleName) -> (r: usize)
    ensures
        r == spec_count_id(cards@, name),
{
    let mut c: usize = 0;
    let mut i: usize = 0;
    while i < cards.len()
        invariant
            i <= cards@.len(),
            c == spec_count_id(cards@.take(i as int), name),
            c <= i,
        decreases cards@.len() - i,
    {
        proof {
            assert(cards@.take(i + 1).drop_last() =~= cards@.take(i as int));
        }
        if cards[i].id() == name {
            c = c + 1;
        }
        i = i + 1;
    }
    proof {
        assert(cards@.take(cards@.len() as int) =~= cards@);
    }
    c
}

proof fn lemma_count_id_add(a: Seq<Role>, b: Seq<Role>, name: RoleName)
    ensures
        spec_count_id(a + b, name) == spec_count_id(a, name) + spec_count_id(b, name),
    decreases b.len(),
{
    if b.len() == 0 {
        assert(a + b =~= a);
    } else {
        lemma_count_id_add(a, b.drop_last(), name);
        assert((a + b).drop_last() =~= a + b.drop_last());
        assert((a + b).last() == b.last());
    }
}

impl ONUWGame {
    /// The role multiset announced during the handshake: for each catalogue
    /// identity in presentation order, how many cards of it are in play,
    /// dealt or in the center.
    pub fn handshake_role_counts(&self) -> (r: Vec<(RoleName, usize)>)
        requires
            self@.wf(),
        ensures
            r@.len() == spec_roles_catalogue().len(),
            forall|k: int|
                0 <= k < r@.len() ==> #[trigger] r@[k] == (
                    spec_roles_catalogue()[k].name,
                    spec_count_id(
                        self@.players + self@.center,
                        spec_roles_catalogue()[k].name,
                    ) as usize,
                ),
    {
        let catalogue = crate::roles::roles_catalogue();
        let mut out: Vec<(RoleName, usize)> = Vec::new();
        let mut k: usize = 0;
        while k < catalogue.len()
            invariant
                self@.wf(),
                catalogue@ == spec_roles_catalogue(),
                k <= catalogue@.len(),
                out@.len() == k,
                forall|k2: int|
                    0 <= k2 < k ==> #[trigger] out@[k2] == (
                        spec_roles_catalogue()[k2].name,
                        spec_count_id(
                            self@.players + self@.center,
                            spec_roles_catalogue()[k2].name,
                        ) as usize,
                    ),
            decreases catalogue@.len() - k,
        {
            let name = catalogue[k].name;
            let c1 = count_id(&self.players, name);
            let c2 = count_id(&self.centerroles, name);
            proof {
                lemma_count_id_le_len(self@.players, name);
                lemma_count_id_le_len(self@.center, name);
                lemma_count_id_add(self@.players, self@.center, name);
            }
            out.push((name, c1 + c2));
            k = k + 1;
        }
        out
    }

    /// One reveal per participant, showing them their own dealt role (sent
    /// right after the handshake, before the night begins).
    pub fn show_all_roles(&self) -> (r: Vec<NightEvent>)
        requires
            self@.wf(),
        ensures
            r@.len() == self@.n(),
            forall|i: int|
                0 <= i < r@.len() ==> #[trigger] r@[i] == (NightEvent::ShowPlayerRole {
                    to: i as usize,
                    holder: i as usize,
                    role: self@.players[i],
                }),
    {
        let mut out: Vec<NightEvent> = Vec::new();
        let mut i: usize = 0;
        while i < self.players.len()
            invariant
                i <= self@.n(),
                out@.len() == i,
                forall|k: int|
                    0 <= k < i ==> #[trigger] out@[k] == (NightEvent::ShowPlayerRole {
                        to: k as usize,
                        holder: k as usize,
                        role: self@.players[k],
                    }),
            decreases self@.n() - i,
        {
            let role = self.players[i];
            out.push(NightEvent::ShowPlayerRole { to: i, holder: i, role });
            i = i + 1;
        }
        out
    }
}

/// The lowest remaining key is the one `peek` reports: no other tier of a
/// well-formed agenda has a smaller key.
pub proof fn lemma_peek_is_lowest(g: GameView)
    requires
        g.wf(),
        g.agenda.len() > 0,
    ensures
        forall|i: int| 0 <= i < g.agenda.len() ==> g.agenda[0].0 <= #[trigger] g.agenda[i].0,
{
}

proof fn lemma_insert_index_bounds(
    agenda: Seq<(ActionPriority, Seq<NightAction>)>,
    p: ActionPriority,
)
    ensures
        0 <= spec_insert_index(agenda, p) <= agenda.len(),
    decreases agenda.len(),
{
    if agenda.len() > 0 && agenda[0].0 < p {
        lemma_insert_index_bounds(agenda.drop_first(), p);
    }
}

/// Scheduling one more action at a key always yields a tier with that key
/// whose last pending action is the scheduled one: what the identity-copier
/// relies on when it defers a copied role to that role's own later tier.
pub proof fn lemma_insert_action_appends(
    agenda: Seq<(ActionPriority, Seq<NightAction>)>,
    p: ActionPriority,
    a: NightAction,
    n: nat,
)
    requires
        spec_agenda_wf(agenda, n),
    ensures
        exists|i: int|
            0 <= i < spec_insert_action(agenda, p, a).len() && (#[trigger] spec_insert_action(
                agenda,
                p,
                a,
            )[i]).0 == p && spec_insert_action(agenda, p, a)[i].1.len() > 0 && spec_insert_action(
                agenda,
                p,
                a,
            )[i].1.last() == a,
{
    let out = spec_insert_action(agenda, p, a);
    if spec_has_tier(agenda, p) {
        let i = spec_tier_index(agenda, p);
        assert(out[i].0 == p && out[i].1.last() == a);
    } else {
        lemma_insert_index_bounds(agenda, p);
        let i = spec_insert_index(agenda, p);
        assert(out[i].0 == p && out[i].1.last() == a);
    }
}

/// Relies on rand's `SliceRandom::shuffle` with the thread-local generator:
/// the slice is permuted in place, so the multiset (and hence the number) of
/// its elements is unchanged.
#[verifier::external_body]
fn shuffle_roles(v: &mut Vec<Role>)
    ensures
        final(v)@.to_multiset() == old(v)@.to_multiset(),
        final(v)@.len() == old(v)@.len(),
{
    rand::seq::SliceRandom::shuffle(v.as_mut_slice(), &mut rand::rng());
}

} // verus!
