//! The vote and resolution pipeline: plurality elimination, post-vote
//! reactions, per-role win conditions and the win-veto pass.

use vstd::prelude::*;

use crate::game::gamerror::GameError;
use crate::game::spec_votes_wf;
use crate::game::voteaction::ONUWGameVoteAction;
use crate::game::GameView;
use crate::game::ONUWGame;
use crate::roles::Hunter;
use crate::roles::Role;
use crate::roles::RoleName;
use crate::roles::Tanner;
use crate::roles::Villager;
use crate::roletype::RoleType;

verus! {

/// How many votes participant `q` received.
pub open spec fn spec_vote_count(votes: Seq<usize>, q: usize) -> nat
    decreases votes.len(),
{
    if votes.len() == 0 {
        0
    } else {
        spec_vote_count(votes.drop_last(), q) + if votes.last() == q {
            1nat
        } else {
            0nat
        }
    }
}

/// The highest vote count any of the participants `0..k` received.
pub open spec fn spec_max_votes_upto(votes: Seq<usize>, k: int) -> nat
    decreases k,
{
    if k <= 0 {
        0
    } else {
        let rest = spec_max_votes_upto(votes, k - 1);
        let c = spec_vote_count(votes, (k - 1) as usize);
        if c > rest {
            c
        } else {
            rest
        }
    }
}

/// The highest vote count anyone received.
pub open spec fn spec_max_votes(votes: Seq<usize>, n: nat) -> nat {
    spec_max_votes_upto(votes, n as int)
}

/// Plurality elimination: everyone tied for the highest vote count dies.
pub open spec fn spec_plurality_dead(votes: Seq<usize>, n: nat) -> Seq<bool> {
    Seq::new(
        n,
        |q: int|
            spec_vote_count(votes, q as usize) == spec_max_votes(votes, n) && spec_vote_count(
                votes,
                q as usize,
            ) > 0,
    )
}

/// The dead set after post-vote reactions: a participant whose card is a
/// Hunter and who died by plurality also kills whoever they voted for.
pub open spec fn spec_hunter_kills(players: Seq<Role>, votes: Seq<usize>, dead0: Seq<bool>)
    -> Seq<bool> {
    Seq::new(
        dead0.len(),
        |q: int|
            dead0[q] || exists|h: int|
                0 <= h < players.len() && (#[trigger] players[h]).spec_id() == RoleName::Hunter
                    && dead0[h] && votes[h] == q,
    )
}

/// Whether any participant currently holds a Werewolf-type card.
pub open spec fn spec_werewolf_holder_exists(types: Seq<RoleType>) -> bool {
    exists|i: int| 0 <= i < types.len() && #[trigger] types[i] == RoleType::Werewolf
}

/// Whether any dead participant currently holds a Werewolf-type card.
pub open spec fn spec_dead_werewolf_exists(types: Seq<RoleType>, dead: Seq<bool>) -> bool {
    exists|i: int| 0 <= i < types.len() && dead[i] && #[trigger] types[i] == RoleType::Werewolf
}

/// Whether anybody died.
pub open spec fn spec_any_dead(dead: Seq<bool>) -> bool {
    exists|i: int| 0 <= i < dead.len() && #[trigger] dead[i]
}

/// The Villager-aligned default win condition: win if no participant holds a
/// Werewolf-type card and nobody died, or if at least one dead participant
/// held a Werewolf-type card.
pub open spec fn spec_villager_wincon(types: Seq<RoleType>, dead: Seq<bool>) -> bool {
    (!spec_werewolf_holder_exists(types) && !spec_any_dead(dead)) || spec_dead_werewolf_exists(
        types,
        dead,
    )
}

/// The Werewolf win condition: win if no dead participant holds a
/// Werewolf-type card.
pub open spec fn spec_werewolf_wincon(types: Seq<RoleType>, dead: Seq<bool>) -> bool {
    !spec_dead_werewolf_exists(types, dead)
}

/// The Minion win condition: with any Werewolf in play, win if no dead
/// participant is Werewolf-type; with none, win if the Minion itself
/// survived.
pub open spec fn spec_minion_wincon(types: Seq<RoleType>, dead: Seq<bool>, p: usize) -> bool {
    if spec_werewolf_holder_exists(types) {
        !spec_dead_werewolf_exists(types, dead)
    } else {
        !dead[p as int]
    }
}

/// The Tanner win condition: win exactly when the Tanner itself died.
pub open spec fn spec_tanner_wincon(dead: Seq<bool>, p: usize) -> bool {
    dead[p as int]
}

/// The win condition of an effective identity.
pub open spec fn spec_wincon_of_name(
    name: RoleName,
    types: Seq<RoleType>,
    dead: Seq<bool>,
    p: usize,
) -> bool {
    match name {
        RoleName::Werewolf => spec_werewolf_wincon(types, dead),
        RoleName::Minion => spec_minion_wincon(types, dead, p),
        RoleName::Tanner => spec_tanner_wincon(dead, p),
        _ => spec_villager_wincon(types, dead),
    }
}

/// The win condition of a card: its effective identity's condition, which
/// for an identity-copier that copied is the copied role's and otherwise the
/// Villager default.
pub open spec fn spec_wincon(role: Role, types: Seq<RoleType>, dead: Seq<bool>, p: usize) -> bool {
    spec_wincon_of_name(role.spec_effective_id(), types, dead, p)
}

/// Everyone whose win condition holds against the final dead set.
pub open spec fn spec_base_winners(players: Seq<Role>, types: Seq<RoleType>, dead: Seq<bool>)
    -> Seq<bool> {
    Seq::new(players.len(), |i: int| spec_wincon(players[i], types, dead, i as usize))
}

/// Whether some winner's card is a Tanner.
pub open spec fn spec_tanner_winner_exists(players: Seq<Role>, winners: Seq<bool>) -> bool {
    exists|t: int|
        0 <= t < players.len() && winners[t] && (#[trigger] players[t]).spec_id()
            == RoleName::Tanner
}

/// The win-veto pass: if the Tanner won, every other winner holding a
/// Werewolf-type card, and the Minion, is stripped of their win.
pub open spec fn spec_vetoed(players: Seq<Role>, types: Seq<RoleType>, winners: Seq<bool>)
    -> Seq<bool> {
    if spec_tanner_winner_exists(players, winners) {
        Seq::new(
            winners.len(),
            |i: int|
                winners[i] && !(types[i] == RoleType::Werewolf || players[i].spec_effective_id()
                    == RoleName::Minion),
        )
    } else {
        winners
    }
}

/// The winners after the veto pass.
pub open spec fn spec_final_winners(players: Seq<Role>, types: Seq<RoleType>, dead: Seq<bool>)
    -> Seq<bool> {
    spec_vetoed(players, types, spec_base_winners(players, types, dead))
}

/// The participants a winning Tanner strips, in roster order: every winner
/// among `0..upto` holding a Werewolf-type card or effectively the Minion.
pub open spec fn spec_strip_list(
    players: Seq<Role>,
    types: Seq<RoleType>,
    winners: Seq<bool>,
    upto: int,
) -> Seq<usize>
    decreases upto,
{
    if upto <= 0 {
        Seq::empty()
    } else {
        let rest = spec_strip_list(players, types, winners, upto - 1);
        let q = upto - 1;
        if winners[q] && (types[q] == RoleType::Werewolf || players[q].spec_effective_id()
            == RoleName::Minion) {
            rest.push(q as usize)
        } else {
            rest
        }
    }
}

/// Whether any participant currently holds a Werewolf-type card.
pub fn werewolf_holder_exists(game: &ONUWGame) -> (r: bool)
    requires
        game@.wf(),
    ensures
        r == spec_werewolf_holder_exists(game@.types),
{
    let mut i: usize = 0;
    let mut found = false;
    while i < game.players_by_type().len()
        invariant
            i <= game@.types.len(),
            found == exists|j: int| 0 <= j < i && #[trigger] game@.types[j] == RoleType::Werewolf,
        decreases game@.types.len() - i,
    {
        if game.players_by_type()[i] == RoleType::Werewolf {
            found = true;
        }
        i = i + 1;
    }
    found
}

/// Whether any dead participant currently holds a Werewolf-type card.
pub fn dead_werewolf_exists(game: &ONUWGame, dead: &Vec<bool>) -> (r: bool)
    requires
        game@.wf(),
        dead@.len() == game@.n(),
    ensures
        r == spec_dead_werewolf_exists(game@.types, dead@),
{
    let mut i: usize = 0;
    let mut found = false;
    while i < game.players_by_type().len()
        invariant
            i <= game@.types.len(),
            dead@.len() == game@.types.len(),
            found == exists|j: int|
                0 <= j < i && dead@[j] && #[trigger] game@.types[j] == RoleType::Werewolf,
        decreases game@.types.len() - i,
    {
        if dead[i] && game.players_by_type()[i] == RoleType::Werewolf {
            found = true;
        }
        i = i + 1;
    }
    found
}

/// Whether anybody died.
pub fn any_dead(dead: &Vec<bool>) -> (r: bool)
    ensures
        r == spec_any_dead(dead@),
{
    let mut i: usize = 0;
    let mut found = false;
    while i < dead.len()
        invariant
            i <= dead@.len(),
            found == exists|j: int| 0 <= j < i && #[trigger] dead@[j],
        decreases dead@.len() - i,
    {
        if dead[i] {
            found = true;
        }
        i = i + 1;
    }
    found
}

impl Villager {
    /// The Villager-aligned default win condition against a dead set.
    pub fn eval_wincon(game: &ONUWGame, dead: &Vec<bool>) -> (r: bool)
        requires
            game@.wf(),
            dead@.len() == game@.n(),
        ensures
            r == spec_villager_wincon(game@.types, dead@),
    {
        (!werewolf_holder_exists(game) && !any_dead(dead)) || dead_werewolf_exists(game, dead)
    }
}

impl Tanner {
    /// The Tanner wins exactly when it died.
    pub fn eval_wincon(game: &ONUWGame, player: usize, dead: &Vec<bool>) -> (r: bool)
        requires
            game@.wf(),
            player < dead@.len(),
        ensures
            r == spec_tanner_wincon(dead@, player),
    {
        dead[player]
    }

    /// The Tanner's win-veto: if this Tanner won, every winner holding a
    /// Werewolf-type card, and the Minion, loses their win. Returns the
    /// participants to strip, in roster order.
    pub fn prevent_win(game: &ONUWGame, player: usize, winners: &Vec<bool>) -> (r: Vec<usize>)
        requires
            game@.wf(),
            player < winners@.len(),
            winners@.len() == game@.n(),
        ensures
            !winners@[player as int] ==> r@.len() == 0,
            winners@[player as int] ==> r@ == spec_strip_list(
                game@.players,
                game@.types,
                winners@,
                game@.n() as int,
            ),
    {
        let mut out: Vec<usize> = Vec::new();
        if !winners[player] {
            return out;
        }
        let mut q: usize = 0;
        while q < winners.len()
            invariant
                q <= winners@.len(),
                winners@.len() == game@.n(),
                game@.wf(),
                out@ == spec_strip_list(game@.players, game@.types, winners@, q as int),
            decreases winners@.len() - q,
        {
            if winners[q] && (game.players_by_type()[q] == RoleType::Werewolf
                || game.players()[q].effective_id() == RoleName::Minion) {
                out.push(q);
            }
            q = q + 1;
        }
        out
    }
}

impl Hunter {
    /// If this Hunter died, also kill whoever it voted for.
    pub fn after_vote(
        game: &ONUWGame,
        player: usize,
        votes: &Vec<usize>,
        dead: &Vec<bool>,
    ) -> (r: Vec<ONUWGameVoteAction>)
        requires
            player < votes@.len(),
            player < dead@.len(),
        ensures
            dead@[player as int] ==> r@ =~= seq![
                ONUWGameVoteAction::Kill(votes@[player as int]),
            ],
            !dead@[player as int] ==> r@.len() == 0,
    {
        let mut out: Vec<ONUWGameVoteAction> = Vec::new();
        if dead[player] {
            out.push(ONUWGameVoteAction::Kill(votes[player]));
        }
        out
    }
}

impl Role {
    /// Whether this card's holder wins against the final dead set.
    pub fn win_condition(&self, game: &ONUWGame, player: usize, dead: &Vec<bool>) -> (r: bool)
        requires
            game@.wf(),
            player < game@.n(),
            dead@.len() == game@.n(),
        ensures
            r == spec_wincon(*self, game@.types, dead@, player),
    {
        match self.effective_id() {
            RoleName::Werewolf => !dead_werewolf_exists(game, dead),
            RoleName::Minion => {
                if werewolf_holder_exists(game) {
                    !dead_werewolf_exists(game, dead)
                } else {
                    !dead[player]
                }
            },
            RoleName::Tanner => Tanner::eval_wincon(game, player, dead),
            _ => Villager::eval_wincon(game, dead),
        }
    }
}

impl ONUWGame {
    /// Record the table's votes: each participant names another participant.
    ///
    /// Fails with `WrongCmdOrder`, leaving everything unchanged, if votes,
    /// dead or winners already exist; fails with `InvalidChoice` if the vote
    /// list is not total or names self or an unknown participant.
    pub fn collect_votes(&mut self, votes: Vec<usize>) -> (r: Result<(), GameError>)
        requires
            old(self)@.wf(),
        ensures
            final(self)@.wf(),
            !(old(self)@.votes is None && old(self)@.dead is None && old(self)@.winners is None)
                ==> r == Err::<(), GameError>(GameError::WrongCmdOrder)
                    && final(self)@ == old(self)@,
            (old(self)@.votes is None && old(self)@.dead is None && old(self)@.winners is None
                && !spec_votes_wf(votes@, old(self)@.n())) ==> r == Err::<(), GameError>(
                GameError::InvalidChoice,
            ) && final(self)@ == old(self)@,
            (old(self)@.votes is None && old(self)@.dead is None && old(self)@.winners is None
                && spec_votes_wf(votes@, old(self)@.n())) ==> r == Ok::<(), GameError>(())
                && final(self)@ == (GameView { votes: Some(votes@), ..old(self)@ }),
    {
        if self.votes.is_some() || self.dead.is_some() || self.winners.is_some() {
            return Err(GameError::WrongCmdOrder);
        }
        if votes.len() != self.players.len() {
            return Err(GameError::InvalidChoice);
        }
        let mut i: usize = 0;
        while i < votes.len()
            invariant
                self@ == old(self)@,
                self@.wf(),
                self@.votes is None,
                self@.dead is None,
                self@.winners is None,
                i <= votes@.len(),
                votes@.len() == self@.n(),
                forall|k: int| 0 <= k < i ==> #[trigger] votes@[k] < self@.n() && votes@[k] != k,
            decreases votes@.len() - i,
        {
            if votes[i] >= self.players.len() || votes[i] == i {
                return Err(GameError::InvalidChoice);
            }
            i = i + 1;
        }
        self.votes = Some(votes);
        proof {
            assert(self@ =~= (GameView { votes: Some(self@.votes->Some_0), ..old(self)@ }));
        }
        Ok(())
    }
}


impl ONUWGame {
    /// A private copy of the recorded votes.
    fn votes_copy(&self) -> (r: Vec<usize>)
        requires
            self@.votes is Some,
        ensures
            r@ == self@.votes->Some_0,
    {
        match &self.votes {
            Some(v) => {
                let mut out: Vec<usize> = Vec::new();
                let mut i: usize = 0;
                while i < v.len()
                    invariant
                        i <= v@.len(),
                        out@ == v@.take(i as int),
                    decreases v@.len() - i,
                {
                    proof {
                        assert(v@.take(i + 1) =~= v@.take(i as int).push(v@[i as int]));
                    }
                    out.push(v[i]);
                    i = i + 1;
                }
                proof {
                    assert(v@.take(v@.len() as int) =~= v@);
                }
                out
            },
            None => {
                proof {
                    assert(false);
                }
                Vec::new()
            },
        }
    }

    /// Resolve the game: the most-voted participants die (all ties
    /// included), a dead Hunter's chain kill is applied, every participant's
    /// win condition is evaluated against the final dead set, and a winning
    /// Tanner's veto strips Werewolf-type winners and the Minion.
    ///
    /// Fails with `WrongCmdOrder`, leaving everything unchanged, unless the
    /// votes exist and the dead and winners do not.
    #[verifier::loop_isolation(false)]
    pub fn calc_dead_and_winners(&mut self) -> (r: Result<(), GameError>)
        requires
            old(self)@.wf(),
        ensures
            final(self)@.wf(),
            !(old(self)@.votes is Some && old(self)@.dead is None && old(self)@.winners is None)
                ==> r == Err::<(), GameError>(GameError::WrongCmdOrder)
                    && final(self)@ == old(self)@,
            (old(self)@.votes is Some && old(self)@.dead is None && old(self)@.winners is None)
                ==> {
                let votes = old(self)@.votes->Some_0;
                let dead0 = spec_plurality_dead(votes, old(self)@.n());
                let dead = spec_hunter_kills(old(self)@.players, votes, dead0);
                &&& r == Ok::<(), GameError>(())
                &&& final(self)@ == (GameView {
                    dead: Some(dead),
                    winners: Some(
                        spec_final_winners(old(self)@.players, old(self)@.types, dead),
                    ),
                    ..old(self)@
                })
            },
    {
        if self.votes.is_none() || self.dead.is_some() || self.winners.is_some() {
            return Err(GameError::WrongCmdOrder);
        }
        let n = self.players.len();
        let votes = self.votes_copy();
        let ghost v = votes@;

        let mut counts: Vec<usize> = Vec::new();
        let mut q: usize = 0;
        while q < n
            invariant
                q <= n,
                counts@.len() == q,
                forall|k: int| 0 <= k < q ==> #[trigger] counts@[k] == spec_vote_count(v, k as usize),
            decreases n - q,
        {
            let mut c: usize = 0;
            let mut i: usize = 0;
            while i < votes.len()
                invariant
                    i <= v.len(),
                    c == spec_vote_count(v.take(i as int), q),
                    c <= i,
                decreases v.len() - i,
            {
                proof {
                    assert(v.take(i + 1).drop_last() =~= v.take(i as int));
                }
                if votes[i] == q {
                    c = c + 1;
                }
                i = i + 1;
            }
            proof {
                assert(v.take(v.len() as int) =~= v);
            }
            counts.push(c);
            q = q + 1;
        }

        let mut maxc: usize = 0;
        let mut q: usize = 0;
        while q < n
            invariant
                q <= n,
                maxc == spec_max_votes_upto(v, q as int),
            decreases n - q,
        {
            if counts[q] > maxc {
                maxc = counts[q];
            }
            q = q + 1;
        }

        let mut dead0: Vec<bool> = Vec::new();
        let mut q: usize = 0;
        while q < n
            invariant
                q <= n,
                dead0@.len() == q,
                forall|k: int|
                    0 <= k < q ==> #[trigger] dead0@[k] == (spec_vote_count(v, k as usize)
                        == spec_max_votes(v, self@.n()) && spec_vote_count(v, k as usize) > 0),
            decreases n - q,
        {
            dead0.push(counts[q] == maxc && maxc > 0);
            q = q + 1;
        }
        proof {
            assert(dead0@ =~= spec_plurality_dead(v, self@.n()));
        }

        let mut dead: Vec<bool> = Vec::new();
        let mut q: usize = 0;
        while q < n
            invariant
                q <= n,
                dead@ == dead0@.take(q as int),
            decreases n - q,
        {
            proof {
                assert(dead0@.take(q + 1) =~= dead0@.take(q as int).push(dead0@[q as int]));
            }
            dead.push(dead0[q]);
            q = q + 1;
        }
        proof {
            assert(dead0@.take(n as int) =~= dead0@);
        }

        let mut h: usize = 0;
        while h < n
            invariant
                h <= n,
                dead@.len() == n,
                forall|k: int|
                    0 <= k < n ==> #[trigger] dead@[k] == (dead0@[k] || exists|h2: int|
                        0 <= h2 < h && (#[trigger] self@.players[h2]).spec_id()
                            == RoleName::Hunter && dead0@[h2] && v[h2] == k),
            decreases n - h,
        {
            let ghost dead_before = dead@;
            let role = self.players[h];
            if role.id() == RoleName::Hunter && dead0[h] {
                let target = votes[h];
                dead.set(target, true);
            }
            proof {
                assert forall|k: int|
                    0 <= k < n implies #[trigger] dead@[k] == (dead0@[k] || exists|h2: int|
                        0 <= h2 < h + 1 && (#[trigger] self@.players[h2]).spec_id()
                            == RoleName::Hunter && dead0@[h2] && v[h2] == k) by {
                    if self@.players[h as int].spec_id() == RoleName::Hunter && dead0@[h as int]
                        && v[h as int] == k {
                        assert(dead@[k]);
                    } else {
                        assert(dead@[k] == dead_before[k]);
                        assert forall|h2: int|
                            0 <= h2 < h + 1 && (#[trigger] self@.players[h2]).spec_id()
                                == RoleName::Hunter && dead0@[h2] && v[h2] == k implies h2 < h by {
                        }
                    }
                }
            }
            h = h + 1;
        }
        proof {
            assert(dead@ =~= spec_hunter_kills(self@.players, v, dead0@));
        }

        let mut winners0: Vec<bool> = Vec::new();
        let mut i: usize = 0;
        while i < n
            invariant
                i <= n,
                dead@.len() == n,
                winners0@.len() == i,
                forall|k: int|
                    0 <= k < i ==> #[trigger] winners0@[k] == spec_wincon(
                        self@.players[k],
                        self@.types,
                        dead@,
                        k as usize,
                    ),
            decreases n - i,
        {
            let role = self.players[i];
            let w = role.win_condition(self, i, &dead);
            winners0.push(w);
            i = i + 1;
        }
        proof {
            assert(winners0@ =~= spec_base_winners(self@.players, self@.types, dead@));
        }

        let mut tanner_won = false;
        let mut i: usize = 0;
        while i < n
            invariant
                i <= n,
                winners0@.len() == n,
                tanner_won == exists|t: int|
                    0 <= t < i && winners0@[t] && (#[trigger] self@.players[t]).spec_id()
                        == RoleName::Tanner,
            decreases n - i,
        {
            if winners0[i] && self.players[i].id() == RoleName::Tanner {
                tanner_won = true;
            }
            i = i + 1;
        }

        let winners: Vec<bool>;
        if tanner_won {
            let mut stripped: Vec<bool> = Vec::new();
            let mut i: usize = 0;
            while i < n
                invariant
                    i <= n,
                    winners0@.len() == n,
                    stripped@.len() == i,
                    forall|k: int|
                        0 <= k < i ==> #[trigger] stripped@[k] == (winners0@[k] && !(self@.types[k]
                            == RoleType::Werewolf || self@.players[k].spec_effective_id()
                            == RoleName::Minion)),
                decreases n - i,
            {
                let keep = winners0[i] && !(self.players_by_type[i] == RoleType::Werewolf
                    || self.players[i].effective_id() == RoleName::Minion);
                stripped.push(keep);
                i = i + 1;
            }
            winners = stripped;
        } else {
            winners = winners0;
        }
        proof {
            assert(winners@ =~= spec_vetoed(
                self@.players,
                self@.types,
                spec_base_winners(self@.players, self@.types, dead@),
            ));
        }

        let ghost pre = self@;
        self.dead = Some(dead);
        self.winners = Some(winners);
        proof {
            assert(self@ =~= (GameView {
                dead: Some(spec_hunter_kills(pre.players, v, spec_plurality_dead(v, pre.n()))),
                winners: Some(spec_final_winners(pre.players, pre.types, self@.dead->Some_0)),
                ..pre
            }));
        }
        Ok(())
    }
}



/// Villager baseline, first half: with no Werewolf-type holder and nobody
/// dead, the Villager-aligned win condition holds for everyone.
pub proof fn lemma_villager_win_baseline(types: Seq<RoleType>, dead: Seq<bool>)
    requires
        !spec_werewolf_holder_exists(types),
        !spec_any_dead(dead),
    ensures
        spec_villager_wincon(types, dead),
{
}

/// Villager baseline, second half: once a dead participant holds a
/// Werewolf-type card, the Villager-aligned condition holds and the Werewolf
/// condition fails.
pub proof fn lemma_dead_werewolf_outcome(types: Seq<RoleType>, dead: Seq<bool>, j: int)
    requires
        0 <= j < types.len(),
        dead.len() == types.len(),
        dead[j],
        types[j] == RoleType::Werewolf,
    ensures
        spec_villager_wincon(types, dead),
        !spec_werewolf_wincon(types, dead),
{
    assert(spec_dead_werewolf_exists(types, dead));
}

/// Minion aloneness: in a game with no Werewolf-type holder at all, the
/// Minion wins exactly when it is not among the dead.
pub proof fn lemma_minion_alone(types: Seq<RoleType>, dead: Seq<bool>, p: usize)
    requires
        !spec_werewolf_holder_exists(types),
        p < dead.len(),
    ensures
        spec_minion_wincon(types, dead, p) <==> !dead[p as int],
{
}

/// Hunter chain kill: whoever a most-voted Hunter voted for is dead after
/// the reactions, whether or not they had plurality votes themselves.
pub proof fn lemma_hunter_chain_kill(
    players: Seq<Role>,
    votes: Seq<usize>,
    dead0: Seq<bool>,
    h: int,
)
    requires
        0 <= h < players.len(),
        players.len() == dead0.len(),
        votes.len() == dead0.len(),
        players[h].spec_id() == RoleName::Hunter,
        dead0[h],
        votes[h] < dead0.len(),
    ensures
        spec_hunter_kills(players, votes, dead0)[votes[h] as int],
        spec_hunter_kills(players, votes, dead0)[h],
{
    assert(exists|h2: int|
        0 <= h2 < players.len() && (#[trigger] players[h2]).spec_id() == RoleName::Hunter
            && dead0[h2] && votes[h2] == votes[h] as int) by {
        assert((#[trigger] players[h]).spec_id() == RoleName::Hunter && dead0[h] && votes[h]
            == votes[h] as int);
    }
}

/// Tanner veto: when a winner's card is a Tanner, a Werewolf-type winner is
/// stripped of its win by the veto pass, while the Tanner itself keeps
/// winning as long as it is neither Werewolf-type nor effectively the
/// Minion.
pub proof fn lemma_tanner_veto(
    players: Seq<Role>,
    types: Seq<RoleType>,
    winners: Seq<bool>,
    t: int,
    w: int,
)
    requires
        winners.len() == players.len(),
        types.len() == players.len(),
        0 <= t < players.len(),
        0 <= w < players.len(),
        players[t].spec_id() == RoleName::Tanner,
        winners[t],
        winners[w],
        types[w] == RoleType::Werewolf,
        types[t] != RoleType::Werewolf,
        players[t].spec_effective_id() != RoleName::Minion,
    ensures
        !spec_vetoed(players, types, winners)[w],
        spec_vetoed(players, types, winners)[t],
{
    assert(spec_tanner_winner_exists(players, winners)) by {
        assert(winners[t] && (#[trigger] players[t]).spec_id() == RoleName::Tanner);
    }
}



} // verus!
