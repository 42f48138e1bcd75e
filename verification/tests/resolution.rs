use onuw::game::nightaction::NightChoices;
use onuw::game::options::Options;
use onuw::game::voteaction::ONUWGameVoteAction;
use onuw::game::ONUWGame;
use onuw::playerinterface::ClaimType;
use onuw::playerinterface::Message;
use onuw::playerinterface::MessageType;
use onuw::playerinterface::QuestionType;
use onuw::roles::Hunter;
use onuw::roles::Role;
use onuw::roles::RoleName;
use onuw::roles::Tanner;
use onuw::roles::Villager;

fn game_of(names: &[RoleName]) -> ONUWGame {
    let roles: Vec<Role> = names.iter().map(|n| Role::of_name(*n)).collect();
    ONUWGame::new(names.len() - 3, roles, Options::new().debug_with_set_roles()).unwrap()
}

fn no_choices(n: usize) -> Vec<NightChoices> {
    let mut v = Vec::new();
    for _ in 0..n {
        v.push(NightChoices::none());
    }
    v
}

#[test]
fn villager_win_baseline() {
    // five Villager-only participants, nobody dies: everyone wins
    let game = game_of(&[
        RoleName::Villager,
        RoleName::Villager,
        RoleName::Villager,
        RoleName::Villager,
        RoleName::Villager,
        RoleName::Villager,
        RoleName::Villager,
        RoleName::Villager,
    ]);
    let nobody_dead = vec![false; 5];
    assert!(Villager::eval_wincon(&game, &nobody_dead));
    for i in 0..5 {
        assert!(game.players()[i].win_condition(&game, i, &nobody_dead));
    }

    // one dead Werewolf-type holder: Villager-aligned win, Werewolf-aligned lose
    let game = game_of(&[
        RoleName::Werewolf,
        RoleName::Villager,
        RoleName::Villager,
        RoleName::Villager,
        RoleName::Villager,
        RoleName::Villager,
        RoleName::Villager,
        RoleName::Villager,
    ]);
    let mut dead = vec![false; 5];
    dead[0] = true;
    assert!(Villager::eval_wincon(&game, &dead));
    assert!(!game.players()[0].win_condition(&game, 0, &dead));
    for i in 1..5 {
        assert!(game.players()[i].win_condition(&game, i, &dead));
    }

    // a living werewolf and nobody dead: villagers lose, the werewolf wins
    let nobody_dead = vec![false; 5];
    assert!(!Villager::eval_wincon(&game, &nobody_dead));
    assert!(game.players()[0].win_condition(&game, 0, &nobody_dead));
}

#[test]
fn minion_aloneness() {
    // a Minion with zero Werewolf-type holders wins iff it survived
    let game = game_of(&[
        RoleName::Minion,
        RoleName::Villager,
        RoleName::Villager,
        RoleName::Villager,
        RoleName::Villager,
        RoleName::Villager,
        RoleName::Villager,
        RoleName::Villager,
    ]);
    let nobody_dead = vec![false; 5];
    assert!(game.players()[0].win_condition(&game, 0, &nobody_dead));
    let mut minion_dead = vec![false; 5];
    minion_dead[0] = true;
    assert!(!game.players()[0].win_condition(&game, 0, &minion_dead));
    let mut other_dead = vec![false; 5];
    other_dead[3] = true;
    assert!(game.players()[0].win_condition(&game, 0, &other_dead));
}

#[test]
fn hunter_chain_kill() {
    // the Hunter is the most-voted participant and voted for participant 1,
    // who received only one vote: both die
    let mut game = game_of(&[
        RoleName::Hunter,
        RoleName::Villager,
        RoleName::Villager,
        RoleName::Villager,
        RoleName::Villager,
        RoleName::Villager,
        RoleName::Villager,
        RoleName::Villager,
    ]);
    game.collect_votes(vec![1, 0, 0, 0, 0]).unwrap();
    game.calc_dead_and_winners().unwrap();
    let dead = game.dead().clone().unwrap();
    assert_eq!(dead, vec![true, true, false, false, false]);
}

#[test]
fn hunter_after_vote_reaction() {
    let game = game_of(&[
        RoleName::Hunter,
        RoleName::Villager,
        RoleName::Villager,
        RoleName::Villager,
        RoleName::Villager,
        RoleName::Villager,
        RoleName::Villager,
        RoleName::Villager,
    ]);
    let votes = vec![3, 0, 0, 0, 0];
    let dead = vec![true, false, false, false, false];
    let acts = Hunter::after_vote(&game, 0, &votes, &dead);
    assert_eq!(acts, vec![ONUWGameVoteAction::Kill(3)]);
    let alive = vec![false, true, false, false, false];
    assert!(Hunter::after_vote(&game, 0, &votes, &alive).is_empty());
}

#[test]
fn tanner_veto() {
    // the Tanner dies (Tanner wins); no Werewolf-type holder died, so the
    // Werewolf's own condition holds too -- until the veto strips it
    let mut game = game_of(&[
        RoleName::Tanner,
        RoleName::Werewolf,
        RoleName::Minion,
        RoleName::Villager,
        RoleName::Villager,
        RoleName::Villager,
        RoleName::Villager,
        RoleName::Villager,
    ]);
    game.collect_votes(vec![1, 0, 0, 0, 0]).unwrap();
    game.calc_dead_and_winners().unwrap();
    let dead = game.dead().clone().unwrap();
    assert_eq!(dead, vec![true, false, false, false, false]);
    let winners = game.winners().clone().unwrap();
    // the tanner keeps its win; the werewolf and the minion are stripped;
    // villagers lose on their own condition
    assert_eq!(winners, vec![true, false, false, false, false]);
}

#[test]
fn tanner_prevent_win_lists_the_stripped_winners() {
    let game = game_of(&[
        RoleName::Tanner,
        RoleName::Werewolf,
        RoleName::Minion,
        RoleName::Villager,
        RoleName::Villager,
        RoleName::Villager,
        RoleName::Villager,
        RoleName::Villager,
    ]);
    let winners = vec![true, true, true, false, false];
    assert_eq!(Tanner::prevent_win(&game, 0, &winners), vec![1, 2]);
    // a tanner that did not win strips nobody
    let winners = vec![false, true, true, false, false];
    assert!(Tanner::prevent_win(&game, 0, &winners).is_empty());
}

#[test]
fn werewolves_win_when_no_werewolf_dies() {
    let mut game = game_of(&[
        RoleName::Werewolf,
        RoleName::Werewolf,
        RoleName::Villager,
        RoleName::Villager,
        RoleName::Villager,
        RoleName::Villager,
        RoleName::Villager,
        RoleName::Villager,
    ]);
    game.collect_votes(vec![2, 2, 3, 2, 2]).unwrap();
    game.calc_dead_and_winners().unwrap();
    assert_eq!(game.dead().clone().unwrap(), vec![false, false, true, false, false]);
    // a villager died: wolves and nobody else win
    assert_eq!(game.winners().clone().unwrap(), vec![true, true, false, false, false]);
}

#[test]
fn plurality_ties_all_die() {
    let mut game = game_of(&[
        RoleName::Villager,
        RoleName::Villager,
        RoleName::Villager,
        RoleName::Villager,
        RoleName::Villager,
        RoleName::Villager,
        RoleName::Villager,
    ]);
    // 0 and 1 receive two votes each, 2 receives none
    game.collect_votes(vec![1, 0, 0, 1]).unwrap();
    game.calc_dead_and_winners().unwrap();
    assert_eq!(game.dead().clone().unwrap(), vec![true, true, false, false]);
}

#[test]
fn test() {
    // a full game: deal, handshake, night phase, vote, resolution
    let names = [
        RoleName::Doppelganger,
        RoleName::Werewolf,
        RoleName::Werewolf,
        RoleName::Minion,
        RoleName::Mason,
        RoleName::Mason,
        RoleName::Seer,
        RoleName::Robber,
        RoleName::Troublemaker,
        RoleName::Tanner,
        RoleName::Insomniac,
        RoleName::Villager,
        RoleName::Drunk,
        RoleName::Hunter,
    ];
    let mut game = game_of(&names);
    assert_eq!(game.players().len(), 11);

    let counts = game.handshake_role_counts();
    for (name, amount) in counts {
        let expected = match name {
            RoleName::Werewolf | RoleName::Mason => 2,
            _ => 1,
        };
        assert_eq!(amount, expected, "handshake count of {:?}", name);
    }
    assert_eq!(game.show_all_roles().len(), 11);

    let mut choices = no_choices(11);
    choices[0].copy_target = Some(4); // the copier copies a Mason (deferred)
    choices[6].accept = Some(false); // the seer looks at two center cards
    choices[6].center_one = Some(0);
    choices[6].center_two = Some(1);
    choices[7].accept = Some(true); // the robber robs the insomniac
    choices[7].target = Some(10);
    choices[8].accept = Some(true); // the troublemaker swaps 0 and 1
    choices[8].target = Some(0);
    choices[8].second_target = Some(1);

    while game.peek_next_night_action().is_some() {
        game.perform_next_night_action(&choices).unwrap();
    }

    // the night's relocations
    assert_eq!(game.players()[0].id(), RoleName::Werewolf);
    assert_eq!(game.players()[1].id(), RoleName::Doppelganger);
    assert_eq!(game.players()[1].effective_id(), RoleName::Mason);
    assert_eq!(game.players()[7].id(), RoleName::Insomniac);
    assert_eq!(game.players()[10].id(), RoleName::Robber);

    game.collect_votes(vec![9, 9, 9, 9, 9, 9, 9, 9, 9, 2, 1]).unwrap();
    game.calc_dead_and_winners().unwrap();

    // only the tanner died, and after its veto only the tanner wins
    let dead = game.dead().clone().unwrap();
    let winners = game.winners().clone().unwrap();
    for i in 0..11 {
        assert_eq!(dead[i], i == 9, "dead status of participant {}", i);
        assert_eq!(winners[i], i == 9, "winner status of participant {}", i);
    }
}

#[test]
fn message_passing() {
    let game = game_of(&[
        RoleName::Villager,
        RoleName::Villager,
        RoleName::Villager,
        RoleName::Villager,
        RoleName::Villager,
        RoleName::Villager,
        RoleName::Villager,
        RoleName::Villager,
    ]);

    let example_question = Message {
        mtype: MessageType::Question(1, QuestionType::AreRole(RoleName::Doppelganger)),
        sender: 0,
    };
    let example_answer = Message {
        mtype: MessageType::ClaimNot(ClaimType::IsRole(RoleName::Doppelganger)),
        sender: 1,
    };

    // the engine's part of message delivery: everyone but the sender
    let recipients = game.all_other_players(example_question.sender);
    assert_eq!(recipients, vec![1, 2, 3, 4]);
    let recipients = game.all_other_players(example_answer.sender);
    assert_eq!(recipients, vec![0, 2, 3, 4]);
}
