use onuw::game::gamerror::GameError;
use onuw::game::nightaction::NightChoices;
use onuw::game::nightaction::NightEvent;
use onuw::game::options::Options;
use onuw::game::ONUWGame;
use onuw::roles::Mason;
use onuw::roles::Role;
use onuw::roles::RoleDef;
use onuw::roles::RoleName;
use onuw::roles::roles_catalogue;
use onuw::roletype::RoleType;

fn role(name: RoleName) -> Role {
    Role::of_name(name)
}

fn villagers(n: usize) -> Vec<Role> {
    let mut v = Vec::new();
    for _ in 0..n {
        v.push(role(RoleName::Villager));
    }
    v
}

fn no_choices(n: usize) -> Vec<NightChoices> {
    let mut v = Vec::new();
    for _ in 0..n {
        v.push(NightChoices::none());
    }
    v
}

#[test]
fn construction_wrong_role_count() {
    let r = ONUWGame::new(5, villagers(7), Options::new());
    match r {
        Err(GameError::InvalidRoleCount { roles, players }) => {
            assert_eq!(roles, 7);
            assert_eq!(players, 5);
        }
        _ => panic!("construction must fail with InvalidRoleCount"),
    }
    assert!(ONUWGame::new(5, villagers(8), Options::new()).is_ok());
    assert!(ONUWGame::new(0, villagers(2), Options::new()).is_err());
}

#[test]
fn construction_debug_deal_is_input_order() {
    let input = vec![
        RoleName::Doppelganger,
        RoleName::Werewolf,
        RoleName::Mason,
        RoleName::Mason,
        RoleName::Seer,
        RoleName::Villager,
        RoleName::Drunk,
        RoleName::Hunter,
    ];
    let roles: Vec<Role> = input.iter().map(|n| role(*n)).collect();
    let game = ONUWGame::new(5, roles, Options::new().debug_with_set_roles()).unwrap();
    for i in 0..5 {
        assert_eq!(game.players()[i].id(), input[i]);
    }
    for j in 0..3 {
        assert_eq!(game.centerroles()[j].id(), input[5 + j]);
    }
}

#[test]
fn construction_shuffle_preserves_the_role_multiset() {
    let mut roles = villagers(6);
    roles.push(role(RoleName::Werewolf));
    roles.push(role(RoleName::Werewolf));
    roles.push(role(RoleName::Tanner));
    let game = ONUWGame::new(6, roles, Options::new()).unwrap();
    let mut wolves = 0;
    let mut tanners = 0;
    let mut villagers_seen = 0;
    for card in game.players().iter().chain(game.centerroles().iter()) {
        match card.id() {
            RoleName::Werewolf => wolves += 1,
            RoleName::Tanner => tanners += 1,
            RoleName::Villager => villagers_seen += 1,
            _ => panic!("unexpected role in the deal"),
        }
    }
    assert_eq!(wolves, 2);
    assert_eq!(tanners, 1);
    assert_eq!(villagers_seen, 6);
    assert_eq!(game.players().len(), 6);
    assert_eq!(game.centerroles().len(), 3);
}

#[test]
fn agenda_peek_returns_ascending_priorities_then_none() {
    let roles = vec![
        role(RoleName::Werewolf),
        role(RoleName::Werewolf),
        role(RoleName::Mason),
        role(RoleName::Mason),
        role(RoleName::Insomniac),
        role(RoleName::Villager),
        role(RoleName::Villager),
        role(RoleName::Villager),
    ];
    let mut game = ONUWGame::new(5, roles, Options::new().debug_with_set_roles()).unwrap();
    let choices = no_choices(5);
    let mut seen = Vec::new();
    while let Some(p) = game.peek_next_night_action() {
        seen.push(p);
        game.perform_next_night_action(&choices).unwrap();
    }
    assert_eq!(seen, vec![2, 4, 9]);
    assert!(game.peek_next_night_action().is_none());
    let r = game.perform_next_night_action(&choices);
    assert!(matches!(r, Err(GameError::NoMoreNightActions)));
}

#[test]
fn villager_only_game_has_no_night_actions() {
    let game = ONUWGame::new(5, villagers(8), Options::new()).unwrap();
    assert!(game.peek_next_night_action().is_none());
}

#[test]
fn ordering_guard_rejects_double_votes_and_early_resolution() {
    let mut game = ONUWGame::new(4, villagers(7), Options::new().debug_with_set_roles()).unwrap();

    // resolution before votes exist
    assert!(matches!(game.calc_dead_and_winners(), Err(GameError::WrongCmdOrder)));
    assert!(game.votes().is_none());
    assert!(game.dead().is_none());

    assert!(game.collect_votes(vec![1, 0, 0, 0]).is_ok());
    let first_votes = game.votes().clone().unwrap();

    // a second vote round must fail without touching the first
    assert!(matches!(game.collect_votes(vec![2, 2, 3, 2]), Err(GameError::WrongCmdOrder)));
    assert_eq!(game.votes().clone().unwrap(), first_votes);

    assert!(game.calc_dead_and_winners().is_ok());
    let dead = game.dead().clone().unwrap();

    // a second resolution must fail without touching the results
    assert!(matches!(game.calc_dead_and_winners(), Err(GameError::WrongCmdOrder)));
    assert!(matches!(game.collect_votes(vec![1, 0, 0, 0]), Err(GameError::WrongCmdOrder)));
    assert_eq!(game.dead().clone().unwrap(), dead);
}

#[test]
fn votes_must_name_another_known_participant() {
    let mut game = ONUWGame::new(4, villagers(7), Options::new()).unwrap();
    // self-vote
    assert!(matches!(game.collect_votes(vec![0, 0, 0, 0]), Err(GameError::InvalidChoice)));
    // out of range
    assert!(matches!(game.collect_votes(vec![4, 0, 0, 0]), Err(GameError::InvalidChoice)));
    // wrong length
    assert!(matches!(game.collect_votes(vec![1, 0, 1]), Err(GameError::InvalidChoice)));
    assert!(game.votes().is_none());
    assert!(game.collect_votes(vec![1, 0, 0, 0]).is_ok());
}

#[test]
fn handshake_counts_the_dealt_roles_by_name() {
    let roles = vec![
        role(RoleName::Werewolf),
        role(RoleName::Werewolf),
        role(RoleName::Seer),
        role(RoleName::Villager),
        role(RoleName::Villager),
        role(RoleName::Villager),
        role(RoleName::Tanner),
        role(RoleName::Drunk),
    ];
    let game = ONUWGame::new(5, roles, Options::new().debug_with_set_roles()).unwrap();
    let counts = game.handshake_role_counts();
    assert_eq!(counts.len(), 12);
    for (name, amount) in counts {
        let expected = match name {
            RoleName::Werewolf => 2,
            RoleName::Seer => 1,
            RoleName::Villager => 3,
            RoleName::Tanner => 1,
            RoleName::Drunk => 1,
            _ => 0,
        };
        assert_eq!(amount, expected, "count of {:?}", name);
    }
}

#[test]
fn show_all_roles_reveals_each_participant_their_own_card() {
    let game = ONUWGame::new(3, villagers(6), Options::new()).unwrap();
    let events = game.show_all_roles();
    assert_eq!(events.len(), 3);
    for (i, ev) in events.iter().enumerate() {
        match ev {
            NightEvent::ShowPlayerRole { to, holder, role } => {
                assert_eq!(*to, i);
                assert_eq!(*holder, i);
                assert_eq!(role.id(), RoleName::Villager);
            }
            _ => panic!("expected a role reveal"),
        }
    }
}

#[test]
fn all_other_players_excludes_self_in_roster_order() {
    let game = ONUWGame::new(4, villagers(7), Options::new()).unwrap();
    assert_eq!(game.all_other_players(0), vec![1, 2, 3]);
    assert_eq!(game.all_other_players(2), vec![0, 1, 3]);
    assert_eq!(game.all_other_players(3), vec![0, 1, 2]);
}

#[test]
fn options_builders() {
    let o = Options::new();
    assert!(!o.lone_wolf());
    assert!(!o.debug_set_roles());
    let o = o.with_lone_wolf();
    assert!(o.lone_wolf());
    assert!(!o.debug_set_roles());
    let o = o.debug_with_set_roles();
    assert!(o.lone_wolf());
    assert!(o.debug_set_roles());
    let d = Options::default();
    assert!(!d.lone_wolf() && !d.debug_set_roles());
}

#[test]
fn catalogue_lists_every_role_with_its_counts() {
    let cat = roles_catalogue();
    assert_eq!(cat.len(), 12);
    for def in &cat {
        if def.name == RoleName::Mason {
            assert_eq!(def.min_amt, 2);
            assert_eq!(def.max_amt, 2);
        } else {
            assert_eq!(def.min_amt, 1);
            assert_eq!(def.max_amt, 1);
        }
    }
    assert_eq!(Mason::min_amt(), 2);
    assert_eq!(Mason::max_amt(), 2);
    let def = RoleDef::new(RoleName::Doppelganger);
    let card = def.role();
    assert_eq!(card.id(), RoleName::Doppelganger);
    assert_eq!(card.effective_id(), RoleName::Doppelganger);
    assert_eq!(card.role_type(), RoleType::Villager);
}

#[test]
fn role_identities_types_and_priorities() {
    assert_eq!(role(RoleName::Werewolf).role_type(), RoleType::Werewolf);
    assert_eq!(role(RoleName::Minion).role_type(), RoleType::Other(RoleName::Minion));
    assert_eq!(role(RoleName::Tanner).role_type(), RoleType::Villager);
    assert_eq!(role(RoleName::Doppelganger).priorities(), vec![1]);
    assert_eq!(role(RoleName::Werewolf).priorities(), vec![2]);
    assert_eq!(role(RoleName::Minion).priorities(), vec![3]);
    assert_eq!(role(RoleName::Mason).priorities(), vec![4]);
    assert_eq!(role(RoleName::Seer).priorities(), vec![5]);
    assert_eq!(role(RoleName::Robber).priorities(), vec![6]);
    assert_eq!(role(RoleName::Troublemaker).priorities(), vec![7]);
    assert_eq!(role(RoleName::Drunk).priorities(), vec![8]);
    assert_eq!(role(RoleName::Insomniac).priorities(), vec![9]);
    assert!(role(RoleName::Villager).priorities().is_empty());
    assert!(role(RoleName::Hunter).priorities().is_empty());
    assert!(role(RoleName::Tanner).priorities().is_empty());
}
