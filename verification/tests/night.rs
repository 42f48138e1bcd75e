use onuw::game::gamerror::GameError;
use onuw::game::nightaction::NightChoices;
use onuw::game::nightaction::NightEvent;
use onuw::game::options::Options;
use onuw::game::ONUWGame;
use onuw::roles::Role;
use onuw::roles::RoleName;
use onuw::roletype::RoleType;

fn game_of(names: &[RoleName], options: Options) -> ONUWGame {
    let roles: Vec<Role> = names.iter().map(|n| Role::of_name(*n)).collect();
    ONUWGame::new(names.len() - 3, roles, options.debug_with_set_roles()).unwrap()
}

fn no_choices(n: usize) -> Vec<NightChoices> {
    let mut v = Vec::new();
    for _ in 0..n {
        v.push(NightChoices::none());
    }
    v
}

#[test]
fn werewolves_see_each_other() {
    let mut game = game_of(
        &[
            RoleName::Werewolf,
            RoleName::Werewolf,
            RoleName::Villager,
            RoleName::Villager,
            RoleName::Villager,
            RoleName::Villager,
            RoleName::Villager,
        ],
        Options::new(),
    );
    let events = game.perform_next_night_action(&no_choices(4)).unwrap();
    assert_eq!(
        events,
        vec![
            NightEvent::Announce(RoleName::Werewolf),
            NightEvent::ShowType { to: 0, holder: 1, role_type: RoleType::Werewolf },
            NightEvent::ShowType { to: 1, holder: 0, role_type: RoleType::Werewolf },
        ]
    );
}

#[test]
fn lone_wolf_peeks_a_center_card() {
    let names = [
        RoleName::Werewolf,
        RoleName::Villager,
        RoleName::Villager,
        RoleName::Villager,
        RoleName::Seer,
        RoleName::Drunk,
        RoleName::Mason,
    ];
    // without the option: no peek
    let mut game = game_of(&names, Options::new());
    let events = game.perform_next_night_action(&no_choices(4)).unwrap();
    assert_eq!(events, vec![NightEvent::Announce(RoleName::Werewolf)]);

    // with the option: the chosen center slot is revealed
    let mut game = game_of(&names, Options::new().with_lone_wolf());
    let mut choices = no_choices(4);
    choices[0].center_one = Some(1);
    let events = game.perform_next_night_action(&choices).unwrap();
    assert_eq!(
        events,
        vec![
            NightEvent::Announce(RoleName::Werewolf),
            NightEvent::ShowCenterRole { to: 0, slot: 1, role: Role::of_name(RoleName::Drunk) },
        ]
    );

    // with the option but no usable choice: the action fails
    let mut game = game_of(&names, Options::new().with_lone_wolf());
    let mut choices = no_choices(4);
    choices[0].center_one = Some(9);
    assert!(matches!(
        game.perform_next_night_action(&choices),
        Err(GameError::InvalidChoice)
    ));
}

#[test]
fn minion_is_shown_every_werewolf() {
    let mut game = game_of(
        &[
            RoleName::Werewolf,
            RoleName::Werewolf,
            RoleName::Minion,
            RoleName::Villager,
            RoleName::Villager,
            RoleName::Villager,
            RoleName::Villager,
        ],
        Options::new(),
    );
    // tier 2: the wolves
    game.perform_next_night_action(&no_choices(4)).unwrap();
    // tier 3: the minion
    let events = game.perform_next_night_action(&no_choices(4)).unwrap();
    assert_eq!(
        events,
        vec![
            NightEvent::Announce(RoleName::Minion),
            NightEvent::ShowType { to: 2, holder: 0, role_type: RoleType::Werewolf },
            NightEvent::ShowType { to: 2, holder: 1, role_type: RoleType::Werewolf },
        ]
    );
}

#[test]
fn masons_share_one_announcement() {
    let mut game = game_of(
        &[
            RoleName::Mason,
            RoleName::Mason,
            RoleName::Villager,
            RoleName::Villager,
            RoleName::Villager,
            RoleName::Villager,
            RoleName::Villager,
        ],
        Options::new(),
    );
    let events = game.perform_next_night_action(&no_choices(4)).unwrap();
    // one announcement for both masons, then the two mutual reveals
    assert_eq!(
        events,
        vec![
            NightEvent::Announce(RoleName::Mason),
            NightEvent::ShowPlayerRole { to: 0, holder: 1, role: Role::of_name(RoleName::Mason) },
            NightEvent::ShowPlayerRole { to: 1, holder: 0, role: Role::of_name(RoleName::Mason) },
        ]
    );
}

#[test]
fn seer_peeks_a_player_or_two_center_cards() {
    let names = [
        RoleName::Seer,
        RoleName::Werewolf,
        RoleName::Villager,
        RoleName::Villager,
        RoleName::Tanner,
        RoleName::Drunk,
        RoleName::Mason,
    ];
    // a player
    let mut game = game_of(&names, Options::new());
    game.perform_next_night_action(&no_choices(4)).unwrap();  // the werewolf tier
    game.perform_next_night_action(&no_choices(4)).unwrap();  // the center mason's fake tier
    let mut choices = no_choices(4);
    choices[0].accept = Some(true);
    choices[0].target = Some(1);
    let events = game.perform_next_night_action(&choices).unwrap();
    assert_eq!(
        events,
        vec![
            NightEvent::Announce(RoleName::Seer),
            NightEvent::ShowPlayerRole { to: 0, holder: 1, role: Role::of_name(RoleName::Werewolf) },
        ]
    );

    // two distinct center cards
    let mut game = game_of(&names, Options::new());
    game.perform_next_night_action(&no_choices(4)).unwrap();  // the werewolf tier
    game.perform_next_night_action(&no_choices(4)).unwrap();  // the center mason's fake tier
    let mut choices = no_choices(4);
    choices[0].accept = Some(false);
    choices[0].center_one = Some(0);
    choices[0].center_two = Some(2);
    let events = game.perform_next_night_action(&choices).unwrap();
    assert_eq!(
        events,
        vec![
            NightEvent::Announce(RoleName::Seer),
            NightEvent::ShowCenterRole { to: 0, slot: 0, role: Role::of_name(RoleName::Tanner) },
            NightEvent::ShowCenterRole { to: 0, slot: 2, role: Role::of_name(RoleName::Mason) },
        ]
    );

    // the same center card twice is not offered
    let mut game = game_of(&names, Options::new());
    game.perform_next_night_action(&no_choices(4)).unwrap();  // the werewolf tier
    game.perform_next_night_action(&no_choices(4)).unwrap();  // the center mason's fake tier
    let mut choices = no_choices(4);
    choices[0].accept = Some(false);
    choices[0].center_one = Some(1);
    choices[0].center_two = Some(1);
    assert!(matches!(
        game.perform_next_night_action(&choices),
        Err(GameError::InvalidChoice)
    ));
}

#[test]
fn robber_swap_updates_cards_and_type_index() {
    let mut game = game_of(
        &[
            RoleName::Robber,
            RoleName::Werewolf,
            RoleName::Villager,
            RoleName::Villager,
            RoleName::Villager,
            RoleName::Villager,
            RoleName::Villager,
        ],
        Options::new(),
    );
    game.perform_next_night_action(&no_choices(4)).unwrap();  // the werewolf tier
    let mut choices = no_choices(4);
    choices[0].accept = Some(true);
    choices[0].target = Some(1);
    let events = game.perform_next_night_action(&choices).unwrap();
    assert_eq!(
        events,
        vec![
            NightEvent::Announce(RoleName::Robber),
            NightEvent::ShowPlayerRole { to: 0, holder: 0, role: Role::of_name(RoleName::Werewolf) },
        ]
    );
    assert_eq!(game.players()[0].id(), RoleName::Werewolf);
    assert_eq!(game.players()[1].id(), RoleName::Robber);
    // the type index follows the cards
    assert_eq!(game.players_by_type()[0], RoleType::Werewolf);
    assert_eq!(game.players_by_type()[1], RoleType::Villager);
}

#[test]
fn robber_may_decline() {
    let mut game = game_of(
        &[
            RoleName::Robber,
            RoleName::Werewolf,
            RoleName::Villager,
            RoleName::Villager,
            RoleName::Villager,
            RoleName::Villager,
            RoleName::Villager,
        ],
        Options::new(),
    );
    game.perform_next_night_action(&no_choices(4)).unwrap();  // the werewolf tier
    let mut choices = no_choices(4);
    choices[0].accept = Some(false);
    let events = game.perform_next_night_action(&choices).unwrap();
    assert_eq!(events, vec![NightEvent::Announce(RoleName::Robber)]);
    assert_eq!(game.players()[0].id(), RoleName::Robber);
    assert_eq!(game.players()[1].id(), RoleName::Werewolf);
}

#[test]
fn troublemaker_swaps_two_other_players() {
    let mut game = game_of(
        &[
            RoleName::Troublemaker,
            RoleName::Werewolf,
            RoleName::Seer,
            RoleName::Villager,
            RoleName::Villager,
            RoleName::Villager,
            RoleName::Villager,
        ],
        Options::new(),
    );
    // tier 2: the lone werewolf
    game.perform_next_night_action(&no_choices(4)).unwrap();
    // tier 5: the seer peeks so the night continues
    let mut choices = no_choices(4);
    choices[2].accept = Some(true);
    choices[2].target = Some(3);
    game.perform_next_night_action(&choices).unwrap();
    // tier 7: the troublemaker
    let mut choices = no_choices(4);
    choices[0].accept = Some(true);
    choices[0].target = Some(1);
    choices[0].second_target = Some(2);
    let events = game.perform_next_night_action(&choices).unwrap();
    assert_eq!(events, vec![NightEvent::Announce(RoleName::Troublemaker)]);
    assert_eq!(game.players()[1].id(), RoleName::Seer);
    assert_eq!(game.players()[2].id(), RoleName::Werewolf);
    assert_eq!(game.players_by_type()[1], RoleType::Villager);
    assert_eq!(game.players_by_type()[2], RoleType::Werewolf);
    // choosing the actor itself is rejected
    let mut game = game_of(
        &[
            RoleName::Troublemaker,
            RoleName::Werewolf,
            RoleName::Villager,
            RoleName::Villager,
            RoleName::Villager,
            RoleName::Villager,
            RoleName::Villager,
        ],
        Options::new(),
    );
    game.perform_next_night_action(&no_choices(4)).unwrap();  // the werewolf tier
    let mut choices = no_choices(4);
    choices[0].accept = Some(true);
    choices[0].target = Some(0);
    choices[0].second_target = Some(1);
    assert!(matches!(
        game.perform_next_night_action(&choices),
        Err(GameError::InvalidChoice)
    ));
}

#[test]
fn drunk_swaps_with_the_center_unseen() {
    let mut game = game_of(
        &[
            RoleName::Drunk,
            RoleName::Villager,
            RoleName::Villager,
            RoleName::Villager,
            RoleName::Werewolf,
            RoleName::Seer,
            RoleName::Tanner,
        ],
        Options::new(),
    );
    // the werewolf and seer center cards announce fake tiers first
    let events = game.perform_next_night_action(&no_choices(4)).unwrap();
    assert_eq!(
        events,
        vec![NightEvent::Announce(RoleName::Werewolf), NightEvent::FakePause]
    );
    let events = game.perform_next_night_action(&no_choices(4)).unwrap();
    assert_eq!(
        events,
        vec![NightEvent::Announce(RoleName::Seer), NightEvent::FakePause]
    );
    let mut choices = no_choices(4);
    choices[0].center_one = Some(0);
    let events = game.perform_next_night_action(&choices).unwrap();
    // no reveal: the drunk does not see the new role
    assert_eq!(events, vec![NightEvent::Announce(RoleName::Drunk)]);
    assert_eq!(game.players()[0].id(), RoleName::Werewolf);
    assert_eq!(game.centerroles()[0].id(), RoleName::Drunk);
    assert_eq!(game.players_by_type()[0], RoleType::Werewolf);
}

#[test]
fn insomniac_sees_the_current_card_after_swaps() {
    let mut game = game_of(
        &[
            RoleName::Robber,
            RoleName::Insomniac,
            RoleName::Villager,
            RoleName::Villager,
            RoleName::Villager,
            RoleName::Villager,
            RoleName::Villager,
        ],
        Options::new(),
    );
    // tier 6: the robber steals the insomniac's card
    let mut choices = no_choices(4);
    choices[0].accept = Some(true);
    choices[0].target = Some(1);
    game.perform_next_night_action(&choices).unwrap();
    // tier 9: the insomniac now holds the robber card and is shown exactly that
    let events = game.perform_next_night_action(&no_choices(4)).unwrap();
    assert_eq!(
        events,
        vec![
            NightEvent::Announce(RoleName::Insomniac),
            NightEvent::ShowPlayerRole { to: 1, holder: 1, role: Role::of_name(RoleName::Robber) },
        ]
    );
}

#[test]
fn copier_immediate_set_runs_in_the_same_tier() {
    // copying the Robber triggers the robbery within the copier's own tier
    let mut game = game_of(
        &[
            RoleName::Doppelganger,
            RoleName::Robber,
            RoleName::Werewolf,
            RoleName::Villager,
            RoleName::Villager,
            RoleName::Villager,
            RoleName::Villager,
        ],
        Options::new(),
    );
    let mut choices = no_choices(4);
    choices[0].copy_target = Some(1);
    choices[0].accept = Some(true);
    choices[0].target = Some(2);
    let events = game.perform_next_night_action(&choices).unwrap();
    let copied_card = game.players()[2];
    assert_eq!(copied_card.id(), RoleName::Doppelganger);
    assert_eq!(copied_card.effective_id(), RoleName::Robber);
    assert_eq!(
        events,
        vec![
            NightEvent::Announce(RoleName::Doppelganger),
            NightEvent::ShowPlayerRole { to: 0, holder: 1, role: Role::of_name(RoleName::Robber) },
            NightEvent::ShowPlayerRole { to: 0, holder: 0, role: copied_card },
            NightEvent::ShowPlayerRole { to: 0, holder: 0, role: Role::of_name(RoleName::Werewolf) },
        ]
    );
    // the copier robbed player 2 right away: it now holds the werewolf card
    assert_eq!(game.players()[0].id(), RoleName::Werewolf);
    assert_eq!(game.players_by_type()[0], RoleType::Werewolf);
    assert_eq!(game.players_by_type()[2], RoleType::Villager);
    // the real robber still acts at its own tier afterwards
    assert_eq!(game.peek_next_night_action(), Some(2));
}

#[test]
fn copier_deferred_set_is_scheduled_at_the_copied_tier() {
    // copying a Mason defers: a new entry appears at the masons' tier
    let mut game = game_of(
        &[
            RoleName::Doppelganger,
            RoleName::Mason,
            RoleName::Mason,
            RoleName::Villager,
            RoleName::Villager,
            RoleName::Villager,
            RoleName::Villager,
        ],
        Options::new(),
    );
    let mut choices = no_choices(4);
    choices[0].copy_target = Some(1);
    let events = game.perform_next_night_action(&choices).unwrap();
    // only the copy reveals happened: nothing was executed early
    assert_eq!(events.len(), 3);
    assert_eq!(game.players()[0].effective_id(), RoleName::Mason);
    // the copier's entry was appended to the masons' own tier
    assert_eq!(game.peek_next_night_action(), Some(4));
    let events = game.perform_next_night_action(&choices).unwrap();
    assert_eq!(
        events,
        vec![
            NightEvent::Announce(RoleName::Mason),
            NightEvent::ShowPlayerRole { to: 1, holder: 2, role: Role::of_name(RoleName::Mason) },
            NightEvent::ShowPlayerRole { to: 2, holder: 1, role: Role::of_name(RoleName::Mason) },
            // the deferred copier acts last, in the same tier, and is shown
            // both masons
            NightEvent::ShowPlayerRole { to: 0, holder: 1, role: Role::of_name(RoleName::Mason) },
            NightEvent::ShowPlayerRole { to: 0, holder: 2, role: Role::of_name(RoleName::Mason) },
        ]
    );
    assert!(game.peek_next_night_action().is_none());
}

#[test]
fn copier_needs_a_target() {
    let mut game = game_of(
        &[
            RoleName::Doppelganger,
            RoleName::Villager,
            RoleName::Villager,
            RoleName::Villager,
            RoleName::Villager,
            RoleName::Villager,
            RoleName::Villager,
        ],
        Options::new(),
    );
    let choices = no_choices(4);
    assert!(matches!(
        game.perform_next_night_action(&choices),
        Err(GameError::InvalidChoice)
    ));
}

#[test]
fn copier_immediate_drunk_swaps_into_the_center() {
    let mut game = game_of(
        &[
            RoleName::Doppelganger,
            RoleName::Drunk,
            RoleName::Villager,
            RoleName::Villager,
            RoleName::Villager,
            RoleName::Villager,
            RoleName::Werewolf,
        ],
        Options::new(),
    );
    let mut choices = no_choices(4);
    choices[0].copy_target = Some(1);
    choices[0].center_one = Some(2);
    choices[1].center_one = Some(0);
    // tier 1: the copier copies the drunk and stumbles into the center at once
    game.perform_next_night_action(&choices).unwrap();
    assert_eq!(game.players()[0].id(), RoleName::Werewolf);
    assert_eq!(game.players_by_type()[0], RoleType::Werewolf);
    let parked = game.centerroles()[2];
    assert_eq!(parked.id(), RoleName::Doppelganger);
    assert_eq!(parked.effective_id(), RoleName::Drunk);
    // tier 2: the center werewolf's fake moment
    game.perform_next_night_action(&choices).unwrap();
    // tier 8: the real drunk still swaps with its chosen center slot
    game.perform_next_night_action(&choices).unwrap();
    assert_eq!(game.players()[1].id(), RoleName::Villager);
    assert_eq!(game.centerroles()[0].id(), RoleName::Drunk);
    assert!(game.peek_next_night_action().is_none());
}

#[test]
fn copier_deferred_insomniac_shares_the_announcement() {
    let mut game = game_of(
        &[
            RoleName::Doppelganger,
            RoleName::Insomniac,
            RoleName::Villager,
            RoleName::Villager,
            RoleName::Villager,
            RoleName::Villager,
            RoleName::Villager,
        ],
        Options::new(),
    );
    let mut choices = no_choices(4);
    choices[0].copy_target = Some(1);
    game.perform_next_night_action(&choices).unwrap();
    assert_eq!(game.peek_next_night_action(), Some(9));
    let events = game.perform_next_night_action(&choices).unwrap();
    let copier_card = game.players()[0];
    // the real insomniac and the deferred copier share one announcement
    assert_eq!(
        events,
        vec![
            NightEvent::Announce(RoleName::Insomniac),
            NightEvent::ShowPlayerRole {
                to: 1,
                holder: 1,
                role: Role::of_name(RoleName::Insomniac),
            },
            NightEvent::ShowPlayerRole { to: 0, holder: 0, role: copier_card },
        ]
    );
    assert_eq!(copier_card.effective_id(), RoleName::Insomniac);
}

#[test]
fn acting_at_a_priority_the_role_does_not_own_is_refused() {
    let mut game = game_of(
        &[
            RoleName::Villager,
            RoleName::Seer,
            RoleName::Villager,
            RoleName::Villager,
            RoleName::Villager,
            RoleName::Villager,
            RoleName::Villager,
        ],
        Options::new(),
    );
    let choices = NightChoices::none();
    // a card with no night action at all
    let card = Role::of_name(RoleName::Villager);
    let r = card.action_at_priority(3, &mut game, 0, &choices);
    assert!(matches!(r, Err(GameError::UnsupportedPriority)));
    // a card asked at someone else's tier
    let card = Role::of_name(RoleName::Seer);
    let r = card.action_at_priority(2, &mut game, 1, &choices);
    assert!(matches!(r, Err(GameError::UnsupportedPriority)));
}
