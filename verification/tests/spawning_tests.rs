use zombie_germs::display::{player_population, Quantity, TextStates};
use zombie_germs::status::GameStatus;
use zombie_germs::spawning::{
    bot_spawn_groups, wants_new_bot, camera_zoom_step, free_space_step, microbe_spawn_step, SearchStep, SpawnStep,
    FREE_SPACE_ATTEMPTS,
};

#[test]
fn bots_are_spawned_below_the_quota() {
    let g = GameStatus::Game;
    assert!(wants_new_bot(g, &vec![], 15));
    assert!(wants_new_bot(g, &vec![true, false, true], 3));
    assert!(!wants_new_bot(g, &vec![true, false, true, true], 3));
    assert!(!wants_new_bot(g, &vec![false, false], 0));
    assert!(!wants_new_bot(g, &vec![], -1));
    assert!(!wants_new_bot(GameStatus::Menu, &vec![], 15));
}

#[test]
fn microbes_spawn_while_energy_lasts_below_the_cap() {
    let g = GameStatus::Game;
    let mut request = true;
    assert_eq!(microbe_spawn_step(g, &mut request, false, 10, 3000, true), SpawnStep::Spawn);
    assert!(request);
    assert_eq!(microbe_spawn_step(g, &mut request, true, 10, 3000, true), SpawnStep::Spawn);
    assert!(request);
    assert_eq!(microbe_spawn_step(g, &mut request, true, 10, 3000, false), SpawnStep::Exhausted);
    assert!(!request);

    let mut full = true;
    assert_eq!(microbe_spawn_step(g, &mut full, false, 3000, 3000, true), SpawnStep::Full);
    assert!(!full);
    let mut zero_cap = true;
    assert_eq!(microbe_spawn_step(g, &mut zero_cap, false, 0, 0, true), SpawnStep::Full);
    let mut no_cap = true;
    assert_eq!(microbe_spawn_step(g, &mut no_cap, false, 5, -1, true), SpawnStep::Spawn);
}

#[test]
fn spawn_requests_wait_for_energy_and_game() {
    let mut request = true;
    assert_eq!(microbe_spawn_step(GameStatus::Game, &mut request, false, 0, 3000, false), SpawnStep::Idle);
    assert!(request);
    assert_eq!(microbe_spawn_step(GameStatus::Menu, &mut request, false, 0, 3000, true), SpawnStep::Idle);
    assert!(request);
    let mut none = false;
    assert_eq!(microbe_spawn_step(GameStatus::Game, &mut none, false, 0, 3000, true), SpawnStep::Idle);
    assert!(!none);
}

#[test]
fn free_space_search_tries_a_hundred_places() {
    assert_eq!(FREE_SPACE_ATTEMPTS, 100);
    assert_eq!(free_space_step(0, true), SearchStep::Accept);
    assert_eq!(free_space_step(0, false), SearchStep::TryAgain);
    assert_eq!(free_space_step(98, false), SearchStep::TryAgain);
    assert_eq!(free_space_step(99, false), SearchStep::GiveUp);
    assert_eq!(free_space_step(99, true), SearchStep::Accept);
}

#[test]
fn camera_zoom_counts_full_populations() {
    assert_eq!(camera_zoom_step(0, 3000), 0);
    assert_eq!(camera_zoom_step(2999, 3000), 0);
    assert_eq!(camera_zoom_step(3000, 3000), 1);
    assert_eq!(camera_zoom_step(7, -2), -3);
    assert_eq!(camera_zoom_step(7, 2), 3);
}

#[test]
fn status_lines() {
    let h = TextStates::CharacterHealth.readout().unwrap();
    assert_eq!((h.prefix, h.quantity, h.suffix), ("Health: ", Quantity::Health, ""));
    let c = TextStates::SkillCd.readout().unwrap();
    assert_eq!((c.prefix, c.quantity, c.suffix), ("Skills Cooldown: ", Quantity::SkillCooldownLeft, "%"));
    let p = TextStates::YourPopulation.readout().unwrap();
    assert_eq!(p.prefix, "Your Population: ");
    assert!(TextStates::Power.readout().is_none());
    assert_eq!(player_population(1), 0);
    assert_eq!(player_population(12), 11);
}

#[test]
fn bot_groups_are_taken_only_with_a_free_place() {
    let mut store = u32::MAX;
    assert!(bot_spawn_groups(true, false, &mut store).is_none());
    assert!(bot_spawn_groups(false, true, &mut store).is_none());
    assert_eq!(store, u32::MAX);
    let g = bot_spawn_groups(true, true, &mut store).unwrap();
    assert_eq!((g.parent_id, g.child_id), (1, 2));
    assert_eq!(store, u32::MAX & !3);
}
