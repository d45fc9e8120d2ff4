use zombie_germs::groups::CharacterCollisionGroup;
use zombie_germs::status::{
    button_interaction, game_control, menu_frame, resolve_casualty, ButtonInteraction, ButtonLook,
    ControlAction, GameStatus, MenuAction, MenuFrame, TypeOfEntity,
};

#[test]
fn game_starts_in_menu_spawning() {
    assert_eq!(GameStatus::initial(), GameStatus::SpawnMenu);
    assert!(!GameStatus::initial().is_running());
    assert!(GameStatus::Game.is_running());
}

#[test]
fn start_button_leads_into_game() {
    let mut status = GameStatus::initial();
    let mut store: u32 = 0b1010;
    assert_eq!(
        menu_frame(&mut status),
        MenuFrame { action: MenuAction::ShowMenu, read_buttons: true }
    );
    assert_eq!(status, GameStatus::Menu);
    assert_eq!(button_interaction(&mut status, ButtonInteraction::Hovered), ButtonLook::Hovered);
    assert_eq!(status, GameStatus::Menu);
    assert_eq!(button_interaction(&mut status, ButtonInteraction::Pressed), ButtonLook::Pressed);
    assert_eq!(status, GameStatus::ResetGame);
    assert_eq!(game_control(&mut status, &mut store), ControlAction::ClearWorld);
    assert_eq!((status, store), (GameStatus::SpawnCharacter, u32::MAX));
    assert_eq!(
        game_control(&mut status, &mut store),
        ControlAction::SpawnPlayer(CharacterCollisionGroup { parent_id: 1, child_id: 2 })
    );
    assert_eq!((status, store), (GameStatus::ResetMenu, u32::MAX & !3));
    assert_eq!(
        menu_frame(&mut status),
        MenuFrame { action: MenuAction::EnterGame, read_buttons: false }
    );
    assert_eq!(status, GameStatus::Game);
}

#[test]
fn game_is_left_alone_by_control_and_menu() {
    let mut status = GameStatus::Game;
    let mut store: u32 = 77;
    assert_eq!(game_control(&mut status, &mut store), ControlAction::Idle);
    assert_eq!(
        menu_frame(&mut status),
        MenuFrame { action: MenuAction::Nothing, read_buttons: false }
    );
    assert_eq!((status, store), (GameStatus::Game, 77));
    let mut spawning = GameStatus::SpawnCharacter;
    assert_eq!(
        menu_frame(&mut spawning),
        MenuFrame { action: MenuAction::Nothing, read_buttons: false }
    );
    let mut menu = GameStatus::Menu;
    assert_eq!(
        menu_frame(&mut menu),
        MenuFrame { action: MenuAction::Nothing, read_buttons: true }
    );
    assert_eq!(button_interaction(&mut menu, ButtonInteraction::Idle), ButtonLook::Normal);
    assert_eq!(menu, GameStatus::Menu);
}

#[test]
fn player_death_returns_to_menu_and_frees_groups() {
    let mut status = GameStatus::Game;
    let mut store: u32 = u32::MAX & !3;
    let groups = CharacterCollisionGroup { parent_id: 1, child_id: 2 };
    assert!(resolve_casualty(GameStatus::Game, true, TypeOfEntity::Character, groups, 7, 7, &mut store, &mut status));
    assert_eq!((status, store), (GameStatus::SpawnMenu, u32::MAX));
}

#[test]
fn bot_death_frees_groups_and_keeps_game() {
    let mut status = GameStatus::Game;
    let mut store: u32 = 0;
    let groups = CharacterCollisionGroup { parent_id: 16, child_id: 32 };
    assert!(resolve_casualty(GameStatus::Game, true, TypeOfEntity::Character, groups, 8, 7, &mut store, &mut status));
    assert_eq!((status, store), (GameStatus::Game, 48));
}

#[test]
fn microbe_death_and_survivors() {
    let mut status = GameStatus::Game;
    let mut store: u32 = 5;
    let groups = CharacterCollisionGroup { parent_id: 16, child_id: 32 };
    assert!(resolve_casualty(GameStatus::Game, true, TypeOfEntity::Microbe, groups, 7, 7, &mut store, &mut status));
    assert!(!resolve_casualty(GameStatus::Game, false, TypeOfEntity::Character, groups, 7, 7, &mut store, &mut status));
    assert!(!resolve_casualty(GameStatus::Game, false, TypeOfEntity::Microbe, groups, 3, 7, &mut store, &mut status));
    assert_eq!((status, store), (GameStatus::Game, 5));
    assert_eq!(TypeOfEntity::default(), TypeOfEntity::Microbe);
}

#[test]
fn collisions_count_only_in_play() {
    let groups = CharacterCollisionGroup { parent_id: 16, child_id: 32 };
    for frame_status in [GameStatus::Menu, GameStatus::ResetGame, GameStatus::SpawnMenu] {
        let mut status = frame_status;
        let mut store: u32 = 5;
        assert!(!resolve_casualty(frame_status, true, TypeOfEntity::Character, groups, 7, 7, &mut store, &mut status));
        assert_eq!((status, store), (frame_status, 5));
    }
}

#[test]
fn later_casualties_of_the_frame_still_count() {
    let groups = CharacterCollisionGroup { parent_id: 16, child_id: 32 };
    let mut status = GameStatus::SpawnMenu;
    let mut store: u32 = 0;
    assert!(resolve_casualty(GameStatus::Game, true, TypeOfEntity::Character, groups, 8, 7, &mut store, &mut status));
    assert_eq!((status, store), (GameStatus::SpawnMenu, 48));
}
