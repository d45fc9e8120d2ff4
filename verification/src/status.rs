//! The game's status machine: menu, reset, spawning the player, playing,
//! and back to the menu when the player dies.
//!
//! Each function here takes the current status (and the store of free
//! collision groups where it matters) and returns what the frame must do
//! to the world; the caller performs that work.
use vstd::prelude::*;
use crate::groups::{
    CharacterCollisionGroup, character_groups_from, store_after_character,
    lemma_fresh_store_first_groups,
};

verus! {

/// Where the game stands.
#[derive(Clone, Copy, Debug, PartialEq, Eq, Structural)]
pub enum GameStatus {
    Menu,
    ResetGame,
    ResetMenu,
    SpawnCharacter,
    Game,
    SpawnMenu,
}

impl GameStatus {
    /// The status the game starts in.
    pub fn initial() -> (s: GameStatus)
        ensures
            s == GameStatus::SpawnMenu,
    {
        GameStatus::SpawnMenu
    }

    /// Whether the world is running: spawning, fighting and collisions only
    /// happen while the game is played.
    pub fn is_running(&self) -> (r: bool)
        ensures
            r == (*self == GameStatus::Game),
    {
        match self {
            GameStatus::Game => true,
            _ => false,
        }
    }
}

/// What the reset-and-spawn step asks of the world.
#[derive(Clone, Copy, Debug, PartialEq, Eq, Structural)]
pub enum ControlAction {
    /// Nothing to do.
    Idle,
    /// Despawn every character with everything below it.
    ClearWorld,
    /// Spawn the player's character with these collision groups.
    SpawnPlayer(CharacterCollisionGroup),
}

/// The status after the reset-and-spawn step.
pub open spec fn control_next(s: GameStatus) -> GameStatus {
    match s {
        GameStatus::ResetGame => GameStatus::SpawnCharacter,
        GameStatus::SpawnCharacter => GameStatus::ResetMenu,
        _ => s,
    }
}

/// The reset-and-spawn step.  On `ResetGame` every group becomes free
/// again and the world is cleared; on `SpawnCharacter` the player receives
/// its two groups from the store.
pub fn game_control(status: &mut GameStatus, store: &mut u32) -> (action: ControlAction)
    ensures
        *final(status) == control_next(*old(status)),
        *old(status) == GameStatus::ResetGame ==> *final(store) == u32::MAX && action
            == ControlAction::ClearWorld,
        *old(status) == GameStatus::SpawnCharacter ==> *final(store) == store_after_character(
            *old(store),
        ) && action == ControlAction::SpawnPlayer(character_groups_from(*old(store))),
        *old(status) != GameStatus::ResetGame && *old(status) != GameStatus::SpawnCharacter
            ==> *final(store) == *old(store) && action == ControlAction::Idle,
{
    match *status {
        GameStatus::ResetGame => {
            *store = u32::MAX;
            *status = GameStatus::SpawnCharacter;
            ControlAction::ClearWorld
        },
        GameStatus::SpawnCharacter => {
            *status = GameStatus::ResetMenu;
            let groups = CharacterCollisionGroup::take_from(store);
            ControlAction::SpawnPlayer(groups)
        },
        _ => ControlAction::Idle,
    }
}

/// What the menu step asks of the world.
#[derive(Clone, Copy, Debug, PartialEq, Eq, Structural)]
pub enum MenuAction {
    /// Nothing to do.
    Nothing,
    /// Remove the start button and the menu camera.
    EnterGame,
    /// Spawn the menu camera and the start button.
    ShowMenu,
}

/// The outcome of one menu step.
#[derive(Clone, Copy, Debug, PartialEq, Eq, Structural)]
pub struct MenuFrame {
    pub action: MenuAction,
    /// Whether the buttons' interactions are read in this step.
    pub read_buttons: bool,
}

/// The status after the menu step.
pub open spec fn menu_next(s: GameStatus) -> GameStatus {
    match s {
        GameStatus::ResetMenu => GameStatus::Game,
        GameStatus::SpawnMenu => GameStatus::Menu,
        _ => s,
    }
}

/// The menu step: leaving the menu once the player is spawned, showing the
/// menu when asked to, and reading the buttons unless the game is being
/// played, is spawning the player, or has just left the menu.
pub fn menu_frame(status: &mut GameStatus) -> (frame: MenuFrame)
    ensures
        *final(status) == menu_next(*old(status)),
        frame.action == (match *old(status) {
            GameStatus::ResetMenu => MenuAction::EnterGame,
            GameStatus::SpawnMenu => MenuAction::ShowMenu,
            _ => MenuAction::Nothing,
        }),
        frame.read_buttons == (*old(status) == GameStatus::Menu || *old(status)
            == GameStatus::ResetGame || *old(status) == GameStatus::SpawnMenu),
{
    match *status {
        GameStatus::Game => MenuFrame { action: MenuAction::Nothing, read_buttons: false },
        GameStatus::SpawnCharacter => MenuFrame { action: MenuAction::Nothing, read_buttons: false },
        GameStatus::ResetMenu => {
            *status = GameStatus::Game;
            MenuFrame { action: MenuAction::EnterGame, read_buttons: false }
        },
        GameStatus::SpawnMenu => {
            *status = GameStatus::Menu;
            MenuFrame { action: MenuAction::ShowMenu, read_buttons: true }
        },
        _ => MenuFrame { action: MenuAction::Nothing, read_buttons: true },
    }
}

/// How a button is being used.
#[derive(Clone, Copy, Debug, PartialEq, Eq, Structural)]
pub enum ButtonInteraction {
    Pressed,
    Hovered,
    Idle,
}

/// How a button is drawn.
#[derive(Clone, Copy, Debug, PartialEq, Eq, Structural)]
pub enum ButtonLook {
    Pressed,
    Hovered,
    Normal,
}

/// The status after a button interaction was read.
pub open spec fn button_next(s: GameStatus, interaction: ButtonInteraction) -> GameStatus {
    match interaction {
        ButtonInteraction::Pressed => GameStatus::ResetGame,
        _ => s,
    }
}

/// Reads one interaction with the start button: pressing it starts a new
/// game; the button is drawn after how it is used.
pub fn button_interaction(status: &mut GameStatus, interaction: ButtonInteraction) -> (look:
    ButtonLook)
    ensures
        *final(status) == button_next(*old(status), interaction),
        look == (match interaction {
            ButtonInteraction::Pressed => ButtonLook::Pressed,
            ButtonInteraction::Hovered => ButtonLook::Hovered,
            ButtonInteraction::Idle => ButtonLook::Normal,
        }),
{
    match interaction {
        ButtonInteraction::Pressed => {
            *status = GameStatus::ResetGame;
            ButtonLook::Pressed
        },
        ButtonInteraction::Hovered => ButtonLook::Hovered,
        ButtonInteraction::Idle => ButtonLook::Normal,
    }
}

/// The two kinds of fighting entity.
#[derive(Clone, Copy, Debug, PartialEq, Eq, Structural)]
pub enum TypeOfEntity {
    Character,
    Microbe,
}

impl Default for TypeOfEntity {
    fn default() -> (t: Self)
        ensures
            t == TypeOfEntity::Microbe,
    {
        TypeOfEntity::Microbe
    }
}

/// The status after one side of a collision was resolved.
pub open spec fn casualty_next(s: GameStatus, no_health: bool, kind: TypeOfEntity, is_player: bool) -> GameStatus {
    if no_health && kind == TypeOfEntity::Character && is_player {
        GameStatus::SpawnMenu
    } else {
        s
    }
}

/// Resolves one side of a collision after its health was lowered.
/// Collisions only count while the game is played: `frame_status` is the
/// status when the frame's collisions began to be handled, and outside play
/// nothing changes and nothing is despawned.  In play, an entity without
/// health is despawned (the returned flag); a character gives its
/// collision groups back to the store, and when it was the player's the
/// game returns to the menu.  Entities are given by their bits: `entity`
/// for this side, `player` for the player's character.
pub fn resolve_casualty(
    frame_status: GameStatus,
    no_health: bool,
    kind: TypeOfEntity,
    groups: CharacterCollisionGroup,
    entity: u64,
    player: u64,
    store: &mut u32,
    status: &mut GameStatus,
) -> (despawn: bool)
    ensures
        frame_status != GameStatus::Game ==> !despawn && *final(store) == *old(store)
            && *final(status) == *old(status),
        frame_status == GameStatus::Game ==> despawn == no_health,
        frame_status == GameStatus::Game ==> *final(status) == casualty_next(
            *old(status),
            no_health,
            kind,
            entity == player,
        ),
        frame_status == GameStatus::Game ==> *final(store) == (if no_health && kind
            == TypeOfEntity::Character {
            (*old(store) | groups.parent_id) | groups.child_id
        } else {
            *old(store)
        }),
{
    if !frame_status.is_running() {
        return false;
    }
    match (no_health, kind) {
        (true, TypeOfEntity::Character) => {
            groups.give_back(store);
            if entity == player {
                *status = GameStatus::SpawnMenu;
            }
            true
        },
        (true, TypeOfEntity::Microbe) => true,
        _ => false,
    }
}

/// Pressing the start button in the menu leads, through the reset and
/// spawn steps, into the game, and the player's character holds groups
/// `1` and `2` whatever the store held before.
pub proof fn lemma_start_button_starts_game()
    ensures
        button_next(GameStatus::Menu, ButtonInteraction::Pressed) == GameStatus::ResetGame,
        control_next(GameStatus::ResetGame) == GameStatus::SpawnCharacter,
        control_next(GameStatus::SpawnCharacter) == GameStatus::ResetMenu,
        menu_next(GameStatus::ResetMenu) == GameStatus::Game,
        character_groups_from(u32::MAX).parent_id == 1,
        character_groups_from(u32::MAX).child_id == 2,
{
    lemma_fresh_store_first_groups();
}

/// While the game is played, the control and menu steps and the other
/// characters' deaths leave it running; only the player's death ends it,
/// and it ends in the menu.
pub proof fn lemma_game_runs_until_player_dies(no_health: bool, kind: TypeOfEntity, is_player: bool)
    ensures
        control_next(GameStatus::Game) == GameStatus::Game,
        menu_next(GameStatus::Game) == GameStatus::Game,
        casualty_next(GameStatus::Game, no_health, kind, is_player) != GameStatus::Game <==> (
        no_health && kind == TypeOfEntity::Character && is_player),
        casualty_next(GameStatus::Game, no_health, kind, is_player) != GameStatus::Game
            ==> casualty_next(GameStatus::Game, no_health, kind, is_player)
            == GameStatus::SpawnMenu,
{
}

/// After the player's death the menu comes back and waits for the start
/// button: the menu is shown, and the status then stays in the menu until
/// the button is pressed.
pub proof fn lemma_menu_waits_for_start(interaction: ButtonInteraction)
    ensures
        menu_next(GameStatus::SpawnMenu) == GameStatus::Menu,
        menu_next(GameStatus::Menu) == GameStatus::Menu,
        control_next(GameStatus::Menu) == GameStatus::Menu,
        button_next(GameStatus::Menu, interaction) == GameStatus::Menu <==> interaction
            != ButtonInteraction::Pressed,
{
}

} // verus!
