//! The rules of Zombie Germs, a game in which characters breed microbes
//! and send them against each other.
//!
//! - `groups`: the store of physics collision groups and the filters that
//!   keep a character's own side apart;
//! - `status`: menu, reset, spawning the player, playing, and the player's
//!   death;
//! - `cooldown`: skill cooldowns, ticked by bevy's timer;
//! - `skills`: skills, the orders they give to microbes, and patrols;
//! - `input`: keys and mouse clicks;
//! - `spawning`: when bots and microbes are spawned, the search for a free
//!   place, the camera's zoom step;
//! - `display`: the status lines on the screen.
use vstd::prelude::*;

pub mod groups;
pub mod status;
pub mod cooldown;
pub mod skills;
pub mod input;
pub mod spawning;
pub mod display;

verus! {

} // verus!
