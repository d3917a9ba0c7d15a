//! Game rules of the Station Iapetus shooter: items and inventories, doors,
//! elevators, weapon slots, animation-machine rules and the small state
//! machines that drive the level, stated over plain values and proved.

pub mod item;
pub mod inventory;
pub mod text;
pub mod door;
pub mod projectile;
pub mod journal;
pub mod handle;
pub mod character;
pub mod elevator;
pub mod sound;
pub mod anim;
pub mod bot;
pub mod player;
pub mod agent_machine;
pub mod level;
pub mod turret;
pub mod weapon;
pub mod gui;
pub mod laws;
pub mod analysis;
pub mod controls;
pub mod hud;
pub mod targeting;
