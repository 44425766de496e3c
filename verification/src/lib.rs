//! Game rules of the Suri Sprint platformer, with contracts and proofs.
//!
//! The library holds the parts of the game that decide things from plain
//! values: the switch logic that links buttons, platforms and portals; the
//! level geometry grid and its triangulation; input mapping; the menu stack;
//! the update-mode selection, pausing, slow motion and level warps of the game
//! loop; the collision rules and what a physics step's contacts mean; the
//! movement and animation state machines of the characters and NPCs; sprite
//! animation frames; buttons, pickups and portals; and the audio levels.
//! Times are whole milliseconds (microseconds for the warp clock and the NPC
//! decision timer), and
//! fractions are kept in hundredths or thousandths.

pub mod logic;
pub mod level;
pub mod physics;
pub mod geometry;
pub mod keys;
pub mod input;
pub mod menu;
pub mod game_state;
pub mod npc;
pub mod flags;
pub mod anim_sprite;
pub mod pickup;
pub mod button;
pub mod character;
pub mod audio;
pub mod collision;
pub mod portal;
pub mod level_builder;
pub mod ui;
pub mod events;
pub mod sprite;
pub mod contacts;
pub mod particle_sys;
pub mod world;
mod random;
