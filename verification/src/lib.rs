//! Movement rules and collider geometry for a tile-based platformer.
//!
//! [`tilemap`] merges the occupied cells of a tile layer into rectangles,
//! [`player`] resolves, once per frame and per actor, what a jump, a dash or
//! a run input does to the actor's state, and [`npc`] walks a patrolling
//! actor along its route.
pub mod npc;
pub mod player;
pub mod tilemap;
