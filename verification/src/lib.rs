//! Verified core logic shared by a family of small arcade demos: a keyboard
//! driven actor with animation blending and a collectible hunt, a grid-based
//! snake, and a free-roaming chase. The engine around each demo supplies
//! rendering, asset loading, input polling and scheduling; this crate holds
//! the per-frame decisions: turning held keys into a movement intent,
//! integrating that intent into a position and facing, selecting the active
//! animation state, and accounting for collectible overlaps, score and
//! respawns. Positions and extents are whole world units throughout.

pub mod intent;
pub mod motion;
pub mod animation;
pub mod collision;
mod randomness;
pub mod respawn;
pub mod grid;
pub mod chase;
