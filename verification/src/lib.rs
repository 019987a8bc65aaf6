//! Core logic of a corridor game in which the player destroys numeric targets
//! with number-based attacks and picks left/right branches between levels.
//!
//! Two components carry the rules. The number and attack rule engine
//! ([`num`], [`logic`]) defines exact rational numbers and the pure function
//! that classifies an attack against a target as effective or failed. The
//! level and branch selection system ([`level`], [`content`]) identifies a
//! level by the path taken through a binary decision tree and resolves each
//! identity to a deterministic level layout. Around them stand the
//! declarative content carriers: interlude chains ([`interlude`]), mob
//! spawners ([`spawner`]) and the cheat-code rules ([`cheat`]).
//!
//! Rendering, input, audio and scene building are left to the embedding
//! program, which consumes plain data from here and feeds events back in.
pub mod cheat;
pub mod content;
pub mod interlude;
pub mod level;
pub mod logic;
pub mod num;
pub mod spawner;
