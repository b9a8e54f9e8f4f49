//! Dice rolling and NPC tracking for Shadowrun 5E game masters.
//!
//! `dice` rolls pools of six-sided dice under the standard rules, "Push the
//! Limit" and "Second Chance", `character` holds the non-player characters with
//! their limits, damage tracks and initiative scores, `store` keeps the active
//! characters and the saved templates, and `text` reads and writes the few
//! pieces of text that the user interface exchanges with the library.

pub mod character;
pub mod dice;
pub mod store;
pub mod text;
