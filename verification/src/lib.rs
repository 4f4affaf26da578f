//! Trainer-battle simulation for a monster-collecting game: exact stat and
//! index formulas, the catalogs behind them, and a tick-by-tick battle engine.
//!
//! Every real-valued quantity is held exactly. Stats and level multipliers are
//! fixed-point integers in units of `1 / SCALE`; multipliers such as the
//! stat-stage factors are `Ratio`s; levels are counted in half-level steps
//! (`2` is level 1.0, `3` is level 1.5, …). Roots and quotients are rounded
//! down on whole numbers of any size, so that an index or a damage is the
//! value of its formula and not an approximation of it.
//!
//! The data: `types`, `moves`, `cpm`, `pokemon_lv`, `evolution`, and the
//! species of `pokepedia`, whose catalog the caller supplies. The creatures:
//! `pokemon`, with `index`, `power`, `perm`, `ranking`, `matchup` and
//! `records` around them. The engine: `creature`, `player`, `state`, `tick`,
//! `battle` and `record`, with `damage` and `chance` below them. The console:
//! `input`, `command` and `utils`.

pub mod text;
pub mod ratio;
pub mod wide;
pub mod types;
pub mod cpm;
pub mod pokemon_lv;
pub mod moves;
pub mod evolution;
pub mod pokepedia;
pub mod pokemon;
pub mod index;
pub mod power;
pub mod perm;
pub mod ranking;
pub mod matchup;
pub mod records;
pub mod damage;
pub mod chance;
pub mod creature;
pub mod player;
pub mod state;
pub mod tick;
pub mod battle;
pub mod record;
pub mod input;
pub mod command;
pub mod utils;
