//! Arbiters: each owns one group of radio settings, takes commands from the
//! controls, and decides the next state and the value to publish.

pub mod mode;
pub mod filter;
pub mod if_gain_mode;
pub mod frequency;
pub mod sweep_target;
pub mod switches;
pub mod setting;
pub mod squelch;
pub mod vox;
pub mod eq;
pub mod scan;
pub mod cw_keyer;
