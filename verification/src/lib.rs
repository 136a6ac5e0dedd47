//! Verified control logic of a transceiver's main controller and front panel:
//! the CW keyer, paddle debouncing, the command arbiters, the ALC loop's
//! decisions, the integer audio mixer, and the display arithmetic.

pub mod types;
pub mod cw_keyer;
pub mod keyer_laws;
pub mod paddle;
pub mod keying;
pub mod arbiters;
pub mod alc;
pub mod levels;
pub mod mixer;
pub mod waterfall;
pub mod meters;
pub mod colors;
pub mod text;
pub mod display;
pub mod info_line;
pub mod controls;
pub mod scan;
pub mod panel_levels;
pub mod dsp_controls;
pub mod sweep;
pub mod spectrum;

