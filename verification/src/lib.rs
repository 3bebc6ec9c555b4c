//! Control logic of a DIY vape module: the settings and statistics model,
//! the button and touch state machine, battery arithmetic, the screen model
//! that decides what to redraw, the game of life screen saver, and the
//! encoder that turns text-art icons into monochrome bitmaps.
pub mod types;
pub mod values;
pub mod data;
pub mod device;
pub mod control;
pub mod games;
pub mod icons;
pub mod ext;
pub mod util;
pub mod flash;
