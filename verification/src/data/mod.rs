pub mod action;
pub mod battery;
pub mod button;
pub mod buttons;
pub mod config;
pub mod edit_settings;
pub mod mode;
pub mod power;
pub mod reset_puffs;
pub mod stats;
pub mod state;
