pub mod charge_status;
pub mod ui;
pub mod renderer;
pub mod measure;
pub mod ticks;
