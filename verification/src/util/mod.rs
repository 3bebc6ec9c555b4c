pub mod logging;
