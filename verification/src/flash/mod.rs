pub mod savable;
