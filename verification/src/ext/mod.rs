pub mod error;
pub mod option_ext;
