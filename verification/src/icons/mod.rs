pub mod icon_bytes;
