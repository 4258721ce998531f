//! Verified core of the ModelRelay update, download and site logic.

pub mod text;
pub mod version;
pub mod artifacts;
pub mod text_map;
pub mod release;
pub mod timed_cache;
pub mod update_check;
pub mod site;
pub mod legal;
pub mod desktop;
