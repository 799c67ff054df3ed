//! Operator-supplied configuration: per-room upload settings and the
//! manager's own service settings. Loaded once at startup and never mutated
//! at runtime.

use std::collections::HashMap;
use vstd::prelude::*;

verus! {

/// Static per-room settings: credentials reference, title templates,
/// category, cover image and tags.
pub struct RoomConfig {
    pub room_id: u64,
    pub user_cookie: String,
    pub studio_title: String,
    pub part_title: String,
    pub cover: String,
    pub description: String,
    pub tags: String,
    pub tid: u16,
}

/// Process-wide settings: bind address, recording root, upload concurrency
/// limit, upload line name, and the room table.
pub struct ManagerConfig {
    pub version: u32,
    pub host: String,
    pub port: u16,
    pub rec_dir: String,
    pub limit: usize,
    pub line: String,
    pub rooms: HashMap<u64, RoomConfig>,
}

/// Upload concurrency limit used when the configuration names none.
pub fn default_limit() -> (r: usize)
    ensures
        r == 3,
{
    3
}

/// Upload line used when the configuration names none: automatic probing.
pub fn default_line() -> (r: String)
    ensures
        r@ == "AUTO"@,
{
    String::from_str("AUTO")
}

} // verus!
