//! Session discovery, caching and value conversions behind a small native
//! bridge that reports what a desktop streaming player is doing.

pub mod accessors;
pub mod cache;
pub mod identity;

pub use accessors::{
    availability_flag, boundary_text, contains_nul, cover_art_read_len, millis_or_zero,
    playing_flag, ticks_to_millis, PlaybackStatus, TICKS_PER_MILLI,
};
pub use cache::{
    candidate_is_target, find_first_match, Action, CachedSession, Candidate, SessionCache,
    CACHE_TTL_MS,
};
pub use identity::is_spotify;
