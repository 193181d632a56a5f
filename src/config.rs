//! Settings the client starts from; storing them is up to the caller.
use vstd::prelude::*;

verus! {

/// Room id shown before the user has chosen one.
pub const DEFAULT_ROOM_ID: u64 = 4553086;

#[derive(Clone, Copy, Debug, PartialEq, Eq, Structural)]
pub struct Config {
    /// The room to connect to.
    pub room_id: u64,
    /// Whether the dark theme is used.
    pub dark_mode: bool,
}

impl Config {
    /// Settings used when none are stored: the default room, dark theme.
    pub fn new() -> (r: Config)
        ensures
            r == (Config { room_id: DEFAULT_ROOM_ID, dark_mode: true }),
    {
        Config { room_id: DEFAULT_ROOM_ID, dark_mode: true }
    }
}

} // verus!
