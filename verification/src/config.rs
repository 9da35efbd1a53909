//! Runtime configuration with its defaults. Reading the process
//! environment is the embedding program's business; it hands any values it
//! found to [`settings`], which fills the gaps with the defaults.

use vstd::prelude::*;

verus! {

/// Maximum duel length before auto-finish.
pub const DEFAULT_MAX_TURNS: u32 = 5;

/// Presence-key time-to-live, in seconds.
pub const DEFAULT_PRESENCE_TTL: u64 = 600;

/// Seconds a player may stay disconnected before forfeit.
pub const DEFAULT_DISCONNECT_GRACE: u64 = 120;

/// Runtime configuration of the server core.
#[derive(Debug, Clone, Copy, PartialEq, Eq, Structural)]
pub struct Settings {
    /// Maximum duel length before auto-finish.
    pub max_turns: u32,
    /// Presence-key time-to-live (seconds).
    pub presence_ttl: u64,
    /// Seconds a player may stay disconnected before forfeit.
    pub disconnect_grace: u64,
}

/// Resolves the configuration: each field takes the supplied value where
/// one was found (and parsed) in the environment, and its default where
/// none was.
pub fn settings(
    max_turns: Option<u32>,
    presence_ttl: Option<u64>,
    disconnect_grace: Option<u64>,
) -> (s: Settings)
    ensures
        s.max_turns == if max_turns.is_some() {
            max_turns.unwrap()
        } else {
            DEFAULT_MAX_TURNS
        },
        s.presence_ttl == if presence_ttl.is_some() {
            presence_ttl.unwrap()
        } else {
            DEFAULT_PRESENCE_TTL
        },
        s.disconnect_grace == if disconnect_grace.is_some() {
            disconnect_grace.unwrap()
        } else {
            DEFAULT_DISCONNECT_GRACE
        },
{
    Settings {
        max_turns: match max_turns {
            Option::Some(v) => v,
            Option::None => DEFAULT_MAX_TURNS,
        },
        presence_ttl: match presence_ttl {
            Option::Some(v) => v,
            Option::None => DEFAULT_PRESENCE_TTL,
        },
        disconnect_grace: match disconnect_grace {
            Option::Some(v) => v,
            Option::None => DEFAULT_DISCONNECT_GRACE,
        },
    }
}

} // verus!
