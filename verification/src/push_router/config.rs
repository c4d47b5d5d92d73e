//! The knobs of the rebind decision.

use vstd::prelude::*;

use crate::push_router::migration::PeerHost;
use crate::text::{parse_u32, parse_usize};

verus! {

/// The hot rank's backlog must exceed the coldest rank's by more than this many
/// tokens before a rebind fires.
pub const REBIND_HYSTERESIS_TOKENS_DEFAULT: usize = 4096;

/// Only turns that bring at least this much new prefill work, in tokens, are
/// worth the fixed overhead of a migration.
pub const REBIND_MIN_NEW_TOKENS_DEFAULT: usize = 4096;

/// Each rebind costs a deferred turn and a transfer with diminishing returns: a
/// session is not moved more often than this.
pub const REBIND_MAX_PER_SESSION_DEFAULT: u32 = 4;

/// Least number of seconds between two rebinds of the same session.
pub const REBIND_COOLDOWN_SECS: u64 = 5;

/// The value of a knob: the number that its setting stands for, or the default
/// where there is no setting or none that stands for a number up to `limit`.
pub open spec fn knob(setting: Option<&str>, limit: nat, default: nat) -> nat {
    match setting {
        Some(text) => match crate::text::parsed_number(text@) {
            Some(number) => if number <= limit {
                number
            } else {
                default
            },
            None => default,
        },
        None => default,
    }
}

/// Least new prefill work of a turn that is worth a rebind.
pub fn rebind_min_new_tokens(setting: Option<&str>) -> (tokens: usize)
    ensures
        tokens == knob(setting, usize::MAX as nat, REBIND_MIN_NEW_TOKENS_DEFAULT as nat),
{
    match setting {
        Some(text) => match parse_usize(text) {
            Some(tokens) => tokens,
            None => REBIND_MIN_NEW_TOKENS_DEFAULT,
        },
        None => REBIND_MIN_NEW_TOKENS_DEFAULT,
    }
}

/// How often a session may be rebound.
pub fn rebind_max_per_session(setting: Option<&str>) -> (rebinds: u32)
    ensures
        rebinds == knob(setting, u32::MAX as nat, REBIND_MAX_PER_SESSION_DEFAULT as nat),
{
    match setting {
        Some(text) => match parse_u32(text) {
            Some(rebinds) => rebinds,
            None => REBIND_MAX_PER_SESSION_DEFAULT,
        },
        None => REBIND_MAX_PER_SESSION_DEFAULT,
    }
}

/// The gap between two backlogs that does not yet lead to a rebind.
pub fn rebind_hysteresis_tokens(setting: Option<&str>) -> (tokens: usize)
    ensures
        tokens == knob(setting, usize::MAX as nat, REBIND_HYSTERESIS_TOKENS_DEFAULT as nat),
{
    match setting {
        Some(text) => match parse_usize(text) {
            Some(tokens) => tokens,
            None => REBIND_HYSTERESIS_TOKENS_DEFAULT,
        },
        None => REBIND_HYSTERESIS_TOKENS_DEFAULT,
    }
}

/// The knobs of the rebind decision.
#[derive(Clone, Debug)]
pub struct RebindConfig {
    pub hysteresis_tokens: usize,
    pub min_new_tokens: usize,
    pub max_per_session: u32,
    /// The host of the source worker's migration peer, where the request plane
    /// does not give it away. Valid when all prefill ranks share one host.
    pub peer_host: Option<PeerHost>,
}

} // verus!
