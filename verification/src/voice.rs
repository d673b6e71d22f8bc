//! Classification of voice state changes.

use vstd::prelude::*;

verus! {

/// How a member's voice state changed.
#[derive(Debug, Clone, Copy, PartialEq, Eq)]
pub enum VoiceStateUpdate {
    Connected,
    Reconnected,
    Disconnected,
    Moved,
}

impl VoiceStateUpdate {
    /// Classifies a voice state change from the previous state (`old`, its
    /// channel when known) to the new channel (`new`, `None` when not in a
    /// voice channel).
    pub open spec fn spec_get(old: Option<Option<u64>>, new: Option<u64>) -> VoiceStateUpdate {
        match old {
            Some(old_channel) => {
                if old_channel == new {
                    VoiceStateUpdate::Reconnected
                } else if old_channel is None {
                    VoiceStateUpdate::Connected
                } else {
                    VoiceStateUpdate::Moved
                }
            },
            None => {
                if new is None {
                    VoiceStateUpdate::Disconnected
                } else {
                    VoiceStateUpdate::Connected
                }
            },
        }
    }

    /// Classifies a voice state change: same channel as before is a
    /// reconnect, from no channel a connect, from another channel a move;
    /// with no previous state, no channel is a disconnect and a channel a
    /// connect.
    pub fn get(old: Option<Option<u64>>, new: Option<u64>) -> (r: VoiceStateUpdate)
        ensures
            r == Self::spec_get(old, new),
    {
        match old {
            Some(old_channel) => {
                let same = match (old_channel, new) {
                    (Some(a), Some(b)) => a == b,
                    (None, None) => true,
                    _ => false,
                };
                if same {
                    VoiceStateUpdate::Reconnected
                } else if old_channel.is_none() {
                    VoiceStateUpdate::Connected
                } else {
                    VoiceStateUpdate::Moved
                }
            },
            None => {
                if new.is_none() {
                    VoiceStateUpdate::Disconnected
                } else {
                    VoiceStateUpdate::Connected
                }
            },
        }
    }
}

} // verus!
