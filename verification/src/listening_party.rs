//! The listening party: messages that share what someone listens to are
//! pinned in its channel.

use vstd::prelude::*;

verus! {

/// Identifier of the listening party's channel.
pub const CHANNEL_LISTENING_PARTY: u64 = 742445700998103132;

/// The kind of activity that a message shares.
#[derive(Clone, Copy, Debug, PartialEq, Eq, Structural)]
pub enum MessageActivityKind {
    Join,
    Spectate,
    Listen,
    JoinRequest,
    Unknown,
}

/// The rule of pinning: the message is in the listening party's channel and
/// shares a listening activity.
pub open spec fn pins(channel_id: u64, activity: Option<MessageActivityKind>) -> bool {
    channel_id == CHANNEL_LISTENING_PARTY && activity == Some(MessageActivityKind::Listen)
}

/// Decides whether a new message is to be pinned.
pub fn should_pin(channel_id: u64, activity: Option<MessageActivityKind>) -> (pin: bool)
    ensures
        pin == pins(channel_id, activity),
{
    if channel_id == CHANNEL_LISTENING_PARTY {
        match activity {
            Some(MessageActivityKind::Listen) => true,
            _ => false,
        }
    } else {
        false
    }
}

} // verus!
