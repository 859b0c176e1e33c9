//! What travels on the danmaku channel between the room client and the IRC side.
use vstd::prelude::*;
use crate::actors::irc::LiveMessage;

verus! {

/// What travels on the danmaku channel: room messages and the bridge's notices.
pub enum DanmuMessage {
    Danmaku(LiveMessage),
    Notify(String),
}

/// A message could not be sent: the receiving side is gone.
pub struct SendError;

} // verus!
