//! What the outside world tells the state machine.
use vstd::prelude::*;
use crate::actors::blive::LiveClient;
use crate::common::error::FfmpegExitStatus;

verus! {

/// An event handed to the state machine.
pub enum Event {
    /// The PS5 started publishing a stream.
    RtmpPublish { app: String, stream_key: String },
    /// The PS5 stopped publishing.
    RtmpUnpublish,
    /// The danmaku connection is up.
    DanmakuReady,
    /// The broadcast started; these are the ingest address and key.
    BilibiliLiveStarted { rtmp_url: String, stream_key: String, client: LiveClient },
    /// The broadcast was stopped.
    BilibiliLiveStopped,
    /// Starting the broadcast failed.
    BilibiliLiveStartFailed { code: i64, message: String },
    /// Starting the broadcast needs a face verification first.
    BilibiliAuthRequired { face_auth_url: Option<String> },
    /// Stopping the broadcast failed.
    BilibiliLiveStopFailed { code: i64, message: String },
    /// The live stream was seen on Bilibili.
    BilibiliStreamConfirmed { room_id: u64 },
    /// The live stream was not seen in time.
    BilibiliStreamTimeout { room_id: u64 },
    /// The face-verification watcher says: try starting again.
    TryStartLive,
    /// The face-verification watcher gave up.
    FaceTimeout,
    /// The room title was changed to this.
    TitleUpdated(String),
    /// The PS5 joined this IRC channel.
    Ps5IrcReady { channel: String },
    /// Streaming to Bilibili failed.
    FfmpegError(FfmpegExitStatus),
    /// The bridge is shutting down.
    Shutdown,
}

} // verus!
