//! What the state machine asks the outside world to do.
use vstd::prelude::*;
use crate::actors::blive::LiveClient;

verus! {

/// A side effect decided by the state machine.
pub enum Effect {
    /// Start relaying the PS5 stream to Bilibili.
    StartFfmpeg {
        ps5_app: String,
        ps5_stream_key: String,
        bilibili_rtmp_url: String,
        bilibili_stream_key: String,
    },
    /// Stop relaying.
    StopFfmpeg,
    /// Call Bilibili's start-live API.
    BilibiliStartLive { room_id: u64, area_v2: String, title: Option<String> },
    /// Call Bilibili's stop-live API, with the client the broadcast was started by.
    BilibiliStopLive { room_id: u64, client: LiveClient },
    /// Start the face-verification watcher.
    StartFaceWatch { room_id: u64 },
    /// Stop the face-verification watcher.
    StopFaceWatch,
    /// Copy the Twitch broadcast title to the Bilibili room.
    SyncTwitchTitle { room_id: u64, broadcaster_id: String },
    /// Connect to the room's danmaku.
    StartDanmaku { room_id: u64 },
    /// Disconnect from the danmaku.
    StopDanmaku,
    /// Show a notice on the PS5.
    NotifyPs5(String),
    /// Write a log line.
    Log(String),
    /// Restart the bridge (after the login expired).
    Restart,
}

/// An effect with its strings taken as character sequences.
pub enum EffectV {
    StartFfmpeg {
        ps5_app: Seq<char>,
        ps5_stream_key: Seq<char>,
        bilibili_rtmp_url: Seq<char>,
        bilibili_stream_key: Seq<char>,
    },
    StopFfmpeg,
    BilibiliStartLive { room_id: u64, area_v2: Seq<char>, title: Option<Seq<char>> },
    BilibiliStopLive { room_id: u64, client: LiveClient },
    StartFaceWatch { room_id: u64 },
    StopFaceWatch,
    SyncTwitchTitle { room_id: u64, broadcaster_id: Seq<char> },
    StartDanmaku { room_id: u64 },
    StopDanmaku,
    NotifyPs5(Seq<char>),
    Log(Seq<char>),
    Restart,
}

/// An optional string as an optional character sequence.
pub open spec fn opt_view(o: Option<String>) -> Option<Seq<char>> {
    match o {
        Some(s) => Some(s@),
        None => None,
    }
}

impl View for Effect {
    type V = EffectV;

    open spec fn view(&self) -> EffectV {
        match self {
            Effect::StartFfmpeg { ps5_app, ps5_stream_key, bilibili_rtmp_url, bilibili_stream_key } =>
                EffectV::StartFfmpeg {
                ps5_app: ps5_app@,
                ps5_stream_key: ps5_stream_key@,
                bilibili_rtmp_url: bilibili_rtmp_url@,
                bilibili_stream_key: bilibili_stream_key@,
            },
            Effect::StopFfmpeg => EffectV::StopFfmpeg,
            Effect::BilibiliStartLive { room_id, area_v2, title } => EffectV::BilibiliStartLive {
                room_id: *room_id,
                area_v2: area_v2@,
                title: opt_view(*title),
            },
            Effect::BilibiliStopLive { room_id, client } => EffectV::BilibiliStopLive {
                room_id: *room_id,
                client: *client,
            },
            Effect::StartFaceWatch { room_id } => EffectV::StartFaceWatch { room_id: *room_id },
            Effect::StopFaceWatch => EffectV::StopFaceWatch,
            Effect::SyncTwitchTitle { room_id, broadcaster_id } => EffectV::SyncTwitchTitle {
                room_id: *room_id,
                broadcaster_id: broadcaster_id@,
            },
            Effect::StartDanmaku { room_id } => EffectV::StartDanmaku { room_id: *room_id },
            Effect::StopDanmaku => EffectV::StopDanmaku,
            Effect::NotifyPs5(m) => EffectV::NotifyPs5(m@),
            Effect::Log(m) => EffectV::Log(m@),
            Effect::Restart => EffectV::Restart,
        }
    }
}

/// A list of effects taken as views.
pub open spec fn effects_view(v: Seq<Effect>) -> Seq<EffectV> {
    v.map_values(|e: Effect| e@)
}

} // verus!
