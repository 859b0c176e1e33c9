//! Routing of effects to the workers that carry them out.
use vstd::prelude::*;
use crate::actors::blive::LiveClient;
use crate::common::effect::Effect;

verus! {

/// A command for the relay worker.
pub enum FfmpegCmd {
    Start {
        ps5_app: String,
        ps5_stream_key: String,
        bilibili_rtmp_url: String,
        bilibili_stream_key: String,
    },
    Stop,
}

/// A command for the Bilibili API worker.
pub enum BilibiliCmd {
    StartLive { room_id: u64, area_v2: String, title: Option<String> },
    StopLive { room_id: u64, client: LiveClient },
    /// Start the face-verification watcher (probing every second).
    StartFaceWatch { room_id: u64 },
    /// Stop the face-verification watcher.
    StopFaceWatch,
    /// Copy the Twitch broadcast title to the Bilibili room.
    SyncTwitchTitle { room_id: u64, broadcaster_id: String },
    /// Update the room's title and area after the configuration changed.
    UpdateRoom { room_id: u64, title: Option<String>, area: Option<String> },
}

/// A command for the danmaku worker.
pub enum DanmakuCmd {
    Start { room_id: u64 },
    Stop,
}

/// Where an effect goes.
pub enum Route {
    Ffmpeg(FfmpegCmd),
    Bilibili(BilibiliCmd),
    Danmaku(DanmakuCmd),
    /// A notice for the PS5's IRC channel.
    Notify(String),
    /// A log line.
    Log(String),
    /// Restart the bridge after a short pause.
    Restart,
}

/// The route of each effect: relay effects to the relay worker, API and
/// watcher effects to the Bilibili worker, danmaku effects to the danmaku
/// worker, notices to the IRC side; everything moved as it is.
pub open spec fn route_spec(effect: Effect) -> Route {
    match effect {
        Effect::StartFfmpeg { ps5_app, ps5_stream_key, bilibili_rtmp_url, bilibili_stream_key } =>
            Route::Ffmpeg(
            FfmpegCmd::Start { ps5_app, ps5_stream_key, bilibili_rtmp_url, bilibili_stream_key },
        ),
        Effect::StopFfmpeg => Route::Ffmpeg(FfmpegCmd::Stop),
        Effect::BilibiliStartLive { room_id, area_v2, title } => Route::Bilibili(
            BilibiliCmd::StartLive { room_id, area_v2, title },
        ),
        Effect::BilibiliStopLive { room_id, client } => Route::Bilibili(
            BilibiliCmd::StopLive { room_id, client },
        ),
        Effect::StartFaceWatch { room_id } => Route::Bilibili(BilibiliCmd::StartFaceWatch { room_id }),
        Effect::StopFaceWatch => Route::Bilibili(BilibiliCmd::StopFaceWatch),
        Effect::SyncTwitchTitle { room_id, broadcaster_id } => Route::Bilibili(
            BilibiliCmd::SyncTwitchTitle { room_id, broadcaster_id },
        ),
        Effect::StartDanmaku { room_id } => Route::Danmaku(DanmakuCmd::Start { room_id }),
        Effect::StopDanmaku => Route::Danmaku(DanmakuCmd::Stop),
        Effect::NotifyPs5(m) => Route::Notify(m),
        Effect::Log(m) => Route::Log(m),
        Effect::Restart => Route::Restart,
    }
}

/// Decides where an effect goes; the caller sends it there.
pub fn dispatch(effect: Effect) -> (r: Route)
    ensures
        r == route_spec(effect),
{
    match effect {
        Effect::StartFfmpeg { ps5_app, ps5_stream_key, bilibili_rtmp_url, bilibili_stream_key } =>
            Route::Ffmpeg(
            FfmpegCmd::Start { ps5_app, ps5_stream_key, bilibili_rtmp_url, bilibili_stream_key },
        ),
        Effect::StopFfmpeg => Route::Ffmpeg(FfmpegCmd::Stop),
        Effect::BilibiliStartLive { room_id, area_v2, title } => Route::Bilibili(
            BilibiliCmd::StartLive { room_id, area_v2, title },
        ),
        Effect::BilibiliStopLive { room_id, client } => Route::Bilibili(
            BilibiliCmd::StopLive { room_id, client },
        ),
        Effect::StartFaceWatch { room_id } => Route::Bilibili(BilibiliCmd::StartFaceWatch { room_id }),
        Effect::StopFaceWatch => Route::Bilibili(BilibiliCmd::StopFaceWatch),
        Effect::SyncTwitchTitle { room_id, broadcaster_id } => Route::Bilibili(
            BilibiliCmd::SyncTwitchTitle { room_id, broadcaster_id },
        ),
        Effect::StartDanmaku { room_id } => Route::Danmaku(DanmakuCmd::Start { room_id }),
        Effect::StopDanmaku => Route::Danmaku(DanmakuCmd::Stop),
        Effect::NotifyPs5(m) => Route::Notify(m),
        Effect::Log(m) => Route::Log(m),
        Effect::Restart => Route::Restart,
    }
}

/// Routing moves every effect to its worker with each field unchanged: the
/// stop of a broadcast goes out with the very client it names, a relay start
/// with the addresses and keys it names, and each other effect to the worker
/// that carries it out.
pub proof fn law_routing_keeps_fields(effect: Effect)
    ensures
        effect matches Effect::BilibiliStopLive { room_id, client } ==> (route_spec(effect)
            == Route::Bilibili(BilibiliCmd::StopLive { room_id: room_id, client: client })),
        effect matches Effect::BilibiliStartLive { room_id, area_v2, title } ==> (route_spec(
            effect,
        ) == Route::Bilibili(
            BilibiliCmd::StartLive { room_id: room_id, area_v2: area_v2, title: title },
        )),
        effect matches Effect::StartFfmpeg {
            ps5_app,
            ps5_stream_key,
            bilibili_rtmp_url,
            bilibili_stream_key,
        } ==> (route_spec(effect) == Route::Ffmpeg(
            FfmpegCmd::Start {
                ps5_app: ps5_app,
                ps5_stream_key: ps5_stream_key,
                bilibili_rtmp_url: bilibili_rtmp_url,
                bilibili_stream_key: bilibili_stream_key,
            },
        )),
        effect matches Effect::StartFaceWatch { room_id } ==> (route_spec(effect) == Route::Bilibili(
            BilibiliCmd::StartFaceWatch { room_id: room_id },
        )),
        effect matches Effect::SyncTwitchTitle { room_id, broadcaster_id } ==> (route_spec(effect)
            == Route::Bilibili(
            BilibiliCmd::SyncTwitchTitle { room_id: room_id, broadcaster_id: broadcaster_id },
        )),
        effect matches Effect::StartDanmaku { room_id } ==> (route_spec(effect) == Route::Danmaku(
            DanmakuCmd::Start { room_id: room_id },
        )),
        effect matches Effect::NotifyPs5(m) ==> route_spec(effect) == Route::Notify(m),
        effect matches Effect::Log(m) ==> route_spec(effect) == Route::Log(m),
        effect is StopFfmpeg ==> route_spec(effect) == Route::Ffmpeg(FfmpegCmd::Stop),
        effect is StopFaceWatch ==> route_spec(effect) == Route::Bilibili(BilibiliCmd::StopFaceWatch),
        effect is StopDanmaku ==> route_spec(effect) == Route::Danmaku(DanmakuCmd::Stop),
        effect is Restart ==> route_spec(effect) == Route::Restart,
{
}

/// The stop of a broadcast goes through the client that started it, whichever
/// client that was.
pub proof fn law_stop_keeps_client(room_id: u64, client: LiveClient)
    ensures
        route_spec(Effect::BilibiliStopLive { room_id, client }) == (Route::Bilibili(
            BilibiliCmd::StopLive { room_id, client },
        )),
{
}

} // verus!
