use pslinkb::actors::blive::{LiveClient, LiveMode};
use pslinkb::common::effect::Effect;
use pslinkb::common::error::{FfmpegErrorKind, FfmpegExitStatus};
use pslinkb::common::event::Event;
use pslinkb::config::Config;
use pslinkb::luci::LuciOp;
use pslinkb::system::{GlobalState, HostOp, System};

fn config(mode: LiveMode, title: &str) -> Config {
    let mut c = Config::default();
    c.live.room_id = 42;
    c.live.title = title.to_string();
    c.live.live_mode = mode;
    c
}

fn joined() -> GlobalState {
    GlobalState { channel_name: "#ps5".to_string() }
}

fn not_joined() -> GlobalState {
    GlobalState { channel_name: String::new() }
}

fn show(e: &Effect) -> String {
    match e {
        Effect::StartFfmpeg { ps5_app, ps5_stream_key, bilibili_rtmp_url, bilibili_stream_key } => {
            format!("StartFfmpeg({ps5_app},{ps5_stream_key},{bilibili_rtmp_url},{bilibili_stream_key})")
        }
        Effect::StopFfmpeg => "StopFfmpeg".to_string(),
        Effect::BilibiliStartLive { room_id, area_v2, title } => {
            format!("StartLive({room_id},{area_v2},{title:?})")
        }
        Effect::BilibiliStopLive { room_id, client } => format!("StopLive({room_id},{client:?})"),
        Effect::StartFaceWatch { room_id } => format!("StartFaceWatch({room_id})"),
        Effect::StopFaceWatch => "StopFaceWatch".to_string(),
        Effect::SyncTwitchTitle { room_id, broadcaster_id } => format!("SyncTitle({room_id},{broadcaster_id})"),
        Effect::StartDanmaku { room_id } => format!("StartDanmaku({room_id})"),
        Effect::StopDanmaku => "StopDanmaku".to_string(),
        Effect::NotifyPs5(m) => format!("Notify({m})"),
        Effect::Log(m) => format!("Log({m})"),
        Effect::Restart => "Restart".to_string(),
    }
}

fn shows(es: &[Effect]) -> Vec<String> {
    es.iter().map(show).collect()
}

fn show_host(h: &HostOp) -> String {
    match h {
        HostOp::Luci(LuciOp::Write { key, value }) => format!("set({key},{value})"),
        HostOp::Luci(LuciOp::Clear { key }) => format!("clear({key})"),
        HostOp::Warn(m) => format!("warn({m})"),
    }
}

fn hosts(s: &mut System) -> Vec<String> {
    s.take_host_ops().iter().map(show_host).collect()
}

fn publish(s: &mut System, irc: &GlobalState) -> Vec<String> {
    shows(&s.handle(Event::RtmpPublish { app: "app".to_string(), stream_key: "live_123_abc".to_string() }, irc))
}

fn started(s: &mut System, irc: &GlobalState) -> Vec<String> {
    shows(&s.handle(
        Event::BilibiliLiveStarted {
            rtmp_url: "rtmp://bili/live/".to_string(),
            stream_key: "bkey".to_string(),
            client: LiveClient::Livehime,
        },
        irc,
    ))
}

fn io_error(m: &str) -> Event {
    Event::FfmpegError(FfmpegExitStatus::Error(FfmpegErrorKind::IoError(m.to_string())))
}

#[test]
fn publish_in_auto_mode_starts_the_broadcast() {
    let mut s = System::new(config(LiveMode::Auto, ""), "192.168.1.2".to_string());
    assert_eq!(
        publish(&mut s, &not_joined()),
        vec![
            "Log(Stream Url - rtmp://192.168.1.2:1935/app/live_123_abc)".to_string(),
            "StartLive(42,237,None)".to_string(),
        ]
    );
    assert_eq!(hosts(&mut s), vec!["set(rtmp,rtmp://192.168.1.2:1935/app/live_123_abc)".to_string()]);
    assert!(hosts(&mut s).is_empty());
}

#[test]
fn publish_passes_the_configured_title() {
    let mut s = System::new(config(LiveMode::Auto, "My Game"), "10.0.0.1".to_string());
    let e = publish(&mut s, &not_joined());
    assert_eq!(e[1], "StartLive(42,237,Some(\"My Game\"))");
}

#[test]
fn publish_in_manual_mode_connects_danmaku_only() {
    let mut s = System::new(config(LiveMode::Manual, ""), "192.168.1.2".to_string());
    assert_eq!(
        publish(&mut s, &not_joined()),
        vec![
            "Log(Stream Url - rtmp://192.168.1.2:1935/app/live_123_abc)".to_string(),
            "StartDanmaku(42)".to_string(),
            "Log([Manual] RTMP: rtmp://127.0.0.1:1935/app/live_123_abc)".to_string(),
        ]
    );
    // A second publish while streaming is ignored.
    assert!(publish(&mut s, &not_joined()).is_empty());
}

#[test]
fn live_start_runs_relay_and_syncs_the_twitch_title() {
    let mut s = System::new(config(LiveMode::Auto, ""), "192.168.1.2".to_string());
    publish(&mut s, &not_joined());
    assert_eq!(
        started(&mut s, &not_joined()),
        vec![
            "StopFaceWatch".to_string(),
            "StartFfmpeg(app,live_123_abc,rtmp://bili/live/,bkey)".to_string(),
            "StartDanmaku(42)".to_string(),
            "SyncTitle(42,123)".to_string(),
        ]
    );
}

#[test]
fn live_start_with_a_title_does_not_sync() {
    let mut s = System::new(config(LiveMode::Auto, "Mine"), "192.168.1.2".to_string());
    publish(&mut s, &not_joined());
    assert_eq!(started(&mut s, &not_joined()).len(), 3);
}

#[test]
fn live_start_while_idle_is_ignored() {
    let mut s = System::new(config(LiveMode::Auto, ""), "192.168.1.2".to_string());
    assert!(started(&mut s, &not_joined()).is_empty());
}

#[test]
fn unpublish_while_live_stops_everything_with_the_same_client() {
    let mut s = System::new(config(LiveMode::Auto, ""), "192.168.1.2".to_string());
    publish(&mut s, &not_joined());
    started(&mut s, &not_joined());
    hosts(&mut s);
    let e = shows(&s.handle(Event::RtmpUnpublish, &not_joined()));
    assert_eq!(
        e,
        vec![
            "StopFfmpeg".to_string(),
            "StopDanmaku".to_string(),
            "StopFaceWatch".to_string(),
            "StopLive(42,Livehime)".to_string(),
            "Log(PS5 stream ended - System cleaning up)".to_string(),
        ]
    );
    assert_eq!(
        hosts(&mut s),
        vec![
            "clear(rtmp)".to_string(),
            "clear(user)".to_string(),
            "clear(rtmp)".to_string(),
            "clear(stream)".to_string(),
            "clear(qr_url)".to_string(),
            "clear(error)".to_string(),
            "set(stream,)".to_string(),
        ]
    );
    // Back to idle: a second unpublish does nothing.
    assert!(s.handle(Event::RtmpUnpublish, &not_joined()).is_empty());
}

#[test]
fn unpublish_in_manual_streaming_owes_no_stop_live() {
    let mut s = System::new(config(LiveMode::Manual, ""), "192.168.1.2".to_string());
    publish(&mut s, &not_joined());
    let e = shows(&s.handle(Event::RtmpUnpublish, &not_joined()));
    assert_eq!(
        e,
        vec![
            "StopFfmpeg".to_string(),
            "StopDanmaku".to_string(),
            "StopFaceWatch".to_string(),
            "Log(PS5 stream ended - System cleaning up)".to_string(),
        ]
    );
}

#[test]
fn unpublish_while_preparing_stops_with_electron() {
    let mut s = System::new(config(LiveMode::Auto, ""), "192.168.1.2".to_string());
    publish(&mut s, &not_joined());
    let e = shows(&s.handle(Event::RtmpUnpublish, &not_joined()));
    assert_eq!(e[3], "StopLive(42,Electron)");
}

#[test]
fn face_auth_flow_waits_then_retries_start() {
    let mut s = System::new(config(LiveMode::Auto, ""), "192.168.1.2".to_string());
    publish(&mut s, &not_joined());
    let e = shows(&s.handle(
        Event::BilibiliAuthRequired { face_auth_url: Some("https://face".to_string()) },
        &not_joined(),
    ));
    assert_eq!(
        e,
        vec![
            "StartFaceWatch(42)".to_string(),
            "Log(需人脸验证，正在等待...)".to_string(),
            "Log(验证链接: https://face)".to_string(),
        ]
    );
    // A second request for verification while waiting changes nothing.
    assert!(s.handle(Event::BilibiliAuthRequired { face_auth_url: None }, &not_joined()).is_empty());
    assert_eq!(shows(&s.handle(Event::TryStartLive, &not_joined())), vec!["StartLive(42,237,None)".to_string()]);
    // The pending notice is delivered once the PS5 joined.
    assert_eq!(shows(&s.handle(Event::Ps5IrcReady { channel: "#ps5".to_string() }, &joined())), vec![
        "Notify(需要人脸验证)".to_string()
    ]);
    assert_eq!(started(&mut s, &joined())[0], "StopFaceWatch");
}

#[test]
fn face_timeout_gives_up_and_tells_the_ps5() {
    let mut s = System::new(config(LiveMode::Auto, ""), "192.168.1.2".to_string());
    publish(&mut s, &not_joined());
    s.handle(Event::BilibiliAuthRequired { face_auth_url: None }, &not_joined());
    let e = shows(&s.handle(Event::FaceTimeout, &joined()));
    assert_eq!(
        e,
        vec![
            "StopFfmpeg".to_string(),
            "StopDanmaku".to_string(),
            "StopFaceWatch".to_string(),
            "Log(人脸验证超时 - 放弃)".to_string(),
            "Notify(人脸验证超时, 请重新开播)".to_string(),
        ]
    );
}

#[test]
fn try_start_outside_face_wait_is_ignored() {
    let mut s = System::new(config(LiveMode::Auto, ""), "192.168.1.2".to_string());
    assert!(s.handle(Event::TryStartLive, &joined()).is_empty());
    assert!(s.handle(Event::FaceTimeout, &joined()).is_empty());
}

#[test]
fn start_failure_notifies_with_the_known_reason() {
    let mut s = System::new(config(LiveMode::Auto, ""), "192.168.1.2".to_string());
    publish(&mut s, &not_joined());
    let e = shows(&s.handle(
        Event::BilibiliLiveStartFailed { code: 60009, message: "raw".to_string() },
        &joined(),
    ));
    assert_eq!(
        e,
        vec![
            "StopFaceWatch".to_string(),
            "Log(StartLive failed (60009): raw)".to_string(),
            "Notify(开播失败(60009): 分区不存在)".to_string(),
        ]
    );
    // Now streaming without a broadcast: unpublish owes no stop-live.
    assert_eq!(s.handle(Event::RtmpUnpublish, &not_joined()).len(), 4);
}

#[test]
fn start_failure_with_unknown_code_keeps_the_raw_message() {
    let mut s = System::new(config(LiveMode::Auto, ""), "192.168.1.2".to_string());
    publish(&mut s, &not_joined());
    let e = shows(&s.handle(
        Event::BilibiliLiveStartFailed { code: 12345, message: "boom".to_string() },
        &joined(),
    ));
    assert_eq!(e[2], "Notify(开播失败(12345): boom)");
}

#[test]
fn expired_login_restarts_the_bridge() {
    let mut s = System::new(config(LiveMode::Auto, ""), "192.168.1.2".to_string());
    publish(&mut s, &not_joined());
    let e = shows(&s.handle(
        Event::BilibiliLiveStartFailed { code: -101, message: "not logged in".to_string() },
        &not_joined(),
    ));
    assert_eq!(
        e,
        vec![
            "StopFaceWatch".to_string(),
            "Log(StartLive failed (-101): not logged in)".to_string(),
            "Notify(登录已过期，请重新扫码)".to_string(),
            "Restart".to_string(),
        ]
    );
}

#[test]
fn first_relay_failure_retries_second_gives_up() {
    let mut s = System::new(config(LiveMode::Auto, "t"), "192.168.1.2".to_string());
    publish(&mut s, &not_joined());
    started(&mut s, &not_joined());
    let e = shows(&s.handle(io_error("broken pipe"), &not_joined()));
    assert_eq!(
        e,
        vec![
            "StopFfmpeg".to_string(),
            "StartFfmpeg(app,live_123_abc,rtmp://bili/live/,bkey)".to_string(),
            "Log(FFmpeg: I/O: broken pipe)".to_string(),
        ]
    );
    let e = shows(&s.handle(io_error("again"), &joined()));
    assert_eq!(
        e,
        vec![
            "StopFfmpeg".to_string(),
            "StopDanmaku".to_string(),
            "StopFaceWatch".to_string(),
            "StopLive(42,Livehime)".to_string(),
            "Log(FFmpeg: I/O: again)".to_string(),
            "Notify(推流失败: I/O: again)".to_string(),
        ]
    );
}

#[test]
fn relay_crash_reports_the_signal() {
    let mut s = System::new(config(LiveMode::Manual, ""), "192.168.1.2".to_string());
    publish(&mut s, &not_joined());
    let e = shows(&s.handle(
        Event::FfmpegError(FfmpegExitStatus::Error(FfmpegErrorKind::Crash("signal 9".to_string()))),
        &joined(),
    ));
    assert_eq!(e.last().unwrap(), "Notify(推流失败: Crash: signal 9)");
    assert_eq!(e.len(), 5);
}

#[test]
fn unconfirmed_stream_restreams_once_then_ends() {
    let mut s = System::new(config(LiveMode::Auto, "t"), "192.168.1.2".to_string());
    publish(&mut s, &not_joined());
    started(&mut s, &not_joined());
    hosts(&mut s);
    let e = shows(&s.handle(Event::BilibiliStreamTimeout { room_id: 42 }, &joined()));
    assert_eq!(
        e,
        vec![
            "StopFfmpeg".to_string(),
            "StartFfmpeg(app,live_123_abc,rtmp://bili/live/,bkey)".to_string(),
            "Notify(推流重试)".to_string(),
        ]
    );
    assert_eq!(hosts(&mut s), vec!["warn(Bili:Live: Live stream unconfirmed - FFmpeg restream)".to_string()]);
    let e = shows(&s.handle(Event::BilibiliStreamTimeout { room_id: 42 }, &joined()));
    assert_eq!(
        e,
        vec![
            "StopFfmpeg".to_string(),
            "StopDanmaku".to_string(),
            "StopFaceWatch".to_string(),
            "StopLive(42,Livehime)".to_string(),
            "Log(Stream unconfirmed after retry)".to_string(),
        ]
    );
}

#[test]
fn stream_timeout_outside_live_is_ignored() {
    let mut s = System::new(config(LiveMode::Auto, ""), "192.168.1.2".to_string());
    assert!(s.handle(Event::BilibiliStreamTimeout { room_id: 1 }, &joined()).is_empty());
}

#[test]
fn notices_wait_for_the_ps5_channel() {
    let mut s = System::new(config(LiveMode::Auto, ""), "192.168.1.2".to_string());
    assert!(s.handle(Event::DanmakuReady, &not_joined()).is_empty());
    assert!(s.handle(Event::BilibiliStreamConfirmed { room_id: 42 }, &not_joined()).is_empty());
    assert_eq!(hosts(&mut s), vec!["clear(error)".to_string()]);
    assert_eq!(
        shows(&s.handle(Event::BilibiliLiveStopped, &joined())),
        vec!["Notify(弹幕已连接)".to_string(), "Notify(开播成功)".to_string()]
    );
    assert!(s.handle(Event::BilibiliLiveStopped, &joined()).is_empty());
}

#[test]
fn title_update_and_stop_failure_are_reported() {
    let mut s = System::new(config(LiveMode::Auto, ""), "192.168.1.2".to_string());
    assert_eq!(
        shows(&s.handle(Event::TitleUpdated("New".to_string()), &not_joined())),
        vec!["Notify(直播间标题已更新为：New)".to_string()]
    );
    assert_eq!(
        shows(&s.handle(Event::BilibiliLiveStopFailed { code: -400, message: "bad".to_string() }, &not_joined())),
        vec!["Log(StopLive failed (-400): bad)".to_string()]
    );
}

#[test]
fn shutdown_while_idle_stops_workers_only() {
    let mut s = System::new(config(LiveMode::Auto, ""), "192.168.1.2".to_string());
    assert_eq!(
        shows(&s.handle(Event::Shutdown, &joined())),
        vec!["StopFfmpeg".to_string(), "StopDanmaku".to_string(), "StopFaceWatch".to_string()]
    );
}

#[test]
fn shutdown_while_live_stops_the_broadcast_and_drops_notices() {
    let mut s = System::new(config(LiveMode::Auto, "t"), "192.168.1.2".to_string());
    publish(&mut s, &not_joined());
    started(&mut s, &not_joined());
    s.handle(Event::DanmakuReady, &not_joined());
    assert_eq!(
        shows(&s.handle(Event::Shutdown, &joined())),
        vec![
            "StopFfmpeg".to_string(),
            "StopDanmaku".to_string(),
            "StopFaceWatch".to_string(),
            "StopLive(42,Livehime)".to_string(),
        ]
    );
}
