use pslinkb::actors::blive::LiveMode;
use pslinkb::cli::Args;
use pslinkb::common::error::{
    bili_common_error, http_error, io_error, source_error, start_live_error, AppError, ErrorSource, FfmpegErrorKind,
    FfmpegExitStatus, IoKind,
};
use pslinkb::common::twitch::{live_title_from_body, parse_broadcaster_id, title_from_field, title_request_body};
use pslinkb::config::{
    default_area_v2, default_room_id, default_true, parse_cookie_entries, rtmp_url, Config, CookieEntry, IRC_PORT,
    RTMP_PORT,
};
use pslinkb::dispatch::{dispatch, BilibiliCmd, DanmakuCmd, FfmpegCmd, Route};
use pslinkb::common::effect::Effect;
use pslinkb::luci::{clear, has_command, init, reset, LuciOp};
use pslinkb::run::{loop_step, reload_action, same_cookies, LoopAction, LoopInput, ReloadAction};
use pslinkb::common::event::Event;

fn entry(n: &str, v: &str) -> CookieEntry {
    CookieEntry { name: n.to_string(), value: v.to_string() }
}

fn pairs(es: &[CookieEntry]) -> Vec<(String, String)> {
    es.iter().map(|e| (e.name.clone(), e.value.clone())).collect()
}

// ── Configuration ──

#[test]
fn defaults() {
    let c = Config::default();
    assert_eq!(c.live.room_id, 0);
    assert_eq!(c.live.title, "");
    assert_eq!(c.live.area_v2, "237");
    assert_eq!(c.live.live_mode, LiveMode::Auto);
    assert!(c.auth.cookies.is_empty());
    assert!(c.dns_proxy && c.dns_redirect);
    assert!(default_true());
    assert_eq!(default_room_id(), 0);
    assert_eq!(default_area_v2(), "237");
    assert_eq!((RTMP_PORT, IRC_PORT), (1935, 6667));
}

#[test]
fn local_stream_url() {
    assert_eq!(rtmp_url("192.168.1.2", "app", "live_1"), "rtmp://192.168.1.2:1935/app/live_1");
}

#[test]
fn command_line_overrides() {
    let mut c = Config::default();
    c.apply_cli_overrides(Some(99), None, Some("236".to_string()), Some(LiveMode::Manual));
    assert_eq!((c.live.room_id, c.live.title.as_str(), c.live.area_v2.as_str(), c.live.live_mode), (99, "", "236", LiveMode::Manual));
    let args = Args {
        config: None,
        cookie: None,
        room_id: None,
        title: Some("Hi".to_string()),
        area: None,
        mode: Some("AUTO".to_string()),
    };
    args.apply_to(&mut c);
    assert_eq!((c.live.room_id, c.live.title.as_str(), c.live.area_v2.as_str(), c.live.live_mode), (99, "Hi", "236", LiveMode::Auto));
    let bad = Args { config: None, cookie: None, room_id: Some(1), title: None, area: None, mode: Some("fast".to_string()) };
    bad.apply_to(&mut c);
    assert_eq!((c.live.room_id, c.live.live_mode), (1, LiveMode::Auto));
    c.save_room_id(12345);
    assert_eq!(c.live.room_id, 12345);
}

#[test]
fn cookie_entries_from_the_command_line() {
    let es = parse_cookie_entries(" SESSDATA = a ; bili_jct=b;noeq; =v; DedeUserID=1=2;");
    assert_eq!(
        pairs(&es),
        vec![
            ("SESSDATA".to_string(), "a".to_string()),
            ("bili_jct".to_string(), "b".to_string()),
            ("DedeUserID".to_string(), "1=2".to_string()),
        ]
    );
    assert!(parse_cookie_entries("").is_empty());
}

#[test]
fn cookie_string_from_the_configuration() {
    let mut c = Config::default();
    match c.load_cookie_string() {
        Err(AppError::General(m)) => assert_eq!(m, "No cookies found in config file"),
        _ => panic!("no cookies"),
    }
    c.auth.cookies = vec![entry("SESSDATA", "a"), entry("bili_jct", "b")];
    match c.load_cookie_string() {
        Ok(s) => assert_eq!(s, "SESSDATA=a; bili_jct=b"),
        Err(_) => panic!("cookies"),
    }
}

#[test]
fn uci_cookie_replaces_the_configured_ones() {
    let mut c = Config::default();
    c.auth.cookies = vec![entry("old", "1")];
    c.apply_uci_cookie("  \n");
    assert_eq!(pairs(&c.auth.cookies), vec![("old".to_string(), "1".to_string())]);
    c.apply_uci_cookie("SESSDATA=a; bili_jct=b=c; junk\n");
    assert_eq!(
        pairs(&c.auth.cookies),
        vec![("SESSDATA".to_string(), "a".to_string()), ("bili_jct".to_string(), "b=c".to_string())]
    );
}

#[test]
fn uci_file_is_read_over_the_defaults() {
    let text = "config live 'main'\n\toption room_id '12345'\n\toption title \"My Live\"\n\toption area_v2 '236'\n\toption live_mode 'manual'\n\nconfig auth\n\toption cookie 'SESSDATA=x'\n\nconfig config\n\toption dns_redirect '0'\n";
    let c = Config::from_uci_text(text);
    assert_eq!(c.live.room_id, 12345);
    assert_eq!(c.live.title, "My Live");
    assert_eq!(c.live.area_v2, "236");
    assert_eq!(c.live.live_mode, LiveMode::Manual);
    assert!(!c.dns_redirect);
    assert!(c.dns_proxy);
    assert!(c.auth.cookies.is_empty());
}

#[test]
fn uci_file_ignores_bad_values_and_options_outside_sections() {
    let text = "option room_id '1'\nconfig live\n option room_id 'abc'\n option live_mode 'fast'\nconfig other\n option title 'x'\n";
    let c = Config::from_uci_text(text);
    assert_eq!(c.live.room_id, 0);
    assert_eq!(c.live.live_mode, LiveMode::Auto);
    assert_eq!(c.live.title, "");
    assert!(c.dns_redirect);
}

// ── Reloads and the main loop ──

#[test]
fn reload_decisions() {
    let base = Config::default();
    let mut same = Config::default();
    assert!(matches!(reload_action(&base, &same), ReloadAction::Keep));
    same.live.title = "New".to_string();
    match reload_action(&base, &same) {
        ReloadAction::Update(BilibiliCmd::UpdateRoom { room_id, title, area }) => {
            assert_eq!((room_id, title, area), (0, Some("New".to_string()), Some("237".to_string())));
        }
        _ => panic!("update"),
    }
    let mut area = Config::default();
    area.live.area_v2 = "236".to_string();
    match reload_action(&base, &area) {
        ReloadAction::Update(BilibiliCmd::UpdateRoom { title, .. }) => assert_eq!(title, None),
        _ => panic!("update"),
    }
    let mut room = Config::default();
    room.live.room_id = 5;
    room.live.title = "t".to_string();
    assert!(matches!(reload_action(&base, &room), ReloadAction::Restart));
    let mut cookies = Config::default();
    cookies.auth.cookies = vec![entry("a", "b")];
    assert!(matches!(reload_action(&base, &cookies), ReloadAction::Restart));
    let mut mode = Config::default();
    mode.live.live_mode = LiveMode::Manual;
    assert!(matches!(reload_action(&base, &mode), ReloadAction::Restart));
    assert!(same_cookies(&vec![entry("a", "b")], &vec![entry("a", "b")]));
    assert!(!same_cookies(&vec![entry("a", "b")], &vec![entry("a", "c")]));
    assert!(!same_cookies(&vec![entry("a", "b")], &Vec::new()));
}

#[test]
fn main_loop_decisions() {
    assert!(matches!(loop_step(LoopInput::Reload), LoopAction::ToggleRedirect));
    assert!(matches!(loop_step(LoopInput::Next(Some(Event::DanmakuReady))), LoopAction::Dispatch(Event::DanmakuReady)));
    assert!(matches!(loop_step(LoopInput::Next(None)), LoopAction::Exit));
    assert!(matches!(loop_step(LoopInput::Interrupt), LoopAction::Shutdown));
    assert!(matches!(loop_step(LoopInput::Terminate), LoopAction::Shutdown));
}

#[test]
fn effects_are_routed_to_their_workers() {
    assert!(matches!(dispatch(Effect::StopFfmpeg), Route::Ffmpeg(FfmpegCmd::Stop)));
    assert!(matches!(dispatch(Effect::StartDanmaku { room_id: 3 }), Route::Danmaku(DanmakuCmd::Start { room_id: 3 })));
    assert!(matches!(dispatch(Effect::StopFaceWatch), Route::Bilibili(BilibiliCmd::StopFaceWatch)));
    assert!(matches!(dispatch(Effect::NotifyPs5("x".to_string())), Route::Notify(ref m) if m == "x"));
    assert!(matches!(dispatch(Effect::Log("l".to_string())), Route::Log(ref m) if m == "l"));
    assert!(matches!(dispatch(Effect::Restart), Route::Restart));
    assert!(matches!(
        dispatch(Effect::SyncTwitchTitle { room_id: 1, broadcaster_id: "9".to_string() }),
        Route::Bilibili(BilibiliCmd::SyncTwitchTitle { room_id: 1, ref broadcaster_id }) if broadcaster_id == "9"
    ));
}

// ── Status files ──

fn show(op: &LuciOp) -> String {
    match op {
        LuciOp::Write { key, value } => format!("set({key},{value})"),
        LuciOp::Clear { key } => format!("clear({key})"),
    }
}

#[test]
fn status_file_requests() {
    assert_eq!(show(&pslinkb::luci::set("qr_url", "https://x")), "set(qr_url,https://x)");
    assert_eq!(show(&clear("error")), "clear(error)");
    let expected: Vec<String> = ["user", "rtmp", "stream", "qr_url", "error"].iter().map(|k| format!("clear({k})")).collect();
    assert_eq!(reset().iter().map(show).collect::<Vec<_>>(), expected);
    assert_eq!(init().iter().map(show).collect::<Vec<_>>(), expected);
    let (present, op) = has_command("qr_scan", Some("1"));
    assert!(present);
    assert_eq!(op.as_ref().map(show), Some("clear(qr_scan)".to_string()));
    let (present, op) = has_command("qr_scan", Some("1\n"));
    assert!(!present && op.is_none());
    let (present, op) = has_command("qr_scan", Some("0"));
    assert!(!present && op.is_none());
    let (present, op) = has_command("qr_scan", None);
    assert!(!present && op.is_none());
}

// ── Errors ──

#[test]
fn error_texts() {
    assert_eq!(AppError::bili_api("StartLive", 4, "没有权限".to_string()).describe(), "BiliAPI (StartLive, code=4): 没有权限");
    assert_eq!(AppError::bili_api("StopLive", -101, "x".to_string()).describe(), "BiliAPI (StopLive, code=-101): x");
    assert_eq!(AppError::crash("Worker", "boom".to_string()).describe(), "Worker crashed - boom");
    assert_eq!(AppError::General("plain".to_string()).describe(), "plain");
    assert_eq!(bili_common_error(-101), Some("未登录"));
    assert_eq!(bili_common_error(65530), Some("登录已失效"));
    assert_eq!(bili_common_error(1), None);
    assert_eq!(start_live_error(60034, "raw"), "系统维护仅支持直播姬开播");
    assert_eq!(start_live_error(-400, "raw"), "请求参数错误");
    assert_eq!(start_live_error(77, "raw"), "raw");
    let m = FfmpegExitStatus::Error(FfmpegErrorKind::Crash("sig".to_string())).message();
    assert_eq!(m, "Crash: sig");
    assert_eq!(FfmpegExitStatus::Error(FfmpegErrorKind::IoError("eof".to_string())).message(), "I/O: eof");
}

#[test]
fn converted_error_texts() {
    let text = |e: AppError| e.describe();
    assert_eq!(text(io_error(IoKind::NotFound, "x")), "file not found: x");
    assert_eq!(text(io_error(IoKind::ConnectionReset, "x")), "connection failed: x");
    assert_eq!(text(io_error(IoKind::Other, "x")), "IO error: x");
    assert_eq!(text(http_error(true, true, "x")), "HTTP timeout: x");
    assert_eq!(text(http_error(false, true, "x")), "HTTP connect failed: x");
    assert_eq!(text(http_error(false, false, "x")), "HTTP error: x");
    assert_eq!(text(source_error(ErrorSource::Json, "x")), "JSON parse error: x");
    assert_eq!(text(source_error(ErrorSource::Rtmp, "x")), "rtmp: x");
}

// ── Twitch ──

#[test]
fn broadcaster_id_from_the_stream_key() {
    assert_eq!(parse_broadcaster_id("live_123456_abcdef"), Some("123456".to_string()));
    assert_eq!(parse_broadcaster_id("live_42"), Some("42".to_string()));
    assert_eq!(parse_broadcaster_id("live__x"), None);
    assert_eq!(parse_broadcaster_id("live_12a_x"), None);
    assert_eq!(parse_broadcaster_id("stream_1_x"), None);
}

#[test]
fn title_from_the_gql_answer() {
    let body = "{\"data\":{\"user\":{\"lastBroadcast\":{\"title\":\"Elden Ring\"}}}}";
    assert_eq!(live_title_from_body(body), Some("Elden Ring".to_string()));
    assert_eq!(live_title_from_body("{\"data\":{\"user\":{\"lastBroadcast\":{\"title\":\"\"}}}}"), None);
    assert_eq!(live_title_from_body("{\"data\":{\"user\":null}}"), None);
    assert_eq!(live_title_from_body("not json"), None);
    assert_eq!(title_from_field(Some("t".to_string())), Some("t".to_string()));
    assert_eq!(title_from_field(Some(String::new())), None);
}

#[test]
fn title_request_body_is_the_gql_query() {
    let b = title_request_body("123");
    let v: serde_json::Value = serde_json::from_str(&b).expect("json");
    assert_eq!(v["variables"]["id"].as_str(), Some("123"));
    assert_eq!(v["query"].as_str(), Some("query($id:ID!){ user(id:$id){ lastBroadcast { title } } }"));
}
