use pslinkb::actors::blive::{
    auth_warning, classify_start, extract_bili_jct, face_auth_qrcode, get_uid, needs_fallback, outcome_event,
    parse_api_error, parse_cookies, stop_event, LiveClient, LiveMode, StartLiveResult, StartOutcome,
};
use pslinkb::actors::ffmpeg::{
    classify_exit, codec_name, remap, stream_desc, stream_end_event, stream_map, AVMediaType,
};
use pslinkb::actors::irc::{
    chat_line, format_danmaku, format_message, irc_reply, log_line, notify_line, IrcAction, IrcClientAction, IrcClientEvent,
    IrcClientState, LiveMessage,
};
use pslinkb::actors::rtmp::{stream_event_to_event, RtmpTracker, StreamEventType};
use pslinkb::actors::workers::{
    face_tick_event, DanmakuWorker, DanmakuWorkerAction, FaceStatus, FaceTick, FaceWatch, FfmpegWorker,
    FfmpegWorkerAction, MonitorNext, StreamInfo, StreamMonitor,
};
use pslinkb::actors::ffmpeg::FfmpegCommand;
use pslinkb::common::channel::DanmuMessage;
use pslinkb::common::error::{AppError, FfmpegErrorKind, FfmpegExitStatus};
use pslinkb::common::event::Event;
use pslinkb::dispatch::{DanmakuCmd, FfmpegCmd};
use pslinkb::luci::LuciOp;

// ── Cookies ──

#[test]
fn cookies_need_session_and_csrf() {
    let c = "SESSDATA=abc; bili_jct=xyz; DedeUserID=123";
    match parse_cookies(c) {
        Ok((s, j)) => {
            assert_eq!(s, "abc");
            assert_eq!(j, "xyz");
        }
        Err(_) => panic!("complete cookie"),
    }
    match parse_cookies("SESSDATA=abc") {
        Err(AppError::General(m)) => assert_eq!(m, "Missing SESSDATA or bili_jct"),
        _ => panic!("missing csrf"),
    }
    match parse_cookies("SESSDATA=; bili_jct=x") {
        Err(AppError::General(m)) => assert_eq!(m, "Missing SESSDATA or bili_jct"),
        _ => panic!("empty session"),
    }
    // The last pair of a name counts; pairs are trimmed.
    match parse_cookies(" SESSDATA = one ;SESSDATA=two; bili_jct= j ") {
        Ok((s, j)) => {
            assert_eq!(s, "two");
            assert_eq!(j, "j");
        }
        Err(_) => panic!("complete cookie"),
    }
}

#[test]
fn cookie_values_by_name() {
    let c = "SESSDATA=abc; bili_jct=xyz; DedeUserID=123; bili_jct=later";
    assert_eq!(get_uid(c), Some("123".to_string()));
    assert_eq!(extract_bili_jct(c), Some("xyz".to_string()));
    assert_eq!(get_uid("SESSDATA=abc"), None);
    assert_eq!(extract_bili_jct("bili_jct"), None);
    assert_eq!(extract_bili_jct("bili_jct=a=b"), Some("a=b".to_string()));
}

#[test]
fn api_error_text_never_yields_a_code() {
    assert_eq!(parse_api_error("BiliAPI (StartLive, code=60009): 分区不存在"), (-1, "BiliAPI (StartLive, code=60009): 分区不存在".to_string()));
    assert_eq!(parse_api_error("network down"), (-1, "network down".to_string()));
}

// ── Live mode ──

#[test]
fn live_mode_names() {
    assert_eq!(LiveMode::from_str("auto"), Ok(LiveMode::Auto));
    assert_eq!(LiveMode::from_str("MANUAL"), Ok(LiveMode::Manual));
    assert_eq!(LiveMode::from_str("Auto"), Ok(LiveMode::Auto));
    assert_eq!(LiveMode::from_str("other"), Err("Invalid live_mode: 'other'".to_string()));
    assert_eq!(LiveMode::default(), LiveMode::Auto);
}

// ── Starting a broadcast ──

fn failed(code: i32) -> Result<StartLiveResult, String> {
    Ok(StartLiveResult::Failed { code, message: "m".to_string(), face_auth_url: Some("u".to_string()) })
}

#[test]
fn fallback_after_every_answer_but_success_or_face() {
    assert!(!needs_fallback(&Ok(StartLiveResult::Success { rtmp_url: "r".to_string(), stream_key: "k".to_string() })));
    assert!(!needs_fallback(&failed(60024)));
    assert!(!needs_fallback(&failed(60043)));
    assert!(needs_fallback(&failed(60009)));
    assert!(needs_fallback(&Err("timeout".to_string())));
}

#[test]
fn start_answers_are_classified() {
    match classify_start(Ok(StartLiveResult::Success { rtmp_url: "r".to_string(), stream_key: "k".to_string() }), LiveClient::Livehime) {
        StartOutcome::Started { rtmp_url, stream_key, client } => {
            assert_eq!((rtmp_url.as_str(), stream_key.as_str(), client), ("r", "k", LiveClient::Livehime));
        }
        _ => panic!("started"),
    }
    match classify_start(failed(60043), LiveClient::Electron) {
        StartOutcome::AuthRequired { face_auth_url } => assert_eq!(face_auth_url, Some("u".to_string())),
        _ => panic!("auth"),
    }
    match classify_start(failed(4), LiveClient::Electron) {
        StartOutcome::Failed { code, message } => assert_eq!((code, message.as_str()), (4, "m")),
        _ => panic!("failed"),
    }
    match classify_start(Err("BiliAPI (StartLive, code=1): x".to_string()), LiveClient::Electron) {
        StartOutcome::Failed { code, message } => assert_eq!((code, message.as_str()), (-1, "BiliAPI (StartLive, code=1): x")),
        _ => panic!("error"),
    }
}

#[test]
fn outcomes_become_events() {
    let e = outcome_event(StartOutcome::Failed { code: 7, message: "x".to_string() });
    assert!(matches!(e, Event::BilibiliLiveStartFailed { code: 7, ref message } if message == "x"));
    let e = outcome_event(StartOutcome::AuthRequired { face_auth_url: None });
    assert!(matches!(e, Event::BilibiliAuthRequired { face_auth_url: None }));
    let e = outcome_event(StartOutcome::Started { rtmp_url: "r".to_string(), stream_key: "k".to_string(), client: LiveClient::Electron });
    assert!(matches!(e, Event::BilibiliLiveStarted { client: LiveClient::Electron, .. }));
    assert!(matches!(stop_event(Ok(())), Event::BilibiliLiveStopped));
    assert!(matches!(stop_event(Err((-1, "x".to_string()))), Event::BilibiliLiveStopFailed { code: -1, .. }));
}

#[test]
fn face_verification_messages() {
    assert_eq!(auth_warning(60024), "Bili:Live: BiliAPI (StartLive, code=60024): 目标分区需要人脸认证");
    assert_eq!(auth_warning(60043), "Bili:Live: BiliAPI (StartLive, code=60043): 本次开播需要身份验证");
    match face_auth_qrcode("https://example.com/face") {
        Ok(s) => {
            assert!(s.starts_with("\n人脸验证二维码:\n"));
            assert!(s.len() > "\n人脸验证二维码:\n".len());
        }
        Err(e) => panic!("a short link fits in a QR code: {e}"),
    }
    let too_long = "x".repeat(8000);
    match face_auth_qrcode(&too_long) {
        Err(w) => assert!(w.starts_with("Bili:Live: 二维码生成失败: ")),
        Ok(_) => panic!("too long for a QR code"),
    }
}

// ── IRC ──

#[test]
fn chat_lines_in_twitch_form() {
    assert_eq!(chat_line("u", "#c", "hi"), ":u!u@u.tmi.twitch.tv PRIVMSG #c :hi\r\n");
    assert_eq!(notify_line("#c", "开播成功"), ":PSLinkB!PSLinkB@PSLinkB.tmi.twitch.tv PRIVMSG #c :开播成功\r\n");
}

#[test]
fn room_messages_as_chat_lines() {
    let gift = LiveMessage::Gift { username: "a".to_string(), action: "投喂".to_string(), gift_name: "辣条".to_string(), num: 3 };
    assert_eq!(format_danmaku(&gift, "#c"), Some(":a!a@a.tmi.twitch.tv PRIVMSG #c :投喂了 辣条 x3\r\n".to_string()));
    let sc = LiveMessage::SuperChat { username: "b".to_string(), price: "30".to_string(), content: "hello".to_string() };
    assert_eq!(format_danmaku(&sc, "#c"), Some(":b!b@b.tmi.twitch.tv PRIVMSG #c :[SC ¥30] hello\r\n".to_string()));
    let entry = LiveMessage::EntryEffect { copy_writing: "欢迎舰长".to_string() };
    assert_eq!(format_danmaku(&entry, "#c"), Some(":entry!entry@entry.tmi.twitch.tv PRIVMSG #c :欢迎舰长\r\n".to_string()));
    let like = LiveMessage::LikeInfoV3Click { username: "l".to_string(), click_count: 12 };
    assert_eq!(format_danmaku(&like, "#c"), Some(":l!l@l.tmi.twitch.tv PRIVMSG #c :点了 12 个赞\r\n".to_string()));
    assert_eq!(format_danmaku(&LiveMessage::Other, "#c"), None);
    let d = DanmuMessage::Danmaku(LiveMessage::Danmu { username: "x".to_string(), content: "yo".to_string() });
    assert_eq!(format_message(&d, "#c"), Some(":x!x@x.tmi.twitch.tv PRIVMSG #c :yo\r\n".to_string()));
    let n = DanmuMessage::Notify("弹幕已连接".to_string());
    assert_eq!(format_message(&n, "#c"), Some(":PSLinkB!PSLinkB@PSLinkB.tmi.twitch.tv PRIVMSG #c :弹幕已连接\r\n".to_string()));
}

#[test]
fn room_messages_as_log_lines() {
    let gift = LiveMessage::Gift { username: "a".to_string(), action: "投喂".to_string(), gift_name: "辣条".to_string(), num: 3 };
    assert_eq!(log_line(&gift), Some("[礼物] a 投喂了 辣条 x3".to_string()));
    let guard = LiveMessage::GuardBuy { username: "g".to_string(), num: 1 };
    assert_eq!(log_line(&guard), Some("[舰长] g 购买了 1 个".to_string()));
    assert_eq!(log_line(&LiveMessage::Danmu { username: "u".to_string(), content: "c".to_string() }), Some("u: c".to_string()));
    assert_eq!(log_line(&LiveMessage::Other), None);
}

fn sent(a: IrcAction) -> Vec<String> {
    match a {
        IrcAction::Send(v) => v,
        _ => panic!("expected lines to send"),
    }
}

#[test]
fn irc_service_answers() {
    assert!(matches!(irc_reply("  \r\n"), IrcAction::Ignore));
    assert_eq!(sent(irc_reply("PASS oauth:x\r\n")), vec![":tmi.twitch.tv 001 urlynn :Welcome, GLHF!\r\n".to_string()]);
    assert_eq!(sent(irc_reply("PING :tmi.twitch.tv\r\n")), vec!["PONG :tmi.twitch.tv\r\n".to_string()]);
    assert_eq!(sent(irc_reply("CAP REQ :x")), vec!["CAP REQ :x\r\n".to_string()]);
    match irc_reply("JOIN #ps5user\r\n") {
        IrcAction::Join { channel, replies } => {
            assert_eq!(channel, "#ps5user");
            assert_eq!(
                replies,
                vec![
                    ":urlynn!urlynn@urlynn.tmi.twitch.tv JOIN #ps5user\r\n".to_string(),
                    ":tmi.twitch.tv 332 urlynn #ps5user :PSLinkB Live Streaming\r\n".to_string(),
                    ":PSLinkB PRIVMSG #ps5user :已加入频道#ps5user\r\n".to_string(),
                ]
            );
        }
        _ => panic!("join"),
    }
    match irc_reply("JOIN   #a  extra") {
        IrcAction::Join { channel, .. } => assert_eq!(channel, "#a"),
        _ => panic!("join with spaces"),
    }
}

// ── RTMP ──

#[test]
fn rtmp_stream_lifecycle() {
    let mut t = RtmpTracker::new();
    let e = t.handle_stream_event("app".to_string(), "key".to_string(), StreamEventType::Started);
    assert_eq!((e.app.as_str(), e.stream_key.as_str(), e.event_type), ("app", "key", StreamEventType::Started));
    assert!(matches!(stream_event_to_event(e), Event::RtmpPublish { ref app, ref stream_key } if app == "app" && stream_key == "key"));
    let e = t.on_unpublish(&"key".to_string());
    assert_eq!((e.app.as_str(), e.stream_key.as_str(), e.event_type), ("", "", StreamEventType::Stopped));
    assert!(matches!(stream_event_to_event(e), Event::RtmpUnpublish));
    // The connection closing afterwards reports nothing more.
    assert!(t.on_disconnect("PlayStation5/1.0").is_none());
}

#[test]
fn rtmp_abnormal_ps5_disconnect_reports_a_stop() {
    let mut t = RtmpTracker::new();
    t.handle_stream_event("app".to_string(), "key".to_string(), StreamEventType::Started);
    assert!(t.on_disconnect("FMLE/3.0").is_none());
    let e = t.on_disconnect("PlayStation5 1.0").expect("a stop");
    assert_eq!(e.event_type, StreamEventType::Stopped);
    assert!(t.on_disconnect("PlayStation5 1.0").is_none());
}

// ── Relay ──

#[test]
fn codec_names() {
    assert_eq!(codec_name(27), "AVC");
    assert_eq!(codec_name(28), "HEVC");
    assert_eq!(codec_name(86018), "AAC");
    assert_eq!(codec_name(1), "?");
}

#[test]
fn streams_are_renumbered() {
    let types = vec![Some(AVMediaType::AVMEDIA_TYPE_VIDEO), None, Some(AVMediaType::AVMEDIA_TYPE_AUDIO)];
    let m = stream_map(&types);
    assert_eq!(m, vec![0, -1, 1]);
    assert_eq!(remap(&m, 0), Some(0));
    assert_eq!(remap(&m, 1), None);
    assert_eq!(remap(&m, 2), Some(1));
    assert_eq!(remap(&m, 3), None);
    assert_eq!(stream_desc(0, Some(AVMediaType::AVMEDIA_TYPE_VIDEO), 27), "#0 Video: AVC");
    assert_eq!(stream_desc(1, Some(AVMediaType::AVMEDIA_TYPE_AUDIO), 86018), "#1 Audio: AAC");
    assert_eq!(stream_desc(2, None, 5), "#2 ?:  ?");
}

#[test]
fn relay_exit_classification() {
    assert!(matches!(classify_exit(true, Some(0), "exit status: 0", ""), FfmpegExitStatus::Normal));
    match classify_exit(false, None, "signal: 9", " killed \n") {
        FfmpegExitStatus::Error(FfmpegErrorKind::Crash(m)) => assert_eq!(m, "signal kill: killed"),
        _ => panic!("crash"),
    }
    match classify_exit(false, Some(1), "exit status: 1", "Connection refused\n") {
        FfmpegExitStatus::Error(FfmpegErrorKind::IoError(m)) => assert_eq!(m, "exited with exit status: 1: Connection refused"),
        _ => panic!("io"),
    }
    assert!(stream_end_event(FfmpegExitStatus::Normal).is_none());
    let e = stream_end_event(FfmpegExitStatus::Error(FfmpegErrorKind::IoError("x".to_string())));
    assert!(matches!(e, Some(Event::FfmpegError(_))));
}

// ── Workers ──

#[test]
fn relay_worker_starts_and_stops() {
    let mut w = FfmpegWorker::new();
    assert!(matches!(w.handle(FfmpegCmd::Stop), FfmpegWorkerAction::Nothing));
    let a = w.handle(FfmpegCmd::Start {
        ps5_app: "a".to_string(),
        ps5_stream_key: "k".to_string(),
        bilibili_rtmp_url: "u".to_string(),
        bilibili_stream_key: "b".to_string(),
    });
    assert!(matches!(a, FfmpegWorkerAction::Spawn(FfmpegCommand::Start { ref ps5_app, .. }) if ps5_app == "a"));
    assert!(w.active);
    assert!(matches!(w.handle(FfmpegCmd::Stop), FfmpegWorkerAction::Stop));
    assert!(!w.active);
}

#[test]
fn danmaku_worker_ignores_a_second_start() {
    let mut w = DanmakuWorker::new();
    assert!(matches!(w.handle(DanmakuCmd::Start { room_id: 5 }), DanmakuWorkerAction::Spawn { room_id: 5 }));
    assert!(matches!(w.handle(DanmakuCmd::Start { room_id: 6 }), DanmakuWorkerAction::Nothing));
    assert!(matches!(w.handle(DanmakuCmd::Stop), DanmakuWorkerAction::Abort));
    assert!(matches!(w.handle(DanmakuCmd::Stop), DanmakuWorkerAction::Nothing));
}

#[test]
fn face_watcher_steps() {
    let mut w = FaceWatch::new();
    assert_eq!(w.tick(false, false), FaceTick::Probe);
    assert_eq!(w.tick(true, true), FaceTick::Stop);
    assert_eq!(w.tick(false, true), FaceTick::Timeout);
    assert_eq!(w.on_status(FaceStatus::NotYet), (false, None));
    assert_eq!(w.tick(false, false), FaceTick::Probe);
    assert_eq!(w.on_status(FaceStatus::Verified), (true, None));
    assert_eq!(w.tick(false, false), FaceTick::Retry);
    let mut w2 = FaceWatch::new();
    assert_eq!(w2.on_status(FaceStatus::Abnormal("{code:1}".to_string())), (false, Some("Bili:Live: 人脸状态检测异常 - {code:1}".to_string())));
    assert!(w2.fallback);
    assert!(matches!(face_tick_event(FaceTick::Retry), Some(Event::TryStartLive)));
    assert!(matches!(face_tick_event(FaceTick::Timeout), Some(Event::FaceTimeout)));
    assert!(face_tick_event(FaceTick::Probe).is_none());
    assert!(face_tick_event(FaceTick::Stop).is_none());
}

fn stream_value(op: &Option<LuciOp>) -> Option<String> {
    match op {
        Some(LuciOp::Write { key, value }) if key == "stream" => Some(value.clone()),
        _ => None,
    }
}

#[test]
fn stream_monitor_confirms_on_the_third_poll() {
    let (mut m, op) = StreamMonitor::new(42);
    assert_eq!(stream_value(&Some(op)), Some("fake".to_string()));
    assert_eq!(m.on_poll(StreamInfo::Unknown).next, MonitorNext::Poll);
    assert_eq!(m.on_poll(StreamInfo::Unknown).next, MonitorNext::Poll);
    let s = m.on_poll(StreamInfo::Live);
    assert_eq!(s.next, MonitorNext::Done);
    assert_eq!(stream_value(&s.luci), Some("live".to_string()));
    assert_eq!(s.log, Some("[Bili:Live] Live stream confirmed - GetStreamInfo, 3 - ✓ 直播视频流验证成功".to_string()));
    assert!(matches!(s.event, Some(Event::BilibiliStreamConfirmed { room_id: 42 })));
}

#[test]
fn stream_monitor_falls_back_to_the_probe() {
    let (mut m, _) = StreamMonitor::new(7);
    for _ in 0..7 {
        assert_eq!(m.on_poll(StreamInfo::Unknown).next, MonitorNext::Poll);
    }
    assert_eq!(m.on_poll(StreamInfo::Unknown).next, MonitorNext::FinalCheck);
    let f = m.on_final_check(StreamInfo::Unknown);
    assert_eq!(f.next, MonitorNext::Probe);
    assert_eq!(stream_value(&f.luci), Some("probing".to_string()));
    let p = m.on_probe(false);
    assert_eq!(stream_value(&p.luci), Some("timeout".to_string()));
    assert!(matches!(p.event, Some(Event::BilibiliStreamTimeout { room_id: 7 })));
    let p = m.on_probe(true);
    assert_eq!(p.log, Some("[Bili:Live] Live stream confirmed - PlayUrl - ✓ 直播视频流验证成功".to_string()));
    let o = m.on_final_check(StreamInfo::Offline);
    assert_eq!((o.next, stream_value(&o.luci)), (MonitorNext::Done, Some("offline".to_string())));
}

#[test]
fn csrf_token_agrees_with_a_single_pair() {
    let c = "DedeUserID=9; bili_jct=tok; SESSDATA=s";
    let from_parse = match parse_cookies(c) {
        Ok((_, j)) => j,
        Err(_) => panic!("complete cookie"),
    };
    assert_eq!(Some(from_parse), extract_bili_jct(c));
}

#[test]
fn live_calls_need_a_complete_cookie() {
    use_plans();
}

fn use_plans() {
    match pslinkb::actors::blive::stop_live_plan("SESSDATA=s", 5, LiveClient::Livehime) {
        Err((code, m)) => assert_eq!((code, m.as_str()), (-1, "Missing SESSDATA or bili_jct")),
        Ok(_) => panic!("no call without bili_jct"),
    }
    match pslinkb::actors::blive::stop_live_plan("SESSDATA=s; bili_jct=j", 5, LiveClient::Livehime) {
        Ok(call) => assert_eq!((call.csrf.as_str(), call.room_id, call.client), ("j", 5, LiveClient::Livehime)),
        Err(_) => panic!("complete cookie"),
    }
    match pslinkb::actors::blive::start_live_plan("bili_jct=j", 5, "237", None) {
        Err((code, m)) => assert_eq!((code, m.as_str()), (-1, "Missing SESSDATA or bili_jct")),
        Ok(_) => panic!("no call without SESSDATA"),
    }
    match pslinkb::actors::blive::start_live_plan("SESSDATA=s; bili_jct=j; DedeUserID=77", 5, "237", Some("T")) {
        Ok(call) => {
            assert_eq!((call.csrf.as_str(), call.room_id, call.area_v2.as_str()), ("j", 5, "237"));
            assert_eq!((call.uid, call.title), (Some("77".to_string()), Some("T".to_string())));
        }
        Err(_) => panic!("complete cookie"),
    }
    assert_eq!(pslinkb::actors::blive::stop_result(Ok(())), Ok(()));
    assert_eq!(pslinkb::actors::blive::stop_result(Err("BiliAPI (StopLive, code=3): x".to_string())), Err((-1, "BiliAPI (StopLive, code=3): x".to_string())));
}

#[test]
fn irc_client_steps() {
    use_irc_client();
}

fn use_irc_client() {
    let mut c = IrcClientState::Waiting;
    assert!(matches!(c.step(IrcClientEvent::Channel(String::new())), IrcClientAction::Wait));
    assert!(matches!(c.step(IrcClientEvent::Channel("#p".to_string())), IrcClientAction::Connect));
    assert!(matches!(c.step(IrcClientEvent::Connected(false)), IrcClientAction::Pause));
    assert!(matches!(c.step(IrcClientEvent::Channel("#p".to_string())), IrcClientAction::Connect));
    assert!(matches!(c.step(IrcClientEvent::Connected(true)), IrcClientAction::Listen));
    let d = DanmuMessage::Danmaku(LiveMessage::Danmu { username: "u".to_string(), content: "hi".to_string() });
    match c.step(IrcClientEvent::Message(Some(d))) {
        IrcClientAction::Write { line, log } => {
            assert_eq!(line, ":u!u@u.tmi.twitch.tv PRIVMSG #p :hi\r\n");
            assert_eq!(log, Some("[Danmaku] u: hi - ✓ 首条弹幕工作正常".to_string()));
        }
        _ => panic!("write"),
    }
    let d = DanmuMessage::Danmaku(LiveMessage::Danmu { username: "u".to_string(), content: "again".to_string() });
    assert!(matches!(c.step(IrcClientEvent::Message(Some(d))), IrcClientAction::Write { log: None, .. }));
    assert!(matches!(c.step(IrcClientEvent::Message(Some(DanmuMessage::Danmaku(LiveMessage::Other)))), IrcClientAction::Listen));
    assert!(matches!(c.step(IrcClientEvent::Changed("#p".to_string())), IrcClientAction::Listen));
    assert!(matches!(c.step(IrcClientEvent::Changed(String::new())), IrcClientAction::Disconnect));
    assert!(matches!(c.step(IrcClientEvent::StateClosed), IrcClientAction::Fail(AppError::General(ref m)) if m == "state channel closed"));
    let mut c = IrcClientState::Connected { channel: "#p".to_string(), first: false };
    assert!(matches!(c.step(IrcClientEvent::WriteFailed), IrcClientAction::Disconnect));
    let mut c = IrcClientState::Connected { channel: "#p".to_string(), first: false };
    assert!(matches!(c.step(IrcClientEvent::Message(None)), IrcClientAction::Finish));
}
