//! The state machine: event in, new state and effects out.
use vstd::prelude::*;
use crate::actors::blive::{LiveClient, LiveMode};
use crate::common::effect::{Effect, EffectV, effects_view, opt_view};
use crate::common::error::{FfmpegExitStatus, start_live_error, start_live_error_spec};
use crate::common::event::Event;
use crate::common::twitch::{broadcaster_id_spec, parse_broadcaster_id};
use crate::config::{Config, rtmp_url, rtmp_url_spec};
use crate::luci::{self, LuciOp, LuciOpV, reset_spec};
use crate::text::{dec_int, push_i64, push_str, string_of};

verus! {

/// Where the bridge stands.
pub enum State {
    /// Nothing is streaming.
    Idle,
    /// The PS5 streams; no broadcast (manual mode, or starting failed).
    Ps5Streaming,
    /// The PS5 streams; the start-live call is under way.
    LivePreparing { app: String, stream_key: String },
    /// The PS5 streams; waiting for the face verification.
    WaitingFaceAuth { app: String, stream_key: String },
    /// Live: relaying to Bilibili, danmaku connected.
    Live {
        app: String,
        ps5_key: String,
        bili_url: String,
        bili_key: String,
        retried: bool,
        client: LiveClient,
    },
}

/// A state with its strings as character sequences.
pub enum StateV {
    Idle,
    Ps5Streaming,
    LivePreparing { app: Seq<char>, stream_key: Seq<char> },
    WaitingFaceAuth { app: Seq<char>, stream_key: Seq<char> },
    Live {
        app: Seq<char>,
        ps5_key: Seq<char>,
        bili_url: Seq<char>,
        bili_key: Seq<char>,
        retried: bool,
        client: LiveClient,
    },
}

impl View for State {
    type V = StateV;

    open spec fn view(&self) -> StateV {
        match self {
            State::Idle => StateV::Idle,
            State::Ps5Streaming => StateV::Ps5Streaming,
            State::LivePreparing { app, stream_key } => StateV::LivePreparing {
                app: app@,
                stream_key: stream_key@,
            },
            State::WaitingFaceAuth { app, stream_key } => StateV::WaitingFaceAuth {
                app: app@,
                stream_key: stream_key@,
            },
            State::Live { app, ps5_key, bili_url, bili_key, retried, client } => StateV::Live {
                app: app@,
                ps5_key: ps5_key@,
                bili_url: bili_url@,
                bili_key: bili_key@,
                retried: *retried,
                client: *client,
            },
        }
    }
}

/// Work on the host that a transition asks for besides its effects.
pub enum HostOp {
    /// A change to the status files.
    Luci(LuciOp),
    /// A warning for the log.
    Warn(String),
}

/// A host operation with its strings as character sequences.
pub enum HostOpV {
    Luci(LuciOpV),
    Warn(Seq<char>),
}

impl View for HostOp {
    type V = HostOpV;

    open spec fn view(&self) -> HostOpV {
        match self {
            HostOp::Luci(op) => HostOpV::Luci(op@),
            HostOp::Warn(m) => HostOpV::Warn(m@),
        }
    }
}

/// The shared IRC state: the channel the PS5 joined, empty when none.
pub struct GlobalState {
    pub channel_name: String,
}

/// The state machine.
pub struct System {
    state: State,
    config: Config,
    local_ip: String,
    notify_queue: Vec<String>,
    host_ops: Vec<HostOp>,
}

/// The state machine as the contracts see it.
#[verifier::ext_equal]
pub struct SystemV {
    pub state: StateV,
    /// Notices waiting for the PS5's IRC channel.
    pub queue: Seq<Seq<char>>,
    /// Host operations not yet taken.
    pub host: Seq<HostOpV>,
    pub room_id: u64,
    pub title: Seq<char>,
    pub area_v2: Seq<char>,
    pub live_mode: LiveMode,
    pub local_ip: Seq<char>,
}

impl System {
    /// The abstract state.
    pub closed spec fn abs(&self) -> SystemV {
        SystemV {
            state: self.state@,
            queue: self.notify_queue@.map_values(|m: String| m@),
            host: self.host_ops@.map_values(|h: HostOp| h@),
            room_id: self.config.live.room_id,
            title: self.config.live.title@,
            area_v2: self.config.live.area_v2@,
            live_mode: self.config.live.live_mode,
            local_ip: self.local_ip@,
        }
    }
}

impl View for System {
    type V = SystemV;

    open spec fn view(&self) -> SystemV {
        self.abs()
    }
}

// ── The transition, stated ──

/// The `title` of a start-live call: none when the configured title is empty.
pub open spec fn title_param_spec(s: SystemV) -> Option<Seq<char>> {
    if s.title.len() == 0 {
        None
    } else {
        Some(s.title)
    }
}

/// The start-live call for the configured room.
pub open spec fn start_live_spec(s: SystemV) -> EffectV {
    EffectV::BilibiliStartLive { room_id: s.room_id, area_v2: s.area_v2, title: title_param_spec(s) }
}

/// The client that a stop-live call pairs with: the one a live state started
/// with, else Electron.
pub open spec fn stop_client_spec(st: StateV) -> LiveClient {
    match st {
        StateV::Live { client, .. } => client,
        _ => LiveClient::Electron,
    }
}

/// Whether a stop-live call is owed: a start was asked for or succeeded.
pub open spec fn was_live_spec(st: StateV) -> bool {
    st is LivePreparing || st is Live
}

/// Host operations as views of status-file changes.
pub open spec fn luci_ops(ops: Seq<LuciOpV>) -> Seq<HostOpV> {
    ops.map_values(|o: LuciOpV| HostOpV::Luci(o))
}

/// Back to idle: stop relay, danmaku and watcher, drop pending notices, mark
/// the stream status empty, and stop the broadcast when one was owed.
pub open spec fn cleanup_spec(s: SystemV, was_live: bool) -> (SystemV, Seq<EffectV>) {
    let s2 = SystemV {
        state: StateV::Idle,
        queue: Seq::empty(),
        host: s.host.push(HostOpV::Luci(LuciOpV::Write { key: "stream"@, value: ""@ })),
        ..s
    };
    let base = seq![EffectV::StopFfmpeg, EffectV::StopDanmaku, EffectV::StopFaceWatch];
    let effects = if was_live {
        base.push(EffectV::BilibiliStopLive { room_id: s.room_id, client: stop_client_spec(s.state) })
    } else {
        base
    };
    (s2, effects)
}

/// The PS5 published while idle.
pub open spec fn publish_spec(s: SystemV, app: Seq<char>, key: Seq<char>) -> (SystemV, Seq<EffectV>) {
    let url = rtmp_url_spec(s.local_ip, app, key);
    let host = s.host.push(HostOpV::Luci(LuciOpV::Write { key: "rtmp"@, value: url }));
    let log = EffectV::Log("Stream Url - "@ + url);
    if s.live_mode == LiveMode::Auto {
        (
            SystemV { state: StateV::LivePreparing { app, stream_key: key }, host, ..s },
            seq![log, start_live_spec(s)],
        )
    } else {
        (
            SystemV { state: StateV::Ps5Streaming, host, ..s },
            if s.live_mode == LiveMode::Manual {
                seq![
                    log,
                    EffectV::StartDanmaku { room_id: s.room_id },
                    EffectV::Log(
                        "[Manual] RTMP: rtmp://127.0.0.1:1935/"@ + app + "/"@ + key,
                    ),
                ]
            } else {
                seq![log]
            },
        )
    }
}

/// The PS5 stopped publishing while not idle.
pub open spec fn unpublish_spec(s: SystemV) -> (SystemV, Seq<EffectV>) {
    let s1 = SystemV {
        host: s.host + luci_ops(seq![LuciOpV::Clear { key: "rtmp"@ }] + reset_spec()),
        ..s
    };
    let (s2, e) = cleanup_spec(s1, was_live_spec(s.state));
    (s2, e.push(EffectV::Log("PS5 stream ended - System cleaning up"@)))
}

/// The broadcast started while a start was asked for or awaited.
pub open spec fn started_spec(
    s: SystemV,
    app: Seq<char>,
    key: Seq<char>,
    url: Seq<char>,
    bili_key: Seq<char>,
    client: LiveClient,
) -> (SystemV, Seq<EffectV>) {
    let s2 = SystemV {
        state: StateV::Live {
            app,
            ps5_key: key,
            bili_url: url,
            bili_key,
            retried: false,
            client,
        },
        ..s
    };
    let base = seq![
        EffectV::StopFaceWatch,
        EffectV::StartFfmpeg {
            ps5_app: app,
            ps5_stream_key: key,
            bilibili_rtmp_url: url,
            bilibili_stream_key: bili_key,
        },
        EffectV::StartDanmaku { room_id: s.room_id },
    ];
    let effects = if s.title.len() == 0 && broadcaster_id_spec(key) is Some {
        base.push(
            EffectV::SyncTwitchTitle {
                room_id: s.room_id,
                broadcaster_id: broadcaster_id_spec(key)->Some_0,
            },
        )
    } else {
        base
    };
    (s2, effects)
}

/// A face verification is needed while the start was asked for.
pub open spec fn auth_required_spec(
    s: SystemV,
    app: Seq<char>,
    key: Seq<char>,
    url: Option<Seq<char>>,
) -> (SystemV, Seq<EffectV>) {
    let s2 = SystemV {
        state: StateV::WaitingFaceAuth { app, stream_key: key },
        queue: s.queue.push("需要人脸验证"@),
        ..s
    };
    let base = seq![
        EffectV::StartFaceWatch { room_id: s.room_id },
        EffectV::Log("需人脸验证，正在等待..."@),
    ];
    let effects = match url {
        Some(u) => base.push(EffectV::Log("验证链接: "@ + u)),
        None => base,
    };
    (s2, effects)
}

/// Starting failed while it was asked for or awaited.
pub open spec fn start_failed_spec(s: SystemV, code: i64, message: Seq<char>) -> (
    SystemV,
    Seq<EffectV>,
) {
    let base = seq![
        EffectV::StopFaceWatch,
        EffectV::Log("StartLive failed ("@ + dec_int(code as int) + "): "@ + message),
    ];
    if code == -101 {
        (
            SystemV { state: StateV::Idle, ..s },
            base + seq![EffectV::NotifyPs5("登录已过期，请重新扫码"@), EffectV::Restart],
        )
    } else {
        (
            SystemV {
                state: StateV::Ps5Streaming,
                queue: s.queue.push(
                    "开播失败("@ + dec_int(code as int) + "): "@ + start_live_error_spec(code, message),
                ),
                ..s
            },
            base,
        )
    }
}

/// The face-verification watcher gave up.
pub open spec fn face_timeout_spec(s: SystemV) -> (SystemV, Seq<EffectV>) {
    let s1 = SystemV {
        host: s.host + luci_ops(seq![LuciOpV::Clear { key: "rtmp"@ }] + reset_spec()),
        ..s
    };
    let (s2, e) = cleanup_spec(s1, false);
    (
        SystemV { queue: s2.queue.push("人脸验证超时, 请重新开播"@), ..s2 },
        e.push(EffectV::Log("人脸验证超时 - 放弃"@)),
    )
}

/// The relay restarted once more for a live state not yet retried.
pub open spec fn restream_effects(
    app: Seq<char>,
    key: Seq<char>,
    url: Seq<char>,
    bili_key: Seq<char>,
) -> Seq<EffectV> {
    seq![
        EffectV::StopFfmpeg,
        EffectV::StartFfmpeg {
            ps5_app: app,
            ps5_stream_key: key,
            bilibili_rtmp_url: url,
            bilibili_stream_key: bili_key,
        },
    ]
}

/// The state after a retry: the same live state, marked as retried, with a notice.
pub open spec fn retried_spec(s: SystemV) -> SystemV {
    match s.state {
        StateV::Live { app, ps5_key, bili_url, bili_key, client, .. } => SystemV {
            state: StateV::Live { app, ps5_key, bili_url, bili_key, retried: true, client },
            queue: s.queue.push("推流重试"@),
            ..s
        },
        _ => s,
    }
}

/// The live stream was not seen in time.
pub open spec fn stream_timeout_spec(s: SystemV) -> (SystemV, Seq<EffectV>) {
    match s.state {
        StateV::Live { app, ps5_key, bili_url, bili_key, retried, client } => {
            if !retried {
                let s1 = SystemV {
                    host: s.host.push(
                        HostOpV::Warn("Bili:Live: Live stream unconfirmed - FFmpeg restream"@),
                    ),
                    ..s
                };
                (retried_spec(s1), restream_effects(app, ps5_key, bili_url, bili_key))
            } else {
                let (s2, e) = cleanup_spec(s, true);
                (s2, e.push(EffectV::Log("Stream unconfirmed after retry"@)))
            }
        },
        _ => (s, Seq::empty()),
    }
}

/// Streaming failed with this report.
pub open spec fn ffmpeg_error_spec(s: SystemV, msg: Seq<char>) -> (SystemV, Seq<EffectV>) {
    match s.state {
        StateV::Live { app, ps5_key, bili_url, bili_key, retried, client } if !retried => (
            retried_spec(s),
            restream_effects(app, ps5_key, bili_url, bili_key).push(
                EffectV::Log("FFmpeg: "@ + msg),
            ),
        ),
        _ => {
            let (s2, e) = cleanup_spec(s, was_live_spec(s.state));
            (
                SystemV { queue: s2.queue.push("推流失败: "@ + msg), ..s2 },
                e.push(EffectV::Log("FFmpeg: "@ + msg)),
            )
        },
    }
}

/// One transition: the new abstract state and the effects, for each event in each state.
pub open spec fn step(s: SystemV, ev: Event) -> (SystemV, Seq<EffectV>) {
    match ev {
        Event::RtmpPublish { app, stream_key } => if s.state is Idle {
            publish_spec(s, app@, stream_key@)
        } else {
            (s, Seq::empty())
        },
        Event::RtmpUnpublish => if s.state is Idle {
            (s, Seq::empty())
        } else {
            unpublish_spec(s)
        },
        Event::BilibiliLiveStarted { rtmp_url, stream_key, client } => match s.state {
            StateV::LivePreparing { app, stream_key: key } => started_spec(
                s,
                app,
                key,
                rtmp_url@,
                stream_key@,
                client,
            ),
            StateV::WaitingFaceAuth { app, stream_key: key } => started_spec(
                s,
                app,
                key,
                rtmp_url@,
                stream_key@,
                client,
            ),
            _ => (s, Seq::empty()),
        },
        Event::BilibiliAuthRequired { face_auth_url } => match s.state {
            StateV::LivePreparing { app, stream_key } => auth_required_spec(
                s,
                app,
                stream_key,
                opt_view(face_auth_url),
            ),
            _ => (s, Seq::empty()),
        },
        Event::BilibiliLiveStartFailed { code, message } => if s.state is LivePreparing
            || s.state is WaitingFaceAuth {
            start_failed_spec(s, code, message@)
        } else {
            (s, Seq::empty())
        },
        Event::TryStartLive => if s.state is WaitingFaceAuth {
            (s, seq![start_live_spec(s)])
        } else {
            (s, Seq::empty())
        },
        Event::FaceTimeout => if s.state is WaitingFaceAuth {
            face_timeout_spec(s)
        } else {
            (s, Seq::empty())
        },
        Event::DanmakuReady => (SystemV { queue: s.queue.push("弹幕已连接"@), ..s }, Seq::empty()),
        Event::Ps5IrcReady { .. } => (s, Seq::empty()),
        Event::BilibiliLiveStopped => (s, Seq::empty()),
        Event::BilibiliLiveStopFailed { code, message } => (
            s,
            seq![
                EffectV::Log("StopLive failed ("@ + dec_int(code as int) + "): "@ + message@),
            ],
        ),
        Event::BilibiliStreamConfirmed { .. } => (
            SystemV {
                queue: s.queue.push("开播成功"@),
                host: s.host.push(HostOpV::Luci(LuciOpV::Clear { key: "error"@ })),
                ..s
            },
            Seq::empty(),
        ),
        Event::TitleUpdated(title) => (s, seq![EffectV::NotifyPs5("直播间标题已更新为："@ + title@)]),
        Event::BilibiliStreamTimeout { .. } => stream_timeout_spec(s),
        Event::FfmpegError(status) => ffmpeg_error_spec(s, status.message_spec()),
        Event::Shutdown => cleanup_spec(s, was_live_spec(s.state)),
    }
}

/// A failed stream with no report is not an event the machine takes.
pub open spec fn event_ok(ev: Event) -> bool {
    !(ev matches Event::FfmpegError(FfmpegExitStatus::Normal))
}

/// The notices of a queue as effects.
pub open spec fn notices(q: Seq<Seq<char>>) -> Seq<EffectV> {
    q.map_values(|m: Seq<char>| EffectV::NotifyPs5(m))
}

/// A handled event: the transition, then, when the PS5 has joined its IRC
/// channel, every pending notice in order.
pub open spec fn handle_spec(s: SystemV, ev: Event, ready: bool) -> (SystemV, Seq<EffectV>) {
    let (s1, e) = step(s, ev);
    if ready {
        (SystemV { queue: Seq::empty(), ..s1 }, e + notices(s1.queue))
    } else {
        (s1, e)
    }
}

} // verus!

verus! {

impl System {
    /// A fresh machine: idle, nothing pending.
    pub fn new(config: Config, local_ip: String) -> (s: System)
        ensures
            s@ == (SystemV {
                state: StateV::Idle,
                queue: Seq::empty(),
                host: Seq::empty(),
                room_id: config.live.room_id,
                title: config.live.title@,
                area_v2: config.live.area_v2@,
                live_mode: config.live.live_mode,
                local_ip: local_ip@,
            }),
    {
        let s = System {
            state: State::Idle,
            config,
            local_ip,
            notify_queue: Vec::new(),
            host_ops: Vec::new(),
        };
        assert(s@.queue =~= Seq::empty());
        assert(s@.host =~= Seq::empty());
        s
    }

    /// The host operations asked for so far, handed over; none stay pending.
    pub fn take_host_ops(&mut self) -> (ops: Vec<HostOp>)
        ensures
            ops@.map_values(|h: HostOp| h@) == old(self)@.host,
            final(self)@ == (SystemV { host: Seq::empty(), ..old(self)@ }),
    {
        let mut ops: Vec<HostOp> = Vec::new();
        std::mem::swap(&mut ops, &mut self.host_ops);
        assert(self@.host =~= Seq::empty());
        ops
    }

    fn push_host(&mut self, op: HostOp)
        ensures
            final(self)@ == (SystemV { host: old(self)@.host.push(op@), ..old(self)@ }),
    {
        let ghost v = op@;
        self.host_ops.push(op);
        assert(self.host_ops@.map_values(|h: HostOp| h@) =~= old(self).host_ops@.map_values(
            |h: HostOp| h@,
        ).push(v));
    }

    fn push_notice(&mut self, m: String)
        ensures
            final(self)@ == (SystemV { queue: old(self)@.queue.push(m@), ..old(self)@ }),
    {
        let ghost v = m@;
        self.notify_queue.push(m);
        assert(self.notify_queue@.map_values(|x: String| x@) =~= old(
            self,
        ).notify_queue@.map_values(|x: String| x@).push(v));
    }

    /// Clears the `rtmp` key, then resets the status files.
    fn push_session_reset(&mut self)
        ensures
            final(self)@ == (SystemV {
                host: old(self)@.host + luci_ops(seq![LuciOpV::Clear { key: "rtmp"@ }] + reset_spec()),
                ..old(self)@
            }),
    {
        self.push_host(HostOp::Luci(luci::clear("rtmp")));
        let ops = luci::reset();
        let ghost mid = self@;
        let ghost all = seq![LuciOpV::Clear { key: "rtmp"@ }] + reset_spec();
        assert(mid.host == old(self)@.host + luci_ops(all.take(1)));
        for op in it: ops
            invariant
                it.seq().map_values(|o: LuciOp| o@) == reset_spec(),
                all == seq![LuciOpV::Clear { key: "rtmp"@ }] + reset_spec(),
                self@ == (SystemV {
                    host: old(self)@.host + luci_ops(all.take(it.index() + 1)),
                    ..old(self)@
                }),
        {
            let ghost i = it.index();
            assert(op@ == all[i + 1]) by {
                assert(it.seq().map_values(|o: LuciOp| o@)[i] == op@);
            }
            self.push_host(HostOp::Luci(op));
            assert(luci_ops(all.take(i + 2)) =~= luci_ops(all.take(i + 1)).push(
                HostOpV::Luci(all[i + 1]),
            ));
            assert(old(self)@.host + luci_ops(all.take(i + 2)) =~= (old(self)@.host + luci_ops(
                all.take(i + 1),
            )).push(HostOpV::Luci(all[i + 1])));
        }
        assert(all.take(6) =~= all);
    }

    fn title_param(&self) -> (r: Option<String>)
        ensures
            opt_view(r) == title_param_spec(self@),
    {
        if self.config.live.title.as_str().is_empty() {
            None
        } else {
            Some(self.config.live.title.clone())
        }
    }

    fn start_live_effect(&self) -> (e: Effect)
        ensures
            e@ == start_live_spec(self@),
    {
        Effect::BilibiliStartLive {
            room_id: self.config.live.room_id,
            area_v2: self.config.live.area_v2.clone(),
            title: self.title_param(),
        }
    }

    /// Back to idle; see `cleanup_spec`.
    fn cleanup(&mut self, was_live: bool) -> (effects: Vec<Effect>)
        ensures
            final(self)@ == cleanup_spec(old(self)@, was_live).0,
            effects_view(effects@) == cleanup_spec(old(self)@, was_live).1,
    {
        let client = match &self.state {
            State::Live { client, .. } => *client,
            _ => LiveClient::Electron,
        };
        self.state = State::Idle;
        self.notify_queue = Vec::new();
        assert(self@.queue =~= Seq::<Seq<char>>::empty());
        self.push_host(HostOp::Luci(luci::set("stream", "")));
        let mut effects: Vec<Effect> = Vec::new();
        effects.push(Effect::StopFfmpeg);
        effects.push(Effect::StopDanmaku);
        effects.push(Effect::StopFaceWatch);
        if was_live {
            effects.push(Effect::BilibiliStopLive { room_id: self.config.live.room_id, client });
        }
        assert(effects_view(effects@) =~= cleanup_spec(old(self)@, was_live).1);
        effects
    }

    fn on_publish(&mut self, app: String, stream_key: String) -> (effects: Vec<Effect>)
        requires
            old(self)@.state is Idle,
        ensures
            final(self)@ == publish_spec(old(self)@, app@, stream_key@).0,
            effects_view(effects@) == publish_spec(old(self)@, app@, stream_key@).1,
    {
        let url = rtmp_url(self.local_ip.as_str(), app.as_str(), stream_key.as_str());
        self.push_host(HostOp::Luci(luci::set("rtmp", url.as_str())));
        let mut log = string_of("Stream Url - ");
        push_str(&mut log, url.as_str());
        let mut effects: Vec<Effect> = Vec::new();
        if self.config.live.live_mode == LiveMode::Auto {
            effects.push(Effect::Log(log));
            effects.push(self.start_live_effect());
            self.state = State::LivePreparing { app, stream_key };
        } else {
            effects.push(Effect::Log(log));
            if self.config.live.live_mode == LiveMode::Manual {
                effects.push(Effect::StartDanmaku { room_id: self.config.live.room_id });
                let mut m = string_of("[Manual] RTMP: rtmp://127.0.0.1:1935/");
                push_str(&mut m, app.as_str());
                push_str(&mut m, "/");
                push_str(&mut m, stream_key.as_str());
                effects.push(Effect::Log(m));
            }
            self.state = State::Ps5Streaming;
        }
        assert(effects_view(effects@) =~= publish_spec(old(self)@, app@, stream_key@).1);
        effects
    }

    fn on_started(
        &mut self,
        app: String,
        key: String,
        url: String,
        bili_key: String,
        client: LiveClient,
    ) -> (effects: Vec<Effect>)
        ensures
            final(self)@ == started_spec(old(self)@, app@, key@, url@, bili_key@, client).0,
            effects_view(effects@) == started_spec(
                old(self)@,
                app@,
                key@,
                url@,
                bili_key@,
                client,
            ).1,
    {
        let sync = if self.config.live.title.as_str().is_empty() {
            parse_broadcaster_id(key.as_str())
        } else {
            None
        };
        let mut effects: Vec<Effect> = Vec::new();
        effects.push(Effect::StopFaceWatch);
        effects.push(
            Effect::StartFfmpeg {
                ps5_app: app.clone(),
                ps5_stream_key: key.clone(),
                bilibili_rtmp_url: url.clone(),
                bilibili_stream_key: bili_key.clone(),
            },
        );
        effects.push(Effect::StartDanmaku { room_id: self.config.live.room_id });
        match sync {
            Some(bid) => {
                effects.push(
                    Effect::SyncTwitchTitle { room_id: self.config.live.room_id, broadcaster_id: bid },
                );
            },
            None => {},
        }
        self.state = State::Live {
            app,
            ps5_key: key,
            bili_url: url,
            bili_key,
            retried: false,
            client,
        };
        assert(effects_view(effects@) =~= started_spec(
            old(self)@,
            app@,
            key@,
            url@,
            bili_key@,
            client,
        ).1);
        effects
    }

    fn on_auth_required(&mut self, app: String, key: String, url: Option<String>) -> (effects: Vec<
        Effect,
    >)
        ensures
            final(self)@ == auth_required_spec(old(self)@, app@, key@, opt_view(url)).0,
            effects_view(effects@) == auth_required_spec(old(self)@, app@, key@, opt_view(url)).1,
    {
        self.state = State::WaitingFaceAuth { app, stream_key: key };
        self.push_notice(string_of("需要人脸验证"));
        let mut effects: Vec<Effect> = Vec::new();
        effects.push(Effect::StartFaceWatch { room_id: self.config.live.room_id });
        effects.push(Effect::Log(string_of("需人脸验证，正在等待...")));
        match url {
            Some(u) => {
                let mut m = string_of("验证链接: ");
                push_str(&mut m, u.as_str());
                effects.push(Effect::Log(m));
            },
            None => {},
        }
        assert(effects_view(effects@) =~= auth_required_spec(
            old(self)@,
            app@,
            key@,
            opt_view(url),
        ).1);
        effects
    }

    fn on_start_failed(&mut self, code: i64, message: String) -> (effects: Vec<Effect>)
        ensures
            final(self)@ == start_failed_spec(old(self)@, code, message@).0,
            effects_view(effects@) == start_failed_spec(old(self)@, code, message@).1,
    {
        let mut log = string_of("StartLive failed (");
        push_i64(&mut log, code);
        push_str(&mut log, "): ");
        push_str(&mut log, message.as_str());
        let mut effects: Vec<Effect> = Vec::new();
        effects.push(Effect::StopFaceWatch);
        effects.push(Effect::Log(log));
        if code == -101 {
            self.state = State::Idle;
            effects.push(Effect::NotifyPs5(string_of("登录已过期，请重新扫码")));
            effects.push(Effect::Restart);
        } else {
            self.state = State::Ps5Streaming;
            let mut n = string_of("开播失败(");
            push_i64(&mut n, code);
            push_str(&mut n, "): ");
            let reason = start_live_error(code, message.as_str());
            push_str(&mut n, reason.as_str());
            self.push_notice(n);
        }
        assert(effects_view(effects@) =~= start_failed_spec(old(self)@, code, message@).1);
        effects
    }

    fn on_face_timeout(&mut self) -> (effects: Vec<Effect>)
        ensures
            final(self)@ == face_timeout_spec(old(self)@).0,
            effects_view(effects@) == face_timeout_spec(old(self)@).1,
    {
        self.push_session_reset();
        let mut effects = self.cleanup(false);
        self.push_notice(string_of("人脸验证超时, 请重新开播"));
        effects.push(Effect::Log(string_of("人脸验证超时 - 放弃")));
        effects
    }

    fn on_unpublish(&mut self) -> (effects: Vec<Effect>)
        requires
            !(old(self)@.state is Idle),
        ensures
            final(self)@ == unpublish_spec(old(self)@).0,
            effects_view(effects@) == unpublish_spec(old(self)@).1,
    {
        let was_live = match &self.state {
            State::LivePreparing { .. } => true,
            State::Live { .. } => true,
            _ => false,
        };
        self.push_session_reset();
        let mut effects = self.cleanup(was_live);
        effects.push(Effect::Log(string_of("PS5 stream ended - System cleaning up")));
        effects
    }

    /// Marks the live state as retried and restarts the relay.
    fn retry(&mut self) -> (effects: Vec<Effect>)
        requires
            old(self)@.state matches StateV::Live { retried, .. } && !retried,
        ensures
            final(self)@ == retried_spec(old(self)@),
            old(self)@.state matches StateV::Live { app, ps5_key, bili_url, bili_key, .. }
                && effects_view(effects@) == restream_effects(app, ps5_key, bili_url, bili_key),
    {
        let (app, ps5_key, bili_url, bili_key, client) = match &self.state {
            State::Live { app, ps5_key, bili_url, bili_key, client, .. } => (
                app.clone(),
                ps5_key.clone(),
                bili_url.clone(),
                bili_key.clone(),
                *client,
            ),
            _ => {
                assert(false);
                return Vec::new();
            },
        };
        let mut effects: Vec<Effect> = Vec::new();
        effects.push(Effect::StopFfmpeg);
        effects.push(
            Effect::StartFfmpeg {
                ps5_app: app.clone(),
                ps5_stream_key: ps5_key.clone(),
                bilibili_rtmp_url: bili_url.clone(),
                bilibili_stream_key: bili_key.clone(),
            },
        );
        self.state = State::Live { app, ps5_key, bili_url, bili_key, retried: true, client };
        self.push_notice(string_of("推流重试"));
        assert(effects_view(effects@) =~= restream_effects(app@, ps5_key@, bili_url@, bili_key@));
        effects
    }

    fn on_stream_timeout(&mut self) -> (effects: Vec<Effect>)
        ensures
            final(self)@ == stream_timeout_spec(old(self)@).0,
            effects_view(effects@) == stream_timeout_spec(old(self)@).1,
    {
        let retried = match &self.state {
            State::Live { retried, .. } => *retried,
            _ => {
                return Vec::new();
            },
        };
        if !retried {
            self.push_host(
                HostOp::Warn(string_of("Bili:Live: Live stream unconfirmed - FFmpeg restream")),
            );
            self.retry()
        } else {
            let mut effects = self.cleanup(true);
            effects.push(Effect::Log(string_of("Stream unconfirmed after retry")));
            effects
        }
    }

    fn on_ffmpeg_error(&mut self, status: FfmpegExitStatus) -> (effects: Vec<Effect>)
        requires
            !(status matches FfmpegExitStatus::Normal),
        ensures
            final(self)@ == ffmpeg_error_spec(old(self)@, status.message_spec()).0,
            effects_view(effects@) == ffmpeg_error_spec(old(self)@, status.message_spec()).1,
    {
        let msg = status.message();
        let retry_now = match &self.state {
            State::Live { retried, .. } => !*retried,
            _ => false,
        };
        let mut log = string_of("FFmpeg: ");
        push_str(&mut log, msg.as_str());
        if retry_now {
            let mut effects = self.retry();
            effects.push(Effect::Log(log));
            effects
        } else {
            let was_live = match &self.state {
                State::LivePreparing { .. } => true,
                State::Live { .. } => true,
                _ => false,
            };
            let mut effects = self.cleanup(was_live);
            effects.push(Effect::Log(log));
            let mut n = string_of("推流失败: ");
            push_str(&mut n, msg.as_str());
            self.push_notice(n);
            effects
        }
    }

    /// One transition; see `step`.
    fn transition(&mut self, event: Event) -> (effects: Vec<Effect>)
        requires
            event_ok(event),
        ensures
            final(self)@ == step(old(self)@, event).0,
            effects_view(effects@) == step(old(self)@, event).1,
    {
        match event {
            Event::RtmpPublish { app, stream_key } => match self.state {
                State::Idle => self.on_publish(app, stream_key),
                _ => Vec::new(),
            },
            Event::RtmpUnpublish => match self.state {
                State::Idle => Vec::new(),
                _ => self.on_unpublish(),
            },
            Event::BilibiliLiveStarted { rtmp_url, stream_key, client } => {
                let (app, key) = match &self.state {
                    State::LivePreparing { app, stream_key } => (app.clone(), stream_key.clone()),
                    State::WaitingFaceAuth { app, stream_key } => (app.clone(), stream_key.clone()),
                    _ => {
                        return Vec::new();
                    },
                };
                self.on_started(app, key, rtmp_url, stream_key, client)
            },
            Event::BilibiliAuthRequired { face_auth_url } => {
                let (app, key) = match &self.state {
                    State::LivePreparing { app, stream_key } => (app.clone(), stream_key.clone()),
                    _ => {
                        return Vec::new();
                    },
                };
                self.on_auth_required(app, key, face_auth_url)
            },
            Event::BilibiliLiveStartFailed { code, message } => match self.state {
                State::LivePreparing { .. } => self.on_start_failed(code, message),
                State::WaitingFaceAuth { .. } => self.on_start_failed(code, message),
                _ => Vec::new(),
            },
            Event::TryStartLive => match self.state {
                State::WaitingFaceAuth { .. } => {
                    let mut effects: Vec<Effect> = Vec::new();
                    effects.push(self.start_live_effect());
                    assert(effects_view(effects@) =~= step(old(self)@, event).1);
                    effects
                },
                _ => Vec::new(),
            },
            Event::FaceTimeout => match self.state {
                State::WaitingFaceAuth { .. } => self.on_face_timeout(),
                _ => Vec::new(),
            },
            Event::DanmakuReady => {
                self.push_notice(string_of("弹幕已连接"));
                Vec::new()
            },
            Event::Ps5IrcReady { .. } => Vec::new(),
            Event::BilibiliLiveStopped => Vec::new(),
            Event::BilibiliLiveStopFailed { code, message } => {
                let mut log = string_of("StopLive failed (");
                push_i64(&mut log, code);
                push_str(&mut log, "): ");
                push_str(&mut log, message.as_str());
                let mut effects: Vec<Effect> = Vec::new();
                effects.push(Effect::Log(log));
                assert(effects_view(effects@) =~= step(old(self)@, event).1);
                effects
            },
            Event::BilibiliStreamConfirmed { .. } => {
                self.push_host(HostOp::Luci(luci::clear("error")));
                self.push_notice(string_of("开播成功"));
                Vec::new()
            },
            Event::TitleUpdated(title) => {
                let mut m = string_of("直播间标题已更新为：");
                push_str(&mut m, title.as_str());
                let mut effects: Vec<Effect> = Vec::new();
                effects.push(Effect::NotifyPs5(m));
                assert(effects_view(effects@) =~= step(old(self)@, event).1);
                effects
            },
            Event::BilibiliStreamTimeout { .. } => self.on_stream_timeout(),
            Event::FfmpegError(status) => self.on_ffmpeg_error(status),
            Event::Shutdown => {
                let was_live = match &self.state {
                    State::LivePreparing { .. } => true,
                    State::Live { .. } => true,
                    _ => false,
                };
                self.cleanup(was_live)
            },
        }
    }

    /// Handles one event: the transition of `step`, then, when the PS5 has
    /// joined its IRC channel (`irc.channel_name` not empty), a notice effect
    /// for every pending notice, in order, leaving none pending.
    pub fn handle(&mut self, event: Event, irc: &GlobalState) -> (effects: Vec<Effect>)
        requires
            event_ok(event),
        ensures
            final(self)@ == handle_spec(old(self)@, event, irc.channel_name@.len() > 0).0,
            effects_view(effects@) == handle_spec(
                old(self)@,
                event,
                irc.channel_name@.len() > 0,
            ).1,
    {
        let mut effects = self.transition(event);
        if !irc.channel_name.as_str().is_empty() {
            let ghost e0 = effects_view(effects@);
            let ghost s1 = self@;
            let mut q: Vec<String> = Vec::new();
            std::mem::swap(&mut q, &mut self.notify_queue);
            assert(self@.queue =~= Seq::<Seq<char>>::empty());
            let ghost qv = q@.map_values(|m: String| m@);
            assert(qv == s1.queue);
            let mut i: usize = 0;
            while i < q.len()
                invariant
                    0 <= i <= q.len(),
                    qv == q@.map_values(|m: String| m@),
                    effects_view(effects@) == e0 + notices(qv.take(i as int)),
                decreases q.len() - i,
            {
                let ghost before = effects@;
                effects.push(Effect::NotifyPs5(q[i].clone()));
                assert(effects_view(effects@) =~= effects_view(before).push(EffectV::NotifyPs5(qv[i as int])));
                assert(notices(qv.take(i + 1)) =~= notices(qv.take(i as int)).push(
                    EffectV::NotifyPs5(qv[i as int]),
                ));
                assert(effects_view(effects@) =~= e0 + notices(qv.take(i + 1)));
                i = i + 1;
            }
            assert(qv.take(i as int) =~= qv);
        }
        effects
    }
}

} // verus!

verus! {

// ── Laws of the machine ──

/// A transition never changes the configuration it was built with.
pub proof fn law_config_is_fixed(s: SystemV, ev: Event)
    ensures
        step(s, ev).0.room_id == s.room_id,
        step(s, ev).0.title == s.title,
        step(s, ev).0.area_v2 == s.area_v2,
        step(s, ev).0.live_mode == s.live_mode,
        step(s, ev).0.local_ip == s.local_ip,
{
}

/// Shutdown ends any session: the machine is idle with no pending notice,
/// relay, danmaku and watcher are stopped, and the broadcast is stopped
/// exactly when a start had been asked for or had succeeded, with the client
/// it was started by.
pub proof fn law_shutdown_ends_session(s: SystemV)
    ensures
        step(s, Event::Shutdown).0.state is Idle,
        step(s, Event::Shutdown).0.queue.len() == 0,
        step(s, Event::Shutdown).1.take(3) == seq![
            EffectV::StopFfmpeg,
            EffectV::StopDanmaku,
            EffectV::StopFaceWatch,
        ],
        was_live_spec(s.state) ==> step(s, Event::Shutdown).1 == seq![
            EffectV::StopFfmpeg,
            EffectV::StopDanmaku,
            EffectV::StopFaceWatch,
            EffectV::BilibiliStopLive { room_id: s.room_id, client: stop_client_spec(s.state) },
        ],
        !was_live_spec(s.state) ==> step(s, Event::Shutdown).1.len() == 3,
{
    assert(step(s, Event::Shutdown).1.take(3) =~= seq![
        EffectV::StopFfmpeg,
        EffectV::StopDanmaku,
        EffectV::StopFaceWatch,
    ]);
}

/// When the PS5 stops publishing, any session ends: the machine is idle, the
/// relay, danmaku and watcher are stopped, and the broadcast is stopped exactly
/// when one was owed.
pub proof fn law_unpublish_ends_session(s: SystemV)
    requires
        !(s.state is Idle),
    ensures
        step(s, Event::RtmpUnpublish).0.state is Idle,
        step(s, Event::RtmpUnpublish).0.queue.len() == 0,
        step(s, Event::RtmpUnpublish).1[0] == EffectV::StopFfmpeg,
        step(s, Event::RtmpUnpublish).1[1] == EffectV::StopDanmaku,
        step(s, Event::RtmpUnpublish).1[2] == EffectV::StopFaceWatch,
        was_live_spec(s.state) <==> step(s, Event::RtmpUnpublish).1.len() == 5,
        was_live_spec(s.state) ==> step(s, Event::RtmpUnpublish).1[3] == (EffectV::BilibiliStopLive {
            room_id: s.room_id,
            client: stop_client_spec(s.state),
        }),
{
}

/// A live session is retried once: the first relay failure or unconfirmed
/// stream restarts the relay with the same addresses and marks the session as
/// retried; it stays live.
pub proof fn law_first_failure_retries(s: SystemV, ev: Event)
    requires
        s.state matches StateV::Live { retried, .. } && !retried,
        ev is BilibiliStreamTimeout || (ev is FfmpegError && event_ok(ev)),
    ensures
        s.state matches StateV::Live { app, ps5_key, bili_url, bili_key, client, .. }
            && step(s, ev).0.state == (StateV::Live {
                app,
                ps5_key,
                bili_url,
                bili_key,
                retried: true,
                client,
            }) && step(s, ev).1.take(2) == restream_effects(app, ps5_key, bili_url, bili_key),
{
    if let StateV::Live { app, ps5_key, bili_url, bili_key, .. } = s.state {
        assert(step(s, ev).1.take(2) =~= restream_effects(app, ps5_key, bili_url, bili_key));
    }
}

/// A session that already retried ends at the next relay failure or
/// unconfirmed stream: the machine goes idle and stops the broadcast with the
/// client it was started by.
pub proof fn law_second_failure_ends_session(s: SystemV, ev: Event)
    requires
        s.state matches StateV::Live { retried, .. } && retried,
        ev is BilibiliStreamTimeout || (ev is FfmpegError && event_ok(ev)),
    ensures
        step(s, ev).0.state is Idle,
        s.state matches StateV::Live { client, .. } && step(s, ev).1[3] == (
        EffectV::BilibiliStopLive { room_id: s.room_id, client }),
{
}

/// The machine goes live only when Bilibili reported the start, and only from
/// a state that asked for it or awaited it.
pub proof fn law_live_only_after_start(s: SystemV, ev: Event)
    requires
        !(s.state is Live),
        step(s, ev).0.state is Live,
    ensures
        ev is BilibiliLiveStarted,
        s.state is LivePreparing || s.state is WaitingFaceAuth,
{
}

/// Every stop-live call that a transition asks for is owed (a start had been
/// asked for or had succeeded), targets the configured room, and pairs with the
/// client the broadcast was started by (Electron when it never started).
pub proof fn law_stop_live_pairs(s: SystemV, ev: Event, i: int)
    requires
        0 <= i < step(s, ev).1.len(),
        step(s, ev).1[i] is BilibiliStopLive,
    ensures
        was_live_spec(s.state),
        step(s, ev).1[i] == (EffectV::BilibiliStopLive {
            room_id: s.room_id,
            client: stop_client_spec(s.state),
        }),
{
}

/// The IRC-ready and stopped-live reports change nothing and ask for nothing.
pub proof fn law_inert_reports(s: SystemV, channel: String)
    ensures
        step(s, Event::Ps5IrcReady { channel }) == (s, Seq::<EffectV>::empty()),
        step(s, Event::BilibiliLiveStopped) == (s, Seq::<EffectV>::empty()),
{
}

/// In auto mode, a publish while idle asks Bilibili to start the broadcast for
/// the configured room; in manual mode it connects the danmaku instead and
/// waits.
pub proof fn law_publish_by_mode(s: SystemV, app: String, stream_key: String)
    requires
        s.state is Idle,
    ensures
        s.live_mode == LiveMode::Auto ==> {
            &&& step(s, Event::RtmpPublish { app, stream_key }).0.state == (StateV::LivePreparing {
                app: app@,
                stream_key: stream_key@,
            })
            &&& step(s, Event::RtmpPublish { app, stream_key }).1[1] == start_live_spec(s)
        },
        s.live_mode == LiveMode::Manual ==> {
            &&& step(s, Event::RtmpPublish { app, stream_key }).0.state is Ps5Streaming
            &&& step(s, Event::RtmpPublish { app, stream_key }).1[1] == (EffectV::StartDanmaku {
                room_id: s.room_id,
            })
        },
{
}

/// Notices wait until the PS5 joins its IRC channel; then every one is
/// delivered, in order, after the transition's own effects, and none stays.
pub proof fn law_notices_delivered_when_ready(s: SystemV, ev: Event)
    ensures
        handle_spec(s, ev, false) == step(s, ev),
        handle_spec(s, ev, true).0.queue.len() == 0,
        handle_spec(s, ev, true).1 == step(s, ev).1 + notices(step(s, ev).0.queue),
        handle_spec(s, ev, true).0.state == step(s, ev).0.state,
{
}

/// The face-verification watcher never outlives the wait: every transition
/// that leaves the waiting state asks for the watcher to stop.
pub proof fn law_leaving_face_wait_stops_watcher(s: SystemV, ev: Event)
    requires
        s.state is WaitingFaceAuth,
        !(step(s, ev).0.state is WaitingFaceAuth),
        event_ok(ev),
    ensures
        step(s, ev).1.contains(EffectV::StopFaceWatch),
{
    let e = step(s, ev).1;
    match ev {
        Event::BilibiliLiveStarted { .. } => {
            assert(e[0] == EffectV::StopFaceWatch);
        },
        Event::BilibiliLiveStartFailed { .. } => {
            assert(e[0] == EffectV::StopFaceWatch);
        },
        _ => {
            assert(e[2] == EffectV::StopFaceWatch);
        },
    }
}

/// The relay is started only toward a live broadcast: a transition that asks
/// for a relay leaves the machine live, relaying to the address and key that
/// Bilibili gave.
pub proof fn law_relay_only_when_live(s: SystemV, ev: Event, i: int)
    requires
        0 <= i < step(s, ev).1.len(),
        step(s, ev).1[i] is StartFfmpeg,
    ensures
        step(s, ev).0.state matches StateV::Live { app, ps5_key, bili_url, bili_key, .. }
            && step(s, ev).1[i] == (EffectV::StartFfmpeg {
            ps5_app: app,
            ps5_stream_key: ps5_key,
            bilibili_rtmp_url: bili_url,
            bilibili_stream_key: bili_key,
        }),
{
}

/// One PS5 stream at a time: a publish while a session runs is ignored, and
/// so is an unpublish while idle.
pub proof fn law_one_stream_at_a_time(s: SystemV, app: String, stream_key: String)
    ensures
        !(s.state is Idle) ==> step(s, Event::RtmpPublish { app, stream_key }) == (s, Seq::<EffectV>::empty()),
        s.state is Idle ==> step(s, Event::RtmpUnpublish) == (s, Seq::<EffectV>::empty()),
{
}

/// Going live, from whichever state it comes, stops the face-verification
/// watcher, relays the PS5 stream it was started for to the address and key
/// that Bilibili gave, and connects the room's danmaku.
pub proof fn law_going_live_connects(s: SystemV, ev: Event)
    requires
        !(s.state is Live),
        step(s, ev).0.state is Live,
    ensures
        step(s, ev).1.contains(EffectV::StartDanmaku { room_id: s.room_id }),
        step(s, ev).1.contains(EffectV::StopFaceWatch),
        ev matches Event::BilibiliLiveStarted { rtmp_url, stream_key, client } ==> {
            &&& step(s, ev).0.state matches StateV::Live { app, ps5_key, bili_url, bili_key, .. }
                && bili_url == rtmp_url@ && bili_key == stream_key@
                && step(s, ev).1.contains(
                EffectV::StartFfmpeg {
                    ps5_app: app,
                    ps5_stream_key: ps5_key,
                    bilibili_rtmp_url: rtmp_url@,
                    bilibili_stream_key: stream_key@,
                },
            )
            &&& step(s, ev).1.take(3) == seq![
                EffectV::StopFaceWatch,
                EffectV::StartFfmpeg {
                    ps5_app: step(s, ev).0.state->Live_app,
                    ps5_stream_key: step(s, ev).0.state->Live_ps5_key,
                    bilibili_rtmp_url: rtmp_url@,
                    bilibili_stream_key: stream_key@,
                },
                EffectV::StartDanmaku { room_id: s.room_id },
            ]
        },
{
    let e = step(s, ev).1;
    assert(e[0] == EffectV::StopFaceWatch);
    assert(e[2] == EffectV::StartDanmaku { room_id: s.room_id });
    if let Event::BilibiliLiveStarted { rtmp_url, stream_key, client } = ev {
        assert(e.take(3) =~= seq![
            EffectV::StopFaceWatch,
            EffectV::StartFfmpeg {
                ps5_app: step(s, ev).0.state->Live_app,
                ps5_stream_key: step(s, ev).0.state->Live_ps5_key,
                bilibili_rtmp_url: rtmp_url@,
                bilibili_stream_key: stream_key@,
            },
            EffectV::StartDanmaku { room_id: s.room_id },
        ]);
        assert(e[1] == e.take(3)[1]);
    }
}

/// A start reported after the face verification is taken as one reported
/// right away: the same PS5 stream gives the same next state and effects.
pub proof fn law_start_after_face_wait(
    s: SystemV,
    app: Seq<char>,
    key: Seq<char>,
    rtmp_url: String,
    stream_key: String,
    client: LiveClient,
)
    ensures
        step(
            SystemV { state: StateV::WaitingFaceAuth { app, stream_key: key }, ..s },
            Event::BilibiliLiveStarted { rtmp_url, stream_key, client },
        ) == step(
            SystemV { state: StateV::LivePreparing { app, stream_key: key }, ..s },
            Event::BilibiliLiveStarted { rtmp_url, stream_key, client },
        ),
{
}

} // verus!
