//! The decisions of the on-demand workers: relay, danmaku, face-verification
//! watcher and stream monitor. Each takes what happened and says what to do
//! next; the caller does the waiting and the calls.
use vstd::prelude::*;
use crate::common::event::Event;
use crate::dispatch::{DanmakuCmd, FfmpegCmd};
use crate::actors::ffmpeg::FfmpegCommand;
use crate::luci::{self, LuciOp, LuciOpV};
use crate::text::{dec_nat, push_str, push_u64, string_of};

verus! {

// ── Relay worker ──

/// What the relay worker does with a command.
pub enum FfmpegWorkerAction {
    /// Start a new relay actor and hand it this start command.
    Spawn(FfmpegCommand),
    /// Tell the running actor to stop and signal its shutdown.
    Stop,
    /// Nothing to do.
    Nothing,
}

/// The relay worker: whether an actor was started and not yet stopped.
pub struct FfmpegWorker {
    pub active: bool,
}

impl FfmpegWorker {
    /// A worker with no actor.
    pub fn new() -> (w: FfmpegWorker)
        ensures
            !w.active,
    {
        FfmpegWorker { active: false }
    }

    /// A start always starts a new actor with the same addresses; a stop stops
    /// the actor when there is one. Afterwards an actor runs exactly after a start.
    pub fn handle(&mut self, cmd: FfmpegCmd) -> (a: FfmpegWorkerAction)
        ensures
            cmd matches FfmpegCmd::Start { ps5_app, ps5_stream_key, bilibili_rtmp_url, bilibili_stream_key }
                ==> final(self).active && a == FfmpegWorkerAction::Spawn(
                FfmpegCommand::Start { ps5_app, ps5_stream_key, bilibili_rtmp_url, bilibili_stream_key },
            ),
            cmd is Stop ==> !final(self).active && (old(self).active ==> a is Stop) && (!old(
                self,
            ).active ==> a is Nothing),
    {
        match cmd {
            FfmpegCmd::Start { ps5_app, ps5_stream_key, bilibili_rtmp_url, bilibili_stream_key } => {
                self.active = true;
                FfmpegWorkerAction::Spawn(
                    FfmpegCommand::Start {
                        ps5_app,
                        ps5_stream_key,
                        bilibili_rtmp_url,
                        bilibili_stream_key,
                    },
                )
            },
            FfmpegCmd::Stop => {
                let was = self.active;
                self.active = false;
                if was {
                    FfmpegWorkerAction::Stop
                } else {
                    FfmpegWorkerAction::Nothing
                }
            },
        }
    }
}

// ── Danmaku worker ──

/// What the danmaku worker does with a command.
pub enum DanmakuWorkerAction {
    /// Connect to this room's danmaku.
    Spawn { room_id: u64 },
    /// Drop the running connection.
    Abort,
    /// Nothing to do.
    Nothing,
}

/// The danmaku worker: whether a connection task runs.
pub struct DanmakuWorker {
    pub running: bool,
}

impl DanmakuWorker {
    /// A worker with no connection.
    pub fn new() -> (w: DanmakuWorker)
        ensures
            !w.running,
    {
        DanmakuWorker { running: false }
    }

    /// A start connects only when no connection runs (a second start is
    /// ignored); a stop drops the running connection.
    pub fn handle(&mut self, cmd: DanmakuCmd) -> (a: DanmakuWorkerAction)
        ensures
            cmd matches DanmakuCmd::Start { room_id } ==> final(self).running && (!old(self).running
                ==> a == (DanmakuWorkerAction::Spawn { room_id })) && (old(self).running
                ==> a is Nothing),
            cmd is Stop ==> !final(self).running && (old(self).running ==> a is Abort) && (!old(
                self,
            ).running ==> a is Nothing),
    {
        match cmd {
            DanmakuCmd::Start { room_id } => {
                if self.running {
                    DanmakuWorkerAction::Nothing
                } else {
                    self.running = true;
                    DanmakuWorkerAction::Spawn { room_id }
                }
            },
            DanmakuCmd::Stop => {
                let was = self.running;
                self.running = false;
                if was {
                    DanmakuWorkerAction::Abort
                } else {
                    DanmakuWorkerAction::Nothing
                }
            },
        }
    }
}

// ── Face-verification watcher ──

/// The answer of a face-verification status check.
pub enum FaceStatus {
    Verified,
    NotYet,
    /// An unexpected answer, with what it said.
    Abnormal(String),
}

/// What the watcher does next.
#[derive(Debug, Clone, Copy, PartialEq, Eq, Structural)]
pub enum FaceTick {
    /// Cancelled: end.
    Stop,
    /// Three minutes passed: report the timeout and end.
    Timeout,
    /// Wait a second, then check the status.
    Probe,
    /// Wait ten seconds, then ask for another start.
    Retry,
}

/// The watcher's next step, from whether it fell back to slow retries.
pub open spec fn face_tick_spec(fallback: bool, cancelled: bool, timed_out: bool) -> FaceTick {
    if cancelled {
        FaceTick::Stop
    } else if timed_out {
        FaceTick::Timeout
    } else if !fallback {
        FaceTick::Probe
    } else {
        FaceTick::Retry
    }
}

/// Whether the watcher falls back to slow retries after a status answer.
pub open spec fn fallback_after(fallback: bool, status: FaceStatus) -> bool {
    match status {
        FaceStatus::NotYet => fallback,
        _ => true,
    }
}

/// The face-verification watcher: whether it fell back to slow retries.
pub struct FaceWatch {
    pub fallback: bool,
}

impl FaceWatch {
    /// A watcher that probes every second.
    pub fn new() -> (w: FaceWatch)
        ensures
            !w.fallback,
    {
        FaceWatch { fallback: false }
    }

    /// The next step: stop when cancelled, else time out after three minutes,
    /// else probe (before the fallback) or retry (after it).
    pub fn tick(&self, cancelled: bool, timed_out: bool) -> (t: FaceTick)
        ensures
            t == face_tick_spec(self.fallback, cancelled, timed_out),
    {
        if cancelled {
            FaceTick::Stop
        } else if timed_out {
            FaceTick::Timeout
        } else if !self.fallback {
            FaceTick::Probe
        } else {
            FaceTick::Retry
        }
    }

    /// A status answer: verified asks for a start and falls back to slow
    /// retries (a start that succeeds stops the watcher); an abnormal answer
    /// is warned about and falls back too; not yet changes nothing. Returns
    /// whether to ask for a start, and the warning.
    pub fn on_status(&mut self, status: FaceStatus) -> (r: (bool, Option<String>))
        ensures
            final(self).fallback == fallback_after(old(self).fallback, status),
            status is Verified ==> r.0 && r.1 is None,
            status is NotYet ==> !r.0 && r.1 is None,
            status matches FaceStatus::Abnormal(p) ==> !r.0 && (r.1 matches Some(w) && w@
                == "Bili:Live: 人脸状态检测异常 - "@ + p@),
    {
        match status {
            FaceStatus::Verified => {
                self.fallback = true;
                (true, None)
            },
            FaceStatus::NotYet => (false, None),
            FaceStatus::Abnormal(p) => {
                self.fallback = true;
                let mut w = string_of("Bili:Live: 人脸状态检测异常 - ");
                push_str(&mut w, p.as_str());
                (false, Some(w))
            },
        }
    }
}

/// A cancel always ends the watcher; once a status answer was a verification
/// or abnormal, the watcher never probes again: until cancelled or timed out
/// it only asks for another start, every ten seconds.
pub proof fn law_face_watch_settles(fallback: bool, status: FaceStatus, cancelled: bool, timed_out: bool)
    ensures
        face_tick_spec(fallback, true, timed_out) == FaceTick::Stop,
        !(status is NotYet) && !cancelled && !timed_out ==> face_tick_spec(
            fallback_after(fallback, status),
            cancelled,
            timed_out,
        ) == FaceTick::Retry,
        fallback ==> fallback_after(fallback, status),
{
}

/// The three-minute limit holds whether or not the watcher fell back to slow
/// retries: unless cancelled, a watcher past the limit times out; before the
/// limit it probes, or after the fallback asks for another start.
pub proof fn law_face_watch_times_out(fallback: bool, cancelled: bool, timed_out: bool)
    ensures
        face_tick_spec(fallback, false, true) == FaceTick::Timeout,
        !cancelled && !timed_out && !fallback ==> face_tick_spec(fallback, cancelled, timed_out)
            == FaceTick::Probe,
        !cancelled && !timed_out && fallback ==> face_tick_spec(fallback, cancelled, timed_out)
            == FaceTick::Retry,
{
}

/// The event a watcher step reports, if any.
pub fn face_tick_event(t: FaceTick) -> (e: Option<Event>)
    ensures
        t is Timeout ==> e == Some(Event::FaceTimeout),
        t is Retry ==> e == Some(Event::TryStartLive),
        (t is Stop || t is Probe) ==> e is None,
{
    match t {
        FaceTick::Timeout => Some(Event::FaceTimeout),
        FaceTick::Retry => Some(Event::TryStartLive),
        _ => None,
    }
}

// ── Stream monitor ──

/// What the room's stream-info API said.
#[derive(Debug, Clone, Copy, PartialEq, Eq, Structural)]
pub enum StreamInfo {
    Live,
    Offline,
    /// Anything else, or no answer.
    Unknown,
}

/// What the monitor does next.
#[derive(Debug, Clone, Copy, PartialEq, Eq, Structural)]
pub enum MonitorNext {
    /// Wait half a second, then ask the stream-info API.
    Poll,
    /// Ask the stream-info API once more, right away.
    FinalCheck,
    /// Probe the FLV play URL.
    Probe,
    /// Done.
    Done,
}

/// One step of the monitor: a status-file change, a log line, an event, and what next.
pub struct MonitorStep {
    pub luci: Option<LuciOp>,
    pub log: Option<String>,
    pub event: Option<Event>,
    pub next: MonitorNext,
}

/// The stream monitor after a start: up to eight polls of the stream-info API,
/// then a last check, then an FLV probe.
pub struct StreamMonitor {
    pub room_id: u64,
    /// The polls made so far.
    pub attempt: u32,
}

/// A status-file write of the `stream` key as a view.
pub open spec fn stream_status(v: Seq<char>) -> Option<LuciOpV> {
    Some(LuciOpV::Write { key: "stream"@, value: v })
}

/// An optional status-file change as a view.
pub open spec fn opt_luci(o: Option<LuciOp>) -> Option<LuciOpV> {
    match o {
        Some(op) => Some(op@),
        None => None,
    }
}

impl StreamMonitor {
    /// Starts monitoring (after the first second): the stream status is
    /// `fake` until known, then poll.
    pub fn new(room_id: u64) -> (r: (StreamMonitor, LuciOp))
        ensures
            r.0.room_id == room_id,
            r.0.attempt == 0,
            r.1@ == (LuciOpV::Write { key: "stream"@, value: "fake"@ }),
    {
        (StreamMonitor { room_id, attempt: 0 }, luci::set("stream", "fake"))
    }

    /// The answer to a poll: live is confirmed (status `live`, a confirmation
    /// event naming the poll); offline ends (status `offline`); otherwise poll
    /// again, and after the eighth poll make the last check.
    pub fn on_poll(&mut self, info: StreamInfo) -> (s: MonitorStep)
        requires
            old(self).attempt < 8,
        ensures
            final(self).room_id == old(self).room_id,
            final(self).attempt == old(self).attempt + 1,
            info == StreamInfo::Live ==> opt_luci(s.luci) == stream_status("live"@) && s.event
                == Some(Event::BilibiliStreamConfirmed { room_id: old(self).room_id }) && s.next
                == MonitorNext::Done && (s.log matches Some(l) && l@
                == "[Bili:Live] Live stream confirmed - GetStreamInfo, "@ + dec_nat(
                final(self).attempt as nat,
            ) + " - ✓ 直播视频流验证成功"@),
            info == StreamInfo::Offline ==> opt_luci(s.luci) == stream_status("offline"@) && s.event
                is None && s.log is None && s.next == MonitorNext::Done,
            info == StreamInfo::Unknown ==> s.luci is None && s.event is None && s.log is None
                && s.next == (if final(self).attempt < 8 {
                MonitorNext::Poll
            } else {
                MonitorNext::FinalCheck
            }),
    {
        self.attempt = self.attempt + 1;
        match info {
            StreamInfo::Live => {
                let mut l = string_of("[Bili:Live] Live stream confirmed - GetStreamInfo, ");
                push_u64(&mut l, self.attempt as u64);
                push_str(&mut l, " - ✓ 直播视频流验证成功");
                MonitorStep {
                    luci: Some(luci::set("stream", "live")),
                    log: Some(l),
                    event: Some(Event::BilibiliStreamConfirmed { room_id: self.room_id }),
                    next: MonitorNext::Done,
                }
            },
            StreamInfo::Offline => MonitorStep {
                luci: Some(luci::set("stream", "offline")),
                log: None,
                event: None,
                next: MonitorNext::Done,
            },
            StreamInfo::Unknown => MonitorStep {
                luci: None,
                log: None,
                event: None,
                next: if self.attempt < 8 {
                    MonitorNext::Poll
                } else {
                    MonitorNext::FinalCheck
                },
            },
        }
    }

    /// The last check: offline ends (status `offline`); otherwise probe (status `probing`).
    pub fn on_final_check(&self, info: StreamInfo) -> (s: MonitorStep)
        ensures
            info == StreamInfo::Offline ==> opt_luci(s.luci) == stream_status("offline"@) && s.event
                is None && s.log is None && s.next == MonitorNext::Done,
            info != StreamInfo::Offline ==> opt_luci(s.luci) == stream_status("probing"@) && s.event
                is None && s.log is None && s.next == MonitorNext::Probe,
    {
        if info == StreamInfo::Offline {
            MonitorStep {
                luci: Some(luci::set("stream", "offline")),
                log: None,
                event: None,
                next: MonitorNext::Done,
            }
        } else {
            MonitorStep {
                luci: Some(luci::set("stream", "probing")),
                log: None,
                event: None,
                next: MonitorNext::Probe,
            }
        }
    }

    /// The probe: playing confirms (status `live`); otherwise the stream timed
    /// out (status `timeout`). Either way the monitor is done.
    pub fn on_probe(&self, playing: bool) -> (s: MonitorStep)
        ensures
            playing ==> opt_luci(s.luci) == stream_status("live"@) && s.event == Some(
                Event::BilibiliStreamConfirmed { room_id: self.room_id },
            ) && (s.log matches Some(l) && l@
                == "[Bili:Live] Live stream confirmed - PlayUrl - ✓ 直播视频流验证成功"@),
            !playing ==> opt_luci(s.luci) == stream_status("timeout"@) && s.event == Some(
                Event::BilibiliStreamTimeout { room_id: self.room_id },
            ) && s.log is None,
            s.next == MonitorNext::Done,
    {
        if playing {
            MonitorStep {
                luci: Some(luci::set("stream", "live")),
                log: Some(string_of("[Bili:Live] Live stream confirmed - PlayUrl - ✓ 直播视频流验证成功")),
                event: Some(Event::BilibiliStreamConfirmed { room_id: self.room_id }),
                next: MonitorNext::Done,
            }
        } else {
            MonitorStep {
                luci: Some(luci::set("stream", "timeout")),
                log: None,
                event: Some(Event::BilibiliStreamTimeout { room_id: self.room_id }),
                next: MonitorNext::Done,
            }
        }
    }
}

} // verus!
