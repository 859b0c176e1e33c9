//! The relay from the local ingest to Bilibili: codec names, which streams are
//! copied, and how a run ended.
use vstd::prelude::*;
use crate::common::error::{FfmpegErrorKind, FfmpegExitStatus};
use crate::common::event::Event;
use crate::text::{chars_of, push_str, push_u64, string_from_chars, string_of, trim, trim_range, dec_nat};

verus! {

/// A command for the relay actor.
pub enum FfmpegCommand {
    Start {
        ps5_app: String,
        ps5_stream_key: String,
        bilibili_rtmp_url: String,
        bilibili_stream_key: String,
    },
    Stop,
}

/// The kinds of stream the relay copies.
#[derive(Debug, Clone, Copy, PartialEq, Eq, Structural)]
pub enum AVMediaType {
    AVMEDIA_TYPE_VIDEO,
    AVMEDIA_TYPE_AUDIO,
}

/// The short name of a codec id; `?` for the others.
pub open spec fn codec_name_spec(id: i32) -> Seq<char> {
    if id == 27 {
        "AVC"@
    } else if id == 28 {
        "HEVC"@
    } else if id == 12 {
        "MPEG2"@
    } else if id == 86018 {
        "AAC"@
    } else if id == 86017 {
        "MP3"@
    } else if id == 86056 {
        "OPUS"@
    } else {
        "?"@
    }
}

/// The short name of a codec id.
pub fn codec_name(id: i32) -> (s: &'static str)
    ensures
        s@ == codec_name_spec(id),
{
    if id == 27 {
        "AVC"
    } else if id == 28 {
        "HEVC"
    } else if id == 12 {
        "MPEG2"
    } else if id == 86018 {
        "AAC"
    } else if id == 86017 {
        "MP3"
    } else if id == 86056 {
        "OPUS"
    } else {
        "?"
    }
}

/// The input stream is copied: it is video or audio.
pub open spec fn is_av(t: Option<AVMediaType>) -> bool {
    t is Some
}

/// How many of the streams are copied.
pub open spec fn count_av(ts: Seq<Option<AVMediaType>>) -> int
    decreases ts.len(),
{
    if ts.len() == 0 {
        0
    } else {
        count_av(ts.drop_last()) + if is_av(ts.last()) {
            1int
        } else {
            0int
        }
    }
}

proof fn lemma_count_av_bound(ts: Seq<Option<AVMediaType>>)
    ensures
        0 <= count_av(ts) <= ts.len(),
    decreases ts.len(),
{
    if ts.len() > 0 {
        lemma_count_av_bound(ts.drop_last());
    }
}

/// The output index of each input stream: the copied streams (video and
/// audio, `Some` here) are numbered in order from 0; the others get -1.
pub fn stream_map(types: &Vec<Option<AVMediaType>>) -> (m: Vec<i32>)
    requires
        types.len() <= i32::MAX,
    ensures
        m.len() == types.len(),
        forall|i: int|
            0 <= i < m.len() ==> #[trigger] m@[i] == (if is_av(types@[i]) {
                count_av(types@.take(i)) as i32
            } else {
                -1i32
            }),
{
    let mut m: Vec<i32> = Vec::new();
    let mut mapped: i32 = 0;
    let mut i: usize = 0;
    while i < types.len()
        invariant
            types.len() <= i32::MAX,
            0 <= i <= types.len(),
            m.len() == i,
            mapped == count_av(types@.take(i as int)),
            forall|j: int|
                0 <= j < i ==> #[trigger] m@[j] == (if is_av(types@[j]) {
                    count_av(types@.take(j)) as i32
                } else {
                    -1i32
                }),
        decreases types.len() - i,
    {
        proof {
            lemma_count_av_bound(types@.take(i as int));
            assert(types@.take(i + 1).drop_last() =~= types@.take(i as int));
            assert(types@.take(i + 1).last() == types@[i as int]);
        }
        if types[i].is_some() {
            m.push(mapped);
            mapped = mapped + 1;
        } else {
            m.push(-1);
        }
        i = i + 1;
    }
    m
}

/// The output index of a packet of input stream `idx`, when that stream is copied.
pub fn remap(map: &Vec<i32>, idx: usize) -> (r: Option<i32>)
    ensures
        (idx < map.len() && map@[idx as int] >= 0) ==> r == Some(map@[idx as int]),
        !(idx < map.len() && map@[idx as int] >= 0) ==> r is None,
{
    if idx < map.len() && map[idx] >= 0 {
        Some(map[idx])
    } else {
        None
    }
}

/// The description of one input stream: `#<index> <kind> <codec>`, the kind
/// `Video:`, `Audio:` or `?: `.
pub open spec fn stream_desc_spec(index: u32, t: Option<AVMediaType>, codec_id: i32) -> Seq<char> {
    "#"@ + dec_nat(index as nat) + " "@ + (match t {
        Some(AVMediaType::AVMEDIA_TYPE_VIDEO) => "Video:"@,
        Some(AVMediaType::AVMEDIA_TYPE_AUDIO) => "Audio:"@,
        None => "?: "@,
    }) + " "@ + codec_name_spec(codec_id)
}

/// Describes one input stream for the log.
pub fn stream_desc(index: u32, t: Option<AVMediaType>, codec_id: i32) -> (s: String)
    ensures
        s@ == stream_desc_spec(index, t, codec_id),
{
    let mut s = string_of("#");
    push_u64(&mut s, index as u64);
    push_str(&mut s, " ");
    match t {
        Some(AVMediaType::AVMEDIA_TYPE_VIDEO) => push_str(&mut s, "Video:"),
        Some(AVMediaType::AVMEDIA_TYPE_AUDIO) => push_str(&mut s, "Audio:"),
        None => push_str(&mut s, "?: "),
    }
    push_str(&mut s, " ");
    push_str(&mut s, codec_name(codec_id));
    s
}

/// How an external relay process ended: success is a normal end; a kill by a
/// signal (no exit code) is a crash, with the trimmed error output; another
/// exit is an I/O error with the exit status and the trimmed error output.
pub fn classify_exit(success: bool, code: Option<i32>, status_text: &str, stderr: &str) -> (r: FfmpegExitStatus)
    ensures
        success ==> r is Normal,
        !success && code is None ==> (r matches FfmpegExitStatus::Error(FfmpegErrorKind::Crash(m))
            && m@ == "signal kill: "@ + trim(stderr@)),
        !success && code is Some ==> (r matches FfmpegExitStatus::Error(
            FfmpegErrorKind::IoError(m),
        ) && m@ == "exited with "@ + status_text@ + ": "@ + trim(stderr@)),
{
    if success {
        return FfmpegExitStatus::Normal;
    }
    let v = chars_of(stderr);
    let (a, b) = trim_range(&v, 0, v.len());
    assert(v@.subrange(0, v.len() as int) =~= stderr@);
    let err = string_from_chars(&v, a, b);
    match code {
        None => {
            let mut m = string_of("signal kill: ");
            push_str(&mut m, err.as_str());
            FfmpegExitStatus::Error(FfmpegErrorKind::Crash(m))
        },
        Some(_) => {
            let mut m = string_of("exited with ");
            push_str(&mut m, status_text);
            push_str(&mut m, ": ");
            push_str(&mut m, err.as_str());
            FfmpegExitStatus::Error(FfmpegErrorKind::IoError(m))
        },
    }
}

/// What the end of a run reports: nothing after a normal end, a relay
/// failure otherwise.
pub fn stream_end_event(status: FfmpegExitStatus) -> (e: Option<Event>)
    ensures
        status is Normal ==> e is None,
        !(status is Normal) ==> e == Some(Event::FfmpegError(status)),
{
    match status {
        FfmpegExitStatus::Normal => None,
        _ => Some(Event::FfmpegError(status)),
    }
}

} // verus!
