//! Bilibili live control: modes, clients, the login cookie, and the
//! classification of start-live answers.
use vstd::prelude::*;
use crate::common::error::AppError;
use crate::common::event::Event;
use crate::text::{
    chars_of, eq_ignore_case, equals_ignore_case, find_char, find_in, find_str, push_str, parse_i64_range, parse_int_spec, range_eq, ranges_of, split_char, split_ranges, string_from_chars,
    string_of, trim, trim_range,
};

verus! {

/// When the broadcast starts: as soon as the PS5 publishes, or by hand.
#[derive(Debug, Clone, Copy, PartialEq, Eq, Structural)]
pub enum LiveMode {
    Auto,
    Manual,
}

impl Default for LiveMode {
    fn default() -> (m: LiveMode)
        ensures
            m == LiveMode::Auto,
    {
        LiveMode::Auto
    }
}

/// Which Bilibili client API a broadcast was started through; stopping uses the same one.
#[derive(Debug, Clone, Copy, PartialEq, Eq, Structural)]
pub enum LiveClient {
    Electron,
    Livehime,
}

// ── The login cookie ──

/// The name and value of one `name=value` pair of a cookie string: the pair
/// trimmed, split at its first `=`, both sides trimmed; none without `=`.
pub open spec fn cookie_pair(p: Seq<char>) -> Option<(Seq<char>, Seq<char>)> {
    let t = trim(p);
    let k = find_char(t, '=');
    if k < t.len() {
        Some((trim(t.take(k)), trim(t.skip(k + 1))))
    } else {
        None
    }
}

/// The value of the last pair named `name`, empty when there is none.
pub open spec fn cookie_last(ps: Seq<Seq<char>>, name: Seq<char>) -> Seq<char>
    decreases ps.len(),
{
    if ps.len() == 0 {
        Seq::empty()
    } else {
        match cookie_pair(ps.last()) {
            Some((k, v)) if k == name => v,
            _ => cookie_last(ps.drop_last(), name),
        }
    }
}

/// The value of the first pair named `name`, if any.
pub open spec fn cookie_first(ps: Seq<Seq<char>>, name: Seq<char>) -> Option<Seq<char>>
    decreases ps.len(),
{
    if ps.len() == 0 {
        None
    } else {
        match cookie_pair(ps[0]) {
            Some((k, v)) if k == name => Some(v),
            _ => cookie_first(ps.drop_first(), name),
        }
    }
}

/// The `;`-separated pairs of a cookie string.
pub open spec fn cookie_pairs(cookie: Seq<char>) -> Seq<Seq<char>> {
    split_char(cookie, ';')
}

/// The bounds of the name and value of the pair `v[lo..hi]`.
fn pair_ranges(v: &Vec<char>, lo: usize, hi: usize) -> (r: Option<((usize, usize), (usize, usize))>)
    requires
        lo <= hi <= v.len(),
    ensures
        r is None <==> cookie_pair(v@.subrange(lo as int, hi as int)) is None,
        r matches Some((kr, vr)) ==> kr.0 <= kr.1 <= v.len() && vr.0 <= vr.1 <= v.len()
            && cookie_pair(v@.subrange(lo as int, hi as int)) == Some(
            (v@.subrange(kr.0 as int, kr.1 as int), v@.subrange(vr.0 as int, vr.1 as int)),
        ),
{
    let (a, b) = trim_range(v, lo, hi);
    let k = find_in(v, '=', a, b);
    let ghost t = v@.subrange(a as int, b as int);
    assert(t == trim(v@.subrange(lo as int, hi as int)));
    if k == b {
        return None;
    }
    let kr = trim_range(v, a, k);
    let vr = trim_range(v, k + 1, b);
    assert(t.take(k - a) =~= v@.subrange(a as int, k as int));
    assert(t.skip(k - a + 1) =~= v@.subrange(k + 1, b as int));
    Some((kr, vr))
}

/// Takes `SESSDATA` and `bili_jct` (the CSRF token) from a cookie string; the
/// last pair of each name counts. Fails when either is missing or empty.
pub fn parse_cookies(cookie: &str) -> (r: Result<(String, String), AppError>)
    ensures
        ({
            let s = cookie_last(cookie_pairs(cookie@), "SESSDATA"@);
            let j = cookie_last(cookie_pairs(cookie@), "bili_jct"@);
            if s.len() == 0 || j.len() == 0 {
                r matches Err(AppError::General(m)) && m@ == "Missing SESSDATA or bili_jct"@
            } else {
                r matches Ok((a, b)) && a@ == s && b@ == j
            }
        }),
{
    let v = chars_of(cookie);
    let pieces = split_ranges(&v, ';');
    let ghost ps = cookie_pairs(cookie@);
    let mut sess = String::new();
    let mut jct = String::new();
    let mut i: usize = 0;
    while i < pieces.len()
        invariant
            v@ == cookie@,
            ps == cookie_pairs(cookie@),
            ranges_of(v@, pieces@, ps),
            0 <= i <= pieces.len(),
            sess@ == cookie_last(ps.take(i as int), "SESSDATA"@),
            jct@ == cookie_last(ps.take(i as int), "bili_jct"@),
        decreases pieces.len() - i,
    {
        let (lo, hi) = pieces[i];
        let ghost p = ps[i as int];
        assert(v@.subrange(lo as int, hi as int) == p);
        assert(ps.take(i + 1).drop_last() =~= ps.take(i as int));
        assert(ps.take(i + 1).last() == p);
        proof {
            reveal_strlit("SESSDATA");
            reveal_strlit("bili_jct");
            assert("SESSDATA"@ != "bili_jct"@) by {
                assert("SESSDATA"@[0] != "bili_jct"@[0]);
            }
        }
        match pair_ranges(&v, lo, hi) {
            Some((kr, vr)) => {
                if range_eq(&v, kr.0, kr.1, "SESSDATA") {
                    sess = string_from_chars(&v, vr.0, vr.1);
                } else if range_eq(&v, kr.0, kr.1, "bili_jct") {
                    jct = string_from_chars(&v, vr.0, vr.1);
                }
            },
            None => {},
        }
        i = i + 1;
    }
    assert(ps.take(i as int) =~= ps);
    if sess.as_str().is_empty() || jct.as_str().is_empty() {
        Err(AppError::General(string_of("Missing SESSDATA or bili_jct")))
    } else {
        Ok((sess, jct))
    }
}

/// The value of the first pair named `name` in a cookie string.
fn cookie_value(cookie: &str, name: &str) -> (r: Option<String>)
    ensures
        r matches Some(x) ==> cookie_first(cookie_pairs(cookie@), name@) == Some(x@),
        r is None <==> cookie_first(cookie_pairs(cookie@), name@) is None,
{
    let v = chars_of(cookie);
    let pieces = split_ranges(&v, ';');
    let ghost ps = cookie_pairs(cookie@);
    let mut i: usize = 0;
    assert(ps.skip(0) =~= ps);
    while i < pieces.len()
        invariant
            v@ == cookie@,
            ps == cookie_pairs(cookie@),
            ranges_of(v@, pieces@, ps),
            0 <= i <= pieces.len(),
            cookie_first(ps, name@) == cookie_first(ps.skip(i as int), name@),
        decreases pieces.len() - i,
    {
        let (lo, hi) = pieces[i];
        let ghost p = ps[i as int];
        assert(v@.subrange(lo as int, hi as int) == p);
        assert(ps.skip(i as int)[0] == p);
        assert(ps.skip(i as int).drop_first() =~= ps.skip(i + 1));
        match pair_ranges(&v, lo, hi) {
            Some((kr, vr)) => {
                if range_eq(&v, kr.0, kr.1, name) {
                    return Some(string_from_chars(&v, vr.0, vr.1));
                }
            },
            None => {},
        }
        i = i + 1;
    }
    assert(ps.skip(i as int) =~= Seq::<Seq<char>>::empty());
    None
}

/// Pair `i` is the only one named `name`.
pub open spec fn only_pair_named(ps: Seq<Seq<char>>, name: Seq<char>, i: int) -> bool {
    &&& 0 <= i < ps.len()
    &&& cookie_pair(ps[i]) matches Some((k, _)) && k == name
    &&& forall|j: int|
        0 <= j < ps.len() && j != i ==> !(cookie_pair(#[trigger] ps[j]) matches Some((k, _)) && k == name)
}

proof fn lemma_first_of_only(ps: Seq<Seq<char>>, name: Seq<char>, i: int)
    requires
        only_pair_named(ps, name, i),
    ensures
        cookie_first(ps, name) == Some(cookie_pair(ps[i])->Some_0.1),
    decreases ps.len(),
{
    if i > 0 {
        let rest = ps.drop_first();
        assert forall|j: int| 0 <= j < rest.len() && j != i - 1 implies !(cookie_pair(
            #[trigger] rest[j],
        ) matches Some((k, _)) && k == name) by {
            assert(rest[j] == ps[j + 1]);
        }
        assert(rest[i - 1] == ps[i]);
        lemma_first_of_only(rest, name, i - 1);
        assert(!(cookie_pair(ps[0]) matches Some((k, _)) && k == name));
    }
}

proof fn lemma_last_of_only(ps: Seq<Seq<char>>, name: Seq<char>, i: int)
    requires
        only_pair_named(ps, name, i),
    ensures
        cookie_last(ps, name) == cookie_pair(ps[i])->Some_0.1,
    decreases ps.len(),
{
    if i < ps.len() - 1 {
        let rest = ps.drop_last();
        assert forall|j: int| 0 <= j < rest.len() && j != i implies !(cookie_pair(
            #[trigger] rest[j],
        ) matches Some((k, _)) && k == name) by {
            assert(rest[j] == ps[j]);
        }
        assert(rest[i] == ps[i]);
        lemma_last_of_only(rest, name, i);
        assert(!(cookie_pair(ps[ps.len() - 1]) matches Some((k, _)) && k == name));
    }
}

/// When a cookie string holds a single `bili_jct` pair, the CSRF token that
/// the start and stop calls take (`parse_cookies`, the last pair) is the one
/// that the room update takes (`extract_bili_jct`, the first pair).
pub proof fn law_csrf_token_agrees(cookie: Seq<char>, i: int)
    requires
        only_pair_named(cookie_pairs(cookie), "bili_jct"@, i),
    ensures
        cookie_first(cookie_pairs(cookie), "bili_jct"@) == Some(
            cookie_last(cookie_pairs(cookie), "bili_jct"@),
        ),
{
    lemma_first_of_only(cookie_pairs(cookie), "bili_jct"@, i);
    lemma_last_of_only(cookie_pairs(cookie), "bili_jct"@, i);
}

/// The user id (`DedeUserID`) in a cookie string, if any.
pub fn get_uid(cookie: &str) -> (r: Option<String>)
    ensures
        r matches Some(x) ==> cookie_first(cookie_pairs(cookie@), "DedeUserID"@) == Some(x@),
        r is None <==> cookie_first(cookie_pairs(cookie@), "DedeUserID"@) is None,
{
    cookie_value(cookie, "DedeUserID")
}

/// The CSRF token (`bili_jct`) in a cookie string, if any.
pub fn extract_bili_jct(cookie: &str) -> (r: Option<String>)
    ensures
        r matches Some(x) ==> cookie_first(cookie_pairs(cookie@), "bili_jct"@) == Some(x@),
        r is None <==> cookie_first(cookie_pairs(cookie@), "bili_jct"@) is None,
{
    cookie_value(cookie, "bili_jct")
}

} // verus!

verus! {

/// Reads the code and message out of the text of an API error. The text of
/// an API error is `BiliAPI (<operation>, code=<code>): <message>`; the code is
/// read from just after `BiliAPI ` up to the first comma, and there stands the
/// `(`, which no integer begins with, so no text ever yields a code: the answer
/// is always `-1` with the whole text.
pub fn parse_api_error(err: &str) -> (r: (i64, String))
    ensures
        r.0 == -1,
        r.1@ == err@,
{
    let v = chars_of(err);
    match find_str(&v, "BiliAPI (") {
        Some(pos) => {
            proof {
                reveal_strlit("BiliAPI (");
                assert(v@.subrange(pos as int, pos + 9)[8] == '(');
            }
            let start = pos + 8;
            let comma = find_in(&v, ',', start, v.len());
            if comma < v.len() {
                match parse_i64_range(&v, start, comma) {
                    Some(code) => {
                        proof {
                            let s = v@.subrange(start as int, comma as int);
                            assert(s.len() > 0 ==> s[0] == '(');
                            if s.len() > 0 {
                                assert(!('0' <= s[0] && s[0] <= '9'));
                            }
                            assert(parse_int_spec(s, true) is None);
                            assert(false);
                        }
                        return (code, string_of(err));
                    },
                    None => {},
                }
            }
        },
        None => {},
    }
    (-1, string_of(err))
}

} // verus!

verus! {

/// The mode a name stands for: `auto` or `manual` in any letter case.
pub open spec fn mode_spec(s: Seq<char>) -> Option<LiveMode> {
    if eq_ignore_case(s, "auto"@) {
        Some(LiveMode::Auto)
    } else if eq_ignore_case(s, "manual"@) {
        Some(LiveMode::Manual)
    } else {
        None
    }
}

impl LiveMode {
    /// Reads a mode name: `auto` or `manual`, in any letter case; anything
    /// else is refused with `Invalid live_mode: '<text>'`.
    pub fn from_str(s: &str) -> (r: Result<LiveMode, String>)
        ensures
            mode_spec(s@) matches Some(m) ==> r == Ok::<LiveMode, String>(m),
            mode_spec(s@) is None ==> (r matches Err(m) && m@ == "Invalid live_mode: '"@ + s@
                + "'"@),
    {
        let v = chars_of(s);
        if equals_ignore_case(&v, "auto") {
            Ok(LiveMode::Auto)
        } else if equals_ignore_case(&v, "manual") {
            Ok(LiveMode::Manual)
        } else {
            let mut m = string_of("Invalid live_mode: '");
            push_str(&mut m, s);
            push_str(&mut m, "'");
            Err(m)
        }
    }
}

// ── Starting and stopping a broadcast ──

/// One answer of a start-live API call.
pub enum StartLiveResult {
    /// Started; the ingest address and key.
    Success { rtmp_url: String, stream_key: String },
    /// Refused with this code and message, and a face-verification link when one is needed.
    Failed { code: i32, message: String, face_auth_url: Option<String> },
}

/// What one attempt to start a broadcast came to.
pub enum StartOutcome {
    Started { rtmp_url: String, stream_key: String, client: LiveClient },
    AuthRequired { face_auth_url: Option<String> },
    Failed { code: i64, message: String },
}

/// A face verification is needed (codes 60024 and 60043).
pub open spec fn is_face_code(code: i32) -> bool {
    code == 60024 || code == 60043
}

/// The answer of the first client stands: a success or a face-verification request.
pub open spec fn keeps_first_answer(result: Result<StartLiveResult, String>) -> bool {
    match result {
        Ok(StartLiveResult::Success { .. }) => true,
        Ok(StartLiveResult::Failed { code, .. }) => is_face_code(code),
        Err(_) => false,
    }
}

/// Whether the answer of the Electron API sends the start on to the Livehime
/// API: every answer but a success or a face-verification request. `Err`
/// holds the text of a failed call.
pub fn needs_fallback(result: &Result<StartLiveResult, String>) -> (b: bool)
    ensures
        b == !keeps_first_answer(*result),
{
    match result {
        Ok(StartLiveResult::Success { .. }) => false,
        Ok(StartLiveResult::Failed { code, .. }) => !(*code == 60024 || *code == 60043),
        Err(_) => true,
    }
}

/// The outcome of the last answer, from the client that gave it: a success is
/// started; a face-verification request asks for it; another refusal fails
/// with its code; a failed call fails with the code and message read from its
/// text.
pub open spec fn classify_spec(result: Result<StartLiveResult, String>, client: LiveClient) -> StartOutcome {
    match result {
        Ok(StartLiveResult::Success { rtmp_url, stream_key }) => StartOutcome::Started {
            rtmp_url,
            stream_key,
            client,
        },
        Ok(StartLiveResult::Failed { code, message, face_auth_url }) => if is_face_code(code) {
            StartOutcome::AuthRequired { face_auth_url }
        } else {
            StartOutcome::Failed { code: code as i64, message }
        },
        Err(text) => StartOutcome::Failed { code: -1i64, message: text },
    }
}

/// Classifies the last answer of an attempt to start a broadcast.
pub fn classify_start(result: Result<StartLiveResult, String>, client: LiveClient) -> (o: StartOutcome)
    ensures
        result is Ok ==> o == classify_spec(result, client),
        result matches Err(text) ==> o matches StartOutcome::Failed { code, message } && code == -1
            && message@ == text@,
{
    match result {
        Ok(StartLiveResult::Success { rtmp_url, stream_key }) => StartOutcome::Started {
            rtmp_url,
            stream_key,
            client,
        },
        Ok(StartLiveResult::Failed { code, message, face_auth_url }) => {
            if code == 60024 || code == 60043 {
                StartOutcome::AuthRequired { face_auth_url }
            } else {
                StartOutcome::Failed { code: code as i64, message }
            }
        },
        Err(text) => {
            let (code, message) = parse_api_error(text.as_str());
            StartOutcome::Failed { code, message }
        },
    }
}

/// A refusal waits for face verification exactly on the codes 60024 and
/// 60043, with the link it came with; every other refusal fails with its own
/// code and message. The answers that wait are exactly those of a refusal that
/// the first client's answer keeps, and a success starts with the client that
/// gave it.
pub proof fn law_face_codes_wait(
    code: i32,
    message: String,
    face_auth_url: Option<String>,
    rtmp_url: String,
    stream_key: String,
    client: LiveClient,
)
    ensures
        (code == 60024 || code == 60043) ==> classify_spec(
            Ok(StartLiveResult::Failed { code, message, face_auth_url }),
            client,
        ) == (StartOutcome::AuthRequired { face_auth_url }),
        !(code == 60024 || code == 60043) ==> classify_spec(
            Ok(StartLiveResult::Failed { code, message, face_auth_url }),
            client,
        ) == (StartOutcome::Failed { code: code as i64, message }),
        classify_spec(Ok(StartLiveResult::Failed { code, message, face_auth_url }), client)
            is AuthRequired <==> keeps_first_answer(
            Ok(StartLiveResult::Failed { code, message, face_auth_url }),
        ),
        keeps_first_answer(Ok(StartLiveResult::Failed { code, message, face_auth_url })) <==> (
        code == 60024 || code == 60043),
        classify_spec(Ok(StartLiveResult::Success { rtmp_url, stream_key }), client) == (
        StartOutcome::Started { rtmp_url, stream_key, client }),
{
}

/// The event that reports an attempt to start.
pub open spec fn outcome_event_spec(o: StartOutcome) -> Event {
    match o {
        StartOutcome::Started { rtmp_url, stream_key, client } => Event::BilibiliLiveStarted {
            rtmp_url,
            stream_key,
            client,
        },
        StartOutcome::AuthRequired { face_auth_url } => Event::BilibiliAuthRequired { face_auth_url },
        StartOutcome::Failed { code, message } => Event::BilibiliLiveStartFailed { code, message },
    }
}

/// Turns the outcome of an attempt to start into the event that reports it;
/// after a start the caller also watches whether the stream shows up.
pub fn outcome_event(o: StartOutcome) -> (e: Event)
    ensures
        e == outcome_event_spec(o),
{
    match o {
        StartOutcome::Started { rtmp_url, stream_key, client } => Event::BilibiliLiveStarted {
            rtmp_url,
            stream_key,
            client,
        },
        StartOutcome::AuthRequired { face_auth_url } => Event::BilibiliAuthRequired { face_auth_url },
        StartOutcome::Failed { code, message } => Event::BilibiliLiveStartFailed { code, message },
    }
}

/// What an API call that needs the login is given: the CSRF token (the last
/// `bili_jct`), when the cookie holds both `SESSDATA` and `bili_jct`; else the
/// failure `(-1, "Missing SESSDATA or bili_jct")`, and no call is made.
pub open spec fn csrf_spec(cookie: Seq<char>) -> Result<Seq<char>, (i64, Seq<char>)> {
    let s = cookie_last(cookie_pairs(cookie), "SESSDATA"@);
    let j = cookie_last(cookie_pairs(cookie), "bili_jct"@);
    if s.len() == 0 || j.len() == 0 {
        Err((-1i64, "Missing SESSDATA or bili_jct"@))
    } else {
        Ok(j)
    }
}

/// A start-live call to make: the login's CSRF token and user id, the room,
/// area and title.
pub struct StartCall {
    pub csrf: String,
    pub uid: Option<String>,
    pub room_id: u64,
    pub area_v2: String,
    pub title: Option<String>,
}

/// A stop-live call to make, through the client the broadcast was started by.
pub struct StopCall {
    pub csrf: String,
    pub room_id: u64,
    pub client: LiveClient,
}

fn csrf_of(cookie: &str) -> (r: Result<String, (i64, String)>)
    ensures
        (match r {
            Ok(c) => Ok(c@),
            Err((code, m)) => Err((code, m@)),
        }) == csrf_spec(cookie@),
{
    match parse_cookies(cookie) {
        Ok((_, jct)) => Ok(jct),
        Err(e) => {
            let m = e.describe();
            Err((-1, m))
        },
    }
}

/// The start-live call for a cookie: the Electron client is tried first (the
/// caller falls back to Livehime when `needs_fallback` says so). Fails with
/// `-1` and the cookie's error, making no call, when the cookie lacks
/// `SESSDATA` or `bili_jct`.
pub fn start_live_plan(cookie: &str, room_id: u64, area_v2: &str, title: Option<&str>) -> (r: Result<StartCall, (i64, String)>)
    ensures
        csrf_spec(cookie@) matches Err((c, m)) ==> (r matches Err((c2, m2)) && c2 == c && m2@ == m),
        csrf_spec(cookie@) matches Ok(j) ==> (r matches Ok(call) && call.csrf@ == j && call.room_id == room_id
            && call.area_v2@ == area_v2@ && (match title {
            Some(t) => call.title matches Some(u) && u@ == t@,
            None => call.title is None,
        }) && (match call.uid {
            Some(u) => cookie_first(cookie_pairs(cookie@), "DedeUserID"@) == Some(u@),
            None => cookie_first(cookie_pairs(cookie@), "DedeUserID"@) is None,
        })),
{
    match csrf_of(cookie) {
        Err(e) => Err(e),
        Ok(csrf) => Ok(StartCall {
            csrf,
            uid: get_uid(cookie),
            room_id,
            area_v2: string_of(area_v2),
            title: match title {
                Some(t) => Some(string_of(t)),
                None => None,
            },
        }),
    }
}

/// The stop-live call for a cookie, through `client`. Fails with `-1` and the
/// cookie's error, making no call, when the cookie lacks `SESSDATA` or `bili_jct`.
pub fn stop_live_plan(cookie: &str, room_id: u64, client: LiveClient) -> (r: Result<StopCall, (i64, String)>)
    ensures
        csrf_spec(cookie@) matches Err((c, m)) ==> (r matches Err((c2, m2)) && c2 == c && m2@ == m),
        csrf_spec(cookie@) matches Ok(j) ==> (r matches Ok(call) && call.csrf@ == j && call.room_id == room_id
            && call.client == client),
{
    match csrf_of(cookie) {
        Err(e) => Err(e),
        Ok(csrf) => Ok(StopCall { csrf, room_id, client }),
    }
}

/// The result of a stop-live call: success, or a failure with the code and
/// message that `parse_api_error` reads from the text of the error.
pub fn stop_result(result: Result<(), String>) -> (r: Result<(), (i64, String)>)
    ensures
        result is Ok ==> r is Ok,
        result matches Err(t) ==> (r matches Err((c, m)) && c == -1 && m@ == t@),
{
    match result {
        Ok(()) => Ok(()),
        Err(t) => Err(parse_api_error(t.as_str())),
    }
}

/// Turns the result of a stop-live call into the event that reports it.
pub fn stop_event(result: Result<(), (i64, String)>) -> (e: Event)
    ensures
        result is Ok ==> e is BilibiliLiveStopped,
        result matches Err((c, m)) ==> e == (Event::BilibiliLiveStopFailed { code: c, message: m }),
{
    match result {
        Ok(()) => Event::BilibiliLiveStopped,
        Err((code, message)) => Event::BilibiliLiveStopFailed { code, message },
    }
}

} // verus!

verus! {

/// A shade of the terminal rendering of a QR code.
pub enum QrShade {
    Dark,
    Light,
}

/// The QR code of `data` drawn with Unicode half blocks, dark modules in
/// `dark` and light ones in `light`, as the qrcode crate renders it; or the
/// text of its error when `data` does not fit in a QR code.
pub uninterp spec fn qr_text_of(data: Seq<char>, dark: QrShade, light: QrShade) -> Result<Seq<char>, Seq<char>>;

/// A string result as a result of character sequences.
pub open spec fn result_view(r: Result<String, String>) -> Result<Seq<char>, Seq<char>> {
    match r {
        Ok(s) => Ok(s@),
        Err(e) => Err(e@),
    }
}

/// qrcode (`QrCode::new`, `render::<Dense1x2>`, `dark_color`, `light_color`,
/// `build`; the error's `Display`): the rendered QR code. The contract only
/// names the result.
#[verifier::external_body]
fn qr_text(data: &str, dark: QrShade, light: QrShade) -> (r: Result<String, String>)
    ensures
        result_view(r) == qr_text_of(data@, dark, light),
{
    let d = match dark {
        QrShade::Dark => qrcode::render::unicode::Dense1x2::Dark,
        QrShade::Light => qrcode::render::unicode::Dense1x2::Light,
    };
    let l = match light {
        QrShade::Dark => qrcode::render::unicode::Dense1x2::Dark,
        QrShade::Light => qrcode::render::unicode::Dense1x2::Light,
    };
    match qrcode::QrCode::new(data) {
        Ok(code) => Ok(code.render::<qrcode::render::unicode::Dense1x2>().dark_color(d).light_color(l).build()),
        Err(e) => Err(e.to_string()),
    }
}

/// The face-verification QR code for the terminal (drawn inverted, light on
/// dark), under a heading; or the warning when it cannot be drawn.
pub fn face_auth_qrcode(url: &str) -> (r: Result<String, String>)
    ensures
        qr_text_of(url@, QrShade::Light, QrShade::Dark) matches Ok(img) ==> (r matches Ok(s) && s@
            == "\n人脸验证二维码:\n"@ + img),
        qr_text_of(url@, QrShade::Light, QrShade::Dark) matches Err(e) ==> (r matches Err(w) && w@
            == "Bili:Live: 二维码生成失败: "@ + e),
{
    match qr_text(url, QrShade::Light, QrShade::Dark) {
        Ok(img) => {
            let mut s = string_of("\n人脸验证二维码:\n");
            push_str(&mut s, img.as_str());
            Ok(s)
        },
        Err(e) => {
            let mut w = string_of("Bili:Live: 二维码生成失败: ");
            push_str(&mut w, e.as_str());
            Err(w)
        },
    }
}

/// The warning shown when a start needs a face verification: the API error
/// with the meaning of its code (`需要验证` when the code has none).
pub fn auth_warning(code: i32) -> (w: String)
    ensures
        w@ == "Bili:Live: "@ + "BiliAPI ("@ + "StartLive"@ + ", code="@ + crate::text::dec_int(code as int)
            + "): "@ + crate::common::error::start_live_error_spec(code as i64, "需要验证"@),
{
    let e = AppError::bili_api("StartLive", code as i64, crate::common::error::start_live_error(code as i64, "需要验证"));
    let d = e.describe();
    let mut w = string_of("Bili:Live: ");
    push_str(&mut w, d.as_str());
    w
}

} // verus!
