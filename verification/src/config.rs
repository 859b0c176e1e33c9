//! Configuration of the bridge: defaults, command-line overrides, the OpenWrt
//! UCI file, and the login cookies.
use vstd::prelude::*;
use crate::actors::blive::{LiveMode, cookie_pair, cookie_pairs, mode_spec};
use crate::common::error::AppError;
use crate::text::{
    chars_of, dec_nat, find_char, find_in, has_prefix, parse_u64_range, parse_u64_spec, push_str,
    push_u64, range_eq, range_starts_with, ranges_of, split_char, split_ranges, split_str,
    split_str_ranges, string_from_chars, string_of, strip_char, strip_range, trim, trim_range,
};

verus! {

/// The port of the RTMP ingest.
pub const RTMP_PORT: u16 = 1935;

/// The port of the IRC service the PS5 joins.
pub const IRC_PORT: u16 = 6667;

/// The whole configuration.
pub struct Config {
    pub live: LiveConfig,
    pub auth: AuthConfig,
    /// Desktop: start the built-in DNS proxy when redirection is missing.
    pub dns_proxy: bool,
    /// OpenWrt: redirect the Twitch names through dnsmasq.
    pub dns_redirect: bool,
}

/// The live room and how to go live.
pub struct LiveConfig {
    pub room_id: u64,
    pub title: String,
    pub area_v2: String,
    pub live_mode: LiveMode,
}

/// The login cookies.
pub struct AuthConfig {
    pub cookies: Vec<CookieEntry>,
}

/// One cookie.
pub struct CookieEntry {
    pub name: String,
    pub value: String,
}

/// The URL of a stream on the local RTMP ingest.
pub open spec fn rtmp_url_spec(host: Seq<char>, app: Seq<char>, key: Seq<char>) -> Seq<char> {
    "rtmp://"@ + host + ":"@ + dec_nat(RTMP_PORT as nat) + "/"@ + app + "/"@ + key
}

/// Builds `rtmp://<host>:<port>/<app>/<key>`.
pub fn rtmp_url(host: &str, app: &str, key: &str) -> (s: String)
    ensures
        s@ == rtmp_url_spec(host@, app@, key@),
{
    let mut s = string_of("rtmp://");
    push_str(&mut s, host);
    push_str(&mut s, ":");
    push_u64(&mut s, RTMP_PORT as u64);
    push_str(&mut s, "/");
    push_str(&mut s, app);
    push_str(&mut s, "/");
    push_str(&mut s, key);
    s
}

// ── Defaults ──

/// Switches are on unless configured off.
pub fn default_true() -> (b: bool)
    ensures
        b,
{
    true
}

/// No room until one is configured.
pub fn default_room_id() -> (r: u64)
    ensures
        r == 0,
{
    0
}

/// The default area: 237 (single-player games, console games).
pub fn default_area_v2() -> (s: String)
    ensures
        s@ == "237"@,
{
    string_of("237")
}

impl Default for LiveConfig {
    fn default() -> (c: LiveConfig)
        ensures
            c.room_id == 0,
            c.title@ == Seq::<char>::empty(),
            c.area_v2@ == "237"@,
            c.live_mode == LiveMode::Auto,
    {
        LiveConfig {
            room_id: default_room_id(),
            title: String::new(),
            area_v2: default_area_v2(),
            live_mode: LiveMode::Auto,
        }
    }
}

impl Default for AuthConfig {
    fn default() -> (c: AuthConfig)
        ensures
            c.cookies@.len() == 0,
    {
        AuthConfig { cookies: Vec::new() }
    }
}

impl Default for Config {
    fn default() -> (c: Config)
        ensures
            c.live.room_id == 0,
            c.live.title@ == Seq::<char>::empty(),
            c.live.area_v2@ == "237"@,
            c.live.live_mode == LiveMode::Auto,
            c.auth.cookies@.len() == 0,
            c.dns_proxy,
            c.dns_redirect,
    {
        Config {
            live: LiveConfig::default(),
            auth: AuthConfig::default(),
            dns_proxy: default_true(),
            dns_redirect: default_true(),
        }
    }
}

// ── Overrides and edits ──

impl Config {
    /// Applies the command-line overrides: each value given replaces the configured one.
    pub fn apply_cli_overrides(
        &mut self,
        room_id: Option<u64>,
        title: Option<String>,
        area: Option<String>,
        mode: Option<LiveMode>,
    )
        ensures
            final(self).live.room_id == (match room_id {
                Some(id) => id,
                None => old(self).live.room_id,
            }),
            final(self).live.title == (match title {
                Some(t) => t,
                None => old(self).live.title,
            }),
            final(self).live.area_v2 == (match area {
                Some(a) => a,
                None => old(self).live.area_v2,
            }),
            final(self).live.live_mode == (match mode {
                Some(m) => m,
                None => old(self).live.live_mode,
            }),
            final(self).auth == old(self).auth,
            final(self).dns_proxy == old(self).dns_proxy,
            final(self).dns_redirect == old(self).dns_redirect,
    {
        if let Some(id) = room_id {
            self.live.room_id = id;
        }
        if let Some(t) = title {
            self.live.title = t;
        }
        if let Some(a) = area {
            self.live.area_v2 = a;
        }
        if let Some(m) = mode {
            self.live.live_mode = m;
        }
    }

    /// Records the room id (the caller writes the configuration back).
    pub fn save_room_id(&mut self, room_id: u64)
        ensures
            final(self).live.room_id == room_id,
            final(self).live.title == old(self).live.title,
            final(self).live.area_v2 == old(self).live.area_v2,
            final(self).live.live_mode == old(self).live.live_mode,
            final(self).auth == old(self).auth,
            final(self).dns_proxy == old(self).dns_proxy,
            final(self).dns_redirect == old(self).dns_redirect,
    {
        self.live.room_id = room_id;
    }
}

} // verus!

verus! {

// ── Cookies ──

/// The name and value of each cookie.
pub open spec fn entries_view(es: Seq<CookieEntry>) -> Seq<(Seq<char>, Seq<char>)> {
    es.map_values(|e: CookieEntry| (e.name@, e.value@))
}

/// The pieces that `f` accepts, as the pairs it gives, in order.
pub open spec fn filter_pairs(
    ps: Seq<Seq<char>>,
    f: spec_fn(Seq<char>) -> Option<(Seq<char>, Seq<char>)>,
) -> Seq<(Seq<char>, Seq<char>)>
    decreases ps.len(),
{
    if ps.len() == 0 {
        Seq::empty()
    } else {
        let rest = filter_pairs(ps.drop_last(), f);
        match f(ps.last()) {
            Some(p) => rest.push(p),
            None => rest,
        }
    }
}

/// A pair of a command-line cookie string: trimmed `name=value` with a non-empty name.
pub open spec fn cli_pair(p: Seq<char>) -> Option<(Seq<char>, Seq<char>)> {
    match cookie_pair(p) {
        Some((n, v)) => if n.len() > 0 {
            Some((n, v))
        } else {
            None
        },
        None => None,
    }
}

/// A pair of the UCI cookie string: split at the first `=`, nothing trimmed.
pub open spec fn uci_pair(p: Seq<char>) -> Option<(Seq<char>, Seq<char>)> {
    let k = find_char(p, '=');
    if k < p.len() {
        Some((p.take(k), p.skip(k + 1)))
    } else {
        None
    }
}

/// Cookies joined as `name=value; name=value`.
pub open spec fn join_cookies(es: Seq<(Seq<char>, Seq<char>)>) -> Seq<char>
    decreases es.len(),
{
    if es.len() == 0 {
        Seq::empty()
    } else if es.len() == 1 {
        es[0].0 + "="@ + es[0].1
    } else {
        join_cookies(es.drop_last()) + "; "@ + es.last().0 + "="@ + es.last().1
    }
}

/// The cookie entries of a command-line cookie string: its `;`-separated
/// pairs, trimmed, with a name; pairs without `=` or with an empty name are
/// left out.
pub fn parse_cookie_entries(cookie: &str) -> (es: Vec<CookieEntry>)
    ensures
        entries_view(es@) == filter_pairs(cookie_pairs(cookie@), |p: Seq<char>| cli_pair(p)),
{
    let v = chars_of(cookie);
    let pieces = split_ranges(&v, ';');
    let ghost ps = cookie_pairs(cookie@);
    let ghost f = |p: Seq<char>| cli_pair(p);
    let mut es: Vec<CookieEntry> = Vec::new();
    let mut i: usize = 0;
    assert(entries_view(es@) =~= filter_pairs(ps.take(0), f));
    while i < pieces.len()
        invariant
            v@ == cookie@,
            ps == cookie_pairs(cookie@),
            f == (|p: Seq<char>| cli_pair(p)),
            ranges_of(v@, pieces@, ps),
            0 <= i <= pieces.len(),
            entries_view(es@) == filter_pairs(ps.take(i as int), f),
        decreases pieces.len() - i,
    {
        let (lo, hi) = pieces[i];
        assert(v@.subrange(lo as int, hi as int) == ps[i as int]);
        assert(ps.take(i + 1).drop_last() =~= ps.take(i as int));
        assert(ps.take(i + 1).last() == ps[i as int]);
        let (a, b) = trim_range(&v, lo, hi);
        let k = find_in(&v, '=', a, b);
        if k < b {
            let (na, nb) = trim_range(&v, a, k);
            let (va, vb) = trim_range(&v, k + 1, b);
            proof {
                let t = v@.subrange(a as int, b as int);
                assert(t.take(k - a) =~= v@.subrange(a as int, k as int));
                assert(t.skip(k - a + 1) =~= v@.subrange(k + 1, b as int));
            }
            if na < nb {
                let ghost before = es@;
                es.push(
                    CookieEntry {
                        name: string_from_chars(&v, na, nb),
                        value: string_from_chars(&v, va, vb),
                    },
                );
                assert(entries_view(es@) =~= entries_view(before).push(
                    (v@.subrange(na as int, nb as int), v@.subrange(va as int, vb as int)),
                ));
            }
        }
        i = i + 1;
    }
    assert(ps.take(i as int) =~= ps);
    es
}

impl Config {
    /// The configured cookies as one cookie string; fails when there are none.
    pub fn load_cookie_string(&self) -> (r: Result<String, AppError>)
        ensures
            self.auth.cookies@.len() == 0 ==> (r matches Err(AppError::General(m)) && m@
                == "No cookies found in config file"@),
            self.auth.cookies@.len() > 0 ==> (r matches Ok(s) && s@ == join_cookies(
                entries_view(self.auth.cookies@),
            )),
    {
        let cs = &self.auth.cookies;
        if cs.len() == 0 {
            return Err(AppError::General(string_of("No cookies found in config file")));
        }
        let ghost es = entries_view(cs@);
        let mut s = String::new();
        let mut i: usize = 0;
        while i < cs.len()
            invariant
                es == entries_view(cs@),
                0 <= i <= cs.len(),
                s@ == join_cookies(es.take(i as int)),
            decreases cs.len() - i,
        {
            assert(es.take(i + 1).drop_last() =~= es.take(i as int));
            assert(es.take(i + 1).last() == es[i as int]);
            if i > 0 {
                push_str(&mut s, "; ");
            }
            push_str(&mut s, cs[i].name.as_str());
            push_str(&mut s, "=");
            push_str(&mut s, cs[i].value.as_str());
            proof {
                if i == 0 {
                    assert(es.take(1)[0] == es[0]);
                }
            }
            i = i + 1;
        }
        assert(es.take(i as int) =~= es);
        Ok(s)
    }

    /// Takes the cookies from the output of `uci get pslinkb.auth.cookie`:
    /// when the trimmed output is not empty, its `; `-separated `name=value`
    /// pairs replace the configured cookies (pairs without `=` are left out);
    /// an empty output leaves them as they are.
    pub fn apply_uci_cookie(&mut self, raw: &str)
        ensures
            trim(raw@).len() == 0 ==> final(self).auth == old(self).auth,
            trim(raw@).len() > 0 ==> entries_view(final(self).auth.cookies@) == filter_pairs(
                split_str(trim(raw@), "; "@),
                |p: Seq<char>| uci_pair(p),
            ),
            final(self).live == old(self).live,
            final(self).dns_proxy == old(self).dns_proxy,
            final(self).dns_redirect == old(self).dns_redirect,
    {
        let v0 = chars_of(raw);
        let (a, b) = trim_range(&v0, 0, v0.len());
        assert(v0@.subrange(0, v0.len() as int) =~= raw@);
        if a == b {
            return;
        }
        let t = string_from_chars(&v0, a, b);
        let v = chars_of(t.as_str());
        proof {
            reveal_strlit("; ");
        }
        let pieces = split_str_ranges(&v, "; ");
        let ghost ps = split_str(v@, "; "@);
        let ghost f = |p: Seq<char>| uci_pair(p);
        let mut es: Vec<CookieEntry> = Vec::new();
        let mut i: usize = 0;
        assert(entries_view(es@) =~= filter_pairs(ps.take(0), f));
        while i < pieces.len()
            invariant
                v@ == trim(raw@),
                ps == split_str(v@, "; "@),
                f == (|p: Seq<char>| uci_pair(p)),
                ranges_of(v@, pieces@, ps),
                0 <= i <= pieces.len(),
                entries_view(es@) == filter_pairs(ps.take(i as int), f),
            decreases pieces.len() - i,
        {
            let (lo, hi) = pieces[i];
            assert(v@.subrange(lo as int, hi as int) == ps[i as int]);
            assert(ps.take(i + 1).drop_last() =~= ps.take(i as int));
            assert(ps.take(i + 1).last() == ps[i as int]);
            let k = find_in(&v, '=', lo, hi);
            if k < hi {
                let ghost before = es@;
                es.push(
                    CookieEntry {
                        name: string_from_chars(&v, lo, k),
                        value: string_from_chars(&v, k + 1, hi),
                    },
                );
                proof {
                    let p = v@.subrange(lo as int, hi as int);
                    assert(p.take(k - lo) =~= v@.subrange(lo as int, k as int));
                    assert(p.skip(k - lo + 1) =~= v@.subrange(k + 1, hi as int));
                    assert(entries_view(es@) =~= entries_view(before).push(
                        (v@.subrange(lo as int, k as int), v@.subrange(k + 1, hi as int)),
                    ));
                }
            }
            i = i + 1;
        }
        assert(ps.take(i as int) =~= ps);
        self.auth.cookies = es;
    }
}

} // verus!

verus! {

// ── The OpenWrt UCI file ──

/// What reading the UCI file has gathered so far.
#[verifier::ext_equal]
pub struct UciRead {
    pub room_id: u64,
    pub title: Seq<char>,
    pub area_v2: Seq<char>,
    pub live_mode: LiveMode,
    pub dns_redirect: bool,
    /// The type of the section being read (`live`, `auth`, `config`, ...).
    pub section: Seq<char>,
}

/// Before the first line: the defaults, outside any section.
pub open spec fn uci_init() -> UciRead {
    UciRead {
        room_id: 0,
        title: Seq::empty(),
        area_v2: "237"@,
        live_mode: LiveMode::Auto,
        dns_redirect: true,
        section: Seq::empty(),
    }
}

/// One `option <key> <value>` of the current section.
pub open spec fn uci_option(st: UciRead, key: Seq<char>, val: Seq<char>) -> UciRead {
    if st.section == "live"@ && key == "room_id"@ {
        match parse_u64_spec(val) {
            Some(id) => UciRead { room_id: id, ..st },
            None => st,
        }
    } else if st.section == "live"@ && key == "area_v2"@ {
        UciRead { area_v2: val, ..st }
    } else if st.section == "live"@ && key == "title"@ {
        UciRead { title: val, ..st }
    } else if st.section == "live"@ && key == "live_mode"@ {
        match mode_spec(val) {
            Some(m) => UciRead { live_mode: m, ..st },
            None => st,
        }
    } else if st.section == "config"@ && key == "dns_redirect"@ {
        UciRead { dns_redirect: val != "0"@, ..st }
    } else {
        st
    }
}

/// One line of the UCI file, trimmed: `config <type> ...` opens a section; the
/// cookie options of `auth` are skipped (they are read through `uci get`);
/// `option <key> <value>` inside a section sets a value, its quotes stripped.
pub open spec fn uci_line(st: UciRead, raw: Seq<char>) -> UciRead {
    let line = trim(raw);
    if has_prefix(line, "config "@) {
        let after = line.skip("config "@.len() as int);
        UciRead { section: after.take(find_char(after, ' ')), ..st }
    } else if has_prefix(line, "option cookie"@) && st.section == "auth"@ {
        st
    } else if has_prefix(line, "option "@) && st.section.len() > 0 {
        let rest = line.skip("option "@.len() as int);
        let k = find_char(rest, ' ');
        if k < rest.len() {
            uci_option(st, rest.take(k), strip_char(strip_char(rest.skip(k + 1), '\''), '"'))
        } else {
            st
        }
    } else {
        st
    }
}

/// The lines read in order.
pub open spec fn uci_fold(lines: Seq<Seq<char>>) -> UciRead
    decreases lines.len(),
{
    if lines.len() == 0 {
        uci_init()
    } else {
        uci_line(uci_fold(lines.drop_last()), lines.last())
    }
}

/// The reading of a configuration, with the current section in `v[sec.0..sec.1]`.
pub open spec fn uci_state(c: Config, v: Seq<char>, sec: (usize, usize)) -> UciRead {
    UciRead {
        room_id: c.live.room_id,
        title: c.live.title@,
        area_v2: c.live.area_v2@,
        live_mode: c.live.live_mode,
        dns_redirect: c.dns_redirect,
        section: v.subrange(sec.0 as int, sec.1 as int),
    }
}

fn apply_uci_option(c: &mut Config, v: &Vec<char>, sec: (usize, usize), ka: usize, kb: usize, va: usize, vb: usize)
    requires
        sec.0 <= sec.1 <= v.len(),
        ka <= kb <= v.len(),
        va <= vb <= v.len(),
    ensures
        uci_state(*final(c), v@, sec) == uci_option(
            uci_state(*old(c), v@, sec),
            v@.subrange(ka as int, kb as int),
            v@.subrange(va as int, vb as int),
        ),
        final(c).auth == old(c).auth,
        final(c).dns_proxy == old(c).dns_proxy,
{
    proof {
        reveal_strlit("live");
        reveal_strlit("config");
        reveal_strlit("room_id");
        reveal_strlit("area_v2");
        reveal_strlit("title");
        reveal_strlit("live_mode");
        reveal_strlit("dns_redirect");
        reveal_strlit("0");
    }
    let live = range_eq(v, sec.0, sec.1, "live");
    let config = range_eq(v, sec.0, sec.1, "config");
    if live && range_eq(v, ka, kb, "room_id") {
        if let Some(id) = parse_u64_range(v, va, vb) {
            c.live.room_id = id;
        }
    } else if live && range_eq(v, ka, kb, "area_v2") {
        c.live.area_v2 = string_from_chars(v, va, vb);
    } else if live && range_eq(v, ka, kb, "title") {
        c.live.title = string_from_chars(v, va, vb);
    } else if live && range_eq(v, ka, kb, "live_mode") {
        let s = string_from_chars(v, va, vb);
        if let Ok(m) = LiveMode::from_str(s.as_str()) {
            c.live.live_mode = m;
        }
    } else if config && range_eq(v, ka, kb, "dns_redirect") {
        c.dns_redirect = !range_eq(v, va, vb, "0");
    }
}

impl Config {
    /// Reads the OpenWrt UCI file `/etc/config/pslinkb` from its text, over
    /// the defaults; see `uci_line`. The cookies come separately
    /// (`apply_uci_cookie`).
    pub fn from_uci_text(content: &str) -> (c: Config)
        ensures
            c.live.room_id == uci_fold(split_char(content@, '\n')).room_id,
            c.live.title@ == uci_fold(split_char(content@, '\n')).title,
            c.live.area_v2@ == uci_fold(split_char(content@, '\n')).area_v2,
            c.live.live_mode == uci_fold(split_char(content@, '\n')).live_mode,
            c.dns_redirect == uci_fold(split_char(content@, '\n')).dns_redirect,
            c.dns_proxy,
            c.auth.cookies@.len() == 0,
    {
        let v = chars_of(content);
        let lines = split_ranges(&v, '\n');
        let ghost ls = split_char(content@, '\n');
        let mut c = Config::default();
        let mut sec: (usize, usize) = (0, 0);
        assert(ls.take(0).len() == 0);
        assert(uci_state(c, v@, sec) =~= uci_fold(ls.take(0)));
        let mut i: usize = 0;
        while i < lines.len()
            invariant
                v@ == content@,
                ls == split_char(content@, '\n'),
                ranges_of(v@, lines@, ls),
                0 <= i <= lines.len(),
                sec.0 <= sec.1 <= v.len(),
                uci_state(c, v@, sec) == uci_fold(ls.take(i as int)),
                c.dns_proxy,
                c.auth.cookies@.len() == 0,
            decreases lines.len() - i,
        {
            proof {
                reveal_strlit("config ");
                reveal_strlit("option cookie");
                reveal_strlit("option ");
                reveal_strlit("auth");
            }
            let (lo, hi) = lines[i];
            let ghost raw = ls[i as int];
            assert(v@.subrange(lo as int, hi as int) == raw);
            assert(ls.take(i + 1).drop_last() =~= ls.take(i as int));
            assert(ls.take(i + 1).last() == raw);
            let ghost st = uci_state(c, v@, sec);
            let (a, b) = trim_range(&v, lo, hi);
            let ghost line = v@.subrange(a as int, b as int);
            if range_starts_with(&v, a, b, "config ") {
                let k = find_in(&v, ' ', a + 7, b);
                proof {
                    let after = line.skip(7);
                    assert(after =~= v@.subrange(a + 7, b as int));
                    assert(after.take(k - (a + 7)) =~= v@.subrange(a + 7, k as int));
                }
                sec = (a + 7, k);
            } else if range_starts_with(&v, a, b, "option cookie") && range_eq(
                &v,
                sec.0,
                sec.1,
                "auth",
            ) {
            } else if range_starts_with(&v, a, b, "option ") && sec.0 < sec.1 {
                let k = find_in(&v, ' ', a + 7, b);
                proof {
                    let rest = line.skip(7);
                    assert(rest =~= v@.subrange(a + 7, b as int));
                    assert(rest.take(k - (a + 7)) =~= v@.subrange(a + 7, k as int));
                }
                if k < b {
                    assert(line.skip(7).skip(k - (a + 7) + 1) =~= v@.subrange(k + 1, b as int));
                    let (qa, qb) = strip_range(&v, '\'', k + 1, b);
                    let (da, db) = strip_range(&v, '"', qa, qb);
                    apply_uci_option(&mut c, &v, sec, a + 7, k, da, db);
                }
            }
            i = i + 1;
        }
        assert(ls.take(i as int) =~= ls);
        c
    }
}

} // verus!
