//! DNS redirection of the Twitch names to this host: checks, the built-in
//! proxy's decision, the dnsmasq configuration, and IPv4 addresses.
use vstd::prelude::*;
use hickory_proto::op::{Message, MessageType, OpCode, Query, ResponseCode};
use hickory_proto::rr::rdata::A;
use hickory_proto::rr::{DNSClass, Name, RData, Record, RecordType};
use hickory_proto::serialize::binary::{BinDecodable, BinEncodable};
use crate::text::{
    all_digits, chars_of, dec_nat, push_u64, digits_only, digits_val, has_suffix, is_ws, lead_from, parse_u64_range,
    push_str, range_ends_with, range_eq_chars, range_starts_with, ranges_of, split_char,
    split_ranges, string_from_chars, string_of, token_at, trail_not, trim, trim_end_char,
    trim_range, ws_from, has_prefix, free_of, join_char, lemma_dec_nat, lemma_dec_nat_unique,
    lemma_split_front, lemma_split_join, lemma_split_single,
};

verus! {

// ── The names ──

/// The names that are pointed at this host: the Twitch ingest and chat servers.
pub open spec fn redirect_domains_spec() -> Seq<Seq<char>> {
    seq![
        "global-contribute.live-video.net"@,
        "irc.twitch.tv"@,
        "live.twitch.tv"@,
        "contribute.live-video.net"@,
        "tmi.twitch.tv"@,
    ]
}

/// The names whose resolution shows whether the redirection works.
pub open spec fn check_domains_spec() -> Seq<Seq<char>> {
    seq!["irc.twitch.tv"@, "ingest.global-contribute.live-video.net"@]
}

/// The names that are pointed at this host.
pub fn redirect_domains() -> (d: Vec<String>)
    ensures
        d@.map_values(|s: String| s@) == redirect_domains_spec(),
{
    let mut d: Vec<String> = Vec::new();
    d.push(string_of("global-contribute.live-video.net"));
    d.push(string_of("irc.twitch.tv"));
    d.push(string_of("live.twitch.tv"));
    d.push(string_of("contribute.live-video.net"));
    d.push(string_of("tmi.twitch.tv"));
    assert(d@.map_values(|s: String| s@) =~= redirect_domains_spec());
    d
}

/// The names that the redirection check resolves.
pub fn check_domains() -> (d: Vec<String>)
    ensures
        d@.map_values(|s: String| s@) == check_domains_spec(),
{
    let mut d: Vec<String> = Vec::new();
    d.push(string_of("irc.twitch.tv"));
    d.push(string_of("ingest.global-contribute.live-video.net"));
    assert(d@.map_values(|s: String| s@) =~= check_domains_spec());
    d
}

// ── Checks ──

/// What a name resolved to, against the address it should resolve to.
pub struct CheckResult {
    pub domain: String,
    pub expected: String,
    pub actual: Option<String>,
    pub success: bool,
}

/// What is shown for a name that did not resolve.
pub open spec fn unresolved() -> Seq<char> {
    "无解析"@
}

/// The redirection check of one name: the address it resolved to (`无解析` when it did
/// not), and whether that is the expected one.
pub fn check_result(domain: &str, expected: &str, resolved: Option<String>) -> (r: CheckResult)
    ensures
        r.domain@ == domain@,
        r.expected@ == expected@,
        r.actual matches Some(a) && a@ == (match resolved {
            Some(ip) => ip@,
            None => unresolved(),
        }),
        r.success == ((match resolved {
            Some(ip) => ip@,
            None => unresolved(),
        }) == expected@),
{
    let ip = match resolved {
        Some(ip) => ip,
        None => string_of("无解析"),
    };
    let expected_s = string_of(expected);
    let success = ip == expected_s;
    CheckResult { domain: string_of(domain), expected: expected_s, actual: Some(ip), success }
}

/// Whether every check succeeded (the caller reports the verdict).
pub fn summarize(results: &Vec<CheckResult>) -> (ok: bool)
    ensures
        ok == forall|i: int| 0 <= i < results.len() ==> #[trigger] results@[i].success,
{
    let mut i: usize = 0;
    while i < results.len()
        invariant
            0 <= i <= results.len(),
            forall|j: int| 0 <= j < i ==> #[trigger] results@[j].success,
        decreases results.len() - i,
    {
        if !results[i].success {
            return false;
        }
        i = i + 1;
    }
    true
}

// ── The built-in proxy ──

/// A query name with its trailing dots removed.
pub open spec fn bare_name(q: Seq<char>) -> Seq<char> {
    q.take(trail_not(q, '.', q.len() as int))
}

/// Whether the proxy answers `q` itself: the name (trailing dots removed) is
/// one of the domains or lies under one.
pub open spec fn redirects(domains: Seq<Seq<char>>, q: Seq<char>) -> bool {
    exists|i: int|
        0 <= i < domains.len() && (bare_name(q) == #[trigger] domains[i] || has_suffix(
            bare_name(q),
            seq!['.'] + domains[i],
        ))
}

/// Whether the proxy answers the query for `qname` with this host's address.
pub fn should_redirect(domains: &Vec<String>, qname: &str) -> (b: bool)
    ensures
        b == redirects(domains@.map_values(|d: String| d@), qname@),
{
    let ghost ds = domains@.map_values(|d: String| d@);
    let q = chars_of(qname);
    let e = trim_end_char(&q, '.', 0, q.len());
    assert(q@.subrange(0, q.len() as int) =~= q@);
    assert(q@.subrange(0, e as int) =~= bare_name(qname@));
    let mut i: usize = 0;
    while i < domains.len()
        invariant
            ds == domains@.map_values(|d: String| d@),
            q@ == qname@,
            e <= q.len(),
            q@.subrange(0, e as int) == bare_name(qname@),
            0 <= i <= domains.len(),
            forall|j: int|
                0 <= j < i ==> !(bare_name(qname@) == #[trigger] ds[j] || has_suffix(
                    bare_name(qname@),
                    seq!['.'] + ds[j],
                )),
        decreases domains.len() - i,
    {
        let d = chars_of(domains[i].as_str());
        let mut dotted: Vec<char> = Vec::new();
        dotted.push('.');
        let mut k: usize = 0;
        while k < d.len()
            invariant
                0 <= k <= d.len(),
                dotted@ == seq!['.'] + d@.take(k as int),
            decreases d.len() - k,
        {
            dotted.push(d[k]);
            assert(d@.take(k + 1) =~= d@.take(k as int).push(d@[k as int]));
            assert(dotted@ =~= seq!['.'] + d@.take(k + 1));
            k = k + 1;
        }
        assert(d@.take(k as int) =~= d@);
        assert(ds[i as int] == d@);
        if range_eq_chars(&q, 0, e, &d) || range_ends_with(&q, 0, e, &dotted) {
            return true;
        }
        i = i + 1;
    }
    false
}

// ── dnsmasq (OpenWrt) ──

/// The dnsmasq configuration that points each domain at `ip`.
pub open spec fn dnsmasq_conf_spec(domains: Seq<Seq<char>>, ip: Seq<char>) -> Seq<char>
    decreases domains.len(),
{
    if domains.len() == 0 {
        Seq::empty()
    } else {
        dnsmasq_conf_spec(domains.drop_last(), ip) + "address=/"@ + domains.last() + "/"@ + ip
            + "\n"@
    }
}

/// Writes one `address=/<domain>/<ip>` line per domain.
pub fn dnsmasq_conf(domains: &Vec<String>, target_ip: &str) -> (s: String)
    ensures
        s@ == dnsmasq_conf_spec(domains@.map_values(|d: String| d@), target_ip@),
{
    let ghost ds = domains@.map_values(|d: String| d@);
    let mut s = String::new();
    let mut i: usize = 0;
    while i < domains.len()
        invariant
            ds == domains@.map_values(|d: String| d@),
            0 <= i <= domains.len(),
            s@ == dnsmasq_conf_spec(ds.take(i as int), target_ip@),
        decreases domains.len() - i,
    {
        assert(ds.take(i + 1).drop_last() =~= ds.take(i as int));
        assert(ds.take(i + 1).last() == domains@[i as int]@);
        push_str(&mut s, "address=/");
        push_str(&mut s, domains[i].as_str());
        push_str(&mut s, "/");
        push_str(&mut s, target_ip);
        push_str(&mut s, "\n");
        i = i + 1;
    }
    assert(ds.take(i as int) =~= ds);
    s
}

/// The configuration directory that dnsmasq has when none is configured.
pub const DEFAULT_CONFDIR: &'static str = "/etc/dnsmasq.d";

/// The configuration directory that `uci get dhcp.@dnsmasq[0].confdir`
/// printed: its trimmed output, or `None` when that is empty (the caller then
/// sets and commits [`DEFAULT_CONFDIR`]).
pub fn confdir_of(uci_output: &str) -> (r: Option<String>)
    ensures
        trim(uci_output@).len() == 0 ==> r is None,
        trim(uci_output@).len() > 0 ==> (r matches Some(d) && d@ == trim(uci_output@)),
{
    let v = chars_of(uci_output);
    let (a, b) = trim_range(&v, 0, v.len());
    assert(v@.subrange(0, v@.len() as int) =~= v@);
    if a == b {
        None
    } else {
        Some(string_from_chars(&v, a, b))
    }
}

/// The file under `confdir` that holds this program's dnsmasq configuration.
pub open spec fn conf_path_spec(confdir: Seq<char>) -> Seq<char> {
    confdir + "/pslinkb.conf"@
}

/// The path of this program's dnsmasq configuration file (the caller removes
/// it to turn the redirection off).
pub fn conf_path(confdir: &str) -> (p: String)
    ensures
        p@ == conf_path_spec(confdir@),
{
    let mut p = string_of(confdir);
    push_str(&mut p, "/pslinkb.conf");
    p
}

/// Turning the redirection on in `confdir`: the file to write and what it
/// holds (the caller writes it, restarts dnsmasq, and reports `confdir` when
/// both succeed).
pub fn enable_redirect(domains: &Vec<String>, target_ip: &str, confdir: &str) -> (w: (String, String))
    ensures
        w.0@ == conf_path_spec(confdir@),
        w.1@ == dnsmasq_conf_spec(domains@.map_values(|d: String| d@), target_ip@),
{
    (conf_path(confdir), dnsmasq_conf(domains, target_ip))
}

/// After redirecting: the last name's address (empty when none was checked),
/// and whether every name resolved to `target`.
pub fn redirect_outcome(target: &str, actuals: &Vec<String>) -> (r: (String, bool))
    ensures
        actuals.len() == 0 ==> r.0@ == Seq::<char>::empty(),
        actuals.len() > 0 ==> r.0@ == actuals@[actuals.len() - 1]@,
        r.1 == forall|i: int| 0 <= i < actuals.len() ==> (#[trigger] actuals@[i])@ == target@,
{
    let t = string_of(target);
    let mut last = String::new();
    let mut all_ok = true;
    let mut i: usize = 0;
    while i < actuals.len()
        invariant
            t@ == target@,
            0 <= i <= actuals.len(),
            i == 0 ==> last@ == Seq::<char>::empty(),
            i > 0 ==> last@ == actuals@[i - 1]@,
            all_ok == forall|j: int| 0 <= j < i ==> (#[trigger] actuals@[j])@ == target@,
        decreases actuals.len() - i,
    {
        if actuals[i] != t {
            all_ok = false;
        }
        last = actuals[i].clone();
        i = i + 1;
    }
    (last, all_ok)
}

/// Whether a reload (SIGHUP) turns the redirection on: the opposite of the
/// recorded state, and on when none is recorded.
pub fn next_redirect_enabled(previous: Option<bool>) -> (b: bool)
    ensures
        b == (match previous {
            Some(p) => !p,
            None => true,
        }),
{
    match previous {
        Some(p) => !p,
        None => true,
    }
}

/// The status shown to the web interface.
pub struct DnsStatus {
    pub checking: bool,
    pub enabled: bool,
    pub target: String,
    pub actual: String,
    pub ok: bool,
}

/// A step of turning the redirection off.
pub enum DnsStep {
    /// Write this status.
    WriteStatus(DnsStatus),
    /// Remove the dnsmasq configuration and restart dnsmasq (when it has a configuration directory).
    DisableRedirect,
}

fn off_status(checking: bool) -> (s: DnsStatus)
    ensures
        s.checking == checking,
        !s.enabled,
        s.target@ == Seq::<char>::empty(),
        s.actual@ == Seq::<char>::empty(),
        !s.ok,
{
    DnsStatus { checking, enabled: false, target: String::new(), actual: String::new(), ok: false }
}

/// The status while the redirection is being turned on: checking, enabled,
/// the target address and what the first name resolves to now, not yet ok.
pub fn checking_status(target: &str, first: &str) -> (s: DnsStatus)
    ensures
        s.checking && s.enabled && !s.ok,
        s.target@ == target@,
        s.actual@ == first@,
{
    DnsStatus { checking: true, enabled: true, target: string_of(target), actual: string_of(first), ok: false }
}

/// The status once turning the redirection on was tried: enabled and done
/// checking; when dnsmasq took the configuration (`actuals`, what each
/// redirected name resolves to afterwards), the last name's address and
/// whether every one is the target; otherwise `fallback` as the address, not ok.
pub fn enabled_status(target: &str, actuals: Option<&Vec<String>>, fallback: &str) -> (s: DnsStatus)
    ensures
        !s.checking && s.enabled,
        s.target@ == target@,
        actuals matches Some(a) ==> ({
            &&& (a.len() == 0 ==> s.actual@ == Seq::<char>::empty())
            &&& (a.len() > 0 ==> s.actual@ == a@[a.len() - 1]@)
            &&& s.ok == forall|i: int| 0 <= i < a.len() ==> (#[trigger] a@[i])@ == target@
        }),
        actuals is None ==> s.actual@ == fallback@ && !s.ok,
{
    match actuals {
        Some(a) => {
            let (last, ok) = redirect_outcome(target, a);
            DnsStatus { checking: false, enabled: true, target: string_of(target), actual: last, ok }
        },
        None => DnsStatus {
            checking: false,
            enabled: true,
            target: string_of(target),
            actual: string_of(fallback),
            ok: false,
        },
    }
}

/// Shutting down with redirection configured: report checking, disable, report
/// off. Without it, nothing.
pub fn cleanup(dns_redirect: bool) -> (steps: Vec<DnsStep>)
    ensures
        !dns_redirect ==> steps.len() == 0,
        dns_redirect ==> steps.len() == 3 && (steps@[0] matches DnsStep::WriteStatus(s)
            && s.checking && !s.enabled && s.target@.len() == 0 && s.actual@.len() == 0 && !s.ok)
            && steps@[1] is DisableRedirect && (steps@[2] matches DnsStep::WriteStatus(s)
            && !s.checking && !s.enabled && s.target@.len() == 0 && s.actual@.len() == 0
            && !s.ok),
{
    let mut steps: Vec<DnsStep> = Vec::new();
    if !dns_redirect {
        return steps;
    }
    steps.push(DnsStep::WriteStatus(off_status(true)));
    steps.push(DnsStep::DisableRedirect);
    steps.push(DnsStep::WriteStatus(off_status(false)));
    steps
}

// ── IPv4 addresses ──

/// One decimal octet as `Ipv4Addr` reads it: one to three digits, no leading
/// zero, at most 255.
pub open spec fn octet_spec(p: Seq<char>) -> Option<u8> {
    if 1 <= p.len() <= 3 && all_digits(p) && (p.len() == 1 || p[0] != '0') && digits_val(p) <= 255 {
        Some(digits_val(p) as u8)
    } else {
        None
    }
}

/// A dotted-quad IPv4 address as `Ipv4Addr::from_str` reads it.
pub open spec fn ipv4_spec(s: Seq<char>) -> Option<(u8, u8, u8, u8)> {
    let ps = split_char(s, '.');
    if ps.len() == 4 && octet_spec(ps[0]) is Some && octet_spec(ps[1]) is Some && octet_spec(
        ps[2],
    ) is Some && octet_spec(ps[3]) is Some {
        Some(
            (
                octet_spec(ps[0])->Some_0,
                octet_spec(ps[1])->Some_0,
                octet_spec(ps[2])->Some_0,
                octet_spec(ps[3])->Some_0,
            ),
        )
    } else {
        None
    }
}

fn octet(v: &Vec<char>, lo: usize, hi: usize) -> (r: Option<u8>)
    requires
        lo <= hi <= v.len(),
    ensures
        r == octet_spec(v@.subrange(lo as int, hi as int)),
{
    let ghost p = v@.subrange(lo as int, hi as int);
    if hi - lo < 1 || hi - lo > 3 {
        return None;
    }
    if !digits_only(v, lo, hi) {
        return None;
    }
    assert(p[0] == v@[lo as int]);
    if hi - lo > 1 && v[lo] == '0' {
        return None;
    }
    assert('0' <= p[0] && p[0] <= '9');
    proof {
        reveal_with_fuel(digits_val, 4);
        assert(p.len() == 1 ==> p.drop_last().len() == 0);
        assert(p.len() == 2 ==> p.drop_last().drop_last().len() == 0);
        assert(p.len() == 3 ==> p.drop_last().drop_last().drop_last().len() == 0);
        assert(0 <= digits_val(p) <= 999);
    }
    match parse_u64_range(v, lo, hi) {
        Some(n) => {
            if n <= 255 {
                Some(n as u8)
            } else {
                None
            }
        },
        None => None,
    }
}

/// Reads a dotted-quad IPv4 address.
pub fn parse_ipv4(s: &str) -> (r: Option<(u8, u8, u8, u8)>)
    ensures
        r == ipv4_spec(s@),
{
    let v = chars_of(s);
    let parts = split_ranges(&v, '.');
    let ghost ps = split_char(s@, '.');
    if parts.len() != 4 {
        return None;
    }
    let a = octet(&v, parts[0].0, parts[0].1);
    let b = octet(&v, parts[1].0, parts[1].1);
    let c = octet(&v, parts[2].0, parts[2].1);
    let d = octet(&v, parts[3].0, parts[3].1);
    match (a, b, c, d) {
        (Some(a), Some(b), Some(c), Some(d)) => Some((a, b, c, d)),
        _ => None,
    }
}

/// The address that the built-in proxy answers with: the local address, or
/// 127.0.0.1 when that is no IPv4 address.
pub fn proxy_target(local_ip: &str) -> (ip: (u8, u8, u8, u8))
    ensures
        ip == (match ipv4_spec(local_ip@) {
            Some(a) => a,
            None => (127u8, 0u8, 0u8, 1u8),
        }),
{
    match parse_ipv4(local_ip) {
        Some(a) => a,
        None => (127, 0, 0, 1),
    }
}

proof fn lemma_octet_text(n: u8)
    ensures
        octet_spec(dec_nat(n as nat)) == Some(n),
        free_of(dec_nat(n as nat), '.'),
{
    lemma_dec_nat(n as nat);
}

proof fn lemma_octet_canonical(p: Seq<char>)
    requires
        octet_spec(p) is Some,
    ensures
        dec_nat(octet_spec(p)->Some_0 as nat) == p,
{
    lemma_dec_nat_unique(p);
}

/// An address written in dotted-quad form reads back as the same address.
pub proof fn law_ipv4_text_roundtrip(ip: (u8, u8, u8, u8))
    ensures
        ipv4_spec(ipv4_text_spec(ip)) == Some(ip),
{
    let (d0, d1, d2, d3) = (dec_nat(ip.0 as nat), dec_nat(ip.1 as nat), dec_nat(ip.2 as nat), dec_nat(ip.3 as nat));
    let t = ipv4_text_spec(ip);
    let ps = split_char(t, '.');
    assert(ps == seq![d0, d1, d2, d3]) by {
        reveal_strlit(".");
        lemma_octet_text(ip.0);
        lemma_octet_text(ip.1);
        lemma_octet_text(ip.2);
        lemma_octet_text(ip.3);
        let dot = seq!['.'];
        assert(t =~= d0 + dot + (d1 + dot + (d2 + dot + d3)));
        lemma_split_front(d0, '.', d1 + dot + (d2 + dot + d3));
        lemma_split_front(d1, '.', d2 + dot + d3);
        lemma_split_front(d2, '.', d3);
        lemma_split_single(d3, '.');
        assert(ps =~= seq![d0, d1, d2, d3]);
    }
    lemma_octet_text(ip.0);
    lemma_octet_text(ip.1);
    lemma_octet_text(ip.2);
    lemma_octet_text(ip.3);
    assert(ps[0] == d0 && ps[1] == d1 && ps[2] == d2 && ps[3] == d3);
}

/// Text that reads as an address is that address's dotted-quad form: there is
/// one way to write each address.
pub proof fn law_ipv4_text_canonical(s: Seq<char>)
    requires
        ipv4_spec(s) is Some,
    ensures
        ipv4_text_spec(ipv4_spec(s)->Some_0) == s,
{
    reveal_strlit(".");
    let ps = split_char(s, '.');
    lemma_split_join(s, '.');
    lemma_octet_canonical(ps[0]);
    lemma_octet_canonical(ps[1]);
    lemma_octet_canonical(ps[2]);
    lemma_octet_canonical(ps[3]);
    let dot = seq!['.'];
    assert(ps.skip(1).skip(1).skip(1) =~= seq![ps[3]]);
    assert(join_char(ps.skip(1).skip(1).skip(1), '.') == ps[3]);
    assert(ps.skip(1).skip(1)[0] == ps[2]);
    assert(join_char(ps.skip(1).skip(1), '.') == ps[2] + dot + ps[3]);
    assert(ps.skip(1)[0] == ps[1]);
    assert(join_char(ps.skip(1), '.') == ps[1] + dot + (ps[2] + dot + ps[3]));
    assert(join_char(ps, '.') == ps[0] + dot + (ps[1] + dot + (ps[2] + dot + ps[3])));
    assert(ipv4_text_spec(ipv4_spec(s)->Some_0) =~= ps[0] + dot + (ps[1] + dot + (ps[2] + dot + ps[3])));
}

/// The address of the LAN from `uci get network.lan.ipaddr`: the trimmed
/// output when it is a valid IPv4 address.
pub fn lan_ip_from(output: &str) -> (r: Option<String>)
    ensures
        r matches Some(ip) ==> ip@ == trim(output@) && ipv4_spec(trim(output@)) is Some,
        r is None <==> ipv4_spec(trim(output@)) is None,
{
    let v = chars_of(output);
    let (a, b) = trim_range(&v, 0, v.len());
    assert(v@.subrange(0, v.len() as int) =~= output@);
    let ip = string_from_chars(&v, a, b);
    if parse_ipv4(ip.as_str()).is_some() {
        Some(ip)
    } else {
        None
    }
}

/// The address the PS5 is pointed at: on OpenWrt the LAN address, when
/// `uci get network.lan.ipaddr` succeeded (`uci_output`) and printed a valid
/// IPv4 address; otherwise `fallback` (the address this host reaches the
/// Internet from, or 127.0.0.1), which the caller looks up.
pub fn local_ip(uci_output: Option<&str>, fallback: String) -> (r: String)
    ensures
        r@ == (match uci_output {
            Some(o) => if ipv4_spec(trim(o@)) is Some {
                trim(o@)
            } else {
                fallback@
            },
            None => fallback@,
        }),
{
    match uci_output {
        Some(o) => match lan_ip_from(o) {
            Some(ip) => ip,
            None => fallback,
        },
        None => fallback,
    }
}

/// The first `nameserver` line of `resolv.conf` whose second word is an IPv4
/// address gives that address.
pub open spec fn nameserver_spec(lines: Seq<Seq<char>>) -> Option<(u8, u8, u8, u8)>
    decreases lines.len(),
{
    if lines.len() == 0 {
        None
    } else {
        let l = lines[0];
        let a = lead_from(l, ws_from(l, lead_from(l, 0)));
        let w = l.subrange(a, ws_from(l, a));
        if has_prefix(l, "nameserver"@) && a < l.len() && ipv4_spec(w) is Some {
            ipv4_spec(w)
        } else {
            nameserver_spec(lines.drop_first())
        }
    }
}

/// The upstream server of the proxy: the first usable `nameserver` of
/// `resolv.conf`, else 114.114.114.114.
pub open spec fn upstream_spec(resolv_conf: Option<Seq<char>>) -> (u8, u8, u8, u8) {
    match resolv_conf {
        Some(c) => match nameserver_spec(split_char(c, '\n')) {
            Some(ip) => ip,
            None => (114u8, 114u8, 114u8, 114u8),
        },
        None => (114u8, 114u8, 114u8, 114u8),
    }
}

/// Picks the upstream server of the proxy.
pub fn upstream_of(resolv_conf: Option<&str>) -> (r: (u8, u8, u8, u8))
    ensures
        r == upstream_spec(match resolv_conf {
            Some(c) => Some(c@),
            None => None,
        }),
{
    let content = match resolv_conf {
        Some(c) => c,
        None => {
            return (114, 114, 114, 114);
        },
    };
    let v = chars_of(content);
    let lines = split_ranges(&v, '\n');
    let ghost ls = split_char(content@, '\n');
    let mut i: usize = 0;
    assert(ls.skip(0) =~= ls);
    proof {
        reveal_strlit("nameserver");
    }
    while i < lines.len()
        invariant
            v@ == content@,
            resolv_conf == Some(content),
            ls == split_char(content@, '\n'),
            ranges_of(v@, lines@, ls),
            0 <= i <= lines.len(),
            nameserver_spec(ls) == nameserver_spec(ls.skip(i as int)),
        decreases lines.len() - i,
    {
        let (lo, hi) = lines[i];
        let ghost l = ls[i as int];
        assert(v@.subrange(lo as int, hi as int) == l);
        assert(ls.skip(i as int)[0] == l);
        assert(ls.skip(i as int).drop_first() =~= ls.skip(i + 1));
        let line = string_from_chars(&v, lo, hi);
        let lv = chars_of(line.as_str());
        assert(lv@.subrange(0, lv.len() as int) =~= lv@);
        let (t0, t1) = token_at(&lv, 0, lv.len());
        let (w0, w1) = token_at(&lv, t1, lv.len());
        if range_starts_with(&lv, 0, lv.len(), "nameserver") && w0 < lv.len() {
            let w = string_from_chars(&lv, w0, w1);
            if let Some(ip) = parse_ipv4(w.as_str()) {
                proof {
                    assert(lv@ == l);
                    let a = lead_from(l, ws_from(l, lead_from(l, 0)));
                    assert(a == w0);
                    assert(w@ == l.subrange(a, ws_from(l, a)));
                    assert(has_prefix(l, "nameserver"@));
                    assert(nameserver_spec(ls.skip(i as int)) == ipv4_spec(w@));
                }
                return ip;
            }
        }
        i = i + 1;
    }
    assert(ls.skip(i as int).len() == 0);
    (114, 114, 114, 114)
}

} // verus!

verus! {

/// The boolean under `key` in a JSON object text, as serde_json reads it: none
/// when the text is not JSON, not an object, or holds no boolean there.
pub uninterp spec fn json_bool_field_of(text: Seq<char>, key: Seq<char>) -> Option<bool>;

/// serde_json (`from_str` into a `Value`, `get`, `as_bool`): the boolean under
/// `key` of a JSON object text. The contract only names the result; `get` on
/// a non-object gives `None` rather than panicking.
#[verifier::external_body]
fn json_bool_field(text: &str, key: &str) -> (r: Option<bool>)
    ensures
        r == json_bool_field_of(text@, key@),
{
    match serde_json::from_str::<serde_json::Value>(text) {
        Ok(v) => match v.get(key) {
            Some(x) => x.as_bool(),
            None => None,
        },
        Err(_) => None,
    }
}

/// Whether a reload (SIGHUP) turns the redirection on, from the text of the
/// status file when it could be read: the opposite of its `enabled`, and on
/// when that is missing.
pub fn sighup_enable(status_text: Option<&str>) -> (b: bool)
    ensures
        b == (match status_text {
            Some(t) => match json_bool_field_of(t@, "enabled"@) {
                Some(p) => !p,
                None => true,
            },
            None => true,
        }),
{
    let previous = match status_text {
        Some(t) => json_bool_field(t, "enabled"),
        None => None,
    };
    next_redirect_enabled(previous)
}

} // verus!

verus! {

// ── DNS messages (hickory-proto) ──

/// The record type of an A question (RFC 1035).
pub const TYPE_A: u16 = 1;

/// The class of Internet records (RFC 1035).
pub const CLASS_IN: u16 = 1;

/// A question of a DNS message: its name as raw labels, its type and class.
pub struct DnsQuestion {
    pub labels: Vec<Vec<u8>>,
    pub qtype: u16,
    pub qclass: u16,
}

/// An A record to write: its owner name as raw labels, time-to-live and
/// address (as a 32-bit number, most significant octet first).
pub struct DnsARecord {
    pub labels: Vec<Vec<u8>>,
    pub ttl: u32,
    pub ip: u32,
}

/// What is read from a DNS message: its id; each question with its name in
/// text form; each answer's address (as a 32-bit number, most significant
/// octet first) when it is an A record.
pub struct DnsRead {
    pub id: u16,
    pub questions: Vec<(String, DnsQuestion)>,
    pub answers: Vec<Option<u32>>,
}

/// A DNS message to write: the header fields this bridge sets (the rest
/// stay as a new message has them), then the questions and A answers.
pub struct DnsWrite {
    pub id: u16,
    pub response: bool,
    pub op_code: u8,
    pub authoritative: bool,
    pub recursion_available: bool,
    pub rcode: u16,
    pub questions: Vec<DnsQuestion>,
    pub answers: Vec<DnsARecord>,
}

/// An address as a 32-bit number, most significant octet first.
pub open spec fn ipv4_bits(ip: (u8, u8, u8, u8)) -> u32 {
    (ip.0 as int * 16777216 + ip.1 as int * 65536 + ip.2 as int * 256 + ip.3 as int) as u32
}

/// The octets of an address given as a 32-bit number, most significant first.
pub open spec fn ipv4_octets(n: u32) -> (u8, u8, u8, u8) {
    ((n / 16777216) as u8, ((n / 65536) % 256) as u8, ((n / 256) % 256) as u8, (n % 256) as u8)
}

/// Computes `ipv4_bits`.
fn bits_of(ip: (u8, u8, u8, u8)) -> (n: u32)
    ensures
        n == ipv4_bits(ip),
{
    (ip.0 as u32) * 16777216 + (ip.1 as u32) * 65536 + (ip.2 as u32) * 256 + (ip.3 as u32)
}

/// Computes `ipv4_octets`.
fn octets_of(n: u32) -> (ip: (u8, u8, u8, u8))
    ensures
        ip == ipv4_octets(n),
{
    ((n / 16777216) as u8, ((n / 65536) % 256) as u8, ((n / 256) % 256) as u8, (n % 256) as u8)
}

/// Raw labels as byte sequences.
pub open spec fn labels_view(ls: Seq<Vec<u8>>) -> Seq<Seq<u8>> {
    ls.map_values(|l: Vec<u8>| l@)
}

/// A question with its labels as byte sequences.
pub struct DnsQuestionV {
    pub labels: Seq<Seq<u8>>,
    pub qtype: u16,
    pub qclass: u16,
}

impl View for DnsQuestion {
    type V = DnsQuestionV;

    open spec fn view(&self) -> DnsQuestionV {
        DnsQuestionV { labels: labels_view(self.labels@), qtype: self.qtype, qclass: self.qclass }
    }
}

/// An A record with its labels as byte sequences.
pub struct DnsARecordV {
    pub labels: Seq<Seq<u8>>,
    pub ttl: u32,
    pub ip: u32,
}

impl View for DnsARecord {
    type V = DnsARecordV;

    open spec fn view(&self) -> DnsARecordV {
        DnsARecordV { labels: labels_view(self.labels@), ttl: self.ttl, ip: self.ip }
    }
}

/// A message as read, with its strings and labels as sequences.
pub struct DnsReadV {
    pub id: u16,
    pub questions: Seq<(Seq<char>, DnsQuestionV)>,
    pub answers: Seq<Option<u32>>,
}

impl View for DnsRead {
    type V = DnsReadV;

    open spec fn view(&self) -> DnsReadV {
        DnsReadV {
            id: self.id,
            questions: self.questions@.map_values(|q: (String, DnsQuestion)| (q.0@, q.1@)),
            answers: self.answers@,
        }
    }
}

/// A message to write, with its labels as sequences.
pub struct DnsWriteV {
    pub id: u16,
    pub response: bool,
    pub op_code: u8,
    pub authoritative: bool,
    pub recursion_available: bool,
    pub rcode: u16,
    pub questions: Seq<DnsQuestionV>,
    pub answers: Seq<DnsARecordV>,
}

impl View for DnsWrite {
    type V = DnsWriteV;

    open spec fn view(&self) -> DnsWriteV {
        DnsWriteV {
            id: self.id,
            response: self.response,
            op_code: self.op_code,
            authoritative: self.authoritative,
            recursion_available: self.recursion_available,
            rcode: self.rcode,
            questions: self.questions@.map_values(|q: DnsQuestion| q@),
            answers: self.answers@.map_values(|a: DnsARecord| a@),
        }
    }
}

/// A DNS message as hickory-proto decodes it, read into plain values; none
/// when the bytes do not decode.
pub uninterp spec fn dns_read_of(packet: Seq<u8>) -> Option<DnsReadV>;

/// The bytes hickory-proto encodes for a message with these fields; none
/// when a name's labels are not valid or the message does not encode.
pub uninterp spec fn dns_write_of(msg: DnsWriteV) -> Option<Seq<u8>>;

/// The raw labels of a domain name written as text, as hickory-proto reads
/// it (international names in their ASCII form); none when it is no valid name.
pub uninterp spec fn dns_labels_of(name: Seq<char>) -> Option<Seq<Seq<u8>>>;

/// Bytes that may be absent, as a sequence.
pub open spec fn opt_bytes(o: Option<Vec<u8>>) -> Option<Seq<u8>> {
    match o {
        Some(v) => Some(v@),
        None => None,
    }
}

/// hickory-proto (`Message::from_bytes`; each query's `name`, `Name::to_utf8`,
/// `Name::iter`, `query_type`, `query_class`; each answer's `RData::A`): a
/// message read into plain values. The contract only names the result.
#[verifier::external_body]
fn dns_read(packet: &[u8]) -> (r: Option<DnsRead>)
    ensures
        (match r {
            Some(m) => Some(m@),
            None => None,
        }) == dns_read_of(packet@),
{
    let m = Message::from_bytes(packet).ok()?;
    Some(DnsRead {
        id: m.metadata.id,
        questions: m.queries.iter().map(|q| (q.name.to_utf8(), DnsQuestion {
            labels: q.name.iter().map(|l| l.to_vec()).collect(),
            qtype: q.query_type.into(),
            qclass: q.query_class.into(),
        })).collect(),
        answers: m.answers.iter().map(|a| match &a.data {
            RData::A(x) => Some(u32::from(x.0)),
            _ => None,
        }).collect(),
    })
}

/// hickory-proto (`Message::new`, the header fields, `Name::from_labels`,
/// `Query::query`, `Record::from_rdata`, `RData` from an IPv4 address,
/// `to_bytes`): a message built from plain values, encoded. The contract only
/// names the result.
#[verifier::external_body]
fn dns_write(msg: DnsWrite) -> (r: Option<Vec<u8>>)
    ensures
        opt_bytes(r) == dns_write_of(msg@),
{
    let mut m = Message::new(msg.id, if msg.response { MessageType::Response } else { MessageType::Query }, OpCode::from_u8(msg.op_code));
    m.metadata.authoritative = msg.authoritative;
    m.metadata.recursion_available = msg.recursion_available;
    m.metadata.response_code = msg.rcode.into();
    for q in msg.questions {
        let mut x = Query::query(Name::from_labels(q.labels).ok()?, q.qtype.into());
        x.query_class = q.qclass.into();
        m.queries.push(x);
    }
    for a in msg.answers {
        m.answers.push(Record::from_rdata(Name::from_labels(a.labels).ok()?, a.ttl, core::net::Ipv4Addr::from(a.ip).into()));
    }
    m.to_bytes().ok()
}

/// hickory-proto (`Name::from_utf8`, `Name::iter`): the raw labels of a name
/// written as text. The contract only names the result.
#[verifier::external_body]
fn dns_labels(name: &str) -> (r: Option<Vec<Vec<u8>>>)
    ensures
        (match r {
            Some(v) => Some(labels_view(v@)),
            None => None,
        }) == dns_labels_of(name@),
{
    Name::from_utf8(name).ok().map(|n| n.iter().map(|l| l.to_vec()).collect())
}

/// A copy of raw labels.
fn copy_labels(ls: &Vec<Vec<u8>>) -> (r: Vec<Vec<u8>>)
    ensures
        labels_view(r@) == labels_view(ls@),
{
    let mut r: Vec<Vec<u8>> = Vec::new();
    let mut i: usize = 0;
    while i < ls.len()
        invariant
            0 <= i <= ls.len(),
            r@.len() == i,
            labels_view(r@) == labels_view(ls@).take(i as int),
        decreases ls.len() - i,
    {
        let l = &ls[i];
        let mut c: Vec<u8> = Vec::new();
        let mut k: usize = 0;
        while k < l.len()
            invariant
                0 <= k <= l.len(),
                c@ == l@.take(k as int),
            decreases l.len() - k,
        {
            c.push(l[k]);
            assert(l@.take(k + 1) =~= l@.take(k as int).push(l@[k as int]));
            k = k + 1;
        }
        assert(l@.take(k as int) =~= l@);
        let ghost before = r@;
        let ghost cv = c@;
        r.push(c);
        assert(r@ == before.push(c));
        assert forall|j: int| 0 <= j < r@.len() implies #[trigger] labels_view(r@)[j] == labels_view(ls@).take(i + 1)[j] by {
            if j < i {
                assert(r@[j] == before[j]);
                assert(labels_view(before)[j] == labels_view(ls@).take(i as int)[j]);
            } else {
                assert(r@[j]@ == cv);
            }
        }
        assert(labels_view(r@) =~= labels_view(ls@).take(i + 1));
        i = i + 1;
    }
    assert(labels_view(ls@).take(i as int) =~= labels_view(ls@));
    r
}

/// The proxy's answer to a message whose first question is `q`: a response
/// with the same id, the standard query op code, authoritative, recursion
/// available, no error, the question repeated, and one A record for `target`
/// owned by the question's name, with time-to-live `ttl`.
pub open spec fn a_reply_spec(id: u16, q: DnsQuestionV, target: (u8, u8, u8, u8), ttl: u32) -> DnsWriteV {
    let ip = ipv4_bits(target);
    DnsWriteV {
        id,
        response: true,
        op_code: 0,
        authoritative: true,
        recursion_available: true,
        rcode: 0,
        questions: seq![q],
        answers: seq![DnsARecordV { labels: q.labels, ttl, ip }],
    }
}

/// A query with this id for the A record of the name with these labels: a
/// standard query, the rest of the header as a new message has it.
pub open spec fn a_query_spec(labels: Seq<Seq<u8>>, id: u16) -> DnsWriteV {
    DnsWriteV {
        id,
        response: false,
        op_code: 0,
        authoritative: false,
        recursion_available: false,
        rcode: 0,
        questions: seq![DnsQuestionV { labels, qtype: TYPE_A, qclass: CLASS_IN }],
        answers: Seq::empty(),
    }
}

/// Builds the proxy's answer; see `a_reply_spec`.
fn a_reply(id: u16, q: &DnsQuestion, target: (u8, u8, u8, u8), ttl: u32) -> (w: DnsWrite)
    ensures
        w@ == a_reply_spec(id, q@, target, ttl),
{
    let mut questions: Vec<DnsQuestion> = Vec::new();
    questions.push(DnsQuestion { labels: copy_labels(&q.labels), qtype: q.qtype, qclass: q.qclass });
    let mut answers: Vec<DnsARecord> = Vec::new();
    answers.push(DnsARecord { labels: copy_labels(&q.labels), ttl, ip: bits_of(target) });
    let w = DnsWrite {
        id,
        response: true,
        op_code: 0,
        authoritative: true,
        recursion_available: true,
        rcode: 0,
        questions,
        answers,
    };
    assert(w@.questions =~= seq![q@]);
    assert(w@.answers =~= seq![DnsARecordV { labels: q@.labels, ttl, ip: ipv4_bits(target) }]);
    w
}

/// The first address among answers.
pub open spec fn first_addr(s: Seq<Option<u32>>) -> Option<u32>
    decreases s.len(),
{
    if s.len() == 0 {
        None
    } else if s[0] is Some {
        s[0]
    } else {
        first_addr(s.skip(1))
    }
}

/// The first address among answers.
fn first_from(v: &Vec<Option<u32>>) -> (r: Option<u32>)
    ensures
        r == first_addr(v@),
{
    let mut i: usize = 0;
    assert(v@.skip(0) =~= v@);
    while i < v.len()
        invariant
            0 <= i <= v.len(),
            first_addr(v@.skip(i as int)) == first_addr(v@),
        decreases v.len() - i,
    {
        let ghost t = v@.skip(i as int);
        assert(t[0] == v@[i as int]);
        if let Some(ip) = v[i] {
            return Some(ip);
        }
        assert(t.skip(1) =~= v@.skip(i + 1));
        i = i + 1;
    }
    assert(v@.skip(i as int).len() == 0);
    None
}

/// What the proxy does with a request.
pub enum ProxyReply {
    /// Drop it (it does not decode, or the answer does not encode).
    Ignore,
    /// Send these bytes back.
    Answer(Vec<u8>),
    /// Pass it to the upstream server and relay its answer.
    Forward,
}

/// The proxy's handling of a request: when its first question asks for the
/// A record of a redirected name, the answer of `a_reply_spec` for `target`
/// (time-to-live 0); any other question goes upstream; a message that does
/// not decode or holds no question, or an answer that does not encode, is dropped.
pub fn proxy_reply(domains: &Vec<String>, packet: &[u8], target: (u8, u8, u8, u8)) -> (r: ProxyReply)
    ensures
        (match dns_read_of(packet@) {
            None => r is Ignore,
            Some(m) => if m.questions.len() == 0 {
                r is Ignore
            } else if m.questions[0].1.qtype == TYPE_A && redirects(
                domains@.map_values(|d: String| d@),
                m.questions[0].0,
            ) {
                match dns_write_of(a_reply_spec(m.id, m.questions[0].1, target, 0)) {
                    Some(bytes) => r matches ProxyReply::Answer(b) && b@ == bytes,
                    None => r is Ignore,
                }
            } else {
                r is Forward
            },
        }),
{
    let m = match dns_read(packet) {
        None => {
            return ProxyReply::Ignore;
        },
        Some(m) => m,
    };
    if m.questions.len() == 0 {
        return ProxyReply::Ignore;
    }
    let (name, q) = &m.questions[0];
    assert(m@.questions[0] == (name@, q@));
    if q.qtype == TYPE_A && should_redirect(domains, name.as_str()) {
        let w = a_reply(m.id, q, target, 0);
        match dns_write(w) {
            Some(b) => ProxyReply::Answer(b),
            None => ProxyReply::Ignore,
        }
    } else {
        ProxyReply::Forward
    }
}

/// The query the redirection check sends for a name: the A query of
/// `a_query_spec` with id 0x42; none when the name is not valid or the query
/// does not encode.
pub fn check_query(domain: &str) -> (r: Option<Vec<u8>>)
    ensures
        opt_bytes(r) == (match dns_labels_of(domain@) {
            Some(ls) => dns_write_of(a_query_spec(ls, 0x42)),
            None => None,
        }),
{
    let labels = match dns_labels(domain) {
        Some(l) => l,
        None => {
            return None;
        },
    };
    let mut questions: Vec<DnsQuestion> = Vec::new();
    let ghost lv = labels_view(labels@);
    questions.push(DnsQuestion { labels, qtype: TYPE_A, qclass: CLASS_IN });
    let w = DnsWrite {
        id: 0x42,
        response: false,
        op_code: 0,
        authoritative: false,
        recursion_available: false,
        rcode: 0,
        questions,
        answers: Vec::new(),
    };
    assert(w@.questions =~= seq![DnsQuestionV { labels: lv, qtype: TYPE_A, qclass: CLASS_IN }]);
    assert(w@.answers =~= Seq::<DnsARecordV>::empty());
    dns_write(w)
}

/// Dotted-quad text of an address, as `Ipv4Addr` displays it.
pub open spec fn ipv4_text_spec(ip: (u8, u8, u8, u8)) -> Seq<char> {
    dec_nat(ip.0 as nat) + "."@ + dec_nat(ip.1 as nat) + "."@ + dec_nat(ip.2 as nat) + "."@ + dec_nat(
        ip.3 as nat,
    )
}

/// Writes an address in dotted-quad form.
pub fn ipv4_text(ip: (u8, u8, u8, u8)) -> (s: String)
    ensures
        s@ == ipv4_text_spec(ip),
{
    let mut s = String::new();
    push_u64(&mut s, ip.0 as u64);
    push_str(&mut s, ".");
    push_u64(&mut s, ip.1 as u64);
    push_str(&mut s, ".");
    push_u64(&mut s, ip.2 as u64);
    push_str(&mut s, ".");
    push_u64(&mut s, ip.3 as u64);
    s
}

/// The address the redirection check reads from an answer: the first A record, in dotted-quad form.
pub fn answer_address(packet: &[u8]) -> (r: Option<String>)
    ensures
        (match r {
            Some(s) => Some(s@),
            None => None,
        }) == (match dns_read_of(packet@) {
            Some(m) => match first_addr(m.answers) {
                Some(n) => Some(ipv4_text_spec(ipv4_octets(n))),
                None => None,
            },
            None => None,
        }),
{
    match dns_read(packet) {
        Some(m) => match first_from(&m.answers) {
            Some(n) => Some(ipv4_text(octets_of(n))),
            None => None,
        },
        None => None,
    }
}

} // verus!
