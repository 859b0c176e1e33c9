use hickory_proto::op::{Message, MessageType, OpCode, ResponseCode};
use hickory_proto::rr::{RData, RecordType};
use hickory_proto::serialize::binary::BinDecodable;
use pslinkb::dns::{
    answer_address, check_domains, check_query, check_result, cleanup, conf_path, confdir_of, dnsmasq_conf,
    enable_redirect, ipv4_text, lan_ip_from, local_ip, next_redirect_enabled, parse_ipv4, proxy_reply, proxy_target,
    redirect_domains, redirect_outcome, should_redirect, sighup_enable, summarize, upstream_of, DnsStep,
    ProxyReply, DEFAULT_CONFDIR,
};

fn strings(xs: &[&str]) -> Vec<String> {
    xs.iter().map(|s| s.to_string()).collect()
}

#[test]
fn the_redirected_and_checked_names() {
    assert_eq!(
        redirect_domains(),
        strings(&[
            "global-contribute.live-video.net",
            "irc.twitch.tv",
            "live.twitch.tv",
            "contribute.live-video.net",
            "tmi.twitch.tv",
        ])
    );
    assert_eq!(check_domains(), strings(&["irc.twitch.tv", "ingest.global-contribute.live-video.net"]));
}

#[test]
fn check_result_compares_with_the_expected_address() {
    let ok = check_result("irc.twitch.tv", "192.168.1.2", Some("192.168.1.2".to_string()));
    assert_eq!(ok.domain, "irc.twitch.tv");
    assert_eq!(ok.expected, "192.168.1.2");
    assert_eq!(ok.actual, Some("192.168.1.2".to_string()));
    assert!(ok.success);
    let other = check_result("irc.twitch.tv", "192.168.1.2", Some("8.8.8.8".to_string()));
    assert!(!other.success);
    let none = check_result("irc.twitch.tv", "192.168.1.2", None);
    assert_eq!(none.actual, Some("无解析".to_string()));
    assert!(!none.success);
    assert!(summarize(&vec![ok]));
    assert!(!summarize(&vec![check_result("a", "1.1.1.1", None), check_result("b", "1.1.1.1", Some("1.1.1.1".to_string()))]));
    assert!(summarize(&Vec::new()));
}

#[test]
fn redirection_covers_the_names_and_their_subdomains() {
    let ds = redirect_domains();
    assert!(should_redirect(&ds, "irc.twitch.tv."));
    assert!(should_redirect(&ds, "irc.twitch.tv"));
    assert!(should_redirect(&ds, "ingest.global-contribute.live-video.net."));
    assert!(should_redirect(&ds, "a.b.tmi.twitch.tv..."));
    assert!(!should_redirect(&ds, "twitch.tv."));
    assert!(!should_redirect(&ds, "xirc.twitch.tv"));
    assert!(!should_redirect(&ds, "example.com"));
    assert!(!should_redirect(&Vec::new(), "irc.twitch.tv"));
}

#[test]
fn dnsmasq_configuration_lines() {
    let ds = strings(&["irc.twitch.tv", "tmi.twitch.tv"]);
    assert_eq!(
        dnsmasq_conf(&ds, "192.168.1.1"),
        "address=/irc.twitch.tv/192.168.1.1\naddress=/tmi.twitch.tv/192.168.1.1\n"
    );
    assert_eq!(dnsmasq_conf(&Vec::new(), "192.168.1.1"), "");
    let (path, content) = enable_redirect(&ds, "10.0.0.1", "/etc/dnsmasq.d");
    assert_eq!(path, "/etc/dnsmasq.d/pslinkb.conf");
    assert_eq!(content, "address=/irc.twitch.tv/10.0.0.1\naddress=/tmi.twitch.tv/10.0.0.1\n");
    assert_eq!(conf_path("/tmp/d"), "/tmp/d/pslinkb.conf");
}

#[test]
fn confdir_from_uci_output() {
    assert_eq!(confdir_of("/tmp/dnsmasq.d\n"), Some("/tmp/dnsmasq.d".to_string()));
    assert_eq!(confdir_of("  \n"), None);
    assert_eq!(confdir_of(""), None);
    assert_eq!(DEFAULT_CONFDIR, "/etc/dnsmasq.d");
}

#[test]
fn redirect_outcome_reports_the_last_address() {
    assert_eq!(redirect_outcome("10.0.0.1", &strings(&["10.0.0.1", "10.0.0.1"])), ("10.0.0.1".to_string(), true));
    assert_eq!(redirect_outcome("10.0.0.1", &strings(&["10.0.0.1", "无解析"])), ("无解析".to_string(), false));
    assert_eq!(redirect_outcome("10.0.0.1", &Vec::new()), (String::new(), true));
}

#[test]
fn reload_toggles_the_recorded_state() {
    assert!(!next_redirect_enabled(Some(true)));
    assert!(next_redirect_enabled(Some(false)));
    assert!(next_redirect_enabled(None));
    assert!(!sighup_enable(Some("{\"checking\":false,\"enabled\":true,\"target\":\"\",\"actual\":\"\",\"ok\":false}")));
    assert!(sighup_enable(Some("{\"enabled\":false}")));
    assert!(sighup_enable(Some("not json")));
    assert!(sighup_enable(Some("{\"enabled\":\"yes\"}")));
    assert!(sighup_enable(None));
}

#[test]
fn cleanup_steps() {
    assert!(cleanup(false).is_empty());
    let steps = cleanup(true);
    assert_eq!(steps.len(), 3);
    match &steps[0] {
        DnsStep::WriteStatus(s) => {
            assert!(s.checking && !s.enabled && !s.ok && s.target.is_empty() && s.actual.is_empty())
        }
        _ => panic!("first step"),
    }
    assert!(matches!(steps[1], DnsStep::DisableRedirect));
    match &steps[2] {
        DnsStep::WriteStatus(s) => assert!(!s.checking && !s.enabled && !s.ok),
        _ => panic!("last step"),
    }
}

#[test]
fn ipv4_addresses_parse_like_std() {
    assert_eq!(parse_ipv4("192.168.1.2"), Some((192, 168, 1, 2)));
    assert_eq!(parse_ipv4("0.0.0.0"), Some((0, 0, 0, 0)));
    assert_eq!(parse_ipv4("255.255.255.255"), Some((255, 255, 255, 255)));
    assert_eq!(parse_ipv4("256.1.1.1"), None);
    assert_eq!(parse_ipv4("01.1.1.1"), None);
    assert_eq!(parse_ipv4("1.1.1"), None);
    assert_eq!(parse_ipv4("1.1.1.1.1"), None);
    assert_eq!(parse_ipv4("1..1.1"), None);
    assert_eq!(parse_ipv4(" 1.1.1.1"), None);
    assert_eq!(parse_ipv4("1.1.1.+1"), None);
}

#[test]
fn ipv4_text_roundtrip_on_values() {
    assert_eq!(ipv4_text((10, 0, 100, 255)), "10.0.100.255");
    assert_eq!(ipv4_text((0, 0, 0, 0)), "0.0.0.0");
    for ip in [(0u8, 0u8, 0u8, 0u8), (192, 168, 1, 2), (10, 0, 100, 255)] {
        let t = ipv4_text(ip);
        assert_eq!(parse_ipv4(&t), Some(ip));
    }
    assert_eq!(ipv4_text(parse_ipv4("172.16.0.1").unwrap()), "172.16.0.1");
}

#[test]
fn proxy_target_falls_back_to_loopback() {
    assert_eq!(proxy_target("192.168.1.2"), (192, 168, 1, 2));
    assert_eq!(proxy_target("localhost"), (127, 0, 0, 1));
}

#[test]
fn lan_address_from_uci() {
    assert_eq!(lan_ip_from("192.168.1.1\n"), Some("192.168.1.1".to_string()));
    assert_eq!(lan_ip_from("uci: Entry not found\n"), None);
    assert_eq!(lan_ip_from(""), None);
    assert_eq!(local_ip(Some("10.1.1.1\n"), "192.168.0.9".to_string()), "10.1.1.1");
    assert_eq!(local_ip(Some("bad"), "192.168.0.9".to_string()), "192.168.0.9");
    assert_eq!(local_ip(None, "127.0.0.1".to_string()), "127.0.0.1");
}

#[test]
fn upstream_from_resolv_conf() {
    assert_eq!(upstream_of(Some("# comment\nnameserver 127.0.0.53\n")), (127, 0, 0, 53));
    assert_eq!(upstream_of(Some("nameserver ::1\nnameserver 8.8.4.4\r\n")), (8, 8, 4, 4));
    assert_eq!(upstream_of(Some("search lan\n")), (114, 114, 114, 114));
    assert_eq!(upstream_of(Some(" nameserver 1.1.1.1\n")), (114, 114, 114, 114));
    assert_eq!(upstream_of(None), (114, 114, 114, 114));
}

#[test]
fn proxy_answers_redirected_names_with_the_target() {
    let ds = redirect_domains();
    let q = check_query("irc.twitch.tv").expect("query encodes");
    match proxy_reply(&ds, &q, (192, 168, 1, 2)) {
        ProxyReply::Answer(bytes) => {
            assert_eq!(answer_address(&bytes), Some("192.168.1.2".to_string()));
        }
        _ => panic!("a redirected name is answered"),
    }
    let other = check_query("example.com").expect("query encodes");
    assert!(matches!(proxy_reply(&ds, &other, (192, 168, 1, 2)), ProxyReply::Forward));
    assert!(matches!(proxy_reply(&ds, &[1, 2, 3], (192, 168, 1, 2)), ProxyReply::Ignore));
    // A query carries no answer.
    assert_eq!(answer_address(&q), None);
    assert_eq!(answer_address(&[0xff]), None);
}

#[test]
fn proxy_reply_header_and_records() {
    let q = check_query("live.twitch.tv").expect("query encodes");
    let query = Message::from_bytes(&q).expect("query decodes");
    assert_eq!(query.metadata.id, 0x42);
    assert_eq!(query.metadata.message_type, MessageType::Query);
    assert_eq!(query.metadata.op_code, OpCode::Query);
    assert_eq!(query.queries.len(), 1);
    assert_eq!(query.queries[0].query_type(), RecordType::A);
    assert_eq!(query.queries[0].name().to_utf8(), "live.twitch.tv.");
    let bytes = match proxy_reply(&redirect_domains(), &q, (10, 0, 0, 7)) {
        ProxyReply::Answer(b) => b,
        _ => panic!("answered"),
    };
    let reply = Message::from_bytes(&bytes).expect("reply decodes");
    assert_eq!(reply.metadata.id, 0x42);
    assert_eq!(reply.metadata.message_type, MessageType::Response);
    assert!(reply.metadata.authoritative);
    assert!(reply.metadata.recursion_available);
    assert_eq!(reply.metadata.response_code, ResponseCode::NoError);
    assert_eq!(reply.queries, query.queries);
    assert_eq!(reply.answers.len(), 1);
    assert_eq!(reply.answers[0].ttl, 0);
    assert_eq!(reply.answers[0].name, *query.queries[0].name());
    match &reply.answers[0].data {
        RData::A(a) => assert_eq!(a.0.octets(), [10, 0, 0, 7]),
        _ => panic!("an A record"),
    }
}

#[test]
fn redirect_status_decisions() {
    let c = pslinkb::dns::checking_status("10.0.0.1", "1.2.3.4");
    assert!(c.checking && c.enabled && !c.ok);
    assert_eq!((c.target.as_str(), c.actual.as_str()), ("10.0.0.1", "1.2.3.4"));
    let all = strings(&["10.0.0.1", "10.0.0.1"]);
    let e = pslinkb::dns::enabled_status("10.0.0.1", Some(&all), "x");
    assert!(!e.checking && e.enabled && e.ok);
    assert_eq!(e.actual, "10.0.0.1");
    let some = strings(&["10.0.0.1", "8.8.8.8"]);
    let e = pslinkb::dns::enabled_status("10.0.0.1", Some(&some), "x");
    assert!(!e.ok);
    assert_eq!(e.actual, "8.8.8.8");
    let e = pslinkb::dns::enabled_status("10.0.0.1", None, "1.2.3.4");
    assert!(!e.checking && e.enabled && !e.ok);
    assert_eq!(e.actual, "1.2.3.4");
}
