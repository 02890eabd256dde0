use std::sync::Arc;

use nexus_host::audits::{
    find_subseq, is_login_line, parse_ssh_login_details, split_whitespace_bytes, AuditMonitor,
    LastLogin, SshLoginDetails,
};
use nexus_host::config::{ColorError, Config, SshAlertsConfig};
use nexus_host::discord::{color_from_level, emoji_from_level, into_chunks, mention_from_level, Layer};
use nexus_host::logging::{u8_to_level, Level, LoggerSlot};
use nexus_host::metrics::{MemoryMetrics, MetricsDataFormatted};
use nexus_host::plugin::{Meta, MetaField};

fn metrics_config(embed_color: &str) -> Config {
    Config {
        webhook_url: "https://example.invalid/hook".to_string(),
        embed_title: "host".to_string(),
        embed_color: embed_color.to_string(),
        update_interval: "30s".to_string(),
        optional_message: String::new(),
        user_tags: Vec::new(),
        show_memory: true,
        memory_in_mb: false,
        show_cpu: true,
        show_network_usage: false,
        network_interfaces: Vec::new(),
        optional_message_enabled: false,
        user_tags_enabled: false,
        update_previous_message: false,
        message_id: None,
        show_disk_usage: false,
        disk_drives: Vec::new(),
        disk_names: Vec::new(),
        ssh_alerts: SshAlertsConfig {
            enabled: false,
            log_path: "/var/log/auth.log".to_string(),
            ssh_alert_webhook_url: String::new(),
        },
    }
}

#[test]
fn identity_record_keeps_text_and_adds_terminator() {
    let m = Meta::new(&b"demo".to_vec(), &b"me".to_vec(), &b"0.1.0".to_vec()).unwrap();
    assert_eq!(*m.name.as_bytes(), b"demo\0".to_vec());
    assert_eq!(*m.authors.as_bytes(), b"me\0".to_vec());
    assert_eq!(*m.version.as_bytes(), b"0.1.0\0".to_vec());
    assert_eq!(m.name.text_len(), 4);
}

#[test]
fn logical_value_excludes_the_terminator() {
    let m = Meta::new(&b"demo".to_vec(), &b"me".to_vec(), &b"0.1.0".to_vec()).unwrap();
    assert_eq!(m.name.text_bytes(), b"demo".to_vec());
    assert_eq!(m.authors.text_bytes(), b"me".to_vec());
    assert_eq!(m.version.text_bytes(), b"0.1.0".to_vec());
}

#[test]
fn identity_record_rejects_embedded_nul_naming_the_field() {
    let e = Meta::new(&b"demo".to_vec(), &b"m\0e".to_vec(), &b"0.1.0".to_vec()).unwrap_err();
    assert_eq!(e.field, MetaField::Authors);
    assert_eq!(e.nul.position, 1);
}

#[test]
fn logger_slot_is_set_exactly_once() {
    let mut slot: LoggerSlot<String> = LoggerSlot::new();
    assert!(slot.get().is_none());
    assert!(slot.set("first".to_string()));
    assert_eq!(slot.get(), Some(&"first".to_string()));
    assert!(!slot.set("second".to_string()));
    assert_eq!(slot.get(), Some(&"first".to_string()));
}

#[test]
fn raw_level_bytes_decode_with_info_default() {
    assert_eq!(u8_to_level(0), Level::Error);
    assert_eq!(u8_to_level(1), Level::Warn);
    assert_eq!(u8_to_level(3), Level::Debug);
    assert_eq!(u8_to_level(4), Level::Trace);
    assert_eq!(u8_to_level(2), Level::Info);
    assert_eq!(u8_to_level(255), Level::Info);
}

#[test]
fn level_tables_match_the_palette() {
    assert_eq!(color_from_level(Level::Trace), 1752220);
    assert_eq!(color_from_level(Level::Debug), 1752220);
    assert_eq!(color_from_level(Level::Info), 5763719);
    assert_eq!(color_from_level(Level::Warn), 15105570);
    assert_eq!(color_from_level(Level::Error), 15548997);
    assert_eq!(emoji_from_level(Level::Trace), ":mag:");
    assert_eq!(emoji_from_level(Level::Debug), ":bug:");
    assert_eq!(emoji_from_level(Level::Info), ":information_source:");
    assert_eq!(emoji_from_level(Level::Warn), ":warning:");
    assert_eq!(emoji_from_level(Level::Error), ":x:");
    assert_eq!(mention_from_level(Level::Error), Some("@everyone"));
    assert_eq!(mention_from_level(Level::Warn), Some("@here"));
    assert_eq!(mention_from_level(Level::Info), None);
    assert_eq!(mention_from_level(Level::Debug), None);
    assert_eq!(mention_from_level(Level::Trace), None);
}

#[test]
fn chunks_split_at_the_requested_size() {
    let s = b"abcdefgh".to_vec();
    let chunks = into_chunks(&s, 3);
    assert_eq!(chunks, vec![b"abc".to_vec(), b"def".to_vec(), b"gh".to_vec()]);
}

#[test]
fn chunks_of_an_exact_multiple_have_no_remainder() {
    let s = b"abcdef".to_vec();
    let chunks = into_chunks(&s, 3);
    assert_eq!(chunks, vec![b"abc".to_vec(), b"def".to_vec()]);
}

#[test]
fn one_short_text_is_one_chunk() {
    let s = b"ab".to_vec();
    let chunks = into_chunks(&s, 1009);
    assert_eq!(chunks, vec![b"ab".to_vec()]);
}

#[test]
fn embed_color_parses_hex_with_leading_hash() {
    let c = metrics_config("#7289DA");
    assert_eq!(c.get_embed_color(), Ok(0x7289DA));
    let layer = Layer::new(nexus_host::discord::Config::new("url".to_string()));
    assert_eq!(layer.config.webhook_url, "url");
}

#[test]
fn embed_color_parses_bare_and_signed_hex() {
    assert_eq!(metrics_config("ff").get_embed_color(), Ok(255));
    assert_eq!(metrics_config("+ff").get_embed_color(), Ok(255));
    assert_eq!(metrics_config("00000000").get_embed_color(), Ok(0));
    assert_eq!(metrics_config("ffffffff").get_embed_color(), Ok(u32::MAX));
}

#[test]
fn embed_color_reports_each_failure() {
    assert_eq!(metrics_config("").get_embed_color(), Err(ColorError::Empty));
    assert_eq!(metrics_config("###").get_embed_color(), Err(ColorError::Empty));
    assert_eq!(metrics_config("+").get_embed_color(), Err(ColorError::InvalidDigit));
    assert_eq!(metrics_config("7g").get_embed_color(), Err(ColorError::InvalidDigit));
    assert_eq!(metrics_config("-1").get_embed_color(), Err(ColorError::InvalidDigit));
    assert_eq!(metrics_config("100000000").get_embed_color(), Err(ColorError::Overflow));
}

#[test]
fn ssh_login_line_is_parsed_into_details() {
    let line =
        b"Oct 11 22:03:01 host sshd[123]: Accepted password for alice from 10.0.0.5 port 22 ssh2"
            .to_vec();
    let d = parse_ssh_login_details(&line).unwrap();
    assert_eq!(d.user, b"alice".to_vec());
    assert_eq!(d.ip, b"10.0.0.5".to_vec());
    assert_eq!(d.time, b"Oct 11 22:03:01".to_vec());
}

#[test]
fn short_lines_carry_no_login() {
    let line = b"Oct 11 22:03:01 host sshd[123]: something short".to_vec();
    assert!(parse_ssh_login_details(&line).is_none());
}

#[test]
fn whitespace_splitting_drops_all_separators() {
    let line = b"  a \t b\n\nc ".to_vec();
    let parts = split_whitespace_bytes(&line);
    assert_eq!(parts, vec![b"a".to_vec(), b"b".to_vec(), b"c".to_vec()]);
}

#[test]
fn login_lines_are_recognised_by_both_markers() {
    assert!(is_login_line(&b"x Accepted password for alice".to_vec()));
    assert!(is_login_line(&b"x Accepted publickey for bob".to_vec()));
    assert!(!is_login_line(&b"Failed password for mallory".to_vec()));
}

#[test]
fn subsequence_search_finds_first_occurrence() {
    assert_eq!(find_subseq(b"abcabc", b"bc"), Some(1));
    assert_eq!(find_subseq(b"abcabc", b"cab"), Some(2));
    assert_eq!(find_subseq(b"abc", b"x"), None);
    assert_eq!(find_subseq(b"abc", b""), Some(0));
    assert_eq!(find_subseq(b"ab", b"abc"), None);
}

fn details(user: &[u8], ip: &[u8], time: &[u8]) -> SshLoginDetails {
    SshLoginDetails { user: user.to_vec(), ip: ip.to_vec(), time: time.to_vec() }
}

#[test]
fn repeated_logins_are_rate_limited() {
    let mut last = LastLogin::new();
    let d = details(b"alice", b"10.0.0.5", b"Oct 11 22:03:01");

    // First sighting: notified.
    assert!(last.observe(&d, 100));
    // Same login, same second: not news.
    assert!(!last.observe(&d, 100));
    // One second later: inside the two-second window.
    assert!(!last.observe(&d, 101));
    // Two seconds later: notified again.
    assert!(last.observe(&d, 102));
    // A different user right away: still inside the window.
    let e = details(b"bob", b"10.0.0.6", b"Oct 11 22:03:03");
    assert!(!last.observe(&e, 103));
    assert!(last.observe(&e, 104));
}

#[test]
fn audit_monitor_holds_its_configuration() {
    let config = Arc::new(metrics_config("#7289DA"));
    let monitor = AuditMonitor::new(Arc::clone(&config));
    assert!(!monitor.config.ssh_alerts.enabled);
    assert_eq!(monitor.config.ssh_alerts.log_path, "/var/log/auth.log");
}

#[test]
fn memory_gauge_reports_whole_percentages() {
    let m = MemoryMetrics { used: 1, total: 3 };
    assert_eq!(m.percent_used(), 33);
    let m = MemoryMetrics { used: 0, total: 8 };
    assert_eq!(m.percent_used(), 0);
    let m = MemoryMetrics { used: 8, total: 8 };
    assert_eq!(m.percent_used(), 100);
    let m = MemoryMetrics { used: u64::MAX / 2, total: u64::MAX };
    assert_eq!(m.percent_used(), 49);
}

#[test]
fn formatted_metrics_keep_their_fields() {
    let f = MetricsDataFormatted {
        cpu: "12.50%".to_string(),
        memory: "1.00GiB/2.00GiB (50.00%)".to_string(),
        disk: String::new(),
        network: String::new(),
    };
    assert_eq!(f.cpu, "12.50%");
    assert_eq!(f.memory, "1.00GiB/2.00GiB (50.00%)");
}
