use pcsc_rs::decimal::{parse_u64, render_u64};
use pcsc_rs::gpu::{card_from_fields, fields_readable, parse_info};
use pcsc_rs::session::{next_action, Opcode, PacketKind, SessionAction, SessionEvent};
use pcsc_rs::status::{client_version_label, os_label, resolve_hostname};
use pcsc_rs::unix_to_date;
use pcsc_rs::update::{after_update, AfterUpdate};
use pcsc_rs::{server_uri, App, AppConfig};

#[test]
fn test_function() {
    if false {
        panic!("Test Failed.");
    }
}

#[test]
fn app_starts_unfinished() {
    assert!(!App::new().finish);
}

#[test]
fn config_defaults_to_public_server() {
    let config = AppConfig::default();
    assert_eq!(config.uri, "https://pcss.eov2.com");
    assert!(config.password.is_none());
    assert!(config.hostname.is_none());
}

#[test]
fn server_uri_prefers_configured() {
    assert_eq!(server_uri(None), "https://pcss.eov2.com");
    assert_eq!(server_uri(Some("http://localhost:3000".to_string())), "http://localhost:3000");
}

#[test]
fn uptime_zero() {
    assert_eq!(unix_to_date::new(0), "0 days 0 hours 0 minutes 0 seconds");
}

#[test]
fn uptime_one_of_each() {
    assert_eq!(unix_to_date::new(90061), "1 days 1 hours 1 minutes 1 seconds");
}

#[test]
fn uptime_just_under_a_day() {
    assert_eq!(unix_to_date::new(86399), "0 days 23 hours 59 minutes 59 seconds");
}

#[test]
fn uptime_largest() {
    assert_eq!(
        unix_to_date::new(u64::MAX),
        "213503982334601 days 7 hours 0 minutes 15 seconds"
    );
}

#[test]
fn uptime_parts_add_back_up() {
    let sec: u64 = 1_234_567;
    let text = unix_to_date::new(sec);
    let parts: Vec<u64> = text
        .split(' ')
        .filter_map(|w| w.parse::<u64>().ok())
        .collect();
    assert_eq!(parts.len(), 4);
    assert_eq!(parts[0] * 86400 + parts[1] * 3600 + parts[2] * 60 + parts[3], sec);
    assert!(parts[1] < 24 && parts[2] < 60 && parts[3] < 60);
}

#[test]
fn render_matches_to_string() {
    for n in [0u64, 7, 10, 99, 100, 12345, u64::MAX] {
        assert_eq!(render_u64(n), n.to_string());
    }
}

#[test]
fn parse_accepts_digits_and_plus() {
    assert_eq!(parse_u64("123"), Some(123));
    assert_eq!(parse_u64("+7"), Some(7));
    assert_eq!(parse_u64("007"), Some(7));
    assert_eq!(parse_u64("18446744073709551615"), Some(u64::MAX));
}

#[test]
fn parse_rejects_other_text() {
    for s in ["", "+", "-", "-1", " 1", "1 ", "12a", "++1", "18446744073709551616", "[N/A]"] {
        assert_eq!(parse_u64(s), None, "{:?}", s);
    }
}

#[test]
fn parse_agrees_with_std() {
    for s in ["0", "+0", "42", "-0", "+", "99999999999999999999", "1_000", "٣"] {
        assert_eq!(parse_u64(s), s.parse::<u64>().ok(), "{:?}", s);
    }
}

#[test]
fn parse_reads_back_rendering() {
    for n in [0u64, 1, 9, 10, 1000, 4294967296, u64::MAX] {
        assert_eq!(parse_u64(&render_u64(n)), Some(n));
    }
}

const HEADER: &str = "name, utilization.gpu [%], memory.free [MiB], memory.total [MiB]";

#[test]
fn gpu_reads_first_card() {
    let out = format!("{}\nNVIDIA GeForce RTX 3080, 12 %, 9000 MiB, 10240 MiB\n", HEADER);
    let card = parse_info(&out).unwrap();
    assert_eq!(card.name, "NVIDIA GeForce RTX 3080");
    assert_eq!(card.usage, Some(12));
    assert_eq!(card.memory.free, 9000);
    assert_eq!(card.memory.total, 10240);
}

#[test]
fn gpu_reads_windows_line_ends() {
    let out = format!("{}\r\nQuadro P400, 0 %, 1900 MiB, 2048 MiB\r\n", HEADER);
    let card = parse_info(&out).unwrap();
    assert_eq!(card.name, "Quadro P400");
    assert_eq!(card.usage, Some(0));
    assert_eq!(card.memory.free, 1900);
    assert_eq!(card.memory.total, 2048);
}

#[test]
fn gpu_without_usage() {
    let out = format!("{}\nTesla K80, [N/A], 11441 MiB, 11441 MiB\n", HEADER);
    let card = parse_info(&out).unwrap();
    assert_eq!(card.usage, None);
    assert_eq!(card.memory.free, 11441);
}

#[test]
fn gpu_reads_only_the_first_card() {
    let out = format!("{}\nA, 1 %, 2 MiB, 3 MiB\nB, 4 %, 5 MiB, 6 MiB\n", HEADER);
    let card = parse_info(&out).unwrap();
    assert_eq!(card.name, "A");
    assert_eq!(card.usage, Some(1));
}

#[test]
fn gpu_output_without_card_line() {
    assert!(parse_info(HEADER).is_none());
    assert!(parse_info("").is_none());
}

#[test]
fn gpu_line_with_too_few_fields() {
    let out = format!("{}\nA, 1 %, 2 MiB\n", HEADER);
    assert!(parse_info(&out).is_none());
}

#[test]
fn gpu_line_with_bad_number() {
    let out = format!("{}\nA, lots %, 2 MiB, 3 MiB\n", HEADER);
    assert!(parse_info(&out).is_none());
    let out = format!("{}\nA, 1 %, 2 GB, 3 MiB\n", HEADER);
    assert!(parse_info(&out).is_none());
}

#[test]
fn gpu_fields_read_directly() {
    let fields: Vec<String> = vec!["Card".into(), "[N/A]".into(), "10".into(), "20".into(), "x".into()];
    assert!(fields_readable(&fields));
    let card = card_from_fields(&fields);
    assert_eq!(card.name, "Card");
    assert_eq!(card.usage, None);
    assert_eq!(card.memory.free, 10);
    assert_eq!(card.memory.total, 20);
    let bad: Vec<String> = vec!["Card".into(), "5".into(), "10".into()];
    assert!(!fields_readable(&bad));
}

#[test]
fn os_label_prefers_os_version() {
    assert_eq!(os_label("Windows", Some("10 (19045)"), Some("19045")), "Windows 10 (19045)");
    assert_eq!(os_label("Linux", None, Some("6.1.0")), "Linux 6.1.0");
}

#[test]
fn client_label() {
    assert_eq!(client_version_label("0.1.0"), "Rust client v0.1.0");
}

#[test]
fn hostname_setting_overrides_machine() {
    assert_eq!(resolve_hostname(Some("shown".into()), Some("real".into())), "shown");
    assert_eq!(resolve_hostname(None, Some("real".into())), "real");
}

#[test]
fn update_steps_follow_setting() {
    assert_eq!(after_update(true, Some("restart")), AfterUpdate::Restart);
    assert_eq!(after_update(true, Some("terminate")), AfterUpdate::Terminate);
    assert_eq!(after_update(true, Some("none")), AfterUpdate::Continue);
    assert_eq!(after_update(true, Some("reboot")), AfterUpdate::Continue);
    assert_eq!(after_update(true, None), AfterUpdate::Continue);
    assert_eq!(after_update(false, Some("restart")), AfterUpdate::Continue);
    assert_eq!(after_update(false, Some("terminate")), AfterUpdate::Continue);
}

#[test]
fn session_reads_text_and_binary_frames() {
    assert_eq!(next_action(SessionEvent::Frame(Opcode::Text)), SessionAction::ReadPacket);
    assert_eq!(next_action(SessionEvent::Frame(Opcode::Binary)), SessionAction::ReadPacket);
    assert_eq!(next_action(SessionEvent::Frame(Opcode::Ping)), SessionAction::Wait);
    assert_eq!(next_action(SessionEvent::Frame(Opcode::Close)), SessionAction::Wait);
}

#[test]
fn session_answers_sync_only() {
    assert_eq!(next_action(SessionEvent::Packet(PacketKind::Sync)), SessionAction::SendStatus);
    assert_eq!(next_action(SessionEvent::Packet(PacketKind::Status)), SessionAction::Wait);
    assert_eq!(next_action(SessionEvent::Malformed), SessionAction::ReportMalformed);
}
