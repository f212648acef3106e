use frc_grafana::cli::{FrcGrafanaCli, DEFAULT_PORT};
use frc_grafana::entry::{Entry, EntryValue};
use frc_grafana::link::{CallbackKind, LinkStatus, ReconnectMachine, TickAction};
use frc_grafana::mailbox::{NtClientInput, EventMailbox};
use frc_grafana::publish::{message_for, plan_publishes, Message, PublishRound, QualityOfService};
use frc_grafana::topic::{payload_of, topic_of};

fn double(name: &str, text: &str) -> Entry {
    Entry::new(name.to_string(), EntryValue::Double(text.to_string()))
}

fn message(topic: &str, payload: &str) -> Message {
    Message {
        topic: topic.to_string(),
        payload: payload.to_string(),
        qos: QualityOfService::AtLeastOnce,
        retain: true,
    }
}

fn armed_machine(target: &str) -> ReconnectMachine {
    let mut m = ReconnectMachine::new(target.to_string());
    m.register(CallbackKind::Connected);
    m.register(CallbackKind::Disconnected);
    m
}

#[test]
fn topic_drops_spaces_and_slashes() {
    assert_eq!(topic_of("SmartDashboard/Angle 1"), "SmartDashboardAngle1");
}

#[test]
fn topic_is_the_same_on_every_call() {
    let name = "Shooter/Top Wheel/RPM";
    assert_eq!(topic_of(name), topic_of(name));
    assert_eq!(topic_of(&topic_of(name)), topic_of(name));
}

#[test]
fn topic_keeps_other_characters() {
    assert_eq!(topic_of("a.b-c_d\\e"), "a.b-c_d\\e");
    assert_eq!(topic_of("Ünïcode /x"), "Ünïcodex");
}

#[test]
fn topic_collisions_are_kept() {
    assert_eq!(topic_of("A B"), "AB");
    assert_eq!(topic_of("A/B"), "AB");
    assert_eq!(topic_of("AB"), "AB");
}

#[test]
fn topic_of_degenerate_names_is_empty() {
    assert_eq!(topic_of(""), "");
    assert_eq!(topic_of(" / /"), "");
}

#[test]
fn payload_only_for_doubles() {
    assert_eq!(payload_of(&EntryValue::Boolean(true)), None);
    assert_eq!(payload_of(&EntryValue::Text("x".to_string())), None);
    assert_eq!(payload_of(&EntryValue::Unsupported), None);
    assert_eq!(payload_of(&EntryValue::Double("42.5".to_string())), Some("42.5".to_string()));
}

#[test]
fn payload_reads_back_to_the_same_double() {
    let samples: Vec<f64> = vec![
        0.0,
        -0.0,
        -1.5,
        42.5,
        0.1 + 0.2,
        1.0 / 3.0,
        -123456.789012345,
        6.02214076e23,
        f64::MIN_POSITIVE,
        f64::MAX,
    ];
    for d in samples {
        let payload = payload_of(&EntryValue::Double(d.to_string())).unwrap();
        let back: f64 = payload.parse().unwrap();
        assert_eq!(back.to_bits(), d.to_bits());
    }
}

#[test]
fn mailbox_coalesces_two_sends() {
    let mut mailbox = EventMailbox::new();
    assert!(mailbox.is_empty());
    mailbox.send(NtClientInput::ClientDisconnected("10.20.79.2:1735".to_string()));
    mailbox.send(NtClientInput::ClientDisconnected("10.20.79.2:1736".to_string()));
    let mut drained = Vec::new();
    while let Some(e) = mailbox.try_recv() {
        drained.push(e);
    }
    assert_eq!(drained.len(), 1);
    assert!(matches!(&drained[0], NtClientInput::ClientDisconnected(a) if a == "10.20.79.2:1736"));
    assert!(mailbox.is_empty());
}

#[test]
fn mailbox_keeps_the_latest_level() {
    let mut mailbox = EventMailbox::new();
    assert!(mailbox.try_recv().is_none());
    mailbox.send(NtClientInput::ClientDisconnected("a".to_string()));
    mailbox.send(NtClientInput::ClientConnected("b".to_string()));
    assert!(matches!(mailbox.try_recv(), Some(NtClientInput::ClientConnected(a)) if a == "b"));
    assert!(mailbox.try_recv().is_none());
}

#[test]
fn disconnect_is_detected_after_reconnect() {
    let mut m = armed_machine("10.20.79.2:1735");
    assert_eq!(m.begin_tick(None), TickAction::Publish);
    let lost = Some(NtClientInput::ClientDisconnected("10.20.79.2:1735".to_string()));
    assert_eq!(m.begin_tick(lost), TickAction::Reconnect);
    assert!(m.finish_reconnect(true));
    m.register(CallbackKind::Connected);
    m.register(CallbackKind::Disconnected);
    assert!(m.is_connected());
    assert_eq!(m.begin_tick(None), TickAction::Publish);
    let lost_again = Some(NtClientInput::ClientDisconnected("10.20.79.2:1735".to_string()));
    assert_eq!(m.begin_tick(lost_again), TickAction::Reconnect);
    assert!(matches!(m.status(), LinkStatus::Disconnected));
}

#[test]
fn reconnect_restores_the_first_address() {
    let mut m = armed_machine("10.20.79.2:1735");
    m.begin_tick(Some(NtClientInput::ClientDisconnected("x".to_string())));
    assert!(m.finish_reconnect(true));
    assert!(matches!(m.status(), LinkStatus::Connected(a) if a == "10.20.79.2:1735"));
}

#[test]
fn events_without_a_handler_are_not_seen() {
    let mut m = ReconnectMachine::new("a".to_string());
    let lost = Some(NtClientInput::ClientDisconnected("a".to_string()));
    assert_eq!(m.begin_tick(lost), TickAction::Publish);
}

#[test]
fn connected_event_records_the_address() {
    let mut m = armed_machine("a");
    m.begin_tick(Some(NtClientInput::ClientDisconnected("a".to_string())));
    let up = Some(NtClientInput::ClientConnected("b".to_string()));
    assert_eq!(m.begin_tick(up), TickAction::Publish);
    assert!(matches!(m.status(), LinkStatus::Connected(a) if a == "b"));
}

#[test]
fn no_publish_while_disconnected() {
    let mut m = armed_machine("a");
    m.begin_tick(Some(NtClientInput::ClientDisconnected("a".to_string())));
    for _ in 0..5 {
        assert_eq!(m.begin_tick(None), TickAction::Reconnect);
        assert!(!m.finish_reconnect(false));
    }
    let again = Some(NtClientInput::ClientDisconnected("a".to_string()));
    assert_eq!(m.begin_tick(again), TickAction::Reconnect);
    assert!(m.finish_reconnect(true));
    assert_eq!(m.begin_tick(None), TickAction::Publish);
}

#[test]
fn one_failed_publish_spares_the_others() {
    let messages = vec![message("A", "1"), message("B", "2"), message("C", "3"), message("D", "4")];
    let mut round = PublishRound::new(messages);
    let mut offered = Vec::new();
    while let Some(m) = round.next_message() {
        offered.push(m.topic.clone());
        let ok = m.topic != "B";
        round.record(ok);
    }
    assert!(round.is_finished());
    assert_eq!(offered, vec!["A", "B", "C", "D"]);
    assert_eq!(round.delivered_count(), 3);
}

#[test]
fn empty_round_is_finished() {
    let round = PublishRound::new(Vec::new());
    assert!(round.is_finished());
    assert!(round.next_message().is_none());
    assert_eq!(round.delivered_count(), 0);
}

#[test]
fn one_tick_publishes_the_double_only() {
    let entries = vec![
        double("Angle", "42.5"),
        Entry::new("Enabled".to_string(), EntryValue::Boolean(true)),
    ];
    let plan = plan_publishes(&entries);
    assert_eq!(plan.len(), 1);
    assert_eq!(plan[0].topic, "Angle");
    assert_eq!(plan[0].payload, "42.5");
    assert!(plan[0].retain);
    assert_eq!(plan[0].qos, QualityOfService::AtLeastOnce);
}

#[test]
fn plan_keeps_order_and_skips_degenerate_names() {
    let entries = vec![
        double("SmartDashboard/Angle 1", "1.5"),
        double(" / ", "2"),
        Entry::new("Name".to_string(), EntryValue::Text("x".to_string())),
        double("Drive/Speed", "-3.25"),
        Entry::new("Raw".to_string(), EntryValue::Unsupported),
    ];
    let plan = plan_publishes(&entries);
    let got: Vec<(String, String)> =
        plan.iter().map(|m| (m.topic.clone(), m.payload.clone())).collect();
    assert_eq!(
        got,
        vec![
            ("SmartDashboardAngle1".to_string(), "1.5".to_string()),
            ("DriveSpeed".to_string(), "-3.25".to_string()),
        ]
    );
}

#[test]
fn message_for_single_entries() {
    assert!(message_for(&double("", "1")).is_none());
    assert!(message_for(&Entry::new("b".to_string(), EntryValue::Boolean(false))).is_none());
    let m = message_for(&double("a b", "0")).unwrap();
    assert_eq!(m.topic, "ab");
    assert_eq!(m.payload, "0");
}

#[test]
fn cli_port_defaults() {
    let cli = FrcGrafanaCli::new("localhost".to_string(), None);
    assert_eq!(cli.port, DEFAULT_PORT);
    assert_eq!(cli.port, 7777);
    let cli = FrcGrafanaCli::new("broker".to_string(), Some(1883));
    assert_eq!(cli.host, "broker");
    assert_eq!(cli.port, 1883);
    assert!(cli.run().is_ok());
}
