use vps_monitor::figure::Figure;
use vps_monitor::moment::{Moment, MIN_SECS};
use vps_monitor::notify::{
    alert_result, check_offline, check_report_alerts, is_silent, load_settings, no_settings,
    offline_alert, offline_alerts, offline_watch, send_alert, AlertPayload, CpuFacts, Delivery, MemoryFacts,
    NotifySettings, OfflineWatch, Outcome, TrafficFacts, WatchedMachine,
};

const NOON: Moment = Moment {
    secs: 1_772_280_000,
    nanos: 0,
};

#[test]
fn settings_start_with_thresholds_and_no_channel() {
    let s: NotifySettings<f32> = load_settings(None);
    assert!(!s.telegram_enabled && !s.webhook_enabled);
    assert_eq!(s.telegram_bot_token, "");
    assert_eq!(s.telegram_chat_id, "");
    assert_eq!(s.webhook_url, "");
    assert_eq!(s.offline_minutes, 5);
    assert!(matches!(s.cpu_threshold, Figure::Count(90)));
    assert!(matches!(s.mem_threshold, Figure::Count(90)));
}

#[test]
fn unreadable_settings_are_blank() {
    let s: NotifySettings<f32> = load_settings(Some(None));
    assert_eq!(s.offline_minutes, 0);
    assert!(matches!(s.cpu_threshold, Figure::Count(0)));
    assert!(matches!(s.mem_threshold, Figure::Count(0)));
    assert!(!s.telegram_enabled && !s.webhook_enabled);
}

#[test]
fn stored_settings_are_in_force() {
    let mut stored: NotifySettings<f32> = no_settings();
    stored.offline_minutes = 12;
    stored.webhook_url = "http://hook".to_string();
    let s = load_settings(Some(Some(stored)));
    assert_eq!(s.offline_minutes, 12);
    assert_eq!(s.webhook_url, "http://hook");
}

fn alert() -> AlertPayload<f64> {
    AlertPayload {
        title: "Title".to_string(),
        message: "Message".to_string(),
        server_id: "id".to_string(),
        server_name: "name".to_string(),
        kind: "cpu".to_string(),
        level: "warning".to_string(),
        value: Figure::Measured(95.0),
        limit: Figure::Measured(90.0),
        timestamp: "now".to_string(),
    }
}

fn channels(telegram: bool, token: &str, chat: &str, webhook: bool, url: &str) -> Vec<Delivery> {
    let mut s: NotifySettings<f32> = no_settings();
    s.telegram_enabled = telegram;
    s.telegram_bot_token = token.to_string();
    s.telegram_chat_id = chat.to_string();
    s.webhook_enabled = webhook;
    s.webhook_url = url.to_string();
    send_alert(&s, &alert())
}

#[test]
fn alerts_go_to_the_channels_that_are_ready() {
    let sent = channels(true, "123:abc", "42", true, "http://hook");
    assert_eq!(sent.len(), 2);
    match &sent[0] {
        Delivery::Telegram {
            url,
            chat_id,
            text,
            parse_mode,
        } => {
            assert_eq!(url, "https://api.telegram.org/bot123:abc/sendMessage");
            assert_eq!(chat_id, "42");
            assert_eq!(text, "*Title*\nMessage");
            assert_eq!(parse_mode, "Markdown");
        }
        other => panic!("{other:?}"),
    }
    assert!(matches!(&sent[1], Delivery::Webhook { url } if url == "http://hook"));
    assert!(channels(false, "123:abc", "42", false, "http://hook").is_empty());
    assert!(channels(true, "", "42", true, "").is_empty());
    assert!(channels(true, "123:abc", "", false, "").is_empty());
    assert_eq!(channels(true, "123:abc", "42", false, "http://hook").len(), 1);
    assert_eq!(channels(false, "123:abc", "42", true, "http://hook").len(), 1);
}

fn webhook() -> Delivery {
    Delivery::Webhook {
        url: "http://hook".to_string(),
    }
}

fn telegram() -> Delivery {
    Delivery::Telegram {
        url: "u".to_string(),
        chat_id: "c".to_string(),
        text: "t".to_string(),
        parse_mode: "Markdown".to_string(),
    }
}

fn answered(code: u16, status: &str) -> Outcome {
    Outcome::Answered {
        code,
        status: status.to_string(),
    }
}

#[test]
fn an_alert_is_sent_where_every_message_was_taken() {
    assert_eq!(alert_result(&vec![]), Ok(()));
    for code in [200, 204, 299] {
        assert_eq!(
            alert_result(&vec![(telegram(), answered(code, "ok")), (webhook(), answered(200, "ok"))]),
            Ok(())
        );
    }
}

#[test]
fn an_alert_tells_why_messages_were_not_taken() {
    assert_eq!(
        alert_result(&vec![
            (telegram(), answered(401, "401 Unauthorized")),
            (webhook(), answered(200, "200 OK")),
        ]),
        Err("Telegram failed: status 401 Unauthorized".to_string())
    );
    assert_eq!(
        alert_result(&vec![
            (telegram(), Outcome::Unsent("timeout".to_string())),
            (webhook(), answered(500, "500 Internal Server Error")),
        ]),
        Err("Telegram error: timeout; Webhook failed: status 500 Internal Server Error".to_string())
    );
    for code in [199, 300] {
        assert!(alert_result(&vec![(webhook(), answered(code, "no"))]).is_err());
    }
}

fn cpu(threshold_set: bool, reached: bool) -> CpuFacts<f64> {
    CpuFacts {
        threshold_set,
        reached,
        usage: 95.25,
        threshold: 90.0,
        usage_text: "95.2".to_string(),
        threshold_text: "90".to_string(),
    }
}

fn memory(threshold_set: bool, total_known: bool, reached: bool) -> MemoryFacts<f64> {
    MemoryFacts {
        threshold_set,
        total_known,
        reached,
        usage: 91.0,
        threshold: 85.0,
        usage_text: "91.0".to_string(),
        threshold_text: "85".to_string(),
    }
}

fn traffic(limit_set: bool, percent_set: bool, reached: bool, full: bool) -> TrafficFacts<f64> {
    TrafficFacts {
        limit_set,
        percent_set,
        reached,
        full,
        used_percent: 81.5,
        limit: 1000.0,
        used_percent_text: "81.5".to_string(),
        total_text: "815.00".to_string(),
        limit_text: "1000".to_string(),
    }
}

fn alerts(c: CpuFacts<f64>, m: MemoryFacts<f64>, t: TrafficFacts<f64>) -> Vec<AlertPayload<f64>> {
    check_report_alerts("nas", "家用 NAS", &c, &m, &t, &NOON)
}

#[test]
fn a_report_calls_for_alerts_on_cpu_memory_and_traffic() {
    let all = alerts(cpu(true, true), memory(true, true, true), traffic(true, true, true, false));
    let kinds: Vec<&str> = all.iter().map(|a| a.kind.as_str()).collect();
    assert_eq!(kinds, vec!["cpu", "memory", "traffic"]);
    for a in &all {
        assert_eq!(a.server_id, "nas");
        assert_eq!(a.server_name, "家用 NAS");
        assert_eq!(a.level, "warning");
        assert_eq!(a.timestamp, "2026-02-28T12:00:00+00:00");
    }
    assert_eq!(all[0].title, "CPU 告警");
    assert_eq!(all[0].message, "家用 NAS CPU 使用率 95.2%（閾值 90%）");
    assert!(matches!(all[0].value, Figure::Measured(x) if x == 95.25));
    assert!(matches!(all[0].limit, Figure::Measured(x) if x == 90.0));
    assert_eq!(all[1].title, "記憶體告警");
    assert_eq!(all[1].message, "家用 NAS 記憶體使用率 91.0%（閾值 85%）");
    assert!(matches!(all[1].value, Figure::Measured(x) if x == 91.0));
    assert!(matches!(all[1].limit, Figure::Measured(x) if x == 85.0));
    assert_eq!(all[2].title, "流量告警");
    assert_eq!(all[2].message, "家用 NAS 累計流量已達 81.5%（815.00 GB / 1000 GB）");
    assert!(matches!(all[2].value, Figure::Measured(x) if x == 81.5));
    assert!(matches!(all[2].limit, Figure::Measured(x) if x == 1000.0));
}

#[test]
fn alerts_are_due_on_their_own_facts_alone() {
    let no_cpu = || cpu(false, true);
    let no_memory = || memory(true, false, true);
    let no_traffic = || traffic(true, true, false, false);
    assert!(alerts(no_cpu(), no_memory(), no_traffic()).is_empty());
    assert!(alerts(cpu(true, false), memory(false, true, true), traffic(false, true, true, true)).is_empty());
    assert!(alerts(no_cpu(), memory(true, true, false), traffic(true, false, true, true)).is_empty());
    assert_eq!(alerts(cpu(true, true), no_memory(), no_traffic())[0].kind, "cpu");
    assert_eq!(alerts(no_cpu(), memory(true, true, true), no_traffic())[0].kind, "memory");
    let full = alerts(no_cpu(), no_memory(), traffic(true, true, true, true));
    assert_eq!(full.len(), 1);
    assert_eq!(full[0].kind, "traffic");
    assert_eq!(full[0].level, "critical");
}

#[test]
fn machines_may_be_silent_for_the_set_minutes() {
    assert_eq!(offline_watch(0, &NOON), OfflineWatch::Off);
    assert_eq!(offline_watch(-3, &NOON), OfflineWatch::Off);
    assert_eq!(offline_watch(i64::MIN, &NOON), OfflineWatch::Off);
    assert_eq!(
        offline_watch(5, &NOON),
        OfflineWatch::Since(Moment {
            secs: NOON.secs - 300,
            nanos: 0
        })
    );
    let most = (NOON.secs - MIN_SECS) / 60;
    assert!(matches!(offline_watch(most, &NOON), OfflineWatch::Since(_)));
    assert_eq!(offline_watch(most + 1, &NOON), OfflineWatch::BeyondCalendar);
    assert_eq!(offline_watch(i64::MAX, &NOON), OfflineWatch::BeyondCalendar);
}

fn watched(id: &str, last_seen: &str) -> WatchedMachine {
    WatchedMachine {
        id: id.to_string(),
        name: format!("Machine {id}"),
        last_seen: last_seen.to_string(),
    }
}

#[test]
fn silent_machines_are_found_in_order() {
    let since = match offline_watch(5, &NOON) {
        OfflineWatch::Since(since) => since,
        other => panic!("{other:?}"),
    };
    let machines = vec![
        watched("a", "2026-02-28T11:54:59.999999999+00:00"),
        watched("b", "2026-02-28T11:55:00+00:00"),
        watched("c", "no date"),
        watched("d", "2026-02-28T12:00:00+00:00"),
        watched("e", "2026-01-01T00:00:00+00:00"),
    ];
    let silent = check_offline(&machines, &since);
    let ids: Vec<&str> = silent.iter().map(|m| m.id.as_str()).collect();
    assert_eq!(ids, vec!["a", "e"]);
    assert_eq!(silent[1].name, "Machine e");
    assert_eq!(silent[1].last_seen, "2026-01-01T00:00:00+00:00");
    assert!(check_offline(&vec![], &since).is_empty());
    assert!(!is_silent(&None, &since));
    assert!(!is_silent(&Some(since), &since));
    assert!(is_silent(&Some(Moment { secs: 0, nanos: 0 }), &since));
}

#[test]
fn a_silent_machine_raises_an_alert() {
    let machine = watched("a", "2026-02-28T11:00:00+00:00");
    let alert: AlertPayload<f64> = offline_alert(&machine, 5, &NOON);
    assert_eq!(alert.title, "離線告警");
    assert_eq!(
        alert.message,
        "Machine a 已超過 5 分鐘沒有上報（最後：2026-02-28T11:00:00+00:00）"
    );
    assert_eq!(alert.server_id, "a");
    assert_eq!(alert.server_name, "Machine a");
    assert_eq!(alert.kind, "offline");
    assert_eq!(alert.level, "critical");
    assert!(matches!(alert.value, Figure::Count(5)));
    assert!(matches!(alert.limit, Figure::Count(0)));
    assert_eq!(alert.timestamp, "2026-02-28T12:00:00+00:00");
}

#[test]
fn every_silent_machine_raises_an_alert() {
    let since = Moment {
        secs: NOON.secs - 300,
        nanos: 0,
    };
    let machines = vec![
        watched("a", "2026-02-28T11:00:00+00:00"),
        watched("b", "2026-02-28T11:59:00+00:00"),
        watched("c", "no date"),
        watched("d", "2026-02-28T11:54:59+00:00"),
    ];
    let alerts: Vec<AlertPayload<f64>> = offline_alerts(&machines, 5, &since, &NOON);
    let messages: Vec<&str> = alerts.iter().map(|a| a.message.as_str()).collect();
    assert_eq!(
        messages,
        vec![
            "Machine a 已超過 5 分鐘沒有上報（最後：2026-02-28T11:00:00+00:00）",
            "Machine d 已超過 5 分鐘沒有上報（最後：2026-02-28T11:54:59+00:00）",
        ]
    );
    assert_eq!(alerts[1].server_id, "d");
    assert_eq!(alerts[1].timestamp, "2026-02-28T12:00:00+00:00");
    assert!(offline_alerts::<f64>(&vec![], 5, &since, &NOON).is_empty());
}
