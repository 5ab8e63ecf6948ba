use vps_monitor::api::{
    admin_get_notify, admin_notify_saved, admin_rename, admin_reset_traffic, admin_save_notify,
    admin_test_notify, admin_update_traffic_limit, is_online, list_servers, mask_token, report,
    ReportAction, ReportEvent, TestAction, TestEvent,
};
use vps_monitor::db::{
    register_agent, replace_token, upsert_server, AdminNotifySettings, CounterFacts, ReportPayload,
    ServerStatus,
};
use vps_monitor::figure::Figure;
use vps_monitor::moment::Moment;
use vps_monitor::notify::{no_settings, NotifySettings};
use vps_monitor::reply::{db_error_reply, outcome_reply, DbFailure, Reply};

fn payload(id: &str, secret: &str) -> ReportPayload<f32, f64> {
    ReportPayload {
        id: id.to_string(),
        name: None,
        secret: secret.to_string(),
        country: None,
        city: None,
        cpu: 1.0,
        load: [1.0, 2.0, 3.0],
        mem_used: 1.0,
        mem_total: 2.0,
        disk_used: 3.0,
        disk_total: 4.0,
        net_rx: 5.0,
        net_tx: 6.0,
        traffic_in: 7.0,
        traffic_out: 8.0,
        uptime: 9,
        latency: None,
        loss: None,
    }
}

fn shows(reply: &Reply, status: u16, body: &str) {
    assert_eq!((reply.status, reply.body.as_str()), (status, body));
}

fn report_answer(action: ReportAction<f32, f64>, status: u16, body: &str) {
    match action {
        ReportAction::Respond(reply) => shows(&reply, status, body),
        other => panic!("{other:?}"),
    }
}

#[test]
fn reports_under_impossible_ids_are_refused() {
    for id in ["", "a b", "<x>", "機器"] {
        report_answer(
            report(&payload(id, "s"), ReportEvent::Received),
            400,
            "invalid id: only letters, digits, '.', '_', '-' allowed, max 64 chars",
        );
    }
    assert!(matches!(
        report(&payload("nas", "s"), ReportEvent::Received),
        ReportAction::LookUpToken
    ));
}

#[test]
fn reports_need_the_token_of_a_registered_machine() {
    let p = payload("nas", "secret");
    assert!(matches!(
        report(&p, ReportEvent::TokenLookedUp(Ok(Some("secret".to_string())))),
        ReportAction::Store
    ));
    for token in ["Secret", "secre", "secrets", ""] {
        report_answer(
            report(&p, ReportEvent::TokenLookedUp(Ok(Some(token.to_string())))),
            401,
            "invalid secret",
        );
    }
    report_answer(
        report(&p, ReportEvent::TokenLookedUp(Ok(None))),
        403,
        "unknown agent id：請先在後台「新增機器」登記這個 id",
    );
    report_answer(
        report(&p, ReportEvent::TokenLookedUp(Err(DbFailure))),
        500,
        "db error",
    );
}

#[test]
fn a_replaced_token_is_refused() {
    let now = Moment { secs: 0, nanos: 0 };
    let mut row: Option<ServerStatus<f32, f64>> = Some(register_agent("nas", "NAS", "first", &now));
    let p = payload("nas", "first");
    let token = row.as_ref().unwrap().token.clone();
    assert!(matches!(
        report(&p, ReportEvent::TokenLookedUp(Ok(token))),
        ReportAction::Store
    ));
    replace_token(&mut row, "second");
    let token = row.unwrap().token;
    report_answer(
        report(&p, ReportEvent::TokenLookedUp(Ok(token))),
        401,
        "invalid secret",
    );
}

#[test]
fn stored_reports_are_answered_and_alerted_on() {
    let p = payload("nas", "secret");
    let facts = CounterFacts {
        in_not_below: true,
        out_not_below: true,
    };
    let (_, result) = upsert_server(None, &p, facts, &Moment { secs: 0, nanos: 0 });
    match report(&p, ReportEvent::Stored(Ok(result))) {
        ReportAction::Finish(reply, result) => {
            shows(&reply, 200, "ok");
            assert_eq!(result.id, "nas");
            assert_eq!(result.name, "nas");
        }
        other => panic!("{other:?}"),
    }
    report_answer(
        report(&p, ReportEvent::Stored(Err(DbFailure))),
        500,
        "db error",
    );
}

fn moment(secs: i64, nanos: u32) -> Moment {
    Moment::new(secs, nanos).unwrap()
}

#[test]
fn machines_are_online_for_ninety_seconds() {
    let seen = moment(1_000_000, 500_000_000);
    assert!(is_online(&seen, &seen));
    assert!(is_online(&moment(1_000_089, 999_999_999), &seen));
    assert!(is_online(&moment(1_000_090, 499_999_999), &seen));
    assert!(!is_online(&moment(1_000_090, 500_000_000), &seen));
    assert!(!is_online(&moment(2_000_000, 0), &seen));
    assert!(is_online(&moment(0, 0), &seen));
}

#[test]
fn leap_seconds_count_where_the_time_of_day_has_moved_past_them() {
    // 12:00:60.5 of a day, and later the same day.
    let noon = 1_000_000_000 - 1_000_000_000 % 86_400 + 12 * 3600;
    let leap = moment(noon + 59, 1_500_000_000);
    assert!(is_online(&moment(noon + 59 + 90, 0), &leap));
    assert!(!is_online(&moment(noon + 59 + 91, 0), &leap));
    // 23:59:30 of a day, and 00:00:60.5 of the next.
    let midnight = noon + 12 * 3600;
    let late = moment(midnight + 59, 1_500_000_000);
    assert!(is_online(&late, &moment(midnight - 30, 0)));
    assert!(!is_online(&late, &moment(midnight - 31, 0)));
}

#[test]
fn the_public_page_shows_machines_without_their_tokens() {
    let now = moment(1_000, 0);
    let p = payload("nas", "secret");
    let facts = CounterFacts {
        in_not_below: true,
        out_not_below: true,
    };
    let (mut row, _) = upsert_server(None, &p, facts, &now);
    row.token = Some("hidden-token".to_string());
    row.last_auto_reset_ym = Some("hidden-month".to_string());
    let other = register_agent("idle", "Idle", "hidden-token", &moment(0, 0));
    let views = list_servers(&vec![row, other], &now);
    assert_eq!(views.len(), 2);
    assert_eq!(views[0].id, "nas");
    assert_eq!(views[0].name, "nas");
    assert!(views[0].online);
    assert!(matches!(views[0].cpu, Figure::Measured(x) if x == 1.0));
    assert!(matches!(views[0].load15, Figure::Measured(x) if x == 3.0));
    assert!(matches!(views[0].last_raw_out, Figure::Measured(x) if x == 8.0));
    assert!(matches!(views[0].traffic_notify_percent, Figure::Count(80)));
    assert_eq!(views[0].uptime, 9);
    assert_eq!(views[0].last_seen, now);
    assert_eq!(
        views[0].traffic_start,
        Some("1970-01-01T00:16:40+00:00".to_string())
    );
    assert_eq!(views[1].id, "idle");
    assert!(!views[1].online);
    assert!(!format!("{views:?}").contains("hidden"));
    assert!(list_servers(&Vec::<ServerStatus<f32, f64>>::new(), &now).is_empty());
}

#[test]
fn administrators_are_told_what_was_done() {
    shows(&admin_reset_traffic(Ok(())), 200, "reset ok");
    shows(&admin_rename(Ok(())), 200, "rename ok");
    shows(&admin_update_traffic_limit(Ok(())), 200, "update ok");
    shows(&admin_notify_saved(Ok(())), 200, "saved");
    shows(&admin_reset_traffic(Err(DbFailure)), 500, "db error");
    shows(&admin_rename(Err(DbFailure)), 500, "db error");
    shows(&admin_update_traffic_limit(Err(DbFailure)), 500, "db error");
    shows(&admin_notify_saved(Err(DbFailure)), 500, "db error");
    shows(&db_error_reply(), 500, "db error");
    shows(&outcome_reply(Ok(()), "done"), 200, "done");
}

#[test]
fn long_tokens_are_masked() {
    assert_eq!(mask_token(""), "");
    assert_eq!(mask_token("12345678"), "12345678");
    assert_eq!(mask_token("123456789"), "1234****");
    assert_eq!(mask_token("1234:ABCDEF"), "1234****");
    assert_eq!(mask_token("é中"), "é中");
    assert_eq!(mask_token("éé中中"), "éé****");
}

fn settings(token: &str) -> NotifySettings<f32> {
    let mut s = no_settings();
    s.telegram_bot_token = token.to_string();
    s.telegram_chat_id = "42".to_string();
    s.offline_minutes = 7;
    s
}

#[test]
fn settings_are_shown_with_the_token_masked() {
    let shown = admin_get_notify(Ok(settings("123456:secret"))).unwrap();
    assert_eq!(shown.telegram_bot_token, "1234****");
    assert_eq!(shown.telegram_chat_id, "42");
    assert_eq!(shown.offline_minutes, 7);
    let failed = admin_get_notify::<f32>(Err(DbFailure)).unwrap_err();
    shows(&failed, 500, "db error");
}

fn submitted(token: &str) -> AdminNotifySettings<f32> {
    AdminNotifySettings {
        telegram_enabled: true,
        telegram_bot_token: token.to_string(),
        telegram_chat_id: "43".to_string(),
        webhook_enabled: true,
        webhook_url: "http://hook".to_string(),
        offline_minutes: 9,
        cpu_threshold: 80.0,
        mem_threshold: 70.0,
    }
}

#[test]
fn settings_are_saved_as_submitted() {
    let saved = admin_save_notify(submitted("new-token"), Ok(settings("old-token")));
    assert!(saved.telegram_enabled && saved.webhook_enabled);
    assert_eq!(saved.telegram_bot_token, "new-token");
    assert_eq!(saved.telegram_chat_id, "43");
    assert_eq!(saved.webhook_url, "http://hook");
    assert_eq!(saved.offline_minutes, 9);
    assert!(matches!(saved.cpu_threshold, Figure::Measured(x) if x == 80.0));
    assert!(matches!(saved.mem_threshold, Figure::Measured(x) if x == 70.0));
}

#[test]
fn a_masked_or_empty_token_keeps_the_stored_one() {
    for given in ["", "****", "1234****"] {
        let saved = admin_save_notify(submitted(given), Ok(settings("old-token")));
        assert_eq!(saved.telegram_bot_token, "old-token");
        let saved = admin_save_notify(submitted(given), Err(DbFailure));
        assert_eq!(saved.telegram_bot_token, "");
    }
    let saved = admin_save_notify(submitted("***"), Ok(settings("old-token")));
    assert_eq!(saved.telegram_bot_token, "***");
}

#[test]
fn a_shown_token_saves_as_itself() {
    for token in ["", "short", "12345678", "123456789", "éé中中"] {
        let shown = admin_get_notify(Ok(settings(token))).unwrap();
        let saved = admin_save_notify(
            submitted(&shown.telegram_bot_token),
            Ok(settings(token)),
        );
        assert_eq!(saved.telegram_bot_token, token);
    }
}

#[test]
fn a_test_alert_is_sent_and_answered_truly() {
    let now = moment(0, 0);
    match admin_test_notify::<f32, f64>(&now, TestEvent::SettingsLoaded(Ok(settings("t")))) {
        TestAction::Send(used, alert) => {
            assert_eq!(used.telegram_bot_token, "t");
            assert_eq!(alert.title, "測試通知");
            assert_eq!(alert.message, "這是一條來自 VPS Monitor 的測試訊息。");
            assert_eq!(alert.server_id, "test");
            assert_eq!(alert.server_name, "Test");
            assert_eq!(alert.kind, "test");
            assert_eq!(alert.level, "info");
            assert!(matches!(alert.value, Figure::Count(0)));
            assert!(matches!(alert.limit, Figure::Count(0)));
            assert_eq!(alert.timestamp, "1970-01-01T00:00:00+00:00");
        }
        other => panic!("{other:?}"),
    }
    for (event, status, body) in [
        (TestEvent::SettingsLoaded(Err(DbFailure)), 500, "db error"),
        (TestEvent::Sent(Ok(())), 200, "test sent"),
        (
            TestEvent::Sent(Err("Telegram failed: status 401".to_string())),
            502,
            "送出失敗：Telegram failed: status 401",
        ),
    ] {
        match admin_test_notify::<f32, f64>(&now, event) {
            TestAction::Respond(reply) => shows(&reply, status, body),
            other => panic!("{other:?}"),
        }
    }
}
