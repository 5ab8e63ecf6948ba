use chrono::NaiveDate;
use regex::Regex;
use vps_monitor::db::{
    auto_reset_due_traffic, clip, create_admin, create_agent, create_session, gen_random_token,
    get_agent_token, init_db, issue_tokens, judge_session, last_day_of_month, register_agent, rename_server,
    replace_token, reset_traffic, rotate_agent_token, session_from, session_valid, token_text,
    update_traffic_limit, upsert_server, valid_id, CounterFacts, Latency, ReportPayload,
    ServerStatus, SessionState,
};
use vps_monitor::figure::Figure;
use vps_monitor::moment::{Moment, MAX_SECS, MAX_YEAR, MIN_YEAR};

type Server = ServerStatus<f32, f64>;

fn at(year: i32, month: u32, day: u32, hour: u32, minute: u32, second: u32) -> Moment {
    let t = NaiveDate::from_ymd_opt(year, month, day)
        .unwrap()
        .and_hms_opt(hour, minute, second)
        .unwrap()
        .and_utc();
    Moment::new(t.timestamp(), 0).unwrap()
}

fn value(f: &Figure<f64>) -> f64 {
    match f {
        Figure::Count(n) => *n as f64,
        Figure::Measured(x) => *x,
        Figure::Sum(a, b) => value(a) + value(b),
        Figure::Difference(a, b) => value(a) - value(b),
    }
}

fn payload(traffic_in: f64, traffic_out: f64, uptime: i64) -> ReportPayload<f32, f64> {
    ReportPayload {
        id: "oracle-tokyo".to_string(),
        name: Some("Oracle 東京".to_string()),
        secret: "secret".to_string(),
        country: Some("JP".to_string()),
        city: Some("Tokyo".to_string()),
        cpu: 12.5,
        load: [0.5, 0.25, 0.125],
        mem_used: 1.0,
        mem_total: 4.0,
        disk_used: 10.0,
        disk_total: 40.0,
        net_rx: 3.0,
        net_tx: 5.0,
        traffic_in,
        traffic_out,
        uptime,
        latency: Some(Latency {
            telecom: Some(30),
            unicom: None,
            mobile: Some(50),
        }),
        loss: Some(0.5),
    }
}

fn facts(row: &Option<Server>, p: &ReportPayload<f32, f64>) -> CounterFacts {
    match row {
        Some(old) => CounterFacts {
            in_not_below: p.traffic_in >= value(&old.last_raw_in),
            out_not_below: p.traffic_out >= value(&old.last_raw_out),
        },
        None => CounterFacts {
            in_not_below: true,
            out_not_below: true,
        },
    }
}

fn reported(row: Option<Server>, p: &ReportPayload<f32, f64>, now: &Moment) -> Server {
    let facts = facts(&row, p);
    upsert_server(row, p, facts, now).0
}

fn registered() -> Server {
    register_agent("oracle-tokyo", "Tokyo", "token", &at(2026, 1, 1, 0, 0, 0))
}

#[test]
fn last_day_of_month_handles_month_boundaries() {
    assert_eq!(last_day_of_month(2026, 2), 28);
    assert_eq!(last_day_of_month(2024, 2), 29);
    assert_eq!(last_day_of_month(2026, 4), 30);
    assert_eq!(last_day_of_month(2026, 1), 31);
    assert_eq!(last_day_of_month(2026, 12), 31);
}

#[test]
fn months_end_rightly_at_the_ends_of_the_calendar() {
    assert_eq!(last_day_of_month(2000, 2), 29);
    assert_eq!(last_day_of_month(1900, 2), 28);
    assert_eq!(last_day_of_month(2026, 0), 31);
    assert_eq!(last_day_of_month(MIN_YEAR, 1), 31);
    assert_eq!(last_day_of_month(MAX_YEAR, 11), 30);
    assert_eq!(last_day_of_month(-4, 2), 29);
    let lengths: Vec<u32> = (1..=12).map(|m| last_day_of_month(2025, m)).collect();
    assert_eq!(lengths, vec![31, 28, 31, 30, 31, 30, 31, 31, 30, 31, 30, 31]);
}

#[test]
fn ids_match_their_pattern() {
    let pattern = Regex::new(r"^[A-Za-z0-9._-]{1,64}$").unwrap();
    let mut ids: Vec<String> = vec![
        "".to_string(),
        "oracle-tokyo".to_string(),
        "a.b_c-D9".to_string(),
        "a b".to_string(),
        "a\n".to_string(),
        "\na".to_string(),
        "<script>".to_string(),
        "機器".to_string(),
        "a\u{301}".to_string(),
        "x".repeat(64),
        "x".repeat(65),
        "é".repeat(64),
    ];
    for code in 0..0x250u32 {
        if let Some(c) = char::from_u32(code) {
            ids.push(c.to_string());
            ids.push(format!("a{c}z"));
        }
    }
    for id in &ids {
        assert_eq!(valid_id(id), pattern.is_match(id), "{id:?}");
    }
    assert!(valid_id("oracle-tokyo"));
    assert!(!valid_id(""));
}

#[test]
fn accepted_ids_are_harmless() {
    for c in ['<', '>', '&', '"', '\'', '/', ' ', '\u{3000}'] {
        assert!(!valid_id(&format!("a{c}b")));
    }
}

#[test]
fn long_texts_are_clipped_to_characters() {
    assert_eq!(clip("Tokyo", 64), "Tokyo");
    assert_eq!(clip("Tokyo", 5), "Tokyo");
    assert_eq!(clip("Tokyo", 2), "To");
    assert_eq!(clip("東京都", 2), "東京");
    assert_eq!(clip("東京都", 0), "");
    assert_eq!(clip("", 3), "");
    assert_eq!(clip(&clip("東京都", 2), 2), "東京");
}

#[test]
fn tokens_are_sixty_four_hexadecimal_digits() {
    let mut bytes = [0u8; 32];
    bytes[0] = 0xab;
    bytes[31] = 0x01;
    assert_eq!(token_text(&bytes), format!("ab{}01", "00".repeat(30)));
    let token = gen_random_token();
    assert_eq!(token.len(), 64);
    assert!(token.chars().all(|c| matches!(c, '0'..='9' | 'a'..='f')));
    assert_ne!(token, "0".repeat(64));
    assert_ne!(token, gen_random_token());
}

#[test]
fn a_first_report_opens_an_account() {
    let now = at(2026, 2, 3, 4, 5, 6);
    let p = payload(100.0, 200.0, 1000);
    let (row, result) = upsert_server(None, &p, facts(&None, &p), &now);
    assert_eq!(row.id, "oracle-tokyo");
    assert_eq!(row.name, "Oracle 東京");
    assert_eq!(row.country, Some("JP".to_string()));
    assert_eq!(row.city, Some("Tokyo".to_string()));
    assert!(matches!(row.cpu, Figure::Measured(x) if x == 12.5));
    assert!(matches!(row.load1, Figure::Measured(x) if x == 0.5));
    assert!(matches!(row.load5, Figure::Measured(x) if x == 0.25));
    assert!(matches!(row.load15, Figure::Measured(x) if x == 0.125));
    assert_eq!(value(&row.mem_used), 1.0);
    assert_eq!(value(&row.mem_total), 4.0);
    assert_eq!(value(&row.disk_used), 10.0);
    assert_eq!(value(&row.disk_total), 40.0);
    assert_eq!(value(&row.net_rx), 3.0);
    assert_eq!(value(&row.net_tx), 5.0);
    assert_eq!(value(&row.cum_in), 0.0);
    assert_eq!(value(&row.cum_out), 0.0);
    assert_eq!(value(&row.last_raw_in), 100.0);
    assert_eq!(value(&row.last_raw_out), 200.0);
    assert_eq!(row.traffic_start, Some("2026-02-03T04:05:06+00:00".to_string()));
    assert_eq!(value(&row.traffic_limit), 0.0);
    assert_eq!(value(&row.traffic_notify_percent), 80.0);
    assert_eq!(row.traffic_reset_day, 0);
    assert_eq!(row.last_auto_reset_ym, None);
    assert_eq!(row.uptime, 1000);
    assert_eq!(row.latency_telecom, Some(30));
    assert_eq!(row.latency_unicom, None);
    assert_eq!(row.latency_mobile, Some(50));
    assert!(matches!(row.packet_loss, Some(Figure::Measured(x)) if x == 0.5));
    assert_eq!(row.last_seen, now);
    assert_eq!(row.token, None);
    assert_eq!(result.id, "oracle-tokyo");
    assert_eq!(result.name, "Oracle 東京");
    assert!(matches!(result.cpu, Figure::Measured(x) if x == 12.5));
    assert_eq!(value(&result.mem_used), 1.0);
    assert_eq!(value(&result.mem_total), 4.0);
    assert_eq!(value(&result.cum_in), 0.0);
    assert_eq!(value(&result.cum_out), 0.0);
    assert_eq!(value(&result.traffic_limit), 0.0);
    assert_eq!(value(&result.traffic_notify_percent), 80.0);
}

#[test]
fn reported_texts_are_clipped() {
    let mut p = payload(0.0, 0.0, 1);
    p.name = Some("名".repeat(70));
    p.country = Some("ABCDEFGHIJ".to_string());
    p.city = Some("c".repeat(70));
    p.latency = None;
    p.loss = None;
    let row = reported(None, &p, &at(2026, 1, 1, 0, 0, 0));
    assert_eq!(row.name, "名".repeat(64));
    assert_eq!(row.country, Some("ABCDEFGH".to_string()));
    assert_eq!(row.city, Some("c".repeat(64)));
    assert_eq!(row.latency_telecom, None);
    assert_eq!(row.latency_mobile, None);
    assert!(row.packet_loss.is_none());
    p.name = None;
    let row = reported(None, &p, &at(2026, 1, 1, 0, 0, 0));
    assert_eq!(row.name, "oracle-tokyo");
}

#[test]
fn reports_leave_decisions_alone() {
    let mut row = Some(registered());
    rename_server(&mut row, "Renamed");
    update_traffic_limit(&mut row, 500.0, 70.0, 15);
    reset_traffic(&mut row, &at(2026, 1, 5, 0, 0, 0));
    for i in 1..=3 {
        let now = at(2026, 1, 5, 1, 0, i);
        let p = payload(10.0 * i as f64, 20.0 * i as f64, 100 + i as i64);
        let facts = facts(&row, &p);
        let (next, result) = upsert_server(row, &p, facts, &now);
        assert_eq!(result.name, "Oracle 東京");
        assert_eq!(value(&result.traffic_limit), 500.0);
        assert_eq!(value(&result.traffic_notify_percent), 70.0);
        row = Some(next);
    }
    let row = row.unwrap();
    assert_eq!(row.name, "Renamed");
    assert_eq!(value(&row.traffic_limit), 500.0);
    assert_eq!(value(&row.traffic_notify_percent), 70.0);
    assert_eq!(row.traffic_reset_day, 15);
    assert_eq!(row.token, Some("token".to_string()));
    assert_eq!(row.traffic_start, Some("2026-01-05T00:00:00+00:00".to_string()));
    assert_eq!(row.last_auto_reset_ym, Some("2026-01".to_string()));
    assert_eq!(row.last_seen, at(2026, 1, 5, 1, 0, 3));
}

#[test]
fn a_report_without_a_place_keeps_the_known_one() {
    let now = at(2026, 1, 1, 0, 0, 0);
    let row = reported(None, &payload(0.0, 0.0, 1), &now);
    let mut p = payload(0.0, 0.0, 2);
    p.country = None;
    p.city = None;
    let row = reported(Some(row), &p, &now);
    assert_eq!(row.country, Some("JP".to_string()));
    assert_eq!(row.city, Some("Tokyo".to_string()));
    p.country = Some("DE".to_string());
    p.city = Some("Berlin".to_string());
    let row = reported(Some(row), &p, &now);
    assert_eq!(row.country, Some("DE".to_string()));
    assert_eq!(row.city, Some("Berlin".to_string()));
}

#[test]
fn the_account_follows_the_counters() {
    let now = at(2026, 1, 1, 0, 0, 0);
    let mut row = reported(None, &payload(100.0, 200.0, 1000), &now);
    row = reported(Some(row), &payload(150.0, 230.0, 1020), &now);
    assert_eq!((value(&row.cum_in), value(&row.cum_out)), (50.0, 30.0));
    row = reported(Some(row), &payload(150.0, 260.0, 1040), &now);
    assert_eq!((value(&row.cum_in), value(&row.cum_out)), (50.0, 60.0));
    assert_eq!((value(&row.last_raw_in), value(&row.last_raw_out)), (150.0, 260.0));
}

#[test]
fn a_reboot_loses_no_traffic() {
    let now = at(2026, 1, 1, 0, 0, 0);
    let mut row = reported(None, &payload(100.0, 200.0, 1000), &now);
    row = reported(Some(row), &payload(150.0, 230.0, 1020), &now);
    row = reported(Some(row), &payload(7.0, 9.0, 15), &now);
    assert_eq!((value(&row.cum_in), value(&row.cum_out)), (57.0, 39.0));
    row = reported(Some(row), &payload(10.0, 10.0, 35), &now);
    assert_eq!((value(&row.cum_in), value(&row.cum_out)), (60.0, 40.0));
}

#[test]
fn a_counter_that_falls_without_a_reboot_adds_nothing() {
    let now = at(2026, 1, 1, 0, 0, 0);
    let mut row = reported(None, &payload(100.0, 200.0, 1000), &now);
    row = reported(Some(row), &payload(50.0, 230.0, 1000), &now);
    assert_eq!((value(&row.cum_in), value(&row.cum_out)), (0.0, 30.0));
    assert_eq!(value(&row.last_raw_in), 50.0);
    row = reported(Some(row), &payload(60.0, 10.0, 1020), &now);
    assert_eq!((value(&row.cum_in), value(&row.cum_out)), (10.0, 30.0));
}

#[test]
fn a_counter_that_has_caught_up_after_a_reboot_adds_all_it_shows() {
    let now = at(2026, 1, 1, 0, 0, 0);
    let mut row = reported(None, &payload(50.0, 50.0, 1000), &now);
    row.cum_in = Figure::Measured(100.0);
    row.cum_out = Figure::Measured(200.0);
    row = reported(Some(row), &payload(80.0, 50.0, 10), &now);
    assert_eq!((value(&row.cum_in), value(&row.cum_out)), (180.0, 250.0));
    assert_eq!((value(&row.last_raw_in), value(&row.last_raw_out)), (80.0, 50.0));
}

#[test]
fn a_registered_machine_has_no_report_yet() {
    let now = at(2026, 3, 1, 0, 0, 0);
    let (row, token): (Server, String) = create_agent("nas", &"長".repeat(70), &now);
    assert_eq!(row.id, "nas");
    assert_eq!(row.name, "長".repeat(64));
    assert_eq!(row.token, Some(token.clone()));
    assert_eq!(token.len(), 64);
    assert_eq!(row.last_seen, now);
    assert_eq!(row.uptime, 0);
    assert_eq!(row.traffic_start, None);
    assert_eq!(row.country, None);
    assert_eq!(value(&row.traffic_notify_percent), 80.0);
    assert_eq!(value(&row.traffic_limit), 0.0);
    assert_eq!(value(&row.last_raw_in), 0.0);
    let (_, other): (Server, String) = create_agent("nas", "nas", &now);
    assert_ne!(token, other);
}

#[test]
fn the_token_of_a_machine_is_found() {
    assert_eq!(get_agent_token(None), None);
    assert_eq!(get_agent_token(Some(None)), None);
    assert_eq!(
        get_agent_token(Some(Some("t".to_string()))),
        Some("t".to_string())
    );
}

#[test]
fn a_new_token_takes_the_place_of_the_old_one() {
    let mut row = Some(registered());
    let token = rotate_agent_token(&mut row);
    assert_eq!(token.len(), 64);
    let row = row.unwrap();
    assert_eq!(row.token, Some(token));
    assert_eq!(row.name, "Tokyo");
    let mut other = Some(row);
    replace_token(&mut other, "given");
    assert_eq!(other.unwrap().token, Some("given".to_string()));
    let mut none: Option<Server> = None;
    assert_eq!(rotate_agent_token(&mut none).len(), 64);
    assert!(none.is_none());
}

#[test]
fn machines_without_a_token_are_issued_one() {
    let machines = vec![
        ("a".to_string(), None),
        ("b".to_string(), Some("kept".to_string())),
        ("c".to_string(), Some("".to_string())),
    ];
    let issued = init_db(&machines);
    let ids: Vec<&str> = issued.iter().map(|(id, _)| id.as_str()).collect();
    assert_eq!(ids, vec!["a", "c"]);
    assert!(issued.iter().all(|(_, token)| token.len() == 64));
    assert_ne!(issued[0].1, issued[1].1);
    assert!(init_db(&vec![]).is_empty());
}

#[test]
fn each_machine_is_issued_the_token_of_its_own_bytes() {
    let machines = vec![
        ("a".to_string(), None),
        ("b".to_string(), Some("kept".to_string())),
        ("c".to_string(), Some("".to_string())),
        ("d".to_string(), None),
    ];
    let issued = issue_tokens(&machines, &vec![[1u8; 32], [0xabu8; 32], [0u8; 32]]);
    assert_eq!(
        issued,
        vec![
            ("a".to_string(), "01".repeat(32)),
            ("c".to_string(), "ab".repeat(32)),
            ("d".to_string(), "00".repeat(32)),
        ]
    );
}

#[test]
fn a_machine_is_renamed() {
    let mut row = Some(registered());
    rename_server(&mut row, &"n".repeat(65));
    assert_eq!(row.unwrap().name, "n".repeat(64));
    let mut none: Option<Server> = None;
    rename_server(&mut none, "x");
    assert!(none.is_none());
}

#[test]
fn reset_days_are_days_of_the_month() {
    for (asked, stored) in [(1, 1), (31, 31), (15, 15), (0, 0), (32, 0), (-5, 0), (99, 0)] {
        let mut row = Some(registered());
        update_traffic_limit(&mut row, 1000.0, 90.0, asked);
        let row = row.unwrap();
        assert_eq!(row.traffic_reset_day, stored);
        assert_eq!(value(&row.traffic_limit), 1000.0);
        assert_eq!(value(&row.traffic_notify_percent), 90.0);
    }
    let mut none: Option<Server> = None;
    update_traffic_limit(&mut none, 1.0, 2.0, 3);
    assert!(none.is_none());
}

fn fleet(days: &[i64]) -> Vec<Server> {
    let mut out = Vec::new();
    for (i, day) in days.iter().enumerate() {
        let mut row = reported(None, &payload(5.0, 5.0, 1), &at(2026, 1, 1, 0, 0, 0));
        row = reported(Some(row), &payload(9.0, 8.0, 2), &at(2026, 1, 1, 0, 0, 0));
        row.id = format!("m{i}");
        row.name = format!("Machine {i}");
        row.traffic_reset_day = *day;
        out.push(row);
    }
    out
}

fn reset_ids(servers: &mut Vec<Server>, now: &Moment) -> Vec<String> {
    auto_reset_due_traffic(servers, now)
        .into_iter()
        .map(|(id, _)| id)
        .collect()
}

#[test]
fn accounts_start_anew_on_their_day() {
    let mut servers = fleet(&[15, 16, 0]);
    let now = at(2026, 2, 15, 3, 0, 0);
    assert_eq!(
        auto_reset_due_traffic(&mut servers, &now),
        vec![("m0".to_string(), "Machine 0".to_string())]
    );
    assert_eq!(value(&servers[0].cum_in), 0.0);
    assert_eq!(value(&servers[0].cum_out), 0.0);
    assert_eq!(
        servers[0].traffic_start,
        Some("2026-02-15T03:00:00+00:00".to_string())
    );
    assert_eq!(servers[0].last_auto_reset_ym, Some("2026-02".to_string()));
    assert_eq!(value(&servers[0].last_raw_in), 9.0);
    assert_eq!(value(&servers[1].cum_in), 4.0);
    assert_eq!(value(&servers[2].cum_out), 3.0);
    assert_eq!(servers[2].last_auto_reset_ym, None);
}

#[test]
fn accounts_start_anew_once_a_month() {
    let mut servers = fleet(&[10]);
    assert_eq!(reset_ids(&mut servers, &at(2026, 2, 10, 0, 0, 0)), vec!["m0"]);
    assert!(reset_ids(&mut servers, &at(2026, 2, 10, 0, 1, 0)).is_empty());
    assert!(reset_ids(&mut servers, &at(2026, 2, 28, 0, 0, 0)).is_empty());
    assert!(reset_ids(&mut servers, &at(2026, 3, 9, 23, 59, 59)).is_empty());
    assert_eq!(reset_ids(&mut servers, &at(2026, 3, 10, 0, 0, 0)), vec!["m0"]);
    assert_eq!(reset_ids(&mut servers, &at(2027, 3, 10, 0, 0, 0)), vec!["m0"]);
}

#[test]
fn a_day_that_passed_unnoticed_is_made_up_for() {
    let mut servers = fleet(&[3]);
    assert_eq!(reset_ids(&mut servers, &at(2026, 2, 20, 0, 0, 0)), vec!["m0"]);
}

#[test]
fn short_months_reset_on_their_last_day() {
    let mut servers = fleet(&[31, 30, 29]);
    assert!(reset_ids(&mut servers, &at(2026, 2, 27, 23, 59, 59)).is_empty());
    assert_eq!(
        reset_ids(&mut servers, &at(2026, 2, 28, 0, 0, 0)),
        vec!["m0", "m1", "m2"]
    );
    assert_eq!(reset_ids(&mut servers, &at(2026, 4, 29, 0, 0, 0)), vec!["m2"]);
    assert_eq!(
        reset_ids(&mut servers, &at(2026, 4, 30, 0, 0, 0)),
        vec!["m0", "m1"]
    );
    let mut leap = fleet(&[29]);
    assert!(reset_ids(&mut leap, &at(2024, 2, 28, 0, 0, 0)).is_empty());
    assert_eq!(reset_ids(&mut leap, &at(2024, 2, 29, 0, 0, 0)), vec!["m0"]);
}

#[test]
fn a_day_beyond_every_month_is_its_last() {
    let mut servers = fleet(&[(1 << 32) + 5, i64::MAX]);
    assert!(reset_ids(&mut servers, &at(2026, 3, 30, 23, 59, 59)).is_empty());
    assert_eq!(
        reset_ids(&mut servers, &at(2026, 3, 31, 0, 0, 0)),
        vec!["m0", "m1"]
    );
}

#[test]
fn a_reset_by_hand_counts_for_its_month() {
    let mut row = fleet(&[15]).pop();
    let now = at(2026, 2, 10, 8, 0, 0);
    reset_traffic(&mut row, &now);
    let row = row.unwrap();
    assert_eq!(value(&row.cum_in), 0.0);
    assert_eq!(value(&row.cum_out), 0.0);
    assert_eq!(row.traffic_start, Some("2026-02-10T08:00:00+00:00".to_string()));
    assert_eq!(row.last_auto_reset_ym, Some("2026-02".to_string()));
    let mut servers = vec![row];
    assert!(reset_ids(&mut servers, &at(2026, 2, 15, 0, 0, 0)).is_empty());
    assert_eq!(reset_ids(&mut servers, &at(2026, 3, 15, 0, 0, 0)), vec!["m0"]);
    let mut none: Option<Server> = None;
    reset_traffic(&mut none, &now);
    assert!(none.is_none());
}

#[test]
fn the_account_is_stored_with_its_date() {
    let account = create_admin("admin", "hash", &at(2026, 5, 6, 7, 8, 9));
    assert_eq!(account.username, "admin");
    assert_eq!(account.password_hash, "hash");
    assert_eq!(account.created_at, "2026-05-06T07:08:09+00:00");
}

#[test]
fn a_session_lasts_thirty_days() {
    let start = at(2026, 1, 31, 12, 0, 0);
    let session = session_from("abc".to_string(), &start);
    assert_eq!(session.token, "abc");
    assert_eq!(session.created_at, "2026-01-31T12:00:00+00:00");
    assert_eq!(session.expires_at, "2026-03-02T12:00:00+00:00");
    let end = Some(session.expires_at);
    assert_eq!(session_valid(&end, &start), SessionState::Live);
    assert_eq!(session_valid(&end, &at(2026, 3, 2, 12, 0, 0)), SessionState::Live);
    let mut after = at(2026, 3, 2, 12, 0, 0);
    after.nanos = 1;
    assert_eq!(session_valid(&end, &after), SessionState::Ended);
    assert_eq!(session_valid(&end, &at(2026, 3, 2, 12, 0, 1)), SessionState::Ended);
}

#[test]
fn the_last_session_ends_with_the_calendar() {
    let start = Moment::new(MAX_SECS - 30 * 86_400, 0).unwrap();
    let session = session_from("abc".to_string(), &start);
    assert_eq!(session.expires_at, "+262142-12-31T23:59:59+00:00");
    assert_eq!(
        session_valid(&Some(session.expires_at), &start),
        SessionState::Ended
    );
}

#[test]
fn a_new_session_has_a_random_token() {
    let now = at(2026, 1, 1, 0, 0, 0);
    let session = create_session(&now);
    assert_eq!(session.token.len(), 64);
    assert_ne!(session.token, create_session(&now).token);
    assert_eq!(session.created_at, "2026-01-01T00:00:00+00:00");
    assert_eq!(session.expires_at, "2026-01-31T00:00:00+00:00");
}

#[test]
fn sessions_that_are_unknown_or_unreadable_are_not_valid() {
    let now = at(2026, 1, 1, 0, 0, 0);
    assert_eq!(session_valid(&None, &now), SessionState::Unknown);
    assert_eq!(
        session_valid(&Some("never".to_string()), &now),
        SessionState::Ended
    );
    assert_eq!(judge_session(&None, &now), SessionState::Unknown);
    assert_eq!(judge_session(&Some(None), &now), SessionState::Ended);
    assert_eq!(judge_session(&Some(Some(now)), &now), SessionState::Live);
}
