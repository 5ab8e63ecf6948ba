//! What agents, the public page and the administration page are shown and told, item by item.

use vstd::prelude::*;
use vstd::utf8::*;

use crate::agents;
use crate::agents::{AgentListItem, CreateAction, CreateAgent, CreateEvent};
use crate::api;
use crate::api::{ReportAction, ReportEvent, ServerView, TestAction, TestEvent};
use crate::config;
use crate::db;
use crate::db::{AdminNotifySettings, ReportPayload, UpsertResult};
use crate::figure::Figure;
use crate::moment;
use crate::moment::Moment;
use crate::notify;
use crate::notify::NotifySettings;
use crate::reply;
use crate::reply::{DbFailure, DbResult, Reply};
use crate::text;

verus! {

/// Each thing that everybody is shown of a machine is what is stored of it under the same name:
/// the accounts are the accounts and the counters the counters. What is added is whether it is
/// online.
pub proof fn law_the_public_page_shows_what_is_stored<S, D>(row: db::ServerRow<S, D>, now: Moment)
    ensures
        ({
            let shown = api::public_row(row, now);
            &&& shown.id == row.id
            &&& shown.name == row.name
            &&& shown.country == row.country
            &&& shown.city == row.city
            &&& shown.cpu == row.cpu
            &&& shown.load1 == row.load1
            &&& shown.load5 == row.load5
            &&& shown.load15 == row.load15
            &&& shown.mem_used == row.mem_used
            &&& shown.mem_total == row.mem_total
            &&& shown.disk_used == row.disk_used
            &&& shown.disk_total == row.disk_total
            &&& shown.net_rx == row.net_rx
            &&& shown.net_tx == row.net_tx
            &&& shown.cum_in == row.cum_in
            &&& shown.cum_out == row.cum_out
            &&& shown.last_raw_in == row.last_raw_in
            &&& shown.last_raw_out == row.last_raw_out
            &&& shown.traffic_start == row.traffic_start
            &&& shown.traffic_limit == row.traffic_limit
            &&& shown.traffic_notify_percent == row.traffic_notify_percent
            &&& shown.traffic_reset_day == row.traffic_reset_day
            &&& shown.uptime == row.uptime
            &&& shown.latency_telecom == row.latency_telecom
            &&& shown.latency_unicom == row.latency_unicom
            &&& shown.latency_mobile == row.latency_mobile
            &&& shown.packet_loss == row.packet_loss
            &&& shown.last_seen == row.last_seen
            &&& shown.online <==> moment::seconds_between(now, row.last_seen) < 90
        }),
{
}

/// What is shown of a machine holds each thing in its own place.
pub proof fn law_views_hold_what_is_shown<S, D>(v: ServerView<S, D>)
    ensures
        v@.id == v.id@,
        v@.name == v.name@,
        v@.country is Some <==> v.country is Some,
        v.country matches Some(t) ==> v@.country == Some(t@),
        v@.city is Some <==> v.city is Some,
        v.city matches Some(t) ==> v@.city == Some(t@),
        v@.cpu == v.cpu,
        v@.load1 == v.load1,
        v@.load5 == v.load5,
        v@.load15 == v.load15,
        v@.mem_used == v.mem_used,
        v@.mem_total == v.mem_total,
        v@.disk_used == v.disk_used,
        v@.disk_total == v.disk_total,
        v@.net_rx == v.net_rx,
        v@.net_tx == v.net_tx,
        v@.cum_in == v.cum_in,
        v@.cum_out == v.cum_out,
        v@.last_raw_in == v.last_raw_in,
        v@.last_raw_out == v.last_raw_out,
        v@.traffic_start is Some <==> v.traffic_start is Some,
        v.traffic_start matches Some(t) ==> v@.traffic_start == Some(t@),
        v@.traffic_limit == v.traffic_limit,
        v@.traffic_notify_percent == v.traffic_notify_percent,
        v@.traffic_reset_day == v.traffic_reset_day,
        v@.uptime == v.uptime,
        v@.latency_telecom == v.latency_telecom,
        v@.latency_unicom == v.latency_unicom,
        v@.latency_mobile == v.latency_mobile,
        v@.packet_loss == v.packet_loss,
        v@.last_seen == v.last_seen,
        v@.online == v.online,
{
}

/// A reboot loses nothing that everybody is shown: the account on the page is the stored one,
/// whatever the counters start from.
pub proof fn law_shown_accounts_survive_reboots<S, D>(
    row: db::ServerRow<S, D>,
    raw_in: Figure<D>,
    raw_out: Figure<D>,
    now: Moment,
)
    ensures
        ({
            let rebooted = db::ServerRow { last_raw_in: raw_in, last_raw_out: raw_out, ..row };
            &&& api::public_row(rebooted, now).cum_in == row.cum_in
            &&& api::public_row(rebooted, now).cum_out == row.cum_out
        }),
{
}

/// Each thing that administrators are shown of a machine is what is stored of it, with an empty
/// token where it has none.
pub proof fn law_administrators_see_what_is_stored<S, D>(
    item: AgentListItem<D>,
    row: db::ServerRow<S, D>,
    now: Moment,
)
    requires
        agents::lists(item, row, now),
    ensures
        item.id@ == row.id,
        item.name@ == row.name,
        row.token matches Some(token) ==> item.token@ == token,
        row.token is None ==> item.token@.len() == 0,
        item.last_seen == row.last_seen,
        item.online <==> moment::seconds_between(now, row.last_seen) < 90,
        item.traffic_limit == row.traffic_limit,
        item.traffic_notify_percent == row.traffic_notify_percent,
        item.traffic_reset_day == row.traffic_reset_day,
{
}

/// An answer holds its status and its text. A failure of the database is always answered alike,
/// and what was done is told by the given text.
pub proof fn law_answers<T>(r: Reply, done: DbResult<T>, success: Seq<char>)
    ensures
        r@.0 == r.status,
        r@.1 == r.body@,
        reply::db_error() == (500u16, "db error"@),
        done is Ok ==> reply::outcome(done, success) == (200u16, success),
        done is Err ==> reply::outcome(done, success) == (500u16, "db error"@),
{
}

/// How a report is dealt with at each step, and every answer that it can get.
pub proof fn law_steps_of_a_report<S, D>(
    payload: ReportPayload<S, D>,
    token: String,
    result: UpsertResult<S, D>,
    failure: DbFailure,
    action: ReportAction<S, D>,
)
    ensures
        api::report_step(payload, ReportEvent::Received, action) ==> {
            let acceptable = 1 <= payload.id@.len() <= 64 && forall|i: int|
                0 <= i < payload.id@.len() ==> db::id_char(#[trigger] payload.id@[i]);
            &&& acceptable <==> action is LookUpToken
            &&& !acceptable ==> (action matches ReportAction::Respond(r) && r.status == 400 && r.body@
            == "invalid id: only letters, digits, '.', '_', '-' allowed, max 64 chars"@)
        },
        api::report_step(payload, ReportEvent::TokenLookedUp(Ok(Some(token))), action) ==> {
            &&& action is Store <==> token@ == payload.secret@
            &&& token@ != payload.secret@ ==> (action matches ReportAction::Respond(r) && r.status == 401 && r.body@
            == "invalid secret"@)
        },
        api::report_step(payload, ReportEvent::TokenLookedUp(Ok(None)), action)
            ==> (action matches ReportAction::Respond(r) && r.status == 403 && r.body@
            == "unknown agent id：請先在後台「新增機器」登記這個 id"@),
        api::report_step(payload, ReportEvent::TokenLookedUp(Err(failure)), action)
            ==> (action matches ReportAction::Respond(r) && r.status == 500 && r.body@
            == "db error"@),
        api::report_step(payload, ReportEvent::Stored(Ok(result)), action) ==> (
        action matches ReportAction::Finish(r, told) && r.status == 200 && r.body@ == "ok"@ && told
            == result),
        api::report_step(payload, ReportEvent::Stored(Err(failure)), action) ==> (action matches ReportAction::Respond(r) && r.status == 500 && r.body@
            == "db error"@),
{
}

/// Whether a text is blank: all of it is white space.
pub open spec fn blank(s: Seq<char>) -> bool {
    forall|i: int| 0 <= i < s.len() ==> text::white_space(#[trigger] s[i])
}

/// Trimming leaves nothing of a blank text, and of no other.
pub proof fn law_blank_texts(s: Seq<char>)
    ensures
        text::trimmed(s).len() == 0 <==> blank(s),
{
    let from = text::law_trim(s);
    if text::trimmed(s).len() == 0 {
        assert forall|i: int| 0 <= i < s.len() implies text::white_space(#[trigger] s[i]) by {}
    } else {
        assert(text::trimmed(s)[0] == s[from]);
    }
}

/// How a request to register a machine is dealt with at each step, and every answer that it can
/// get: the id is taken without white space at its ends, and a blank name gives way to it.
pub proof fn law_steps_of_a_registration(
    payload: CreateAgent,
    token: String,
    failure: DbFailure,
    action: CreateAction,
)
    ensures
        agents::create_step(payload, CreateEvent::Received, action) ==> {
            let id = text::trimmed(payload.id@);
            let acceptable = 1 <= id.len() <= 64 && forall|i: int|
                0 <= i < id.len() ==> db::id_char(#[trigger] id[i]);
            &&& acceptable ==> (action matches CreateAction::LookUpToken { id: asked } && asked@
                == id)
            &&& !acceptable ==> (action matches CreateAction::Respond(r) && r.status == 400 && r.body@
            == "id 只能是英數字、'.'、'_'、'-'，最長 64 字元"@)
        },
        agents::create_step(payload, CreateEvent::TokenLookedUp(Ok(Some(token))), action)
            ==> (action matches CreateAction::Respond(r) && r.status == 409 && r.body@
            == "這個 id 已經存在了"@),
        agents::create_step(payload, CreateEvent::TokenLookedUp(Ok(None)), action) ==> (
        action matches CreateAction::Create { id, name } && id@ == text::trimmed(payload.id@) && (
        blank(payload.name@) ==> name@ == text::trimmed(payload.id@)) && (!blank(payload.name@)
            ==> name@ == payload.name@)),
        agents::create_step(payload, CreateEvent::TokenLookedUp(Err(failure)), action)
            ==> (action matches CreateAction::Respond(r) && r.status == 500 && r.body@
            == "db error"@),
        agents::create_step(payload, CreateEvent::Created(Ok(token)), action) ==> (
        action matches CreateAction::Issue(issued) && issued.id@ == text::trimmed(payload.id@) && (
        blank(payload.name@) ==> issued.name@ == text::trimmed(payload.id@)) && (!blank(
            payload.name@,
        ) ==> issued.name@ == payload.name@) && issued.token@ == token@),
        agents::create_step(payload, CreateEvent::Created(Err(failure)), action)
            ==> (action matches CreateAction::Respond(r) && r.status == 500 && r.body@
            == "db error"@),
{
    law_blank_texts(payload.name@);
}

/// A token of at most eight bytes is shown as it is. Of a longer one the first four bytes are
/// shown, with four asterisks behind them.
pub proof fn law_shown_tokens(token: Seq<char>)
    ensures
        encode_utf8(token).len() <= 8 ==> api::masked(token) == token,
        encode_utf8(token).len() > 8 ==> api::masked(token) == decode_utf8(
            encode_utf8(token).take(4),
        ) + "****"@,
        encode_utf8(token).len() > 8 ==> text::has_suffix(api::masked(token), "****"@),
{
    if encode_utf8(token).len() > 8 {
        assert(encode_utf8(token).take(4) =~= encode_utf8(token).subrange(0, 4));
        let shown = api::masked(token);
        assert(shown.skip(shown.len() - "****"@.len()) =~= "****"@);
    }
}

/// Of the settings the token is masked where they are shown, and nothing else.
pub proof fn law_shown_settings<S>(settings: notify::NotifyModel<S>)
    ensures
        ({
            let shown = api::shown_settings(settings);
            &&& shown.telegram_bot_token == api::masked(settings.telegram_bot_token)
            &&& shown.telegram_enabled == settings.telegram_enabled
            &&& shown.telegram_chat_id == settings.telegram_chat_id
            &&& shown.webhook_enabled == settings.webhook_enabled
            &&& shown.webhook_url == settings.webhook_url
            &&& shown.offline_minutes == settings.offline_minutes
            &&& shown.cpu_threshold == settings.cpu_threshold
            &&& shown.mem_threshold == settings.mem_threshold
        }),
{
}

/// The settings are saved as submitted. The token stored so far is kept where none is submitted,
/// or one that ends in four asterisks, and only there.
pub proof fn law_saved_settings<S>(
    stored: notify::NotifyModel<S>,
    payload: AdminNotifySettings<S>,
)
    ensures
        ({
            let saved = api::saved_settings(stored, payload);
            let given = payload.telegram_bot_token@;
            let masked = exists|head: Seq<char>| given == #[trigger] (head + "****"@);
            &&& given.len() == 0 || masked ==> saved.telegram_bot_token == stored.telegram_bot_token
            &&& given.len() > 0 && !masked ==> saved.telegram_bot_token == given
            &&& saved.telegram_enabled == payload.telegram_enabled
            &&& saved.telegram_chat_id == payload.telegram_chat_id@
            &&& saved.webhook_enabled == payload.webhook_enabled
            &&& saved.webhook_url == payload.webhook_url@
            &&& saved.offline_minutes == payload.offline_minutes
            &&& saved.cpu_threshold == Figure::Measured(payload.cpu_threshold)
            &&& saved.mem_threshold == Figure::Measured(payload.mem_threshold)
        }),
{
    text::law_suffix(payload.telegram_bot_token@, "****"@);
}

/// How a request for a test alert is dealt with at each step, and every answer that it can get.
pub proof fn law_steps_of_a_test_alert<S, D>(
    now: Moment,
    settings: NotifySettings<S>,
    failure: DbFailure,
    reasons: String,
    action: TestAction<S, D>,
)
    ensures
        api::test_step(now, TestEvent::SettingsLoaded(Ok(settings)), action) ==> (
        action matches TestAction::Send(used, alert) && used == settings && alert.title@
            == "測試通知"@ && alert.message@ == "這是一條來自 VPS Monitor 的測試訊息。"@
            && alert.server_id@ == "test"@ && alert.server_name@ == "Test"@ && alert.kind@
            == "test"@ && alert.level@ == "info"@ && alert.value == Figure::<D>::Count(0)
            && alert.limit == Figure::<D>::Count(0) && alert.timestamp@ == moment::rfc3339(
            now.secs as int,
            now.nanos as int,
        )),
        api::test_step(now, TestEvent::SettingsLoaded(Err(failure)), action) ==> (
        action matches TestAction::Respond(r) && r.status == 500 && r.body@ == "db error"@),
        api::test_step(now, TestEvent::Sent(Ok(())), action) ==> (
        action matches TestAction::Respond(r) && r.status == 200 && r.body@ == "test sent"@),
        api::test_step(now, TestEvent::Sent(Err(reasons)), action) ==> (
        action matches TestAction::Respond(r) && r.status == 502 && r.body@ == "送出失敗："@
            + reasons@),
{
}

/// Cookies over HTTPS only are asked for by `1` and by `true` in any case, and by nothing else.
pub proof fn law_secure_cookies(value: Option<Seq<char>>)
    ensures
        config::secure_asked(value) <==> (value matches Some(v) && ((v.len() == 1 && v[0] == '1')
            || (v.len() == 4 && (v[0] == 't' || v[0] == 'T') && (v[1] == 'r' || v[1] == 'R') && (
        v[2] == 'u' || v[2] == 'U') && (v[3] == 'e' || v[3] == 'E')))),
{
    reveal_strlit("1");
    reveal_strlit("true");
    if let Some(v) = value {
        assert(v == "1"@ <==> v.len() == 1 && v[0] == '1') by {
            if v.len() == 1 && v[0] == '1' {
                assert(v =~= "1"@);
            }
        }
        text::law_case(v, "true"@);
        if v.len() == 4 {
            let t = "true"@;
            assert(t[0] == 't' && t[1] == 'r' && t[2] == 'u' && t[3] == 'e');
            assert(text::equal_ignoring_case(v, t) <==> (v[0] == 't' || v[0] == 'T') && (v[1] == 'r'
                || v[1] == 'R') && (v[2] == 'u' || v[2] == 'U') && (v[3] == 'e' || v[3] == 'E'));
        }
    }
}

} // verus!
