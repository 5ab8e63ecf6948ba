//! The requests of agents, of the public page and of the administration page.

use vstd::prelude::*;
use vstd::string::*;
use vstd::utf8::*;

use crate::auth::constant_time_eq;
use crate::db;
use crate::db::{valid_id, AdminNotifySettings, ReportPayload, ServerStatus, UpsertResult};
use crate::figure::Figure;
use crate::moment;
use crate::moment::{num_seconds, Moment};
use crate::notify;
use crate::notify::{no_settings, AlertPayload, NotifySettings};
use crate::reply;
use crate::reply::{
    db_error_reply, outcome_reply, DbResult, Reply, BAD_GATEWAY, BAD_REQUEST, FORBIDDEN, OK,
    UNAUTHORIZED,
};
use crate::text;
use crate::text::ends_with;

verus! {

/// What has just happened to a report.
#[derive(Debug)]
pub enum ReportEvent<S, D> {
    Received,
    /// The token of the machine that it names was looked up.
    TokenLookedUp(DbResult<Option<String>>),
    /// It was taken into the store.
    Stored(DbResult<UpsertResult<S, D>>),
}

/// What to do next with a report.
#[derive(Debug)]
pub enum ReportAction<S, D> {
    LookUpToken,
    Store,
    Respond(Reply),
    /// Answer, and send the alerts that the report calls for in the background.
    Finish(Reply, UpsertResult<S, D>),
}

impl<S, D> ReportAction<S, D> {
    /// Whether the report is answered so, and nothing more is done.
    pub open spec fn responds(self, answer: (u16, Seq<char>)) -> bool {
        self matches ReportAction::Respond(r) && r@ == answer
    }
}

/// The answer to a report under an id that cannot be one.
pub open spec fn invalid_id() -> (u16, Seq<char>) {
    (BAD_REQUEST, "invalid id: only letters, digits, '.', '_', '-' allowed, max 64 chars"@)
}

/// The answer to a report from a machine that is not registered.
pub open spec fn unknown_agent() -> (u16, Seq<char>) {
    (FORBIDDEN, "unknown agent id：請先在後台「新增機器」登記這個 id"@)
}

/// What is done with a report: it is taken only from a registered machine that knows its token.
pub open spec fn report_step<S, D>(
    payload: ReportPayload<S, D>,
    event: ReportEvent<S, D>,
    action: ReportAction<S, D>,
) -> bool {
    match event {
        ReportEvent::Received => if db::id_shape(payload.id@) {
            action is LookUpToken
        } else {
            action.responds(invalid_id())
        },
        ReportEvent::TokenLookedUp(Ok(Some(token))) => if payload.secret@ == token@ {
            action is Store
        } else {
            action.responds((UNAUTHORIZED, "invalid secret"@))
        },
        ReportEvent::TokenLookedUp(Ok(None)) => action.responds(unknown_agent()),
        ReportEvent::TokenLookedUp(Err(_)) => action.responds(reply::db_error()),
        ReportEvent::Stored(Ok(result)) => action matches ReportAction::Finish(r, alerted) && r@
            == (OK, "ok"@) && alerted == result,
        ReportEvent::Stored(Err(_)) => action.responds(reply::db_error()),
    }
}

/// Decides what to do next with a report. The secret is compared in constant time.
pub fn report<S, D>(payload: &ReportPayload<S, D>, event: ReportEvent<S, D>) -> (r: ReportAction<
    S,
    D,
>)
    ensures
        report_step(*payload, event, r),
{
    match event {
        ReportEvent::Received => if valid_id(payload.id.as_str()) {
            ReportAction::LookUpToken
        } else {
            ReportAction::Respond(
                reply::reply(
                    BAD_REQUEST,
                    "invalid id: only letters, digits, '.', '_', '-' allowed, max 64 chars",
                ),
            )
        },
        ReportEvent::TokenLookedUp(Ok(Some(token))) => if constant_time_eq(
            payload.secret.as_str(),
            token.as_str(),
        ) {
            ReportAction::Store
        } else {
            ReportAction::Respond(reply::reply(UNAUTHORIZED, "invalid secret"))
        },
        ReportEvent::TokenLookedUp(Ok(None)) => ReportAction::Respond(
            reply::reply(FORBIDDEN, "unknown agent id：請先在後台「新增機器」登記這個 id"),
        ),
        ReportEvent::TokenLookedUp(Err(_)) => ReportAction::Respond(db_error_reply()),
        ReportEvent::Stored(Ok(result)) => ReportAction::Finish(reply::reply(OK, "ok"), result),
        ReportEvent::Stored(Err(_)) => ReportAction::Respond(db_error_reply()),
    }
}

/// For how many seconds after its last report a machine is shown as online.
pub const ONLINE_STALE_SECS: i64 = 90;

/// Whether a machine is shown as online.
pub open spec fn online(now: Moment, last_seen: Moment) -> bool {
    moment::seconds_between(now, last_seen) < ONLINE_STALE_SECS
}

/// Whether a machine is shown as online.
pub fn is_online(now: &Moment, last_seen: &Moment) -> (r: bool)
    requires
        now.wf(),
        last_seen.wf(),
    ensures
        r == online(*now, *last_seen),
{
    num_seconds(now, last_seen) < ONLINE_STALE_SECS
}

/// A machine as everybody may see it. It holds no token.
#[derive(Debug)]
pub struct ServerView<S, D> {
    pub id: String,
    pub name: String,
    pub country: Option<String>,
    pub city: Option<String>,
    pub cpu: Figure<S>,
    pub load1: Figure<S>,
    pub load5: Figure<S>,
    pub load15: Figure<S>,
    pub mem_used: Figure<D>,
    pub mem_total: Figure<D>,
    pub disk_used: Figure<D>,
    pub disk_total: Figure<D>,
    pub net_rx: Figure<D>,
    pub net_tx: Figure<D>,
    pub cum_in: Figure<D>,
    pub cum_out: Figure<D>,
    pub last_raw_in: Figure<D>,
    pub last_raw_out: Figure<D>,
    pub traffic_start: Option<String>,
    pub traffic_limit: Figure<D>,
    pub traffic_notify_percent: Figure<D>,
    pub traffic_reset_day: i64,
    pub uptime: i64,
    pub latency_telecom: Option<i32>,
    pub latency_unicom: Option<i32>,
    pub latency_mobile: Option<i32>,
    pub packet_loss: Option<Figure<S>>,
    pub last_seen: Moment,
    pub online: bool,
}

/// The contents of a `ServerView`.
#[verifier::ext_equal]
pub ghost struct PublicRow<S, D> {
    pub id: Seq<char>,
    pub name: Seq<char>,
    pub country: Option<Seq<char>>,
    pub city: Option<Seq<char>>,
    pub cpu: Figure<S>,
    pub load1: Figure<S>,
    pub load5: Figure<S>,
    pub load15: Figure<S>,
    pub mem_used: Figure<D>,
    pub mem_total: Figure<D>,
    pub disk_used: Figure<D>,
    pub disk_total: Figure<D>,
    pub net_rx: Figure<D>,
    pub net_tx: Figure<D>,
    pub cum_in: Figure<D>,
    pub cum_out: Figure<D>,
    pub last_raw_in: Figure<D>,
    pub last_raw_out: Figure<D>,
    pub traffic_start: Option<Seq<char>>,
    pub traffic_limit: Figure<D>,
    pub traffic_notify_percent: Figure<D>,
    pub traffic_reset_day: i64,
    pub uptime: i64,
    pub latency_telecom: Option<i32>,
    pub latency_unicom: Option<i32>,
    pub latency_mobile: Option<i32>,
    pub packet_loss: Option<Figure<S>>,
    pub last_seen: Moment,
    pub online: bool,
}

impl<S, D> View for ServerView<S, D> {
    type V = PublicRow<S, D>;

    open spec fn view(&self) -> PublicRow<S, D> {
        PublicRow {
            id: self.id@,
            name: self.name@,
            country: text::text_view(self.country),
            city: text::text_view(self.city),
            cpu: self.cpu,
            load1: self.load1,
            load5: self.load5,
            load15: self.load15,
            mem_used: self.mem_used,
            mem_total: self.mem_total,
            disk_used: self.disk_used,
            disk_total: self.disk_total,
            net_rx: self.net_rx,
            net_tx: self.net_tx,
            cum_in: self.cum_in,
            cum_out: self.cum_out,
            last_raw_in: self.last_raw_in,
            last_raw_out: self.last_raw_out,
            traffic_start: text::text_view(self.traffic_start),
            traffic_limit: self.traffic_limit,
            traffic_notify_percent: self.traffic_notify_percent,
            traffic_reset_day: self.traffic_reset_day,
            uptime: self.uptime,
            latency_telecom: self.latency_telecom,
            latency_unicom: self.latency_unicom,
            latency_mobile: self.latency_mobile,
            packet_loss: self.packet_loss,
            last_seen: self.last_seen,
            online: self.online,
        }
    }
}

/// What everybody may see of a machine.
pub open spec fn public_row<S, D>(row: db::ServerRow<S, D>, now: Moment) -> PublicRow<S, D> {
    PublicRow {
        id: row.id,
        name: row.name,
        country: row.country,
        city: row.city,
        cpu: row.cpu,
        load1: row.load1,
        load5: row.load5,
        load15: row.load15,
        mem_used: row.mem_used,
        mem_total: row.mem_total,
        disk_used: row.disk_used,
        disk_total: row.disk_total,
        net_rx: row.net_rx,
        net_tx: row.net_tx,
        cum_in: row.cum_in,
        cum_out: row.cum_out,
        last_raw_in: row.last_raw_in,
        last_raw_out: row.last_raw_out,
        traffic_start: row.traffic_start,
        traffic_limit: row.traffic_limit,
        traffic_notify_percent: row.traffic_notify_percent,
        traffic_reset_day: row.traffic_reset_day,
        uptime: row.uptime,
        latency_telecom: row.latency_telecom,
        latency_unicom: row.latency_unicom,
        latency_mobile: row.latency_mobile,
        packet_loss: row.packet_loss,
        last_seen: row.last_seen,
        online: online(now, row.last_seen),
    }
}

fn copy_text(s: &Option<String>) -> (r: Option<String>)
    ensures
        text::text_view(r) == text::text_view(*s),
{
    match s {
        Some(t) => Some(t.clone()),
        None => None,
    }
}

fn copy_figure<S: Copy>(f: &Option<Figure<S>>) -> (r: Option<Figure<S>>)
    ensures
        r == *f,
{
    match f {
        Some(x) => Some(x.copy()),
        None => None,
    }
}

fn public_view<S: Copy, D: Copy>(s: &ServerStatus<S, D>, now: &Moment) -> (r: ServerView<S, D>)
    requires
        now.wf(),
        s.last_seen.wf(),
    ensures
        r@ == public_row(s@, *now),
{
    ServerView {
        id: s.id.clone(),
        name: s.name.clone(),
        country: copy_text(&s.country),
        city: copy_text(&s.city),
        cpu: s.cpu.copy(),
        load1: s.load1.copy(),
        load5: s.load5.copy(),
        load15: s.load15.copy(),
        mem_used: s.mem_used.copy(),
        mem_total: s.mem_total.copy(),
        disk_used: s.disk_used.copy(),
        disk_total: s.disk_total.copy(),
        net_rx: s.net_rx.copy(),
        net_tx: s.net_tx.copy(),
        cum_in: s.cum_in.copy(),
        cum_out: s.cum_out.copy(),
        last_raw_in: s.last_raw_in.copy(),
        last_raw_out: s.last_raw_out.copy(),
        traffic_start: copy_text(&s.traffic_start),
        traffic_limit: s.traffic_limit.copy(),
        traffic_notify_percent: s.traffic_notify_percent.copy(),
        traffic_reset_day: s.traffic_reset_day,
        uptime: s.uptime,
        latency_telecom: s.latency_telecom,
        latency_unicom: s.latency_unicom,
        latency_mobile: s.latency_mobile,
        packet_loss: copy_figure(&s.packet_loss),
        last_seen: s.last_seen,
        online: is_online(now, &s.last_seen),
    }
}

/// The machines as everybody may see them, in the order given.
pub fn list_servers<S: Copy, D: Copy>(servers: &Vec<ServerStatus<S, D>>, now: &Moment) -> (r: Vec<
    ServerView<S, D>,
>)
    requires
        now.wf(),
        forall|i: int| 0 <= i < servers@.len() ==> (#[trigger] servers@[i]).last_seen.wf(),
    ensures
        r@.len() == servers@.len(),
        forall|i: int| 0 <= i < r@.len() ==> (#[trigger] r@[i])@ == public_row(servers@[i]@, *now),
{
    let mut out: Vec<ServerView<S, D>> = Vec::new();
    let n: usize = servers.len();
    let mut i: usize = 0;
    while i < n
        invariant
            now.wf(),
            n == servers@.len(),
            i <= n,
            out@.len() == i,
            forall|j: int| 0 <= j < n ==> (#[trigger] servers@[j]).last_seen.wf(),
            forall|j: int| 0 <= j < i ==> (#[trigger] out@[j])@ == public_row(servers@[j]@, *now),
        decreases n - i,
    {
        out.push(public_view(&servers[i], now));
        i = i + 1;
    }
    out
}

/// Answers a request to start a machine's traffic account anew.
pub fn admin_reset_traffic(done: DbResult<()>) -> (r: Reply)
    ensures
        r@ == reply::outcome(done, "reset ok"@),
{
    outcome_reply(done, "reset ok")
}

/// Answers a request to rename a machine.
pub fn admin_rename(done: DbResult<()>) -> (r: Reply)
    ensures
        r@ == reply::outcome(done, "rename ok"@),
{
    outcome_reply(done, "rename ok")
}

/// Answers a request to set a machine's traffic limit.
pub fn admin_update_traffic_limit(done: DbResult<()>) -> (r: Reply)
    ensures
        r@ == reply::outcome(done, "update ok"@),
{
    outcome_reply(done, "update ok")
}

/// What stands for the hidden part of a token.
pub open spec fn mask() -> Seq<char> {
    "****"@
}

/// Whether a token can be shown: where it is long enough to be hidden in part, its first four
/// bytes must be whole characters.
pub open spec fn maskable(token: Seq<char>) -> bool {
    encode_utf8(token).len() > 8 ==> is_char_boundary(encode_utf8(token), 4)
}

/// A token as shown to administrators: of one longer than eight bytes only the first four.
pub open spec fn masked(token: Seq<char>) -> Seq<char> {
    if encode_utf8(token).len() > 8 {
        decode_utf8(encode_utf8(token).subrange(0, 4)) + mask()
    } else {
        token
    }
}

/// A token as shown to administrators.
pub fn mask_token(token: &str) -> (r: String)
    requires
        maskable(token@),
    ensures
        r@ == masked(token@),
{
    if token.as_bytes().len() > 8 {
        let (head, _rest) = token.split_at(4);
        proof {
            encode_utf8_decode_utf8(head@);
        }
        head.to_owned().concat("****")
    } else {
        token.to_owned()
    }
}

/// The settings as shown to administrators: with the token masked. Tells of a failed lookup.
pub fn admin_get_notify<S>(loaded: DbResult<NotifySettings<S>>) -> (r: Result<
    NotifySettings<S>,
    Reply,
>)
    requires
        loaded matches Ok(settings) ==> maskable(settings.telegram_bot_token@),
    ensures
        match loaded {
            Ok(settings) => r matches Ok(shown) && shown@ == shown_settings(settings@),
            Err(_) => r matches Err(answer) && answer@ == reply::db_error(),
        },
{
    match loaded {
        Ok(settings) => {
            let mut shown = settings;
            shown.telegram_bot_token = mask_token(shown.telegram_bot_token.as_str());
            Ok(shown)
        },
        Err(_) => Err(db_error_reply()),
    }
}

/// The settings as shown to administrators.
pub open spec fn shown_settings<S>(settings: notify::NotifyModel<S>) -> notify::NotifyModel<S> {
    notify::NotifyModel { telegram_bot_token: masked(settings.telegram_bot_token), ..settings }
}

/// The token to store when `given` is submitted: the one stored so far where the submitted one is
/// empty or masked, since the page then sends back what it was shown.
pub open spec fn kept_token(stored: Seq<char>, given: Seq<char>) -> Seq<char> {
    if given.len() == 0 || text::has_suffix(given, mask()) {
        stored
    } else {
        given
    }
}

/// The settings to store when `payload` is submitted.
pub open spec fn saved_settings<S>(
    stored: notify::NotifyModel<S>,
    payload: AdminNotifySettings<S>,
) -> notify::NotifyModel<S> {
    notify::NotifyModel {
        telegram_enabled: payload.telegram_enabled,
        telegram_bot_token: kept_token(stored.telegram_bot_token, payload.telegram_bot_token@),
        telegram_chat_id: payload.telegram_chat_id@,
        webhook_enabled: payload.webhook_enabled,
        webhook_url: payload.webhook_url@,
        offline_minutes: payload.offline_minutes,
        cpu_threshold: Figure::Measured(payload.cpu_threshold),
        mem_threshold: Figure::Measured(payload.mem_threshold),
    }
}

/// The settings to store when `payload` is submitted. Where the stored ones cannot be loaded,
/// they count as blank.
pub fn admin_save_notify<S>(
    payload: AdminNotifySettings<S>,
    loaded: DbResult<NotifySettings<S>>,
) -> (r: NotifySettings<S>)
    ensures
        r@ == saved_settings(
            match loaded {
                Ok(settings) => settings@,
                Err(_) => notify::blank_settings(),
            },
            payload,
        ),
{
    let stored = match loaded {
        Ok(settings) => settings,
        Err(_) => no_settings(),
    };
    let token = if payload.telegram_bot_token.as_str().is_empty() || ends_with(
        payload.telegram_bot_token.as_str(),
        "****",
    ) {
        stored.telegram_bot_token
    } else {
        payload.telegram_bot_token
    };
    NotifySettings {
        telegram_enabled: payload.telegram_enabled,
        telegram_bot_token: token,
        telegram_chat_id: payload.telegram_chat_id,
        webhook_enabled: payload.webhook_enabled,
        webhook_url: payload.webhook_url,
        offline_minutes: payload.offline_minutes,
        cpu_threshold: Figure::Measured(payload.cpu_threshold),
        mem_threshold: Figure::Measured(payload.mem_threshold),
    }
}

/// Answers a request to change the settings.
pub fn admin_notify_saved(done: DbResult<()>) -> (r: Reply)
    ensures
        r@ == reply::outcome(done, "saved"@),
{
    outcome_reply(done, "saved")
}

/// What has just happened to a request for a test alert.
#[derive(Debug)]
pub enum TestEvent<S> {
    /// The settings were loaded.
    SettingsLoaded(DbResult<NotifySettings<S>>),
    /// The alert was sent, or was not, for these reasons.
    Sent(Result<(), String>),
}

/// What to do next with a request for a test alert.
#[derive(Debug)]
pub enum TestAction<S, D> {
    Send(NotifySettings<S>, AlertPayload<D>),
    Respond(Reply),
}

/// The test alert.
pub open spec fn test_alert<D>(at: Seq<char>) -> notify::Alert<D> {
    notify::Alert {
        title: "測試通知"@,
        message: "這是一條來自 VPS Monitor 的測試訊息。"@,
        server_id: "test"@,
        server_name: "Test"@,
        kind: "test"@,
        level: "info"@,
        value: Figure::Count(0),
        limit: Figure::Count(0),
        timestamp: at,
    }
}

/// What is done with a request for a test alert: the answer says truly whether it was sent.
pub open spec fn test_step<S, D>(
    now: Moment,
    event: TestEvent<S>,
    action: TestAction<S, D>,
) -> bool {
    match event {
        TestEvent::SettingsLoaded(Ok(settings)) => action matches TestAction::Send(used, alert)
            && used == settings && alert@ == test_alert::<D>(
            moment::rfc3339(now.secs as int, now.nanos as int),
        ),
        TestEvent::SettingsLoaded(Err(_)) => action matches TestAction::Respond(r) && r@
            == reply::db_error(),
        TestEvent::Sent(Ok(_)) => action matches TestAction::Respond(r) && r@ == (
            OK,
            "test sent"@,
        ),
        TestEvent::Sent(Err(reasons)) => action matches TestAction::Respond(r) && r@ == (
            BAD_GATEWAY,
            "送出失敗："@ + reasons@,
        ),
    }
}

/// Decides what to do next with a request for a test alert.
pub fn admin_test_notify<S, D>(now: &Moment, event: TestEvent<S>) -> (r: TestAction<S, D>)
    requires
        now.wf(),
    ensures
        test_step(*now, event, r),
{
    match event {
        TestEvent::SettingsLoaded(Ok(settings)) => TestAction::Send(
            settings,
            AlertPayload {
                title: "測試通知".to_owned(),
                message: "這是一條來自 VPS Monitor 的測試訊息。".to_owned(),
                server_id: "test".to_owned(),
                server_name: "Test".to_owned(),
                kind: "test".to_owned(),
                level: "info".to_owned(),
                value: Figure::Count(0),
                limit: Figure::Count(0),
                timestamp: now.to_rfc3339(),
            },
        ),
        TestEvent::SettingsLoaded(Err(_)) => TestAction::Respond(db_error_reply()),
        TestEvent::Sent(Ok(_)) => TestAction::Respond(reply::reply(OK, "test sent")),
        TestEvent::Sent(Err(reasons)) => TestAction::Respond(
            Reply {
                status: BAD_GATEWAY,
                body: "送出失敗：".to_owned().concat(reasons.as_str()),
            },
        ),
    }
}

} // verus!
