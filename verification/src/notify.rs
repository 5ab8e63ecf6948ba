//! Alerts: when they are due, what they say and where they go.

use vstd::prelude::*;
use vstd::string::*;

use crate::figure::Figure;
use crate::moment;
use crate::moment::{shifted, Moment, MIN_SECS};
use crate::text;
use crate::text::decimal_text;

verus! {

/// How alerts are sent, and what they are sent for.
#[derive(Debug)]
pub struct NotifySettings<S> {
    pub telegram_enabled: bool,
    pub telegram_bot_token: String,
    pub telegram_chat_id: String,
    pub webhook_enabled: bool,
    pub webhook_url: String,
    /// After how many minutes without a report a machine counts as offline; 0 or less for never.
    pub offline_minutes: i64,
    /// From what CPU usage on to give notice, in percent; 0 for never.
    pub cpu_threshold: Figure<S>,
    /// From what memory usage on to give notice, in percent; 0 for never.
    pub mem_threshold: Figure<S>,
}

/// The contents of a `NotifySettings`.
#[verifier::ext_equal]
pub ghost struct NotifyModel<S> {
    pub telegram_enabled: bool,
    pub telegram_bot_token: Seq<char>,
    pub telegram_chat_id: Seq<char>,
    pub webhook_enabled: bool,
    pub webhook_url: Seq<char>,
    pub offline_minutes: i64,
    pub cpu_threshold: Figure<S>,
    pub mem_threshold: Figure<S>,
}

impl<S> View for NotifySettings<S> {
    type V = NotifyModel<S>;

    open spec fn view(&self) -> NotifyModel<S> {
        NotifyModel {
            telegram_enabled: self.telegram_enabled,
            telegram_bot_token: self.telegram_bot_token@,
            telegram_chat_id: self.telegram_chat_id@,
            webhook_enabled: self.webhook_enabled,
            webhook_url: self.webhook_url@,
            offline_minutes: self.offline_minutes,
            cpu_threshold: self.cpu_threshold,
            mem_threshold: self.mem_threshold,
        }
    }
}

/// The settings with everything off.
pub open spec fn blank_settings<S>() -> NotifyModel<S> {
    NotifyModel {
        telegram_enabled: false,
        telegram_bot_token: seq![],
        telegram_chat_id: seq![],
        webhook_enabled: false,
        webhook_url: seq![],
        offline_minutes: 0,
        cpu_threshold: Figure::Count(0),
        mem_threshold: Figure::Count(0),
    }
}

/// The settings before anybody has chosen any: nothing is sent yet, but it is known for what.
pub open spec fn initial_settings<S>() -> NotifyModel<S> {
    NotifyModel {
        offline_minutes: 5,
        cpu_threshold: Figure::Count(90),
        mem_threshold: Figure::Count(90),
        ..blank_settings()
    }
}

/// The settings with everything off.
pub fn no_settings<S>() -> (r: NotifySettings<S>)
    ensures
        r@ == blank_settings::<S>(),
{
    let r = NotifySettings {
        telegram_enabled: false,
        telegram_bot_token: String::new(),
        telegram_chat_id: String::new(),
        webhook_enabled: false,
        webhook_url: String::new(),
        offline_minutes: 0,
        cpu_threshold: Figure::Count(0),
        mem_threshold: Figure::Count(0),
    };
    assert(r@ =~= blank_settings::<S>());
    r
}

/// The settings in force. `stored` is what is stored, if anything is, and inside it the settings
/// that it could be read as, if it could be.
pub fn load_settings<S>(stored: Option<Option<NotifySettings<S>>>) -> (r: NotifySettings<S>)
    ensures
        match stored {
            Some(Some(settings)) => r == settings,
            Some(None) => r@ == blank_settings::<S>(),
            None => r@ == initial_settings::<S>(),
        },
{
    match stored {
        Some(Some(settings)) => settings,
        Some(None) => no_settings(),
        None => {
            let mut r = no_settings();
            r.offline_minutes = 5;
            r.cpu_threshold = Figure::Count(90);
            r.mem_threshold = Figure::Count(90);
            r
        },
    }
}

/// An alert.
#[derive(Debug)]
pub struct AlertPayload<D> {
    pub title: String,
    pub message: String,
    pub server_id: String,
    pub server_name: String,
    pub kind: String,
    pub level: String,
    pub value: Figure<D>,
    pub limit: Figure<D>,
    pub timestamp: String,
}

/// The contents of an `AlertPayload`.
#[verifier::ext_equal]
pub ghost struct Alert<D> {
    pub title: Seq<char>,
    pub message: Seq<char>,
    pub server_id: Seq<char>,
    pub server_name: Seq<char>,
    pub kind: Seq<char>,
    pub level: Seq<char>,
    pub value: Figure<D>,
    pub limit: Figure<D>,
    pub timestamp: Seq<char>,
}

impl<D> View for AlertPayload<D> {
    type V = Alert<D>;

    open spec fn view(&self) -> Alert<D> {
        Alert {
            title: self.title@,
            message: self.message@,
            server_id: self.server_id@,
            server_name: self.server_name@,
            kind: self.kind@,
            level: self.level@,
            value: self.value,
            limit: self.limit,
            timestamp: self.timestamp@,
        }
    }
}

/// What a list of alerts holds.
pub open spec fn alerts_of<D>(alerts: Seq<AlertPayload<D>>) -> Seq<Alert<D>> {
    alerts.map_values(|a: AlertPayload<D>| a@)
}

/// A message to send.
#[derive(Debug)]
pub enum Delivery {
    /// A call of Telegram's `sendMessage` with these parameters.
    Telegram { url: String, chat_id: String, text: String, parse_mode: String },
    /// The alert itself, posted to this address.
    Webhook { url: String },
}

/// The contents of a `Delivery`.
pub ghost enum Message {
    Telegram { url: Seq<char>, chat_id: Seq<char>, text: Seq<char>, parse_mode: Seq<char> },
    Webhook { url: Seq<char> },
}

impl View for Delivery {
    type V = Message;

    open spec fn view(&self) -> Message {
        match self {
            Delivery::Telegram { url, chat_id, text, parse_mode } => Message::Telegram {
                url: url@,
                chat_id: chat_id@,
                text: text@,
                parse_mode: parse_mode@,
            },
            Delivery::Webhook { url } => Message::Webhook { url: url@ },
        }
    }
}

/// Whether alerts go to Telegram: that is switched on, and the bot and the chat are known.
pub open spec fn telegram_ready<S>(settings: NotifyModel<S>) -> bool {
    settings.telegram_enabled && settings.telegram_bot_token.len() > 0
        && settings.telegram_chat_id.len() > 0
}

/// Whether alerts go to a webhook: that is switched on, and its address is known.
pub open spec fn webhook_ready<S>(settings: NotifyModel<S>) -> bool {
    settings.webhook_enabled && settings.webhook_url.len() > 0
}

/// An alert for Telegram.
pub open spec fn telegram_message<S, D>(settings: NotifyModel<S>, alert: Alert<D>) -> Message {
    Message::Telegram {
        url: "https://api.telegram.org/bot"@ + settings.telegram_bot_token + "/sendMessage"@,
        chat_id: settings.telegram_chat_id,
        text: "*"@ + alert.title + "*\n"@ + alert.message,
        parse_mode: "Markdown"@,
    }
}

/// The messages that an alert is sent as, in order.
pub open spec fn messages<S, D>(settings: NotifyModel<S>, alert: Alert<D>) -> Seq<Message> {
    (if telegram_ready(settings) {
        seq![telegram_message(settings, alert)]
    } else {
        seq![]
    }) + (if webhook_ready(settings) {
        seq![Message::Webhook { url: settings.webhook_url }]
    } else {
        seq![]
    })
}

/// The messages that an alert is sent as. Each is sent, whatever becomes of the others.
pub fn send_alert<S, D>(settings: &NotifySettings<S>, alert: &AlertPayload<D>) -> (r: Vec<Delivery>)
    ensures
        r@.map_values(|d: Delivery| d@) == messages(settings@, alert@),
{
    let mut out: Vec<Delivery> = Vec::new();
    if settings.telegram_enabled && !settings.telegram_bot_token.as_str().is_empty()
        && !settings.telegram_chat_id.as_str().is_empty() {
        let text = "*".to_owned().concat(alert.title.as_str()).concat("*\n").concat(
            alert.message.as_str(),
        );
        let url = "https://api.telegram.org/bot".to_owned().concat(
            settings.telegram_bot_token.as_str(),
        ).concat("/sendMessage");
        out.push(
            Delivery::Telegram {
                url,
                chat_id: settings.telegram_chat_id.clone(),
                text,
                parse_mode: "Markdown".to_owned(),
            },
        );
    }
    if settings.webhook_enabled && !settings.webhook_url.as_str().is_empty() {
        out.push(Delivery::Webhook { url: settings.webhook_url.clone() });
    }
    assert(out@.map_values(|d: Delivery| d@) =~= messages(settings@, alert@));
    out
}

/// What became of a message.
#[derive(Debug)]
pub enum Outcome {
    /// It was answered with this HTTP status, which reads so.
    Answered { code: u16, status: String },
    /// It could not be sent, for this reason.
    Unsent(String),
}

/// Whether a message was taken.
pub open spec fn taken(outcome: Outcome) -> bool {
    outcome matches Outcome::Answered { code, .. } && 200 <= code <= 299
}

/// Where a message was to go.
pub open spec fn channel(message: Message) -> Seq<char> {
    match message {
        Message::Telegram { .. } => "Telegram"@,
        Message::Webhook { .. } => "Webhook"@,
    }
}

/// Why a message was not taken.
pub open spec fn failure_text(message: Message, outcome: Outcome) -> Seq<char> {
    match outcome {
        Outcome::Answered { status, .. } => channel(message) + " failed: status "@ + status@,
        Outcome::Unsent(reason) => channel(message) + " error: "@ + reason@,
    }
}

/// Why messages were not taken, one reason after the other.
pub open spec fn failures_text(sent: Seq<(Delivery, Outcome)>) -> Seq<char>
    decreases sent.len(),
{
    if sent.len() == 0 {
        seq![]
    } else {
        let before = failures_text(sent.drop_last());
        let (delivery, outcome) = sent.last();
        if taken(outcome) {
            before
        } else if before.len() == 0 {
            failure_text(delivery@, outcome)
        } else {
            before + "; "@ + failure_text(delivery@, outcome)
        }
    }
}

/// Whether every message was taken.
pub open spec fn all_taken(sent: Seq<(Delivery, Outcome)>) -> bool {
    forall|i: int| 0 <= i < sent.len() ==> taken(#[trigger] sent[i].1)
}

proof fn lemma_failure_text(message: Message, outcome: Outcome)
    ensures
        failure_text(message, outcome).len() > 0,
{
    reveal_strlit("Telegram");
    reveal_strlit("Webhook");
}

pub(crate) proof fn lemma_failures_text(sent: Seq<(Delivery, Outcome)>)
    ensures
        all_taken(sent) <==> failures_text(sent).len() == 0,
    decreases sent.len(),
{
    if sent.len() > 0 {
        let front = sent.drop_last();
        lemma_failures_text(front);
        lemma_failure_text(sent.last().0@, sent.last().1);
        assert(all_taken(sent) <==> all_taken(front) && taken(sent.last().1)) by {
            assert(forall|i: int| 0 <= i < front.len() ==> front[i] == #[trigger] sent[i]);
            if all_taken(front) && taken(sent.last().1) {
                assert forall|i: int| 0 <= i < sent.len() implies taken(#[trigger] sent[i].1) by {
                    if i < front.len() {
                        assert(taken(front[i].1));
                    }
                }
            }
            if all_taken(sent) {
                assert forall|i: int| 0 <= i < front.len() implies taken(#[trigger] front[i].1) by {
                    assert(taken(sent[i].1));
                }
                assert(taken(sent[sent.len() - 1].1));
            }
        }
    }
}

/// What became of an alert, given what became of its messages: an error with every reason if one
/// or more were not taken.
pub fn alert_result(sent: &Vec<(Delivery, Outcome)>) -> (r: Result<(), String>)
    ensures
        r is Ok <==> all_taken(sent@),
        r matches Err(reasons) ==> reasons@ == failures_text(sent@),
{
    let mut reasons = String::new();
    let n: usize = sent.len();
    let mut i: usize = 0;
    while i < n
        invariant
            n == sent@.len(),
            i <= n,
            reasons@ == failures_text(sent@.take(i as int)),
        decreases n - i,
    {
        let (delivery, outcome) = &sent[i];
        assert(sent@.take(i + 1).drop_last() =~= sent@.take(i as int));
        let channel = match delivery {
            Delivery::Telegram { .. } => "Telegram",
            Delivery::Webhook { .. } => "Webhook",
        };
        let reason = match outcome {
            Outcome::Answered { code, status } => if 200 <= *code && *code <= 299 {
                None
            } else {
                Some(channel.to_owned().concat(" failed: status ").concat(status.as_str()))
            },
            Outcome::Unsent(why) => Some(
                channel.to_owned().concat(" error: ").concat(why.as_str()),
            ),
        };
        match reason {
            Some(text) => {
                if reasons.as_str().is_empty() {
                    reasons = text;
                } else {
                    reasons = reasons.concat("; ").concat(text.as_str());
                }
            },
            None => {},
        }
        i = i + 1;
    }
    proof {
        assert(sent@.take(n as int) =~= sent@);
        lemma_failures_text(sent@);
    }
    if reasons.as_str().is_empty() {
        Ok(())
    } else {
        Err(reasons)
    }
}

/// A machine's CPU usage and the usage to give notice from.
#[derive(Debug)]
pub struct CpuFacts<D> {
    /// Whether the threshold is above 0.
    pub threshold_set: bool,
    /// Whether the usage is at least the threshold.
    pub reached: bool,
    pub usage: D,
    pub threshold: D,
    /// The usage with one decimal place.
    pub usage_text: String,
    /// The threshold without decimal places.
    pub threshold_text: String,
}

/// A machine's memory usage and the usage to give notice from.
#[derive(Debug)]
pub struct MemoryFacts<D> {
    /// Whether the threshold is above 0.
    pub threshold_set: bool,
    /// Whether the machine's total memory is above 0.
    pub total_known: bool,
    /// Whether the used share of the total, in percent, is at least the threshold.
    pub reached: bool,
    pub usage: D,
    pub threshold: D,
    /// The usage with one decimal place.
    pub usage_text: String,
    /// The threshold without decimal places.
    pub threshold_text: String,
}

/// A machine's traffic, its limit and the share of it to give notice from.
#[derive(Debug)]
pub struct TrafficFacts<D> {
    /// Whether the limit is above 0.
    pub limit_set: bool,
    /// Whether the share to give notice from is above 0.
    pub percent_set: bool,
    /// Whether the used share of the limit, in percent, is at least the one to give notice from.
    pub reached: bool,
    /// Whether the used share of the limit is at least 100 percent.
    pub full: bool,
    pub used_percent: D,
    pub limit: D,
    /// The used share with one decimal place.
    pub used_percent_text: String,
    /// The traffic in and out together, with two decimal places.
    pub total_text: String,
    /// The limit without decimal places.
    pub limit_text: String,
}

/// The alert for a machine's CPU usage, if it is due.
pub open spec fn cpu_alert<D>(
    id: Seq<char>,
    name: Seq<char>,
    cpu: CpuFacts<D>,
    at: Seq<char>,
) -> Option<Alert<D>> {
    if cpu.threshold_set && cpu.reached {
        Some(
            Alert {
                title: "CPU 告警"@,
                message: name + " CPU 使用率 "@ + cpu.usage_text@ + "%（閾值 "@
                    + cpu.threshold_text@ + "%）"@,
                server_id: id,
                server_name: name,
                kind: "cpu"@,
                level: "warning"@,
                value: Figure::Measured(cpu.usage),
                limit: Figure::Measured(cpu.threshold),
                timestamp: at,
            },
        )
    } else {
        None
    }
}

/// The alert for a machine's memory usage, if it is due.
pub open spec fn memory_alert<D>(
    id: Seq<char>,
    name: Seq<char>,
    memory: MemoryFacts<D>,
    at: Seq<char>,
) -> Option<Alert<D>> {
    if memory.threshold_set && memory.total_known && memory.reached {
        Some(
            Alert {
                title: "記憶體告警"@,
                message: name + " 記憶體使用率 "@ + memory.usage_text@ + "%（閾值 "@
                    + memory.threshold_text@ + "%）"@,
                server_id: id,
                server_name: name,
                kind: "memory"@,
                level: "warning"@,
                value: Figure::Measured(memory.usage),
                limit: Figure::Measured(memory.threshold),
                timestamp: at,
            },
        )
    } else {
        None
    }
}

/// The alert for a machine's traffic, if it is due.
pub open spec fn traffic_alert<D>(
    id: Seq<char>,
    name: Seq<char>,
    traffic: TrafficFacts<D>,
    at: Seq<char>,
) -> Option<Alert<D>> {
    if traffic.limit_set && traffic.percent_set && traffic.reached {
        Some(
            Alert {
                title: "流量告警"@,
                message: name + " 累計流量已達 "@ + traffic.used_percent_text@ + "%（"@
                    + traffic.total_text@ + " GB / "@ + traffic.limit_text@ + " GB）"@,
                server_id: id,
                server_name: name,
                kind: "traffic"@,
                level: if traffic.full {
                    "critical"@
                } else {
                    "warning"@
                },
                value: Figure::Measured(traffic.used_percent),
                limit: Figure::Measured(traffic.limit),
                timestamp: at,
            },
        )
    } else {
        None
    }
}

/// An optional alert as a list of alerts.
pub open spec fn listed<D>(alert: Option<Alert<D>>) -> Seq<Alert<D>> {
    match alert {
        Some(a) => seq![a],
        None => seq![],
    }
}

/// The alerts that a report calls for, in the order in which they are sent.
pub open spec fn report_alerts<D>(
    id: Seq<char>,
    name: Seq<char>,
    cpu: CpuFacts<D>,
    memory: MemoryFacts<D>,
    traffic: TrafficFacts<D>,
    at: Seq<char>,
) -> Seq<Alert<D>> {
    listed(cpu_alert(id, name, cpu, at)) + listed(memory_alert(id, name, memory, at)) + listed(
        traffic_alert(id, name, traffic, at),
    )
}

/// The alerts that a report calls for: CPU, memory and traffic, each on its own.
pub fn check_report_alerts<D: Copy>(
    server_id: &str,
    server_name: &str,
    cpu: &CpuFacts<D>,
    memory: &MemoryFacts<D>,
    traffic: &TrafficFacts<D>,
    now: &Moment,
) -> (r: Vec<AlertPayload<D>>)
    requires
        now.wf(),
    ensures
        alerts_of(r@) == report_alerts(
            server_id@,
            server_name@,
            *cpu,
            *memory,
            *traffic,
            moment::rfc3339(now.secs as int, now.nanos as int),
        ),
{
    let at = now.to_rfc3339();
    let mut out: Vec<AlertPayload<D>> = Vec::new();
    if cpu.threshold_set && cpu.reached {
        let message = server_name.to_owned().concat(" CPU 使用率 ").concat(
            cpu.usage_text.as_str(),
        ).concat("%（閾值 ").concat(cpu.threshold_text.as_str()).concat("%）");
        out.push(
            AlertPayload {
                title: "CPU 告警".to_owned(),
                message,
                server_id: server_id.to_owned(),
                server_name: server_name.to_owned(),
                kind: "cpu".to_owned(),
                level: "warning".to_owned(),
                value: Figure::Measured(cpu.usage),
                limit: Figure::Measured(cpu.threshold),
                timestamp: at.clone(),
            },
        );
    }
    assert(alerts_of(out@) =~= listed(cpu_alert(server_id@, server_name@, *cpu, at@)));
    if memory.threshold_set && memory.total_known && memory.reached {
        let message = server_name.to_owned().concat(" 記憶體使用率 ").concat(
            memory.usage_text.as_str(),
        ).concat("%（閾值 ").concat(memory.threshold_text.as_str()).concat("%）");
        out.push(
            AlertPayload {
                title: "記憶體告警".to_owned(),
                message,
                server_id: server_id.to_owned(),
                server_name: server_name.to_owned(),
                kind: "memory".to_owned(),
                level: "warning".to_owned(),
                value: Figure::Measured(memory.usage),
                limit: Figure::Measured(memory.threshold),
                timestamp: at.clone(),
            },
        );
    }
    assert(alerts_of(out@) =~= listed(cpu_alert(server_id@, server_name@, *cpu, at@)) + listed(
        memory_alert(server_id@, server_name@, *memory, at@),
    ));
    if traffic.limit_set && traffic.percent_set && traffic.reached {
        let message = server_name.to_owned().concat(" 累計流量已達 ").concat(
            traffic.used_percent_text.as_str(),
        ).concat("%（").concat(traffic.total_text.as_str()).concat(" GB / ").concat(
            traffic.limit_text.as_str(),
        ).concat(" GB）");
        let level = if traffic.full {
            "critical"
        } else {
            "warning"
        };
        out.push(
            AlertPayload {
                title: "流量告警".to_owned(),
                message,
                server_id: server_id.to_owned(),
                server_name: server_name.to_owned(),
                kind: "traffic".to_owned(),
                level: level.to_owned(),
                value: Figure::Measured(traffic.used_percent),
                limit: Figure::Measured(traffic.limit),
                timestamp: at.clone(),
            },
        );
    }
    assert(alerts_of(out@) =~= report_alerts(
        server_id@,
        server_name@,
        *cpu,
        *memory,
        *traffic,
        at@,
    ));
    out
}

/// From when on machines must have reported.
#[derive(Clone, Copy, Debug, PartialEq, Eq, Structural)]
pub enum OfflineWatch {
    /// Machines are not watched.
    Off,
    /// A machine that last reported before this instant is offline.
    Since(Moment),
    /// The instant lies before the first one that the calendar has.
    BeyondCalendar,
}

/// From when on machines must have reported at `now`, where they may be silent for `minutes`.
pub open spec fn offline_since(minutes: i64, now: Moment) -> OfflineWatch {
    if minutes <= 0 {
        OfflineWatch::Off
    } else if now.secs - 60 * minutes < MIN_SECS {
        OfflineWatch::BeyondCalendar
    } else {
        OfflineWatch::Since(Moment { secs: (now.secs - 60 * minutes) as i64, nanos: now.nanos })
    }
}

/// From when on machines must have reported at `now`, where they may be silent for `minutes`.
pub fn offline_watch(minutes: i64, now: &Moment) -> (r: OfflineWatch)
    requires
        now.wf(),
        now.ordinary(),
    ensures
        r == offline_since(minutes, *now),
{
    if minutes <= 0 {
        OfflineWatch::Off
    } else if minutes > 1_000_000_000_000 {
        OfflineWatch::BeyondCalendar
    } else {
        match shifted(now, 0 - 60 * minutes) {
            Some(since) => OfflineWatch::Since(since),
            None => OfflineWatch::BeyondCalendar,
        }
    }
}

/// A machine as the watch for silent ones sees it: its id, its name and when it last reported,
/// as stored.
#[derive(Debug)]
pub struct WatchedMachine {
    pub id: String,
    pub name: String,
    pub last_seen: String,
}

/// Whether a machine counts as offline: it last reported before `since`. One whose last report
/// cannot be dated does not.
pub open spec fn silent(last_seen: Option<Moment>, since: Moment) -> bool {
    last_seen matches Some(seen) && seen.precedes(&since)
}

/// Whether a machine counts as offline, given when it last reported if that can be told.
pub fn is_silent(last_seen: &Option<Moment>, since: &Moment) -> (r: bool)
    ensures
        r == silent(*last_seen, *since),
{
    match last_seen {
        Some(seen) => seen.is_before(since),
        None => false,
    }
}

/// The machines that count as offline, in order.
pub open spec fn silent_machines(machines: Seq<WatchedMachine>, since: Moment) -> Seq<
    WatchedMachine,
>
    decreases machines.len(),
{
    if machines.len() == 0 {
        seq![]
    } else {
        let before = silent_machines(machines.drop_last(), since);
        if silent(moment::moment_named(machines.last().last_seen@), since) {
            before.push(machines.last())
        } else {
            before
        }
    }
}

/// The machines that count as offline, in order: those that last reported before `since`.
pub fn check_offline(machines: &Vec<WatchedMachine>, since: &Moment) -> (r: Vec<WatchedMachine>)
    ensures
        r@ == silent_machines(machines@, *since),
{
    let mut out: Vec<WatchedMachine> = Vec::new();
    let n: usize = machines.len();
    let mut i: usize = 0;
    while i < n
        invariant
            n == machines@.len(),
            i <= n,
            out@ == silent_machines(machines@.take(i as int), *since),
        decreases n - i,
    {
        let machine = &machines[i];
        assert(machines@.take(i + 1).drop_last() =~= machines@.take(i as int));
        let seen = Moment::parse_rfc3339(machine.last_seen.as_str());
        if is_silent(&seen, since) {
            out.push(
                WatchedMachine {
                    id: machine.id.clone(),
                    name: machine.name.clone(),
                    last_seen: machine.last_seen.clone(),
                },
            );
        }
        i = i + 1;
    }
    assert(machines@.take(n as int) =~= machines@);
    out
}

/// The alert for a machine that counts as offline.
pub open spec fn offline_message<D>(
    machine: WatchedMachine,
    minutes: i64,
    at: Seq<char>,
) -> Alert<D> {
    Alert {
        title: "離線告警"@,
        message: machine.name@ + " 已超過 "@ + text::decimal(minutes as nat)
            + " 分鐘沒有上報（最後："@ + machine.last_seen@ + "）"@,
        server_id: machine.id@,
        server_name: machine.name@,
        kind: "offline"@,
        level: "critical"@,
        value: Figure::Count(minutes),
        limit: Figure::Count(0),
        timestamp: at,
    }
}

/// The alert for a machine that counts as offline after `minutes` of silence.
pub fn offline_alert<D>(machine: &WatchedMachine, minutes: i64, now: &Moment) -> (r: AlertPayload<
    D,
>)
    requires
        now.wf(),
        minutes >= 0,
    ensures
        r@ == offline_message::<D>(
            *machine,
            minutes,
            moment::rfc3339(now.secs as int, now.nanos as int),
        ),
{
    let message = machine.name.clone().concat(" 已超過 ").concat(
        decimal_text(minutes as u64).as_str(),
    ).concat(" 分鐘沒有上報（最後：").concat(machine.last_seen.as_str()).concat("）");
    AlertPayload {
        title: "離線告警".to_owned(),
        message,
        server_id: machine.id.clone(),
        server_name: machine.name.clone(),
        kind: "offline".to_owned(),
        level: "critical".to_owned(),
        value: Figure::Count(minutes),
        limit: Figure::Count(0),
        timestamp: now.to_rfc3339(),
    }
}

/// The alerts for the machines that count as offline, in order: those that last reported before
/// `since`, after `minutes` of silence.
pub fn offline_alerts<D>(
    machines: &Vec<WatchedMachine>,
    minutes: i64,
    since: &Moment,
    now: &Moment,
) -> (r: Vec<AlertPayload<D>>)
    requires
        now.wf(),
        minutes >= 0,
    ensures
        alerts_of(r@) == silent_machines(machines@, *since).map_values(
            |m: WatchedMachine|
                offline_message::<D>(
                    m,
                    minutes,
                    moment::rfc3339(now.secs as int, now.nanos as int),
                ),
        ),
{
    let silent = check_offline(machines, since);
    let mut out: Vec<AlertPayload<D>> = Vec::new();
    let n: usize = silent.len();
    let mut i: usize = 0;
    while i < n
        invariant
            now.wf(),
            minutes >= 0,
            n == silent@.len(),
            i <= n,
            out@.len() == i,
            forall|j: int|
                0 <= j < i ==> (#[trigger] out@[j])@ == offline_message::<D>(
                    silent@[j],
                    minutes,
                    moment::rfc3339(now.secs as int, now.nanos as int),
                ),
        decreases n - i,
    {
        out.push(offline_alert(&silent[i], minutes, now));
        i = i + 1;
    }
    assert(alerts_of(out@) =~= silent@.map_values(
        |m: WatchedMachine|
            offline_message::<D>(m, minutes, moment::rfc3339(now.secs as int, now.nanos as int)),
    ));
    out
}

} // verus!
