//! Which alerts are due, what they say and where they go, item by item.

use vstd::prelude::*;

use crate::figure::Figure;
use crate::laws;
use crate::moment;
use crate::moment::Moment;
use crate::notify;
use crate::notify::{
    AlertPayload, CpuFacts, Delivery, MemoryFacts, NotifySettings, Outcome, TrafficFacts,
    WatchedMachine,
};
use crate::text;

verus! {

/// The settings hold what they were made of, each thing in its own place.
pub proof fn law_settings_hold_what_is_set<S>(s: NotifySettings<S>)
    ensures
        s@.telegram_enabled == s.telegram_enabled,
        s@.telegram_bot_token == s.telegram_bot_token@,
        s@.telegram_chat_id == s.telegram_chat_id@,
        s@.webhook_enabled == s.webhook_enabled,
        s@.webhook_url == s.webhook_url@,
        s@.offline_minutes == s.offline_minutes,
        s@.cpu_threshold == s.cpu_threshold,
        s@.mem_threshold == s.mem_threshold,
{
}

/// An alert holds what it was made of, each thing in its own place.
pub proof fn law_alerts_hold_what_they_say<D>(a: AlertPayload<D>)
    ensures
        a@.title == a.title@,
        a@.message == a.message@,
        a@.server_id == a.server_id@,
        a@.server_name == a.server_name@,
        a@.kind == a.kind@,
        a@.level == a.level@,
        a@.value == a.value,
        a@.limit == a.limit,
        a@.timestamp == a.timestamp@,
{
}

/// A list of alerts holds what each of them says, in order.
pub proof fn law_lists_of_alerts<D>(alerts: Seq<AlertPayload<D>>, i: int)
    requires
        0 <= i < alerts.len(),
    ensures
        notify::alerts_of(alerts).len() == alerts.len(),
        notify::alerts_of(alerts)[i] == alerts[i]@,
{
}

/// Before anybody has chosen settings nothing is sent, silence counts after five minutes and usage
/// from ninety percent on. Settings that cannot be read are blank: nothing is sent, and for
/// nothing.
pub proof fn law_settings_to_start_with<S>()
    ensures
        ({
            let initial = notify::initial_settings::<S>();
            &&& !initial.telegram_enabled && !initial.webhook_enabled
            &&& initial.telegram_bot_token.len() == 0
            &&& initial.telegram_chat_id.len() == 0
            &&& initial.webhook_url.len() == 0
            &&& initial.offline_minutes == 5
            &&& initial.cpu_threshold == Figure::<S>::Count(90)
            &&& initial.mem_threshold == Figure::<S>::Count(90)
        }),
        ({
            let blank = notify::blank_settings::<S>();
            &&& !blank.telegram_enabled && !blank.webhook_enabled
            &&& blank.telegram_bot_token.len() == 0
            &&& blank.telegram_chat_id.len() == 0
            &&& blank.webhook_url.len() == 0
            &&& blank.offline_minutes == 0
            &&& blank.cpu_threshold == Figure::<S>::Count(0)
            &&& blank.mem_threshold == Figure::<S>::Count(0)
        }),
{
}

/// An alert goes to Telegram exactly where that is on and bot and chat are known, and to the
/// webhook exactly where that is on and its address is known, whatever becomes of the other. It
/// goes to the bot, the chat and the address that are set.
pub proof fn law_alerts_go_where_they_are_wanted<S, D>(
    settings: notify::NotifyModel<S>,
    alert: notify::Alert<D>,
)
    ensures
        ({
            let sent = notify::messages(settings, alert);
            let telegram = settings.telegram_enabled && settings.telegram_bot_token.len() > 0
                && settings.telegram_chat_id.len() > 0;
            let webhook = settings.webhook_enabled && settings.webhook_url.len() > 0;
            &&& sent.len() == (if telegram {
                1int
            } else {
                0int
            }) + (if webhook {
                1int
            } else {
                0int
            })
            &&& telegram ==> (sent[0] matches notify::Message::Telegram {
                url,
                chat_id,
                text,
                parse_mode,
            } && url == "https://api.telegram.org/bot"@ + settings.telegram_bot_token
                + "/sendMessage"@ && chat_id == settings.telegram_chat_id && text == "*"@
                + alert.title + "*\n"@ + alert.message && parse_mode == "Markdown"@)
            &&& webhook ==> (sent.last() matches notify::Message::Webhook { url } && url
                == settings.webhook_url)
        }),
{
}

/// A message holds what it was made of.
pub proof fn law_messages_hold_what_they_say(d: Delivery)
    ensures
        d matches Delivery::Telegram { url, chat_id, text, parse_mode } ==> (
        d@ matches notify::Message::Telegram {
            url: u,
            chat_id: c,
            text: t,
            parse_mode: p,
        } && u == url@ && c == chat_id@ && t == text@ && p == parse_mode@),
        d matches Delivery::Webhook { url } ==> (d@ matches notify::Message::Webhook { url: u } && u
            == url@),
{
}

/// What is told of a message that was not taken.
pub open spec fn complaint(delivery: Delivery, outcome: Outcome) -> Seq<char> {
    (match delivery {
        Delivery::Telegram { .. } => "Telegram"@,
        Delivery::Webhook { .. } => "Webhook"@,
    }) + (match outcome {
        Outcome::Answered { status, .. } => " failed: status "@ + status@,
        Outcome::Unsent(reason) => " error: "@ + reason@,
    })
}

/// A message was taken exactly where it was answered with a status from 200 to 299.
pub proof fn law_taken_messages(outcome: Outcome)
    ensures
        notify::taken(outcome) <==> (outcome matches Outcome::Answered { code, .. } && 200 <= code
            && code < 300),
{
}

/// What is told of messages that were not taken: the reason for each of them, in order, with
/// semicolons between them, and nothing of those that were taken.
pub proof fn law_complaints(
    sent: Seq<(Delivery, Outcome)>,
    delivery: Delivery,
    outcome: Outcome,
)
    ensures
        notify::failures_text(Seq::<(Delivery, Outcome)>::empty()).len() == 0,
        ({
            let before = notify::failures_text(sent);
            let after = notify::failures_text(sent.push((delivery, outcome)));
            &&& notify::taken(outcome) ==> after == before
            &&& !notify::taken(outcome) && notify::all_taken(sent) ==> after == complaint(
                delivery,
                outcome,
            )
            &&& !notify::taken(outcome) && !notify::all_taken(sent) ==> after == before + "; "@
                + complaint(delivery, outcome)
        }),
{
    let all = sent.push((delivery, outcome));
    assert(all.drop_last() =~= sent);
    notify::lemma_failures_text(sent);
    assert(notify::failure_text(delivery@, outcome) =~= complaint(delivery, outcome));
    let before = notify::failures_text(sent);
    assert(before + "; "@ + notify::failure_text(delivery@, outcome) =~= before + "; "@ + complaint(
        delivery,
        outcome,
    ));
}

/// An alert was sent exactly where no message of it failed.
pub proof fn law_sent_alerts(sent: Seq<(Delivery, Outcome)>)
    ensures
        notify::all_taken(sent) <==> !exists|i: int|
            #![trigger sent[i]]
            0 <= i < sent.len() && !notify::taken(sent[i].1),
{
    if notify::all_taken(sent) {
        assert forall|i: int| #![trigger sent[i]] 0 <= i < sent.len() implies notify::taken(
            sent[i].1,
        ) by {}
    }
}

/// Whether an alert of a kind is among others.
pub open spec fn of_kind<D>(alerts: Seq<notify::Alert<D>>, kind: Seq<char>) -> bool {
    exists|k: int| 0 <= k < alerts.len() && (#[trigger] alerts[k]).kind == kind
}

proof fn lemma_kinds_differ()
    ensures
        "cpu"@ != "memory"@,
        "cpu"@ != "traffic"@,
        "memory"@ != "traffic"@,
{
    reveal_strlit("cpu");
    reveal_strlit("memory");
    reveal_strlit("traffic");
    assert("cpu"@.len() == 3 && "memory"@.len() == 6 && "traffic"@.len() == 7);
}

/// A report raises an alert of each kind exactly where that kind's own facts call for it, whatever
/// the others say: for CPU usage where a threshold is set and reached, for memory usage where one
/// is set and reached and the total is known, and for traffic where limit and percentage are set
/// and the percentage is reached, whether or not the limit is used up.
pub proof fn law_each_alert_is_due_on_its_own<D>(
    id: Seq<char>,
    name: Seq<char>,
    cpu: CpuFacts<D>,
    memory: MemoryFacts<D>,
    traffic: TrafficFacts<D>,
    at: Seq<char>,
)
    ensures
        ({
            let alerts = notify::report_alerts(id, name, cpu, memory, traffic, at);
            let on_cpu = cpu.threshold_set && cpu.reached;
            let on_memory = memory.threshold_set && memory.total_known && memory.reached;
            let on_traffic = traffic.limit_set && traffic.percent_set && traffic.reached;
            &&& of_kind(alerts, "cpu"@) <==> on_cpu
            &&& of_kind(alerts, "memory"@) <==> on_memory
            &&& of_kind(alerts, "traffic"@) <==> on_traffic
            &&& alerts.len() == (if on_cpu {
                1int
            } else {
                0int
            }) + (if on_memory {
                1int
            } else {
                0int
            }) + (if on_traffic {
                1int
            } else {
                0int
            })
            &&& forall|k: int|
                0 <= k < alerts.len() ==> (#[trigger] alerts[k]).server_id == id
                    && alerts[k].server_name == name && alerts[k].timestamp == at
        }),
{
    lemma_kinds_differ();
    let alerts = notify::report_alerts(id, name, cpu, memory, traffic, at);
    let on_cpu = cpu.threshold_set && cpu.reached;
    let on_memory = memory.threshold_set && memory.total_known && memory.reached;
    let on_traffic = traffic.limit_set && traffic.percent_set && traffic.reached;
    if on_cpu {
        assert(alerts[0].kind == "cpu"@);
    }
    if on_memory {
        let k: int = if on_cpu {
            1
        } else {
            0
        };
        assert(alerts[k].kind == "memory"@);
    }
    if on_traffic {
        assert(alerts[alerts.len() - 1].kind == "traffic"@);
    }
}

/// What the alerts of a report say, kind by kind. A traffic alert is critical from a hundred
/// percent on and a warning below; the others are warnings.
pub proof fn law_what_alerts_say<D>(
    id: Seq<char>,
    name: Seq<char>,
    cpu: CpuFacts<D>,
    memory: MemoryFacts<D>,
    traffic: TrafficFacts<D>,
    at: Seq<char>,
    k: int,
)
    requires
        0 <= k < notify::report_alerts(id, name, cpu, memory, traffic, at).len(),
    ensures
        ({
            let alert = notify::report_alerts(id, name, cpu, memory, traffic, at)[k];
            &&& alert.kind == "cpu"@ || alert.kind == "memory"@ || alert.kind == "traffic"@
            &&& alert.kind == "cpu"@ ==> alert.title == "CPU 告警"@ && alert.message == name
                + " CPU 使用率 "@ + cpu.usage_text@ + "%（閾值 "@ + cpu.threshold_text@ + "%）"@
                && alert.level == "warning"@ && alert.value == Figure::Measured(cpu.usage)
                && alert.limit == Figure::Measured(cpu.threshold)
            &&& alert.kind == "memory"@ ==> alert.title == "記憶體告警"@ && alert.message == name
                + " 記憶體使用率 "@ + memory.usage_text@ + "%（閾值 "@ + memory.threshold_text@
                + "%）"@ && alert.level == "warning"@ && alert.value == Figure::Measured(
                memory.usage,
            ) && alert.limit == Figure::Measured(memory.threshold)
            &&& alert.kind == "traffic"@ ==> alert.title == "流量告警"@ && alert.message == name
                + " 累計流量已達 "@ + traffic.used_percent_text@ + "%（"@ + traffic.total_text@
                + " GB / "@ + traffic.limit_text@ + " GB）"@ && alert.level == (if traffic.full {
                "critical"@
            } else {
                "warning"@
            }) && alert.value == Figure::Measured(traffic.used_percent) && alert.limit
                == Figure::Measured(traffic.limit)
        }),
{
    lemma_kinds_differ();
}

/// Alerts of a report go out in the order CPU, memory, traffic.
pub proof fn law_order_of_alerts<D>(
    id: Seq<char>,
    name: Seq<char>,
    cpu: CpuFacts<D>,
    memory: MemoryFacts<D>,
    traffic: TrafficFacts<D>,
    at: Seq<char>,
    k: int,
    l: int,
)
    requires
        0 <= k < l < notify::report_alerts(id, name, cpu, memory, traffic, at).len(),
    ensures
        notify::report_alerts(id, name, cpu, memory, traffic, at)[l].kind != "cpu"@,
        notify::report_alerts(id, name, cpu, memory, traffic, at)[k].kind != "traffic"@,
{
    lemma_kinds_differ();
}

/// From when on machines must have reported: the set minutes before now, to the nanosecond. Where
/// no minutes are set, nothing is watched.
pub proof fn law_start_of_the_watch(minutes: i64, now: Moment)
    requires
        now.wf(),
    ensures
        ({
            let watch = notify::offline_since(minutes, now);
            let start = now.secs - 60 * minutes;
            &&& minutes <= 0 <==> watch == notify::OfflineWatch::Off
            &&& minutes > 0 && start >= moment::MIN_SECS ==> (
            watch matches notify::OfflineWatch::Since(since) && since.secs == start && since.nanos
                == now.nanos)
            &&& minutes > 0 && start < moment::MIN_SECS ==> watch
                == notify::OfflineWatch::BeyondCalendar
        }),
{
}

/// Whether a machine last reported before an instant, as far as its stored text tells.
pub open spec fn reported_before(machine: WatchedMachine, since: Moment) -> bool {
    moment::rfc3339_moment(machine.last_seen@) matches Some(seen) && (seen.0 < since.secs || (seen.0
        == since.secs && seen.1 < since.nanos))
}

proof fn lemma_silent_machines_at(machines: Seq<WatchedMachine>, since: Moment)
    ensures
        ({
            let picked = laws::places(
                Seq::new(machines.len(), |i: int| reported_before(machines[i], since)),
            );
            let silent = notify::silent_machines(machines, since);
            &&& silent.len() == picked.len()
            &&& forall|k: int|
                0 <= k < silent.len() ==> 0 <= #[trigger] picked[k] < machines.len() && silent[k]
                    == machines[picked[k]]
        }),
    decreases machines.len(),
{
    if machines.len() > 0 {
        let front = machines.drop_last();
        lemma_silent_machines_at(front, since);
        let holds = Seq::new(machines.len(), |i: int| reported_before(machines[i], since));
        assert(holds.drop_last() =~= Seq::new(
            front.len(),
            |i: int| reported_before(front[i], since),
        ));
    }
}

/// The machines found silent are those that last reported before the given instant, each once and
/// in their order, whatever stands next to them, and no other.
pub proof fn law_silent_machines_are_found(machines: Seq<WatchedMachine>, since: Moment) -> (picked:
    Seq<int>)
    ensures
        laws::picks(
            picked,
            Seq::new(machines.len(), |i: int| reported_before(machines[i], since)),
        ),
        notify::silent_machines(machines, since).len() == picked.len(),
        forall|k: int|
            0 <= k < picked.len() ==> notify::silent_machines(machines, since)[k]
                == machines[#[trigger] picked[k]],
{
    let holds = Seq::new(machines.len(), |i: int| reported_before(machines[i], since));
    laws::lemma_places(holds);
    lemma_silent_machines_at(machines, since);
    laws::places(holds)
}

/// A machine that last reported before the given instant is found, and one that is found did.
pub proof fn law_every_silent_machine_is_found(
    machines: Seq<WatchedMachine>,
    since: Moment,
    machine: WatchedMachine,
)
    ensures
        notify::silent_machines(machines, since).contains(machine) <==> machines.contains(machine)
            && reported_before(machine, since),
{
    let picked = law_silent_machines_are_found(machines, since);
    let silent = notify::silent_machines(machines, since);
    let holds = Seq::new(machines.len(), |i: int| reported_before(machines[i], since));
    if machines.contains(machine) && reported_before(machine, since) {
        let i = choose|i: int| 0 <= i < machines.len() && machines[i] == machine;
        assert(holds[i]);
        let k = choose|k: int| 0 <= k < picked.len() && picked[k] == i;
        assert(silent[k] == machine);
    }
    if silent.contains(machine) {
        let k = choose|k: int| 0 <= k < silent.len() && silent[k] == machine;
        assert(machines[picked[k]] == machine && holds[picked[k]]);
    }
}

/// What the alert for a silent machine says.
pub proof fn law_what_offline_alerts_say<D>(
    machine: WatchedMachine,
    minutes: i64,
    at: Seq<char>,
)
    requires
        minutes >= 0,
    ensures
        ({
            let alert = notify::offline_message::<D>(machine, minutes, at);
            &&& alert.title == "離線告警"@
            &&& alert.message == machine.name@ + " 已超過 "@ + text::decimal(minutes as nat)
                + " 分鐘沒有上報（最後："@ + machine.last_seen@ + "）"@
            &&& alert.server_id == machine.id@
            &&& alert.server_name == machine.name@
            &&& alert.kind == "offline"@
            &&& alert.level == "critical"@
            &&& alert.value == Figure::<D>::Count(minutes)
            &&& alert.limit == Figure::<D>::Count(0)
            &&& alert.timestamp == at
        }),
{
}

} // verus!
