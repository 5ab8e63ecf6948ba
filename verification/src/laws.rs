//! What holds of the monitor as a whole.
//!
//! Each law relates several operations. It is stated over the functions that the operations'
//! own contracts use.

pub mod access;
pub mod alerts;
pub mod fleet;
pub mod pages;

use vstd::prelude::*;
use vstd::utf8::*;

use crate::agents;
use crate::api;
use crate::auth;
use crate::auth::{Credentials, LoginGuardState};
use crate::db;
use crate::db::{AdminAccount, CounterFacts, ReportPayload, Session};
use crate::figure;
use crate::moment;
use crate::moment::{Moment, SECS_PER_DAY};
use crate::notify;
use crate::reply;
use crate::text;

verus! {

// What is picked out of a list

/// The places at which something holds, in order.
pub open spec fn places(holds: Seq<bool>) -> Seq<int>
    decreases holds.len(),
{
    if holds.len() == 0 {
        seq![]
    } else {
        let before = places(holds.drop_last());
        if holds.last() {
            before.push(holds.len() - 1)
        } else {
            before
        }
    }
}

/// Whether `picked` are the places at which something holds: in order, each of them once, and no
/// other.
pub open spec fn picks(picked: Seq<int>, holds: Seq<bool>) -> bool {
    &&& forall|k: int|
        0 <= k < picked.len() ==> 0 <= #[trigger] picked[k] < holds.len() && holds[picked[k]]
    &&& forall|k: int, l: int| 0 <= k < l < picked.len() ==> picked[k] < picked[l]
    &&& forall|i: int| 0 <= i < holds.len() && #[trigger] holds[i] ==> picked.contains(i)
}

proof fn lemma_places(holds: Seq<bool>)
    ensures
        picks(places(holds), holds),
    decreases holds.len(),
{
    if holds.len() > 0 {
        let front = holds.drop_last();
        let before = places(front);
        let all = places(holds);
        lemma_places(front);
        assert forall|i: int| 0 <= i < holds.len() && #[trigger] holds[i] implies all.contains(
            i,
        ) by {
            if i < front.len() {
                assert(front[i]);
                let k = choose|k: int| 0 <= k < before.len() && before[k] == i;
                assert(all[k] == i);
            } else {
                assert(all[all.len() - 1] == i);
            }
        }
        assert forall|k: int| 0 <= k < all.len() implies 0 <= #[trigger] all[k] < holds.len()
            && holds[all[k]] by {
            if k < before.len() {
                assert(0 <= before[k] < front.len() && front[before[k]]);
            }
        }
        assert forall|k: int, l: int| 0 <= k < l < all.len() implies all[k] < all[l] by {
            if l < before.len() {
                assert(before[k] < before[l]);
            } else {
                assert(0 <= before[k] < front.len());
            }
        }
    }
}

// Machines and their reports

/// An id that is accepted holds none of the characters that mean something in a page, and no
/// white space, so that trimming leaves it as it is.
pub proof fn law_ids_are_harmless(id: Seq<char>)
    requires
        db::id_shape(id),
    ensures
        forall|i: int|
            0 <= i < id.len() ==> {
                let c = #[trigger] id[i];
                c != '<' && c != '>' && c != '&' && c != '"' && c != '\'' && c != '/'
                    && !text::white_space(c)
            },
        text::trimmed(id) == id,
{
    assert(db::id_char(id[0]));
    assert(db::id_char(id.last()));
    text::law_trim_leaves(id);
}

/// One report: what was reported, how its counters compare with the stored ones, and when.
pub ghost struct Report<S, D> {
    pub payload: ReportPayload<S, D>,
    pub facts: CounterFacts,
    pub now: Moment,
}

/// A stored machine after a number of reports.
pub open spec fn after_reports<S, D>(
    row: db::ServerRow<S, D>,
    reports: Seq<Report<S, D>>,
) -> db::ServerRow<S, D>
    decreases reports.len(),
{
    if reports.len() == 0 {
        row
    } else {
        let last = reports.last();
        db::reported_row(
            Some(after_reports(row, reports.drop_last())),
            last.payload,
            last.facts,
            last.now,
        )
    }
}

/// However often a machine reports, its id and what administrators decide stay as they are: its
/// name, its limit and share to give notice from, its reset day, its token, and the start and
/// month of its traffic account.
pub proof fn law_reports_leave_decisions_alone<S, D>(
    row: db::ServerRow<S, D>,
    reports: Seq<Report<S, D>>,
)
    ensures
        ({
            let after = after_reports(row, reports);
            &&& after.id == row.id
            &&& after.name == row.name
            &&& after.traffic_limit == row.traffic_limit
            &&& after.traffic_notify_percent == row.traffic_notify_percent
            &&& after.traffic_reset_day == row.traffic_reset_day
            &&& after.token == row.token
            &&& after.traffic_start == row.traffic_start
            &&& after.last_auto_reset_ym == row.last_auto_reset_ym
        }),
    decreases reports.len(),
{
    if reports.len() > 0 {
        law_reports_leave_decisions_alone(row, reports.drop_last());
    }
}

/// Whether a report's comparison of its counters with the stored ones is right, where counters
/// are whole numbers.
pub open spec fn truthful<S>(row: db::ServerRow<S, u64>, report: Report<S, u64>) -> bool {
    &&& report.facts.in_not_below == (report.payload.traffic_in >= figure::exact(row.last_raw_in))
    &&& report.facts.out_not_below == (report.payload.traffic_out >= figure::exact(
        row.last_raw_out,
    ))
}

/// Whether every report in a row compares its counters rightly.
pub open spec fn all_truthful<S>(
    row: db::ServerRow<S, u64>,
    reports: Seq<Report<S, u64>>,
) -> bool
    decreases reports.len(),
{
    reports.len() == 0 || (all_truthful(row, reports.drop_last()) && truthful(
        after_reports(row, reports.drop_last()),
        reports.last(),
    ))
}

/// What one report does to a traffic account, where counters are whole numbers: after a reboot a
/// counter adds all it shows; otherwise one that has not fallen adds its gain, and one that has
/// fallen adds nothing.
pub proof fn law_account_of_one_report<S>(row: db::ServerRow<S, u64>, report: Report<S, u64>)
    requires
        truthful(row, report),
    ensures
        ({
            let after = db::reported_row(Some(row), report.payload, report.facts, report.now);
            let rebooted = report.payload.uptime < row.uptime;
            let gained_in = figure::exact(after.cum_in) - figure::exact(row.cum_in);
            let gained_out = figure::exact(after.cum_out) - figure::exact(row.cum_out);
            let raw_in = report.payload.traffic_in as int;
            let raw_out = report.payload.traffic_out as int;
            let last_in = figure::exact(row.last_raw_in);
            let last_out = figure::exact(row.last_raw_out);
            &&& rebooted ==> gained_in == raw_in
            &&& !rebooted && raw_in >= last_in ==> gained_in == raw_in - last_in
            &&& !rebooted && raw_in < last_in ==> gained_in == 0
            &&& rebooted ==> gained_out == raw_out
            &&& !rebooted && raw_out >= last_out ==> gained_out == raw_out - last_out
            &&& !rebooted && raw_out < last_out ==> gained_out == 0
            &&& gained_in >= 0
            &&& gained_out >= 0
            &&& figure::exact(after.last_raw_in) == raw_in
            &&& figure::exact(after.last_raw_out) == raw_out
        }),
{
    reveal_with_fuel(figure::exact, 4);
}

/// However often a machine reports, reboots or loses an interface, its traffic account never
/// falls.
pub proof fn law_account_never_falls<S>(
    row: db::ServerRow<S, u64>,
    reports: Seq<Report<S, u64>>,
)
    requires
        all_truthful(row, reports),
    ensures
        figure::exact(after_reports(row, reports).cum_in) >= figure::exact(row.cum_in),
        figure::exact(after_reports(row, reports).cum_out) >= figure::exact(row.cum_out),
    decreases reports.len(),
{
    if reports.len() > 0 {
        law_account_never_falls(row, reports.drop_last());
        law_account_of_one_report(after_reports(row, reports.drop_last()), reports.last());
    }
}

/// Whether the machine stays up, and no counter falls from one report to the next.
pub open spec fn steady<S>(row: db::ServerRow<S, u64>, reports: Seq<Report<S, u64>>) -> bool
    decreases reports.len(),
{
    reports.len() == 0 || {
        let before = after_reports(row, reports.drop_last());
        &&& steady(row, reports.drop_last())
        &&& reports.last().payload.uptime >= before.uptime
        &&& reports.last().payload.traffic_in >= figure::exact(before.last_raw_in)
        &&& reports.last().payload.traffic_out >= figure::exact(before.last_raw_out)
    }
}

/// While a machine stays up and its counters do not fall, the account grows by exactly what the counters do, however the
/// reports are spaced.
pub proof fn law_account_follows_counters<S>(
    row: db::ServerRow<S, u64>,
    reports: Seq<Report<S, u64>>,
)
    requires
        all_truthful(row, reports),
        steady(row, reports),
    ensures
        ({
            let after = after_reports(row, reports);
            &&& figure::exact(after.cum_in) - figure::exact(row.cum_in) == figure::exact(
                after.last_raw_in,
            ) - figure::exact(row.last_raw_in)
            &&& figure::exact(after.cum_out) - figure::exact(row.cum_out) == figure::exact(
                after.last_raw_out,
            ) - figure::exact(row.last_raw_out)
        }),
    decreases reports.len(),
{
    if reports.len() > 0 {
        law_account_follows_counters(row, reports.drop_last());
        law_account_of_one_report(after_reports(row, reports.drop_last()), reports.last());
    }
}

/// Whether figures are ordered as numbers are: `finite` tells which are numbers, and `below` which
/// come to no more than others. Rounding is allowed, as in floating point: adding what is not
/// negative never makes less, and adding nothing changes nothing.
pub open spec fn numeric<D>(
    finite: spec_fn(figure::Figure<D>) -> bool,
    below: spec_fn(figure::Figure<D>, figure::Figure<D>) -> bool,
) -> bool {
    let zero = figure::Figure::<D>::Count(0);
    &&& below(zero, zero)
    &&& forall|x: figure::Figure<D>, y: figure::Figure<D>|
        finite(x) && below(zero, y) ==> #[trigger] below(
            x,
            figure::Figure::Sum(Box::new(x), Box::new(y)),
        )
    &&& forall|x: figure::Figure<D>, y: figure::Figure<D>|
        finite(x) && finite(y) && below(y, x) ==> #[trigger] below(
            zero,
            figure::Figure::Difference(Box::new(x), Box::new(y)),
        )
    &&& forall|x: figure::Figure<D>|
        finite(x) ==> #[trigger] below(figure::Figure::Sum(Box::new(x), Box::new(zero)), x)
}

/// Whole numbers, exactly worked out, are ordered as numbers are.
pub proof fn law_whole_numbers_are_numeric()
    ensures
        numeric(
            |f: figure::Figure<u64>| true,
            |a: figure::Figure<u64>, b: figure::Figure<u64>| figure::exact(a) <= figure::exact(b),
        ),
{
    reveal_with_fuel(figure::exact, 3);
}

/// Whatever the arithmetic, rounded or not, no report makes a traffic account fall, and a counter
/// that has fallen without a reboot leaves it where it was.
pub proof fn law_no_report_lowers_an_account<S, D>(
    finite: spec_fn(figure::Figure<D>) -> bool,
    below: spec_fn(figure::Figure<D>, figure::Figure<D>) -> bool,
    row: db::ServerRow<S, D>,
    report: Report<S, D>,
)
    requires
        numeric(finite, below),
        finite(row.cum_in),
        finite(row.cum_out),
        finite(row.last_raw_in),
        finite(row.last_raw_out),
        finite(figure::Figure::Measured(report.payload.traffic_in)),
        finite(figure::Figure::Measured(report.payload.traffic_out)),
        below(figure::Figure::Count(0), figure::Figure::Measured(report.payload.traffic_in)),
        below(figure::Figure::Count(0), figure::Figure::Measured(report.payload.traffic_out)),
        report.facts.in_not_below == below(
            row.last_raw_in,
            figure::Figure::Measured(report.payload.traffic_in),
        ),
        report.facts.out_not_below == below(
            row.last_raw_out,
            figure::Figure::Measured(report.payload.traffic_out),
        ),
    ensures
        ({
            let after = db::reported_row(Some(row), report.payload, report.facts, report.now);
            let stayed_up = report.payload.uptime >= row.uptime;
            &&& below(row.cum_in, after.cum_in)
            &&& below(row.cum_out, after.cum_out)
            &&& stayed_up && !report.facts.in_not_below ==> below(after.cum_in, row.cum_in)
            &&& stayed_up && !report.facts.out_not_below ==> below(after.cum_out, row.cum_out)
        }),
{
}

/// A counter as a report shows it: that of the traffic in, or that of the traffic out.
pub open spec fn counter_shown<S>(report: Report<S, u64>, inbound: bool) -> int {
    if inbound {
        report.payload.traffic_in as int
    } else {
        report.payload.traffic_out as int
    }
}

/// A counter as it was last reported.
pub open spec fn counter_stored<S>(row: db::ServerRow<S, u64>, inbound: bool) -> int {
    if inbound {
        figure::exact(row.last_raw_in)
    } else {
        figure::exact(row.last_raw_out)
    }
}

/// A traffic account.
pub open spec fn account<S>(row: db::ServerRow<S, u64>, inbound: bool) -> int {
    if inbound {
        figure::exact(row.cum_in)
    } else {
        figure::exact(row.cum_out)
    }
}

/// What a machine has carried between two reports, as far as its counter tells: since a reboot
/// all that the counter shows, else what it has gained. A fall without a reboot tells nothing.
pub open spec fn carried_since(rebooted: bool, shown: int, stored: int) -> int {
    if rebooted {
        shown
    } else if shown >= stored {
        shown - stored
    } else {
        0
    }
}

/// What a machine has carried over a number of reports.
pub open spec fn carried<S>(
    row: db::ServerRow<S, u64>,
    reports: Seq<Report<S, u64>>,
    inbound: bool,
) -> int
    decreases reports.len(),
{
    if reports.len() == 0 {
        0
    } else {
        let before = after_reports(row, reports.drop_last());
        carried(row, reports.drop_last(), inbound) + carried_since(
            reports.last().payload.uptime < before.uptime,
            counter_shown(reports.last(), inbound),
            counter_stored(before, inbound),
        )
    }
}

/// Reboots lose no traffic: however often a machine reboots between its reports, its account
/// grows by exactly what it has carried.
pub proof fn law_reboots_lose_nothing<S>(
    row: db::ServerRow<S, u64>,
    reports: Seq<Report<S, u64>>,
    inbound: bool,
)
    requires
        all_truthful(row, reports),
    ensures
        account(after_reports(row, reports), inbound) == account(row, inbound) + carried(
            row,
            reports,
            inbound,
        ),
    decreases reports.len(),
{
    if reports.len() > 0 {
        law_reboots_lose_nothing(row, reports.drop_last(), inbound);
        law_account_of_one_report(after_reports(row, reports.drop_last()), reports.last());
    }
}

/// A report is stored only after its id was found acceptable and its secret to be the token of a
/// registered machine.
pub proof fn law_only_registered_machines_report<S, D>(
    payload: ReportPayload<S, D>,
    found: reply::DbResult<Option<String>>,
    first: api::ReportAction<S, D>,
    second: api::ReportAction<S, D>,
)
    requires
        api::report_step(payload, api::ReportEvent::Received, first),
        api::report_step(payload, api::ReportEvent::TokenLookedUp(found), second),
    ensures
        first is LookUpToken && second is Store <==> db::id_shape(payload.id@) && (
        found matches Ok(Some(token)) && token@ == payload.secret@),
        first is LookUpToken && found == Ok::<Option<String>, reply::DbFailure>(None)
            ==> second.responds(api::unknown_agent()),
{
}

/// A machine can report as soon as it is registered, with the token it was issued.
pub proof fn law_registered_machine_can_report<S, D>(
    id: Seq<char>,
    name: Seq<char>,
    token: String,
    now: Moment,
    payload: ReportPayload<S, D>,
    action: api::ReportAction<S, D>,
)
    requires
        db::registered_row::<S, D>(id, name, token@, now).token == Some(payload.secret@),
        api::report_step(payload, api::ReportEvent::TokenLookedUp(Ok(Some(token))), action),
    ensures
        action is Store,
{
}

/// Once a machine has a new token, reports with the old one are refused.
pub proof fn law_replaced_token_is_refused<S, D>(
    row: db::ServerRow<S, D>,
    replaced: db::ServerRow<S, D>,
    token: String,
    payload: ReportPayload<S, D>,
    action: api::ReportAction<S, D>,
)
    requires
        replaced == db::row_with_token(row, token@),
        row.token == Some(payload.secret@),
        row.token != replaced.token,
        api::report_step(payload, api::ReportEvent::TokenLookedUp(Ok(Some(token))), action),
    ensures
        action.responds((reply::UNAUTHORIZED, "invalid secret"@)),
{
}

/// An id is registered once: where it has a token, nothing is created.
pub proof fn law_ids_are_registered_once(
    payload: agents::CreateAgent,
    token: String,
    action: agents::CreateAction,
)
    requires
        agents::create_step(payload, agents::CreateEvent::TokenLookedUp(Ok(Some(token))), action),
    ensures
        action.responds((reply::CONFLICT, "這個 id 已經存在了"@)),
{
}

/// A machine is registered under an id that reports are accepted under.
pub proof fn law_registered_ids_are_acceptable<S, D>(
    payload: agents::CreateAgent,
    first: agents::CreateAction,
    created: agents::CreateAction,
    report: ReportPayload<S, D>,
    answer: api::ReportAction<S, D>,
)
    requires
        agents::create_step(payload, agents::CreateEvent::Received, first),
        first is LookUpToken,
        agents::create_step(payload, agents::CreateEvent::TokenLookedUp(Ok(None)), created),
        created matches agents::CreateAction::Create { id, .. } && id@ == report.id@,
        api::report_step(report, api::ReportEvent::Received, answer),
    ensures
        answer is LookUpToken,
{
}

/// After start-up no machine is without a token: whichever had none is issued one.
pub proof fn law_every_machine_has_a_token(machines: Seq<(String, Option<String>)>, i: int)
    requires
        0 <= i < machines.len(),
        db::lacks_token(text::text_view(machines[i].1)),
    ensures
        db::ids_without_token(machines).contains(machines[i].0@),
    decreases machines.len(),
{
    let front = machines.drop_last();
    let ids = db::ids_without_token(machines);
    if i < front.len() {
        law_every_machine_has_a_token(front, i);
        let before = db::ids_without_token(front);
        let k = choose|k: int| 0 <= k < before.len() && before[k] == front[i].0@;
        assert(ids[k] == machines[i].0@);
    } else {
        assert(ids[ids.len() - 1] == machines[i].0@);
    }
}

/// Start-up leaves a machine that has a token alone: every id issued a token lacked one.
pub proof fn law_tokens_are_not_taken_away(machines: Seq<(String, Option<String>)>, k: int)
    requires
        0 <= k < db::ids_without_token(machines).len(),
    ensures
        exists|i: int|
            #![trigger machines[i]]
            0 <= i < machines.len() && machines[i].0@ == db::ids_without_token(machines)[k]
                && db::lacks_token(text::text_view(machines[i].1)),
    decreases machines.len(),
{
    let front = machines.drop_last();
    let before = db::ids_without_token(front);
    if k < before.len() {
        law_tokens_are_not_taken_away(front, k);
        let i = choose|i: int|
            #![trigger front[i]]
            0 <= i < front.len() && front[i].0@ == before[k] && db::lacks_token(
                text::text_view(front[i].1),
            );
        assert(machines[i] == front[i]);
    } else {
        assert(machines[machines.len() - 1] == machines.last());
    }
}

/// Every operation on a stored machine keeps its reset day a day of the month or 0, and its last
/// report at an instant of the calendar.
pub proof fn law_machines_stay_well_formed<S, D>(
    row: db::ServerRow<S, D>,
    name: Seq<char>,
    limit: D,
    percent: D,
    reset_day: i64,
    token: Seq<char>,
    reports: Seq<Report<S, D>>,
    now: Moment,
)
    requires
        row.wf(),
        now.wf(),
        forall|i: int| 0 <= i < reports.len() ==> (#[trigger] reports[i]).now.wf(),
    ensures
        db::reset_row(row, now).wf(),
        db::renamed_row(row, name).wf(),
        db::limited_row(row, limit, percent, reset_day).wf(),
        db::row_with_token(row, token).wf(),
        after_reports(row, reports).wf(),
        db::registered_row::<S, D>(row.id, name, token, now).wf(),
    decreases reports.len(),
{
    if reports.len() > 0 {
        law_machines_stay_well_formed(
            row,
            name,
            limit,
            percent,
            reset_day,
            token,
            reports.drop_last(),
            now,
        );
        assert(reports[reports.len() - 1].now.wf());
    }
}

// The monthly reset

/// The year and the month of an instant.
pub open spec fn calendar_month(m: Moment) -> (int, int) {
    let date = moment::civil_date(m.secs as int / SECS_PER_DAY as int);
    (date.0, date.1)
}

/// A reset, whether by hand or by itself, is the only one of its month: no automatic reset
/// follows it in the same month.
pub proof fn law_one_reset_a_month<S, D>(row: db::ServerRow<S, D>, reset_at: Moment, later: Moment)
    requires
        calendar_month(reset_at) == calendar_month(later),
    ensures
        !db::reset_due(db::reset_row(row, reset_at), later),
{
}

/// Running the automatic reset again in the same month resets none of the machines that the
/// first run reset.
pub proof fn law_automatic_reset_runs_once<S, D>(
    rows: Seq<db::ServerRow<S, D>>,
    i: int,
    first: Moment,
    second: Moment,
)
    requires
        0 <= i < rows.len(),
        db::reset_due(rows[i], first),
        calendar_month(first) == calendar_month(second),
    ensures
        db::auto_reset_rows(rows, first)[i] == db::reset_row(rows[i], first),
        db::auto_reset_rows(db::auto_reset_rows(rows, first), second)[i] == db::auto_reset_rows(
            rows,
            first,
        )[i],
{
}

proof fn lemma_due_names<S, D>(rows: Seq<db::ServerRow<S, D>>, now: Moment, k: int)
    requires
        0 <= k < db::due_names(rows, now).len(),
    ensures
        exists|j: int|
            #![trigger rows[j]]
            0 <= j < rows.len() && db::reset_due(rows[j], now) && rows[j].id == db::due_names(
                rows,
                now,
            )[k].0,
    decreases rows.len(),
{
    let front = rows.drop_last();
    let before = db::due_names(front, now);
    if k < before.len() {
        lemma_due_names(front, now, k);
        let j = choose|j: int|
            #![trigger front[j]]
            0 <= j < front.len() && db::reset_due(front[j], now) && front[j].id == before[k].0;
        assert(rows[j] == front[j]);
    } else {
        assert(rows[rows.len() - 1] == rows.last());
    }
}

/// Once a machine has been reset in a month, by hand or by itself, the automatic reset neither
/// lists nor changes it in the same month, however often it has reported in between.
pub proof fn law_no_second_reset_in_a_month<S, D>(
    row: db::ServerRow<S, D>,
    reset_at: Moment,
    reports: Seq<Report<S, D>>,
    rows: Seq<db::ServerRow<S, D>>,
    i: int,
    later: Moment,
)
    requires
        0 <= i < rows.len(),
        rows[i] == after_reports(db::reset_row(row, reset_at), reports),
        forall|j: int| 0 <= j < rows.len() && j != i ==> (#[trigger] rows[j]).id != rows[i].id,
        calendar_month(reset_at) == calendar_month(later),
    ensures
        db::auto_reset_rows(rows, later)[i] == rows[i],
        forall|k: int|
            0 <= k < db::due_names(rows, later).len() ==> (#[trigger] db::due_names(
                rows,
                later,
            )[k]).0 != rows[i].id,
{
    law_reports_leave_decisions_alone(db::reset_row(row, reset_at), reports);
    assert(!db::reset_due(rows[i], later));
    assert forall|k: int| 0 <= k < db::due_names(rows, later).len() implies (
    #[trigger] db::due_names(rows, later)[k]).0 != rows[i].id by {
        lemma_due_names(rows, later, k);
    }
}

/// A reset in one month does not stand in the way of the next month's: on the last day of every
/// month, at the latest, a machine with a reset day is due unless it was reset that month. So a
/// reset day that a month does not have, or that passed while nothing ran, is not missed.
pub proof fn law_no_month_is_missed<S, D>(
    row: db::ServerRow<S, D>,
    reset_at: Moment,
    later: Moment,
)
    requires
        row.traffic_reset_day > 0,
        calendar_month(reset_at) != calendar_month(later),
        db::day_of(later) == db::length_of_month(later),
    ensures
        db::reset_due(db::reset_row(row, reset_at), later),
        row.last_auto_reset_ym is None ==> db::reset_due(row, later),
{
    let a = calendar_month(reset_at);
    let b = calendar_month(later);
    moment::law_every_day_has_a_date(reset_at.secs as int / SECS_PER_DAY as int);
    moment::law_every_day_has_a_date(later.secs as int / SECS_PER_DAY as int);
    if moment::month_of(reset_at) == moment::month_of(later) {
        moment::law_month_labels_differ(a.0, a.1, b.0, b.1);
    }
}

/// A machine that is due stays due for the rest of the month, until it is reset.
pub proof fn law_due_until_reset<S, D>(row: db::ServerRow<S, D>, now: Moment, later: Moment)
    requires
        db::reset_due(row, now),
        calendar_month(now) == calendar_month(later),
        db::day_of(now) <= db::day_of(later),
    ensures
        db::reset_due(row, later),
{
}

/// Before its day, a machine with a reset day is not due; from its day on it is, unless it
/// was reset that month. In a month that is too short, the last day takes the place of its day.
pub proof fn law_due_from_its_day<S, D>(row: db::ServerRow<S, D>, now: Moment)
    requires
        row.traffic_reset_day > 0,
        row.last_auto_reset_ym != Some(moment::month_of(now)),
    ensures
        db::reset_due(row, now) <==> (db::day_of(now) >= row.traffic_reset_day || db::day_of(now)
            == db::length_of_month(now)),
{
    moment::law_every_day_has_a_date(now.secs as int / SECS_PER_DAY as int);
}

/// A machine without a reset day is never due.
pub proof fn law_no_reset_day_no_reset<S, D>(row: db::ServerRow<S, D>, now: Moment)
    requires
        row.traffic_reset_day == 0,
    ensures
        !db::reset_due(row, now),
{
}

// The administrator's account

/// Once there is an account, a request to make one is refused.
pub proof fn law_account_is_made_once(
    payload: Credentials,
    cookie_secure: bool,
    action: auth::SetupAction,
)
    requires
        auth::setup_step(
            payload,
            cookie_secure,
            auth::SetupEvent::AdminChecked(Ok(true)),
            action,
        ),
    ensures
        action.responds((reply::FORBIDDEN, "管理員帳號已經建立過了"@)),
{
}

/// Whether `account` is the one that a request to make the account asks for.
pub open spec fn makes_account(
    payload: Credentials,
    cookie_secure: bool,
    action: auth::SetupAction,
    account: AdminAccount,
) -> bool {
    &&& auth::setup_step(
        payload,
        cookie_secure,
        auth::SetupEvent::AdminChecked(Ok(false)),
        action,
    )
    &&& action matches auth::SetupAction::CreateAdmin { username, password_hash }
        && account.username@ == username@ && account.password_hash@ == password_hash@
}

/// Whether `account` has the password that a request to change it asks for.
pub open spec fn changes_password(
    payload: auth::ChangePassword,
    former: AdminAccount,
    action: auth::PasswordAction,
    account: AdminAccount,
) -> bool {
    &&& auth::password_step(payload, auth::PasswordEvent::AdminLoaded(Ok(Some(former))), action)
    &&& action matches auth::PasswordAction::UpdatePassword(hash) && account.username@
        == former.username@ && account.password_hash@ == hash@
}

/// Whether a text holds only characters that may stand in a hash.
pub open spec fn hash_chars(s: Seq<char>) -> bool {
    forall|i: int|
        0 <= i < s.len() ==> {
            let c = #[trigger] s[i];
            auth::b64_char(c) || c == '$' || c == '=' || c == ','
        }
}

proof fn lemma_hash_chars_of_parameters(parameters: Seq<(Seq<char>, Seq<char>)>)
    requires
        forall|i: int|
            0 <= i < parameters.len() ==> auth::hash_parameter(
                (#[trigger] parameters[i]).0,
                parameters[i].1,
            ),
    ensures
        hash_chars(auth::listed_parameters(parameters)),
    decreases parameters.len(),
{
    if parameters.len() > 0 {
        let front = parameters.drop_last();
        assert forall|i: int| 0 <= i < front.len() implies auth::hash_parameter(
            (#[trigger] front[i]).0,
            front[i].1,
        ) by {
            assert(front[i] == parameters[i]);
        }
        lemma_hash_chars_of_parameters(front);
        assert(parameters[parameters.len() - 1] == parameters.last());
        let (name, value) = parameters.last();
        reveal_strlit("m");
        reveal_strlit("t");
        reveal_strlit("p");
        reveal_strlit("keyid");
        reveal_strlit("data");
        reveal_strlit(",");
        reveal_strlit("=");
        assert(hash_chars(name));
        assert(hash_chars(value));
    }
}

proof fn lemma_hash_chars_joined(a: Seq<char>, b: Seq<char>)
    requires
        hash_chars(a),
        hash_chars(b),
    ensures
        hash_chars(a + b),
{
}

proof fn lemma_hash_name(parts: auth::HashParts)
    requires
        parts.wf(),
    ensures
        "$argon2d$"@.is_prefix_of(parts.text()) || "$argon2i$"@.is_prefix_of(parts.text())
            || "$argon2id$"@.is_prefix_of(parts.text()),
        parts.text().len() >= 35,
{
    reveal_strlit("$");
    reveal_strlit("argon2d");
    reveal_strlit("argon2i");
    reveal_strlit("argon2id");
    reveal_strlit("$v=16");
    reveal_strlit("$v=19");
    reveal_strlit("$argon2d$");
    reveal_strlit("$argon2i$");
    reveal_strlit("$argon2id$");
    let parameters = if parts.parameters.len() == 0 {
        seq![]
    } else {
        "$"@ + auth::listed_parameters(parts.parameters)
    };
    let rest = parts.version + parameters + "$"@ + parts.salt + "$"@ + parts.output;
    assert(parts.text() =~= "$"@ + parts.form + rest);
    assert(rest[0] == '$');
    let name = "$"@ + parts.form + "$"@;
    assert(name.is_prefix_of(parts.text()));
    assert(name =~= "$argon2d$"@ || name =~= "$argon2i$"@ || name =~= "$argon2id$"@);
}

proof fn lemma_hash_text_chars(parts: auth::HashParts)
    requires
        parts.wf(),
    ensures
        hash_chars(parts.text()),
{
    reveal_strlit("$");
    reveal_strlit("argon2d");
    reveal_strlit("argon2i");
    reveal_strlit("argon2id");
    reveal_strlit("$v=16");
    reveal_strlit("$v=19");
    lemma_hash_chars_of_parameters(parts.parameters);
    let listed = auth::listed_parameters(parts.parameters);
    lemma_hash_chars_joined("$"@, listed);
    let parameters = if parts.parameters.len() == 0 {
        seq![]
    } else {
        "$"@ + listed
    };
    let start = "$"@ + parts.form;
    lemma_hash_chars_joined("$"@, parts.form);
    lemma_hash_chars_joined(start, parts.version);
    lemma_hash_chars_joined(start + parts.version, parameters);
    let head = start + parts.version + parameters;
    lemma_hash_chars_joined(head, "$"@);
    lemma_hash_chars_joined(head + "$"@, parts.salt);
    lemma_hash_chars_joined(head + "$"@ + parts.salt, "$"@);
    lemma_hash_chars_joined(head + "$"@ + parts.salt + "$"@, parts.output);
}

/// A hash starts with the name of a form of Argon2 between `$` signs, has at least thirty-five
/// characters, and holds only those of its notation. So an empty text, a name alone or a password
/// in clear is no hash.
pub proof fn law_hashes_have_their_notation(s: Seq<char>)
    requires
        auth::well_formed_hash(s),
    ensures
        "$argon2d$"@.is_prefix_of(s) || "$argon2i$"@.is_prefix_of(s) || "$argon2id$"@.is_prefix_of(
            s,
        ),
        s.len() >= 35,
        hash_chars(s),
{
    let parts = choose|parts: auth::HashParts| #[trigger] parts.wf() && s == parts.text();
    lemma_hash_name(parts);
    lemma_hash_text_chars(parts);
}

/// A login is granted a session exactly where its name and password are the account's. Any other
/// counts as a failure and is refused.
pub proof fn law_only_the_password_opens_a_session(
    payload: Credentials,
    account: AdminAccount,
    cookie_secure: bool,
    compared: auth::LoginAction,
    before: LoginGuardState,
    after: LoginGuardState,
    now: u64,
    matched: bool,
    action: auth::LoginAction,
)
    requires
        auth::login_step(
            payload,
            cookie_secure,
            auth::LoginEvent::AdminLoaded(Ok(Some(account))),
            compared,
        ),
        compared == auth::LoginAction::Settle(matched),
        auth::login_judged_step(before, after, now, matched, action),
    ensures
        action is CreateSession <==> auth::credentials_match(payload, account),
        auth::credentials_match(payload, account) ==> after == auth::fresh_guard(),
        !auth::credentials_match(payload, account) ==> after == auth::failed_guard(before, now)
            && action.responds((reply::UNAUTHORIZED, "帳號或密碼錯誤"@)),
{
}

/// A request for an account is granted exactly where its name is not blank and its password has
/// eight characters or more, and is not too long to be hashed.
pub proof fn law_acceptable_accounts_are_made(
    payload: Credentials,
    cookie_secure: bool,
    action: auth::SetupAction,
)
    requires
        auth::setup_step(
            payload,
            cookie_secure,
            auth::SetupEvent::AdminChecked(Ok(false)),
            action,
        ),
    ensures
        action is CreateAdmin <==> auth::acceptable(payload) && auth::hashable(payload.password@),
        !(action is CreateAdmin) ==> action is Respond,
{
}

/// Whoever made the account can log in to it, under the name given without white space at its
/// ends.
pub proof fn law_account_can_be_logged_in_to(
    payload: Credentials,
    cookie_secure: bool,
    action: auth::SetupAction,
    account: AdminAccount,
    attempt: Credentials,
)
    requires
        makes_account(payload, cookie_secure, action, account),
        attempt.username@ == text::trimmed(payload.username@),
        attempt.password@ == payload.password@,
    ensures
        auth::credentials_match(attempt, account),
        text::trimmed(payload.username@) == payload.username@ ==> auth::credentials_match(
            payload,
            account,
        ),
{
}

/// Whether a password is right for an account exactly where it has the same hash as the given
/// one, under some new salt.
pub open spec fn opened_by(account: AdminAccount, password: Seq<char>) -> bool {
    exists|salt: Seq<char>| #[trigger]
        auth::salt_shape(salt) && forall|attempt: Credentials| #[trigger]
            auth::credentials_match(attempt, account) == (attempt.username@ == account.username@
                && auth::argon2_hash(attempt.password@, salt) == auth::argon2_hash(password, salt))
}

proof fn lemma_opened_by(account: AdminAccount, password: Seq<char>)
    requires
        auth::newly_hashed(password, Some(account.password_hash@)),
    ensures
        opened_by(account, password),
{
    let hash = account.password_hash@;
    let salt = choose|salt: Seq<char>|
        auth::salt_shape(salt) && #[trigger] auth::argon2_hash(password, salt) == Some(hash)
            && auth::settles(salt, hash);
    assert(auth::salt_shape(salt));
    assert forall|attempt: Credentials| #[trigger]
        auth::credentials_match(attempt, account) == (attempt.username@ == account.username@
            && auth::argon2_hash(attempt.password@, salt) == auth::argon2_hash(password, salt)) by {
        assert(auth::argon2_verifies(attempt.password@, hash) == (auth::argon2_hash(
            attempt.password@,
            salt,
        ) == Some(hash)));
    }
}

/// Nobody else can log in to an account that was made: another password is refused, unless it has
/// the very same hash under the account's salt.
pub proof fn law_other_passwords_are_refused(
    payload: Credentials,
    cookie_secure: bool,
    action: auth::SetupAction,
    account: AdminAccount,
)
    requires
        makes_account(payload, cookie_secure, action, account),
    ensures
        opened_by(account, payload.password@),
{
    lemma_opened_by(account, payload.password@);
}

/// After a change of password the new one is the account's, and another is refused unless it has
/// the very same hash under the account's new salt.
pub proof fn law_changed_password_is_the_accounts(
    payload: auth::ChangePassword,
    former: AdminAccount,
    action: auth::PasswordAction,
    account: AdminAccount,
    attempt: Credentials,
)
    requires
        changes_password(payload, former, action, account),
        attempt.username@ == account.username@,
        attempt.password@ == payload.new_password@,
    ensures
        auth::credentials_match(attempt, account),
        opened_by(account, payload.new_password@),
{
    lemma_opened_by(account, payload.new_password@);
}

/// A password is changed exactly where the current one was given and the new one has at least
/// eight characters, and is not too long to be hashed.
pub proof fn law_password_change_needs_the_current_one(
    payload: auth::ChangePassword,
    account: AdminAccount,
    action: auth::PasswordAction,
)
    requires
        auth::password_step(
            payload,
            auth::PasswordEvent::AdminLoaded(Ok(Some(account))),
            action,
        ),
    ensures
        action is UpdatePassword <==> auth::password_matches(
            payload.current_password@,
            account.password_hash@,
        ) && payload.new_password@.len() >= auth::MIN_PASSWORD_CHARS && auth::hashable(
            payload.new_password@,
        ),
        !(action is UpdatePassword) ==> action is Respond,
{
}

/// The guard after logins have failed at the given times.
pub open spec fn guard_after(guard: LoginGuardState, failures: Seq<u64>) -> LoginGuardState
    decreases failures.len(),
{
    if failures.len() == 0 {
        guard
    } else {
        auth::failed_guard(guard_after(guard, failures.drop_last()), failures.last())
    }
}

proof fn lemma_failures_count(failures: Seq<u64>)
    requires
        failures.len() < auth::MAX_FAILURES,
    ensures
        guard_after(auth::fresh_guard(), failures) == (LoginGuardState {
            failures: failures.len() as u32,
            locked_until: None,
        }),
    decreases failures.len(),
{
    if failures.len() > 0 {
        lemma_failures_count(failures.drop_last());
    }
}

/// Fewer than five failures in a row lock nothing.
pub proof fn law_few_failures_do_not_lock(failures: Seq<u64>, now: u64)
    requires
        failures.len() < auth::MAX_FAILURES,
    ensures
        guard_after(auth::fresh_guard(), failures).lock_left(now) is None,
{
    lemma_failures_count(failures);
}

/// What a failure does to a guard in any state that it can be in: it counts, and changes no lock,
/// unless it is the fifth, which locks for five minutes and starts the count anew.
pub proof fn law_every_fifth_failure_locks(guard: LoginGuardState, now: u64)
    requires
        guard.wf(),
    ensures
        auth::failed_guard(guard, now).wf(),
        guard.failures < 4 ==> auth::failed_guard(guard, now).failures == guard.failures + 1
            && auth::failed_guard(guard, now).locked_until == guard.locked_until,
        guard.failures == 4 ==> auth::failed_guard(guard, now).failures == 0 && (
        auth::failed_guard(guard, now).locked_until matches Some(until) && until == now
            + 300_000_000_000),
{
}

/// The fifth failure in a row locks logins for the five minutes after it, and for no longer.
pub proof fn law_five_failures_lock(failures: Seq<u64>, now: u64)
    requires
        failures.len() == auth::MAX_FAILURES,
    ensures
        guard_after(auth::fresh_guard(), failures).lock_left(now) is Some <==> now
            < failures.last() + auth::LOCKOUT,
        now >= failures.last() ==> (guard_after(auth::fresh_guard(), failures).lock_left(
            now,
        ) matches Some(secs) ==> secs <= 300),
{
    lemma_failures_count(failures.drop_last());
}

/// While logins are locked, a login is turned away: the account is not looked up and nothing is
/// compared.
pub proof fn law_locked_logins_are_turned_away(
    payload: Credentials,
    guard: LoginGuardState,
    now: u64,
    cookie_secure: bool,
    action: auth::LoginAction,
)
    requires
        auth::login_step(
            payload,
            cookie_secure,
            auth::LoginEvent::Received(guard.lock_left(now)),
            action,
        ),
    ensures
        guard.lock_left(now) is Some ==> (action matches auth::LoginAction::Respond(r) && r.status
            == reply::TOO_MANY_REQUESTS),
        guard.lock_left(now) is None ==> action is LoadAdmin,
{
}

/// A login that succeeds clears the guard: whatever failed before counts no more, so that four
/// failures after it lock nothing and the fifth locks.
pub proof fn law_success_clears_the_guard(
    before: LoginGuardState,
    after: LoginGuardState,
    now: u64,
    action: auth::LoginAction,
    failures: Seq<u64>,
    later: u64,
)
    requires
        auth::login_judged_step(before, after, now, true, action),
    ensures
        after == auth::fresh_guard(),
        after.lock_left(later) is None,
        failures.len() < auth::MAX_FAILURES ==> guard_after(after, failures).lock_left(
            later,
        ) is None,
        failures.len() == auth::MAX_FAILURES ==> (guard_after(after, failures).lock_left(
            later,
        ) is Some <==> later < failures.last() + auth::LOCKOUT),
{
    if failures.len() < auth::MAX_FAILURES {
        law_few_failures_do_not_lock(failures, later);
    }
    if failures.len() == auth::MAX_FAILURES {
        law_five_failures_lock(failures, later);
    }
}

/// A session is valid for the thirty days after its start, and not afterwards, leap seconds
/// aside.
pub proof fn law_session_lasts_thirty_days(session: Session, start: Moment, now: Moment)
    requires
        start.wf(),
        start.ordinary(),
        start.secs + db::SESSION_TTL_DAYS * SECS_PER_DAY <= moment::MAX_SECS,
        moment::moment_named(session.expires_at@) == Some(db::session_end(start)),
        now.ordinary(),
    ensures
        db::session_state(db::session_end_found(Some(session.expires_at@)), now) == (if (now.secs
            - start.secs) * moment::NANOS_PER_SEC + now.nanos - start.nanos <= 30 * SECS_PER_DAY
            * moment::NANOS_PER_SEC {
            db::SessionState::Live
        } else {
            db::SessionState::Ended
        }),
{
}

/// A request that needs an administrator goes through only with the cookie of a live session.
pub proof fn law_only_live_sessions_are_admitted(event: auth::GateEvent, action: auth::GateAction)
    requires
        auth::gate_step(event, action),
    ensures
        action is Admit <==> event == auth::GateEvent::SessionChecked(
            Ok(db::SessionState::Live),
        ),
{
}

// What is shown

/// What everybody may see of a machine tells nothing of its token, nor of the month of its last
/// reset.
pub proof fn law_public_page_hides_tokens<S, D>(
    row: db::ServerRow<S, D>,
    token: Option<Seq<char>>,
    month: Option<Seq<char>>,
    now: Moment,
)
    ensures
        api::public_row(
            (db::ServerRow { token, last_auto_reset_ym: month, ..row }),
            now,
        ) == api::public_row(row, now),
{
}

/// A machine is shown as online for the ninety seconds after its last report, leap seconds aside.
pub proof fn law_online_for_ninety_seconds(now: Moment, last_seen: Moment)
    requires
        now.ordinary(),
        last_seen.ordinary(),
    ensures
        api::online(now, last_seen) <==> (now.secs - last_seen.secs) * moment::NANOS_PER_SEC
            + now.nanos - last_seen.nanos < 90 * moment::NANOS_PER_SEC,
{
}

/// Saving the settings page without touching the token keeps the token: what the page was shown
/// in its place, sent back, stands for it.
pub proof fn law_shown_token_saves_as_itself(token: Seq<char>)
    ensures
        api::kept_token(token, api::masked(token)) == token,
{
    if encode_utf8(token).len() > 8 {
        let head = decode_utf8(encode_utf8(token).subrange(0, 4));
        let shown = head + api::mask();
        assert(shown.skip(shown.len() - api::mask().len()) =~= api::mask());
    }
}

/// Of a token longer than eight bytes, what is shown depends on the first four bytes alone.
pub proof fn law_mask_hides_the_rest(a: Seq<char>, b: Seq<char>)
    requires
        encode_utf8(a).len() > 8,
        encode_utf8(b).len() > 8,
        encode_utf8(a).subrange(0, 4) == encode_utf8(b).subrange(0, 4),
    ensures
        api::masked(a) == api::masked(b),
{
}

proof fn lemma_ascii_boundary(s: Seq<char>, k: int)
    requires
        is_ascii_chars(s),
        0 <= k <= s.len(),
    ensures
        is_char_boundary(encode_utf8(s), k),
    decreases k,
{
    encode_utf8_valid_utf8(s);
    is_ascii_chars_encode_utf8(s);
    if k > 0 {
        let rest = s.drop_first();
        assert(is_ascii_chars(rest)) by {
            assert forall|i: int| 0 <= i < rest.len() implies '\0' <= #[trigger] rest[i]
                <= '\u{7f}' by {
                assert(rest[i] == s[i + 1]);
            }
        }
        lemma_ascii_boundary(rest, k - 1);
        encode_utf8_first_scalar(s);
        assert(pop_first_scalar(encode_utf8(s)) =~= encode_utf8(rest));
    }
}

/// Of an ASCII token longer than eight characters, the first four are shown.
pub proof fn law_mask_of_ascii(token: Seq<char>)
    requires
        is_ascii_chars(token),
        token.len() > 8,
    ensures
        api::maskable(token),
        api::masked(token) == token.take(4) + api::mask(),
{
    is_ascii_chars_encode_utf8(token);
    let head = token.take(4);
    assert(is_ascii_chars(head));
    is_ascii_chars_encode_utf8(head);
    assert(encode_utf8(token).subrange(0, 4) =~= encode_utf8(head));
    encode_utf8_decode_utf8(head);
    lemma_ascii_boundary(token, 4);
}

// Alerts

/// The answer to a request for a test alert is good exactly where every message was taken.
pub proof fn law_test_answer_is_true<S, D>(
    now: Moment,
    sent: Seq<(notify::Delivery, notify::Outcome)>,
    result: Result<(), String>,
    action: api::TestAction<S, D>,
)
    requires
        result is Ok <==> notify::all_taken(sent),
        api::test_step(now, api::TestEvent::Sent(result), action),
    ensures
        action matches api::TestAction::Respond(r) && (r.status == reply::OK
            <==> notify::all_taken(sent)),
{
}

/// With both channels off nothing is sent, and an alert never goes out more than once a channel.
pub proof fn law_channels<S, D>(settings: notify::NotifyModel<S>, alert: notify::Alert<D>)
    ensures
        !settings.telegram_enabled && !settings.webhook_enabled ==> notify::messages(
            settings,
            alert,
        ).len() == 0,
        notify::messages(settings, alert).len() == (if notify::telegram_ready(settings) {
            1int
        } else {
            0int
        }) + (if notify::webhook_ready(settings) {
            1int
        } else {
            0int
        }),
{
}

/// A machine counts as offline exactly where its last report is more than the set number of
/// minutes ago, leap seconds aside.
pub proof fn law_offline_after_the_set_minutes(
    minutes: i64,
    now: Moment,
    since: Moment,
    last_seen: Moment,
)
    requires
        notify::offline_since(minutes, now) == notify::OfflineWatch::Since(since),
        now.wf(),
        now.ordinary(),
        last_seen.ordinary(),
    ensures
        notify::silent(Some(last_seen), since) <==> (now.secs - last_seen.secs)
            * moment::NANOS_PER_SEC + now.nanos - last_seen.nanos > 60 * minutes
            * moment::NANOS_PER_SEC,
{
}

} // verus!
