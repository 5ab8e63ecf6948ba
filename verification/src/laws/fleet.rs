//! What becomes of stored machines, tokens and sessions, item by item.

use vstd::prelude::*;

use crate::db;
use crate::db::{CounterFacts, ReportPayload, ServerStatus};
use crate::figure::Figure;
use crate::laws;
use crate::moment;
use crate::moment::Moment;
use crate::text;

verus! {

/// Whether `t` is the start of `s`: its first `max` characters, or all where it has no more.
pub open spec fn start_of(t: Seq<char>, s: Seq<char>, max: int) -> bool {
    &&& t.len() == if s.len() < max {
        s.len() as int
    } else {
        max
    }
    &&& forall|i: int| 0 <= i < t.len() ==> t[i] == s[i]
}

/// A machine holds what it was stored with, each thing in its own place.
pub proof fn law_machines_hold_what_is_stored<S, D>(s: ServerStatus<S, D>)
    ensures
        s@.id == s.id@,
        s@.name == s.name@,
        s@.country is Some <==> s.country is Some,
        s.country matches Some(t) ==> s@.country == Some(t@),
        s@.city is Some <==> s.city is Some,
        s.city matches Some(t) ==> s@.city == Some(t@),
        s@.cpu == s.cpu,
        s@.load1 == s.load1,
        s@.load5 == s.load5,
        s@.load15 == s.load15,
        s@.mem_used == s.mem_used,
        s@.mem_total == s.mem_total,
        s@.disk_used == s.disk_used,
        s@.disk_total == s.disk_total,
        s@.net_rx == s.net_rx,
        s@.net_tx == s.net_tx,
        s@.cum_in == s.cum_in,
        s@.cum_out == s.cum_out,
        s@.last_raw_in == s.last_raw_in,
        s@.last_raw_out == s.last_raw_out,
        s@.traffic_start is Some <==> s.traffic_start is Some,
        s.traffic_start matches Some(t) ==> s@.traffic_start == Some(t@),
        s@.traffic_limit == s.traffic_limit,
        s@.traffic_notify_percent == s.traffic_notify_percent,
        s@.traffic_reset_day == s.traffic_reset_day,
        s@.last_auto_reset_ym is Some <==> s.last_auto_reset_ym is Some,
        s.last_auto_reset_ym matches Some(t) ==> s@.last_auto_reset_ym == Some(t@),
        s@.uptime == s.uptime,
        s@.latency_telecom == s.latency_telecom,
        s@.latency_unicom == s.latency_unicom,
        s@.latency_mobile == s.latency_mobile,
        s@.packet_loss == s.packet_loss,
        s@.last_seen == s.last_seen,
        s@.token is Some <==> s.token is Some,
        s.token matches Some(t) ==> s@.token == Some(t@),
{
}

/// A list of machines or of names, and a machine that may be missing, hold what is in them, in
/// order.
pub proof fn law_lists_hold_what_is_stored<S, D>(
    servers: Seq<ServerStatus<S, D>>,
    pairs: Seq<(String, String)>,
    row: Option<ServerStatus<S, D>>,
    i: int,
)
    ensures
        db::rows_of(servers).len() == servers.len(),
        0 <= i < servers.len() ==> db::rows_of(servers)[i] == servers[i]@,
        db::pairs_of(pairs).len() == pairs.len(),
        0 <= i < pairs.len() ==> db::pairs_of(pairs)[i] == (pairs[i].0@, pairs[i].1@),
        db::row_of(row) is Some <==> row is Some,
        row matches Some(s) ==> db::row_of(row) == Some(s@),
{
}

/// After a report a machine shows what the report says and nothing that it measured before,
/// whether it was known or not: usage, load, memory, disk, network, counters, uptime, latencies,
/// loss and the time of the report.
pub proof fn law_reports_are_stored<S, D>(
    existing: Option<db::ServerRow<S, D>>,
    payload: ReportPayload<S, D>,
    facts: CounterFacts,
    now: Moment,
)
    ensures
        ({
            let after = db::reported_row(existing, payload, facts, now);
            &&& after.cpu == Figure::Measured(payload.cpu)
            &&& after.load1 == Figure::Measured(payload.load@[0])
            &&& after.load5 == Figure::Measured(payload.load@[1])
            &&& after.load15 == Figure::Measured(payload.load@[2])
            &&& after.mem_used == Figure::Measured(payload.mem_used)
            &&& after.mem_total == Figure::Measured(payload.mem_total)
            &&& after.disk_used == Figure::Measured(payload.disk_used)
            &&& after.disk_total == Figure::Measured(payload.disk_total)
            &&& after.net_rx == Figure::Measured(payload.net_rx)
            &&& after.net_tx == Figure::Measured(payload.net_tx)
            &&& after.last_raw_in == Figure::Measured(payload.traffic_in)
            &&& after.last_raw_out == Figure::Measured(payload.traffic_out)
            &&& after.uptime == payload.uptime
            &&& payload.latency matches Some(l) ==> after.latency_telecom == l.telecom
                && after.latency_unicom == l.unicom && after.latency_mobile == l.mobile
            &&& payload.latency is None ==> after.latency_telecom is None
                && after.latency_unicom is None && after.latency_mobile is None
            &&& payload.loss matches Some(loss) ==> after.packet_loss == Some(
                Figure::Measured(loss),
            )
            &&& payload.loss is None ==> after.packet_loss is None
            &&& after.last_seen == now
        }),
{
}

/// A report's country and city take the place of the known ones, cut to eight and sixty-four
/// characters. A report without them leaves the known ones, if there are any.
pub proof fn law_reported_places_are_stored<S, D>(
    existing: Option<db::ServerRow<S, D>>,
    payload: ReportPayload<S, D>,
    facts: CounterFacts,
    now: Moment,
)
    ensures
        ({
            let after = db::reported_row(existing, payload, facts, now);
            &&& payload.country matches Some(c) ==> (after.country matches Some(t) && start_of(
                t,
                c@,
                8,
            ))
            &&& payload.city matches Some(c) ==> (after.city matches Some(t) && start_of(
                t,
                c@,
                64,
            ))
            &&& payload.country is None ==> match existing {
                Some(old) => after.country == old.country,
                None => after.country is None,
            }
            &&& payload.city is None ==> match existing {
                Some(old) => after.city == old.city,
                None => after.city is None,
            }
        }),
{
}

/// A report of a known machine changes neither its id nor what administrators decide, and adds to
/// its account what its counters tell: all they show after a reboot, else what they have gained,
/// or nothing where they have fallen.
pub proof fn law_reports_grow_the_account<S, D>(
    row: db::ServerRow<S, D>,
    payload: ReportPayload<S, D>,
    facts: CounterFacts,
    now: Moment,
)
    ensures
        ({
            let after = db::reported_row(Some(row), payload, facts, now);
            let rebooted = payload.uptime < row.uptime;
            &&& after.id == row.id
            &&& after.name == row.name
            &&& after.traffic_start == row.traffic_start
            &&& after.traffic_limit == row.traffic_limit
            &&& after.traffic_notify_percent == row.traffic_notify_percent
            &&& after.traffic_reset_day == row.traffic_reset_day
            &&& after.last_auto_reset_ym == row.last_auto_reset_ym
            &&& after.token == row.token
            &&& after.cum_in matches Figure::Sum(total, gain) && *total == row.cum_in && *gain == (
            if rebooted {
                Figure::Measured(payload.traffic_in)
            } else if facts.in_not_below {
                Figure::Difference(
                    Box::new(Figure::Measured(payload.traffic_in)),
                    Box::new(row.last_raw_in),
                )
            } else {
                Figure::Count(0)
            })
            &&& after.cum_out matches Figure::Sum(total, gain) && *total == row.cum_out && *gain == (
            if rebooted {
                Figure::Measured(payload.traffic_out)
            } else if facts.out_not_below {
                Figure::Difference(
                    Box::new(Figure::Measured(payload.traffic_out)),
                    Box::new(row.last_raw_out),
                )
            } else {
                Figure::Count(0)
            })
        }),
{
}

/// The first report of a machine opens an account at zero, under the reported name cut to
/// sixty-four characters, or the id where there is none. It sets no limit, no reset day and no
/// token, and notice is given from eighty percent on.
pub proof fn law_first_reports_open_an_account<S, D>(
    payload: ReportPayload<S, D>,
    facts: CounterFacts,
    now: Moment,
)
    ensures
        ({
            let after = db::reported_row(None, payload, facts, now);
            &&& after.id == payload.id@
            &&& payload.name matches Some(name) ==> start_of(after.name, name@, 64)
            &&& payload.name is None ==> start_of(after.name, payload.id@, 64)
            &&& after.cum_in == Figure::<D>::Count(0)
            &&& after.cum_out == Figure::<D>::Count(0)
            &&& after.traffic_start == Some(moment::rfc3339(now.secs as int, now.nanos as int))
            &&& after.traffic_limit == Figure::<D>::Count(0)
            &&& after.traffic_notify_percent == Figure::<D>::Count(80)
            &&& after.traffic_reset_day == 0
            &&& after.last_auto_reset_ym is None
            &&& after.token is None
        }),
{
}

/// The name that alerts use is the reported one, or the id where there is none, cut to sixty-four
/// characters.
pub proof fn law_reported_names<S, D>(payload: ReportPayload<S, D>)
    ensures
        payload.name matches Some(name) ==> start_of(db::reported_name(payload), name@, 64),
        payload.name is None ==> start_of(db::reported_name(payload), payload.id@, 64),
{
}

/// What the alerts are told of a report is what the report and the account say.
pub proof fn law_alerts_are_told_of_the_report<S, D>(
    result: db::UpsertResult<S, D>,
    existing: Option<db::ServerRow<S, D>>,
    payload: ReportPayload<S, D>,
    facts: CounterFacts,
    now: Moment,
)
    requires
        db::tells_of(result, payload, db::reported_row(existing, payload, facts, now)),
    ensures
        result.id@ == payload.id@,
        payload.name matches Some(name) ==> start_of(result.name@, name@, 64),
        payload.name is None ==> start_of(result.name@, payload.id@, 64),
        result.cpu == Figure::Measured(payload.cpu),
        result.mem_used == Figure::Measured(payload.mem_used),
        result.mem_total == Figure::Measured(payload.mem_total),
        result.cum_in == db::reported_row(existing, payload, facts, now).cum_in,
        result.cum_out == db::reported_row(existing, payload, facts, now).cum_out,
        existing matches Some(old) ==> result.traffic_limit == old.traffic_limit
            && result.traffic_notify_percent == old.traffic_notify_percent,
        existing is None ==> result.traffic_limit == Figure::<D>::Count(0)
            && result.traffic_notify_percent == Figure::<D>::Count(80),
{
}

/// Whether two machines have the same measurements and the same traffic account.
pub open spec fn same_report<S, D>(a: db::ServerRow<S, D>, b: db::ServerRow<S, D>) -> bool {
    &&& a.id == b.id
    &&& a.country == b.country
    &&& a.city == b.city
    &&& a.cpu == b.cpu
    &&& a.load1 == b.load1
    &&& a.load5 == b.load5
    &&& a.load15 == b.load15
    &&& a.mem_used == b.mem_used
    &&& a.mem_total == b.mem_total
    &&& a.disk_used == b.disk_used
    &&& a.disk_total == b.disk_total
    &&& a.net_rx == b.net_rx
    &&& a.net_tx == b.net_tx
    &&& a.cum_in == b.cum_in
    &&& a.cum_out == b.cum_out
    &&& a.last_raw_in == b.last_raw_in
    &&& a.last_raw_out == b.last_raw_out
    &&& a.traffic_start == b.traffic_start
    &&& a.last_auto_reset_ym == b.last_auto_reset_ym
    &&& a.uptime == b.uptime
    &&& a.latency_telecom == b.latency_telecom
    &&& a.latency_unicom == b.latency_unicom
    &&& a.latency_mobile == b.latency_mobile
    &&& a.packet_loss == b.packet_loss
    &&& a.last_seen == b.last_seen
}

/// Renaming a machine, setting its limit and giving it another token each do just that: its
/// measurements, its account and whatever the others set stay as they are.
pub proof fn law_decisions_do_not_touch_each_other<S, D>(
    row: db::ServerRow<S, D>,
    name: Seq<char>,
    limit: D,
    percent: D,
    reset_day: i64,
    token: Seq<char>,
)
    ensures
        ({
            let renamed = db::renamed_row(row, name);
            &&& start_of(renamed.name, name, 64)
            &&& same_report(renamed, row)
            &&& renamed.traffic_limit == row.traffic_limit
            &&& renamed.traffic_notify_percent == row.traffic_notify_percent
            &&& renamed.traffic_reset_day == row.traffic_reset_day
            &&& renamed.token == row.token
        }),
        ({
            let limited = db::limited_row(row, limit, percent, reset_day);
            &&& limited.traffic_limit == Figure::Measured(limit)
            &&& limited.traffic_notify_percent == Figure::Measured(percent)
            &&& limited.traffic_reset_day == if 1 <= reset_day <= 31 {
                reset_day
            } else {
                0
            }
            &&& same_report(limited, row)
            &&& limited.name == row.name
            &&& limited.token == row.token
        }),
        ({
            let given = db::row_with_token(row, token);
            &&& given.token == Some(token)
            &&& same_report(given, row)
            &&& given.name == row.name
            &&& given.traffic_limit == row.traffic_limit
            &&& given.traffic_notify_percent == row.traffic_notify_percent
            &&& given.traffic_reset_day == row.traffic_reset_day
        }),
{
}

/// A machine that is registered has its id, its name cut to sixty-four characters and its token,
/// and nothing measured yet.
pub proof fn law_registered_machines_are_blank<S, D>(
    id: Seq<char>,
    name: Seq<char>,
    token: Seq<char>,
    now: Moment,
)
    ensures
        ({
            let row = db::registered_row::<S, D>(id, name, token, now);
            &&& row.id == id
            &&& start_of(row.name, name, 64)
            &&& row.token == Some(token)
            &&& row.last_seen == now
            &&& row.country is None && row.city is None
            &&& row.cpu == Figure::<S>::Count(0)
            &&& row.load1 == Figure::<S>::Count(0)
            &&& row.load5 == Figure::<S>::Count(0)
            &&& row.load15 == Figure::<S>::Count(0)
            &&& row.mem_used == Figure::<D>::Count(0)
            &&& row.mem_total == Figure::<D>::Count(0)
            &&& row.disk_used == Figure::<D>::Count(0)
            &&& row.disk_total == Figure::<D>::Count(0)
            &&& row.net_rx == Figure::<D>::Count(0)
            &&& row.net_tx == Figure::<D>::Count(0)
            &&& row.cum_in == Figure::<D>::Count(0)
            &&& row.cum_out == Figure::<D>::Count(0)
            &&& row.last_raw_in == Figure::<D>::Count(0)
            &&& row.last_raw_out == Figure::<D>::Count(0)
            &&& row.traffic_start is None
            &&& row.traffic_limit == Figure::<D>::Count(0)
            &&& row.traffic_notify_percent == Figure::<D>::Count(80)
            &&& row.traffic_reset_day == 0
            &&& row.last_auto_reset_ym is None
            &&& row.uptime == 0
            &&& row.latency_telecom is None && row.latency_unicom is None
                && row.latency_mobile is None
            &&& row.packet_loss is None
        }),
{
}

/// Whether two machines differ in their traffic accounts and nothing else.
pub open spec fn same_but_for_account<S, D>(
    a: db::ServerRow<S, D>,
    b: db::ServerRow<S, D>,
) -> bool {
    &&& a.id == b.id
    &&& a.name == b.name
    &&& a.country == b.country
    &&& a.city == b.city
    &&& a.cpu == b.cpu
    &&& a.load1 == b.load1
    &&& a.load5 == b.load5
    &&& a.load15 == b.load15
    &&& a.mem_used == b.mem_used
    &&& a.mem_total == b.mem_total
    &&& a.disk_used == b.disk_used
    &&& a.disk_total == b.disk_total
    &&& a.net_rx == b.net_rx
    &&& a.net_tx == b.net_tx
    &&& a.last_raw_in == b.last_raw_in
    &&& a.last_raw_out == b.last_raw_out
    &&& a.traffic_limit == b.traffic_limit
    &&& a.traffic_notify_percent == b.traffic_notify_percent
    &&& a.traffic_reset_day == b.traffic_reset_day
    &&& a.uptime == b.uptime
    &&& a.latency_telecom == b.latency_telecom
    &&& a.latency_unicom == b.latency_unicom
    &&& a.latency_mobile == b.latency_mobile
    &&& a.packet_loss == b.packet_loss
    &&& a.last_seen == b.last_seen
    &&& a.token == b.token
}

/// Whether `after` is `before` with its traffic account started anew at `now`, in the given month.
pub open spec fn started_anew<S, D>(
    before: db::ServerRow<S, D>,
    after: db::ServerRow<S, D>,
    now: Moment,
    year: int,
    month: int,
) -> bool {
    &&& after.cum_in == Figure::<D>::Count(0)
    &&& after.cum_out == Figure::<D>::Count(0)
    &&& after.traffic_start == Some(moment::rfc3339(now.secs as int, now.nanos as int))
    &&& after.last_auto_reset_ym == Some(moment::month_label(year, month))
    &&& same_but_for_account(before, after)
}

/// Whether `now` lies on the given day.
pub open spec fn lies_on(now: Moment, year: int, month: int, day: int) -> bool {
    moment::valid_date(year, month, day) && moment::day_number(year, month, day) == now.secs as int
        / 86_400
}

/// A reset starts the account at zero from now on, notes the month and changes nothing else.
pub proof fn law_resets_start_the_account_anew<S, D>(
    row: db::ServerRow<S, D>,
    now: Moment,
    year: int,
    month: int,
    day: int,
)
    requires
        lies_on(now, year, month, day),
    ensures
        started_anew(row, db::reset_row(row, now), now, year, month),
{
    moment::law_civil_date(year, month, day);
}

/// Whether a machine is to be reset on a day: it has a reset day, it was not reset this month, and
/// the day has come, or it is the last of a month that has no such day.
pub open spec fn to_be_reset<S, D>(
    row: db::ServerRow<S, D>,
    year: int,
    month: int,
    day: int,
) -> bool {
    &&& row.traffic_reset_day >= 1
    &&& row.last_auto_reset_ym != Some(moment::month_label(year, month))
    &&& day >= row.traffic_reset_day || day == moment::month_length(year, month)
}

/// A machine is due exactly where it is to be reset on the day.
pub proof fn law_due_on_its_day<S, D>(
    row: db::ServerRow<S, D>,
    now: Moment,
    year: int,
    month: int,
    day: int,
)
    requires
        lies_on(now, year, month, day),
    ensures
        db::reset_due(row, now) <==> to_be_reset(row, year, month, day),
{
    moment::law_civil_date(year, month, day);
}

/// The automatic reset starts the account of each machine that is due anew, and leaves every other
/// machine exactly as it is: one whose day has not come, one without a reset day, and one that was
/// reset this month.
pub proof fn law_automatic_reset_changes_due_machines_alone<S, D>(
    rows: Seq<db::ServerRow<S, D>>,
    i: int,
    now: Moment,
    year: int,
    month: int,
    day: int,
)
    requires
        lies_on(now, year, month, day),
        0 <= i < rows.len(),
    ensures
        db::auto_reset_rows(rows, now).len() == rows.len(),
        to_be_reset(rows[i], year, month, day) ==> started_anew(
            rows[i],
            db::auto_reset_rows(rows, now)[i],
            now,
            year,
            month,
        ),
        !to_be_reset(rows[i], year, month, day) ==> db::auto_reset_rows(rows, now)[i] == rows[i],
        rows[i].traffic_reset_day <= 0 ==> db::auto_reset_rows(rows, now)[i] == rows[i],
        day < rows[i].traffic_reset_day && day < moment::month_length(year, month)
            ==> db::auto_reset_rows(rows, now)[i] == rows[i],
        rows[i].last_auto_reset_ym == Some(moment::month_label(year, month))
            ==> db::auto_reset_rows(rows, now)[i] == rows[i],
{
    law_due_on_its_day(rows[i], now, year, month, day);
    law_resets_start_the_account_anew(rows[i], now, year, month, day);
}

proof fn lemma_due_names_at<S, D>(rows: Seq<db::ServerRow<S, D>>, now: Moment)
    ensures
        ({
            let picked = laws::places(Seq::new(rows.len(), |i: int| db::reset_due(rows[i], now)));
            let names = db::due_names(rows, now);
            &&& names.len() == picked.len()
            &&& forall|k: int|
                0 <= k < names.len() ==> 0 <= #[trigger] picked[k] < rows.len() && names[k] == (
                    rows[picked[k]].id,
                    rows[picked[k]].name,
                )
        }),
    decreases rows.len(),
{
    if rows.len() > 0 {
        let front = rows.drop_last();
        lemma_due_names_at(front, now);
        let holds = Seq::new(rows.len(), |i: int| db::reset_due(rows[i], now));
        assert(holds.drop_last() =~= Seq::new(front.len(), |i: int| db::reset_due(front[i], now)));
    }
}

/// The automatic reset lists the machines that it resets, each once and in their order, and no
/// other.
pub proof fn law_reset_machines_are_listed<S, D>(
    rows: Seq<db::ServerRow<S, D>>,
    now: Moment,
    year: int,
    month: int,
    day: int,
) -> (picked: Seq<int>)
    requires
        lies_on(now, year, month, day),
    ensures
        laws::picks(picked, Seq::new(rows.len(), |i: int| to_be_reset(rows[i], year, month, day))),
        db::due_names(rows, now).len() == picked.len(),
        forall|k: int|
            0 <= k < picked.len() ==> db::due_names(rows, now)[k] == (
                rows[#[trigger] picked[k]].id,
                rows[picked[k]].name,
            ),
{
    let holds = Seq::new(rows.len(), |i: int| db::reset_due(rows[i], now));
    assert forall|i: int| 0 <= i < rows.len() implies holds[i] == to_be_reset(
        rows[i],
        year,
        month,
        day,
    ) by {
        law_due_on_its_day(rows[i], now, year, month, day);
    }
    assert(holds =~= Seq::new(rows.len(), |i: int| to_be_reset(rows[i], year, month, day)));
    laws::lemma_places(holds);
    lemma_due_names_at(rows, now);
    laws::places(holds)
}

/// The months have the lengths that everybody knows, days are counted one by one, and leap years are those divisible by four
/// but not by a hundred, or by four hundred.
pub proof fn law_month_lengths(year: int)
    ensures
        moment::month_length(year, 1) == 31,
        moment::month_length(year, 2) == if year % 400 == 0 || (year % 4 == 0 && year % 100 != 0) {
            29int
        } else {
            28int
        },
        moment::month_length(year, 3) == 31,
        moment::month_length(year, 4) == 30,
        moment::month_length(year, 5) == 31,
        moment::month_length(year, 6) == 30,
        moment::month_length(year, 7) == 31,
        moment::month_length(year, 8) == 31,
        moment::month_length(year, 9) == 30,
        moment::month_length(year, 10) == 31,
        moment::month_length(year, 11) == 30,
        moment::month_length(year, 12) == 31,
        moment::day_number(1970, 1, 1) == 0,
        forall|month: int, day: int| #[trigger]
            moment::day_number(year, month, day + 1) == moment::day_number(year, month, day) + 1,
{
    reveal_with_fuel(moment::days_before_month, 2);
}

/// A reset day is stored as it is where it is a day of a month, and as none otherwise.
pub proof fn law_reset_days_are_days_of_a_month(day: i64)
    ensures
        1 <= day <= 31 ==> db::stored_reset_day(day) == day,
        day < 1 || day > 31 ==> db::stored_reset_day(day) == 0,
{
}

/// An id is accepted exactly where it has one to sixty-four characters, and each is an ASCII
/// letter, a digit, a point, an underscore or a hyphen.
pub proof fn law_accepted_ids(id: Seq<char>)
    ensures
        db::id_shape(id) <==> 1 <= id.len() <= 64 && forall|i: int|
            0 <= i < id.len() ==> {
                let c = #[trigger] id[i];
                'A' <= c <= 'Z' || 'a' <= c <= 'z' || '0' <= c <= '9' || c == '.' || c == '_' || c
                    == '-'
            },
{
    assert forall|i: int| 0 <= i < id.len() implies db::id_char(#[trigger] id[i]) == ({
        let c = id[i];
        'A' <= c <= 'Z' || 'a' <= c <= 'z' || '0' <= c <= '9' || c == '.' || c == '_' || c == '-'
    }) by {}
}

/// A token has sixty-four characters, each a digit or one of the small letters from a to f.
pub proof fn law_token_shape(token: Seq<char>)
    ensures
        db::token_shape(token) <==> token.len() == 64 && forall|i: int|
            0 <= i < token.len() ==> {
                let c = #[trigger] token[i];
                '0' <= c <= '9' || 'a' <= c <= 'f'
            },
{
    assert forall|i: int| 0 <= i < token.len() implies text::lower_hex_char(#[trigger] token[i])
        == ('0' <= token[i] <= '9' || 'a' <= token[i] <= 'f') by {}
}

proof fn lemma_ids_without_token_at(machines: Seq<(String, Option<String>)>)
    ensures
        ({
            let picked = laws::places(
                Seq::new(
                    machines.len(),
                    |i: int| db::lacks_token(text::text_view(machines[i].1)),
                ),
            );
            let ids = db::ids_without_token(machines);
            &&& ids.len() == picked.len()
            &&& forall|k: int|
                0 <= k < ids.len() ==> 0 <= #[trigger] picked[k] < machines.len() && ids[k]
                    == machines[picked[k]].0@
        }),
    decreases machines.len(),
{
    if machines.len() > 0 {
        let front = machines.drop_last();
        lemma_ids_without_token_at(front);
        let holds = Seq::new(
            machines.len(),
            |i: int| db::lacks_token(text::text_view(machines[i].1)),
        );
        assert(holds.drop_last() =~= Seq::new(
            front.len(),
            |i: int| db::lacks_token(text::text_view(front[i].1)),
        ));
    }
}

/// Whether a machine has no token: none is stored, or an empty one.
pub open spec fn without_token(token: Option<String>) -> bool {
    match token {
        None => true,
        Some(t) => t@.len() == 0,
    }
}

/// The machines that are issued a token at start-up are those without one, each once and in their
/// order, and no other.
pub proof fn law_machines_without_a_token_are_listed(
    machines: Seq<(String, Option<String>)>,
) -> (picked: Seq<int>)
    ensures
        laws::picks(picked, Seq::new(machines.len(), |i: int| without_token(machines[i].1))),
        db::ids_without_token(machines).len() == picked.len(),
        forall|k: int|
            0 <= k < picked.len() ==> db::ids_without_token(machines)[k]
                == machines[#[trigger] picked[k]].0@,
{
    let holds = Seq::new(
        machines.len(),
        |i: int| db::lacks_token(text::text_view(machines[i].1)),
    );
    assert(holds =~= Seq::new(machines.len(), |i: int| without_token(machines[i].1)));
    laws::lemma_places(holds);
    lemma_ids_without_token_at(machines);
    laws::places(holds)
}

/// One instant comes before another where its second does, or, in the same second, its
/// nanoseconds do.
pub proof fn law_order_of_instants(a: Moment, b: Moment)
    ensures
        a.secs < b.secs ==> a.precedes(&b) && !b.precedes(&a),
        a.secs == b.secs ==> (a.precedes(&b) <==> a.nanos < b.nanos),
{
}

/// What a text names in the notation of RFC 3339 is read whole: the second and the nanoseconds.
pub proof fn law_instants_are_read_whole(t: Seq<char>)
    ensures
        moment::rfc3339_moment(t) is None <==> moment::moment_named(t) is None,
        moment::rfc3339_moment(t) matches Some(m) ==> moment::moment_named(t) == Some(
            Moment { secs: m.0, nanos: m.1 },
        ),
{
}

/// A session that is not stored is unknown. One whose end cannot be read, or lies in the past, has
/// ended. Any other is live.
pub proof fn law_states_of_sessions(expires_at: Option<Seq<char>>, now: Moment)
    ensures
        ({
            let state = db::session_state(db::session_end_found(expires_at), now);
            &&& expires_at is None <==> state == db::SessionState::Unknown
            &&& expires_at matches Some(t) ==> match moment::rfc3339_moment(t) {
                None => state == db::SessionState::Ended,
                Some((secs, nanos)) => (state == db::SessionState::Ended <==> (secs < now.secs || (
                secs == now.secs && nanos < now.nanos))) && (state == db::SessionState::Live <==> !(
                secs < now.secs || (secs == now.secs && nanos < now.nanos))),
            }
        }),
{
}

/// A session ends thirty days after its start, to the nanosecond.
pub proof fn law_end_of_a_session(start: Moment)
    requires
        start.secs + 2_592_000 <= moment::MAX_SECS,
    ensures
        db::session_end(start).secs == start.secs + 2_592_000,
        db::session_end(start).nanos == start.nanos,
{
}

} // verus!
