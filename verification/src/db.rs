//! What the monitor stores, and how each operation changes it.

use vstd::prelude::*;
use vstd::string::*;

use crate::figure::Figure;
use crate::moment;
use crate::moment::{day_before, shifted, utc_date, year_month, Moment, MAX_YEAR, MIN_YEAR, SECS_PER_DAY};
use crate::text;
use crate::text::{chars_of, hex_text};

verus! {

/// A machine as stored: its registration, its last report and its traffic account.
#[derive(Debug)]
pub struct ServerStatus<S, D> {
    pub id: String,
    pub name: String,
    pub country: Option<String>,
    pub city: Option<String>,
    pub cpu: Figure<S>,
    pub load1: Figure<S>,
    pub load5: Figure<S>,
    pub load15: Figure<S>,
    pub mem_used: Figure<D>,
    pub mem_total: Figure<D>,
    pub disk_used: Figure<D>,
    pub disk_total: Figure<D>,
    pub net_rx: Figure<D>,
    pub net_tx: Figure<D>,
    pub cum_in: Figure<D>,
    pub cum_out: Figure<D>,
    pub last_raw_in: Figure<D>,
    pub last_raw_out: Figure<D>,
    pub traffic_start: Option<String>,
    pub traffic_limit: Figure<D>,
    pub traffic_notify_percent: Figure<D>,
    /// The day of the month on which the traffic account starts anew, or 0 for none.
    pub traffic_reset_day: i64,
    /// The month in which the traffic account was last reset, as `2026-02`.
    pub last_auto_reset_ym: Option<String>,
    pub uptime: i64,
    pub latency_telecom: Option<i32>,
    pub latency_unicom: Option<i32>,
    pub latency_mobile: Option<i32>,
    pub packet_loss: Option<Figure<S>>,
    pub last_seen: Moment,
    /// The secret that the machine's agent reports with. Only administrators may see it.
    pub token: Option<String>,
}

/// The contents of a `ServerStatus`.
#[verifier::ext_equal]
pub ghost struct ServerRow<S, D> {
    pub id: Seq<char>,
    pub name: Seq<char>,
    pub country: Option<Seq<char>>,
    pub city: Option<Seq<char>>,
    pub cpu: Figure<S>,
    pub load1: Figure<S>,
    pub load5: Figure<S>,
    pub load15: Figure<S>,
    pub mem_used: Figure<D>,
    pub mem_total: Figure<D>,
    pub disk_used: Figure<D>,
    pub disk_total: Figure<D>,
    pub net_rx: Figure<D>,
    pub net_tx: Figure<D>,
    pub cum_in: Figure<D>,
    pub cum_out: Figure<D>,
    pub last_raw_in: Figure<D>,
    pub last_raw_out: Figure<D>,
    pub traffic_start: Option<Seq<char>>,
    pub traffic_limit: Figure<D>,
    pub traffic_notify_percent: Figure<D>,
    pub traffic_reset_day: i64,
    pub last_auto_reset_ym: Option<Seq<char>>,
    pub uptime: i64,
    pub latency_telecom: Option<i32>,
    pub latency_unicom: Option<i32>,
    pub latency_mobile: Option<i32>,
    pub packet_loss: Option<Figure<S>>,
    pub last_seen: Moment,
    pub token: Option<Seq<char>>,
}

impl<S, D> View for ServerStatus<S, D> {
    type V = ServerRow<S, D>;

    open spec fn view(&self) -> ServerRow<S, D> {
        ServerRow {
            id: self.id@,
            name: self.name@,
            country: text::text_view(self.country),
            city: text::text_view(self.city),
            cpu: self.cpu,
            load1: self.load1,
            load5: self.load5,
            load15: self.load15,
            mem_used: self.mem_used,
            mem_total: self.mem_total,
            disk_used: self.disk_used,
            disk_total: self.disk_total,
            net_rx: self.net_rx,
            net_tx: self.net_tx,
            cum_in: self.cum_in,
            cum_out: self.cum_out,
            last_raw_in: self.last_raw_in,
            last_raw_out: self.last_raw_out,
            traffic_start: text::text_view(self.traffic_start),
            traffic_limit: self.traffic_limit,
            traffic_notify_percent: self.traffic_notify_percent,
            traffic_reset_day: self.traffic_reset_day,
            last_auto_reset_ym: text::text_view(self.last_auto_reset_ym),
            uptime: self.uptime,
            latency_telecom: self.latency_telecom,
            latency_unicom: self.latency_unicom,
            latency_mobile: self.latency_mobile,
            packet_loss: self.packet_loss,
            last_seen: self.last_seen,
            token: text::text_view(self.token),
        }
    }
}

impl<S, D> ServerRow<S, D> {
    /// A stored machine is reset on a day of the month or not at all, and was last seen at an
    /// instant of the calendar.
    pub open spec fn wf(self) -> bool {
        &&& 0 <= self.traffic_reset_day <= 31
        &&& self.last_seen.wf()
    }
}

/// The round-trip times of a machine to three networks, in milliseconds.
#[derive(Clone, Copy, Debug)]
pub struct Latency {
    pub telecom: Option<i32>,
    pub unicom: Option<i32>,
    pub mobile: Option<i32>,
}

/// What an agent reports of its machine.
#[derive(Debug)]
pub struct ReportPayload<S, D> {
    pub id: String,
    pub name: Option<String>,
    pub secret: String,
    pub country: Option<String>,
    pub city: Option<String>,
    pub cpu: S,
    pub load: [S; 3],
    pub mem_used: D,
    pub mem_total: D,
    pub disk_used: D,
    pub disk_total: D,
    pub net_rx: D,
    pub net_tx: D,
    pub traffic_in: D,
    pub traffic_out: D,
    pub uptime: i64,
    pub latency: Option<Latency>,
    pub loss: Option<S>,
}

/// What a report came to, for the alerts that may follow it.
#[derive(Debug)]
pub struct UpsertResult<S, D> {
    pub id: String,
    pub name: String,
    pub cpu: Figure<S>,
    pub mem_used: Figure<D>,
    pub mem_total: Figure<D>,
    pub cum_in: Figure<D>,
    pub cum_out: Figure<D>,
    pub traffic_limit: Figure<D>,
    pub traffic_notify_percent: Figure<D>,
}

/// Whether each traffic counter of a report is at least the one recorded before.
#[derive(Clone, Copy, Debug)]
pub struct CounterFacts {
    pub in_not_below: bool,
    pub out_not_below: bool,
}

/// The longest display name, in characters.
pub const NAME_CHARS: usize = 64;

/// The longest country code, in characters.
pub const COUNTRY_CHARS: usize = 8;

/// The longest city name, in characters.
pub const CITY_CHARS: usize = 64;

/// The share of its limit at which a machine's traffic is reported, where nobody has set one.
pub const DEFAULT_NOTIFY_PERCENT: i64 = 80;

/// A character that may stand in a machine's id.
pub open spec fn id_char(c: char) -> bool {
    'A' <= c <= 'Z' || 'a' <= c <= 'z' || '0' <= c <= '9' || c == '.' || c == '_' || c == '-'
}

/// An id of a machine: 1 to 64 letters, digits, points, underscores and hyphens.
pub open spec fn id_shape(id: Seq<char>) -> bool {
    &&& 1 <= id.len() <= 64
    &&& forall|i: int| 0 <= i < id.len() ==> id_char(#[trigger] id[i])
}

/// Whether `id` may name a machine. An id is used as a key of the database and as an attribute
/// in pages, so it is held to a few harmless characters.
pub fn valid_id(id: &str) -> (r: bool)
    ensures
        r == id_shape(id@),
{
    let chars = chars_of(id);
    if chars.len() < 1 || chars.len() > 64 {
        return false;
    }
    let mut i: usize = 0;
    while i < chars.len()
        invariant
            chars@ == id@,
            i <= chars@.len(),
            forall|j: int| 0 <= j < i ==> id_char(#[trigger] id@[j]),
        decreases chars@.len() - i,
    {
        let c = chars[i];
        if !(('A' <= c && c <= 'Z') || ('a' <= c && c <= 'z') || ('0' <= c && c <= '9') || c == '.'
            || c == '_' || c == '-') {
            assert(!id_char(id@[i as int]));
            return false;
        }
        i = i + 1;
    }
    true
}

/// The first `max_chars` characters of `s`. Names may hold any character, but not any number.
pub fn clip(s: &str, max_chars: usize) -> (r: String)
    ensures
        r@ == text::clipped(s@, max_chars as nat),
{
    let n: usize = s.unicode_len();
    let keep: usize = if n <= max_chars {
        n
    } else {
        max_chars
    };
    let head = s.substring_char(0, keep);
    assert(head@ =~= text::clipped(s@, max_chars as nat));
    head.to_owned()
}

/// An optional string cut to `max_chars` characters.
pub open spec fn clipped_option(s: Option<Seq<char>>, max_chars: nat) -> Option<Seq<char>> {
    match s {
        Some(t) => Some(text::clipped(t, max_chars)),
        None => None,
    }
}

fn clip_option(s: &Option<String>, max_chars: usize) -> (r: Option<String>)
    ensures
        text::text_view(r) == clipped_option(text::text_view(*s), max_chars as nat),
{
    match s {
        Some(t) => Some(clip(t.as_str(), max_chars)),
        None => None,
    }
}

/// The number of random bytes in a token.
pub const TOKEN_BYTES: usize = 32;

/// A token: sixty-four lower-case hexadecimal digits.
pub open spec fn token_shape(t: Seq<char>) -> bool {
    &&& t.len() == 2 * TOKEN_BYTES
    &&& forall|i: int| 0 <= i < t.len() ==> text::lower_hex_char(#[trigger] t[i])
}

/// `rand_core`'s `OsRng.fill_bytes`: overwrites `dest` with bytes from the operating system's
/// random number generator. It panics where that generator fails.
#[verifier::external_body]
fn fill_random(dest: &mut [u8])
    ensures
        final(dest)@.len() == old(dest)@.len(),
{
    rand_core::RngCore::fill_bytes(&mut rand_core::OsRng, dest);
}

/// The token that stands for `bytes`.
pub fn token_text(bytes: &[u8; 32]) -> (r: String)
    ensures
        r@ == text::hex(bytes@),
        token_shape(r@),
{
    proof {
        text::law_hex_shape(bytes@);
    }
    hex_text(bytes.as_slice())
}

/// A new token from thirty-two random bytes, for an agent to report with or a session to be
/// known by.
pub fn gen_random_token() -> (r: String)
    ensures
        token_shape(r@),
{
    let bytes = draw();
    token_text(&bytes)
}

/// Thirty-two random bytes.
fn draw() -> [u8; 32] {
    let mut bytes: [u8; 32] = [0u8; 32];
    fill_random(&mut bytes);
    bytes
}

/// The name that a report gives its machine: the one in it, else the id, cut to length.
pub open spec fn reported_name<S, D>(payload: ReportPayload<S, D>) -> Seq<char> {
    text::clipped(
        match payload.name {
            Some(name) => name@,
            None => payload.id@,
        },
        NAME_CHARS as nat,
    )
}

/// What a traffic counter adds to the account. After a reboot it adds all it shows, since it then
/// started from zero. Otherwise one that has not fallen adds what it has gained, and one that has
/// fallen adds nothing: an interface that vanished and came back is noise.
pub open spec fn increment<D>(not_below: bool, rebooted: bool, raw: D, last: Figure<D>) -> Figure<
    D,
> {
    if rebooted {
        Figure::Measured(raw)
    } else if not_below {
        Figure::Difference(Box::new(Figure::Measured(raw)), Box::new(last))
    } else {
        Figure::Count(0)
    }
}

/// A machine's traffic account after a report.
pub open spec fn grown<D>(
    total: Figure<D>,
    not_below: bool,
    rebooted: bool,
    raw: D,
    last: Figure<D>,
) -> Figure<D> {
    Figure::Sum(Box::new(total), Box::new(increment(not_below, rebooted, raw, last)))
}

/// The later of two optional texts where there is one, else the earlier.
pub open spec fn newer_text(
    newer: Option<Seq<char>>,
    older: Option<Seq<char>>,
) -> Option<Seq<char>> {
    if newer is Some {
        newer
    } else {
        older
    }
}

/// A machine as stored after a report. Of a known machine the report leaves alone what
/// administrators decide: its name, its limits, its reset day and its token.
pub open spec fn reported_row<S, D>(
    existing: Option<ServerRow<S, D>>,
    payload: ReportPayload<S, D>,
    facts: CounterFacts,
    now: Moment,
) -> ServerRow<S, D> {
    let country = clipped_option(text::text_view(payload.country), COUNTRY_CHARS as nat);
    let city = clipped_option(text::text_view(payload.city), CITY_CHARS as nat);
    let report = ServerRow {
        id: payload.id@,
        name: reported_name(payload),
        country,
        city,
        cpu: Figure::Measured(payload.cpu),
        load1: Figure::Measured(payload.load@[0]),
        load5: Figure::Measured(payload.load@[1]),
        load15: Figure::Measured(payload.load@[2]),
        mem_used: Figure::Measured(payload.mem_used),
        mem_total: Figure::Measured(payload.mem_total),
        disk_used: Figure::Measured(payload.disk_used),
        disk_total: Figure::Measured(payload.disk_total),
        net_rx: Figure::Measured(payload.net_rx),
        net_tx: Figure::Measured(payload.net_tx),
        cum_in: Figure::Count(0),
        cum_out: Figure::Count(0),
        last_raw_in: Figure::Measured(payload.traffic_in),
        last_raw_out: Figure::Measured(payload.traffic_out),
        traffic_start: Some(moment::rfc3339(now.secs as int, now.nanos as int)),
        traffic_limit: Figure::Count(0),
        traffic_notify_percent: Figure::Count(DEFAULT_NOTIFY_PERCENT),
        traffic_reset_day: 0,
        last_auto_reset_ym: None,
        uptime: payload.uptime,
        latency_telecom: match payload.latency {
            Some(l) => l.telecom,
            None => None,
        },
        latency_unicom: match payload.latency {
            Some(l) => l.unicom,
            None => None,
        },
        latency_mobile: match payload.latency {
            Some(l) => l.mobile,
            None => None,
        },
        packet_loss: match payload.loss {
            Some(loss) => Some(Figure::Measured(loss)),
            None => None,
        },
        last_seen: now,
        token: None,
    };
    match existing {
        None => report,
        Some(old) => {
            let rebooted = payload.uptime < old.uptime;
            ServerRow {
                id: old.id,
                name: old.name,
                country: newer_text(country, old.country),
                city: newer_text(city, old.city),
                cum_in: grown(
                    old.cum_in,
                    facts.in_not_below,
                    rebooted,
                    payload.traffic_in,
                    old.last_raw_in,
                ),
                cum_out: grown(
                    old.cum_out,
                    facts.out_not_below,
                    rebooted,
                    payload.traffic_out,
                    old.last_raw_out,
                ),
                traffic_start: old.traffic_start,
                traffic_limit: old.traffic_limit,
                traffic_notify_percent: old.traffic_notify_percent,
                traffic_reset_day: old.traffic_reset_day,
                last_auto_reset_ym: old.last_auto_reset_ym,
                token: old.token,
                ..report
            }
        },
    }
}

fn counter_increment<D>(not_below: bool, rebooted: bool, raw: D, last: Figure<D>) -> (r: Figure<D>)
    ensures
        r == increment(not_below, rebooted, raw, last),
{
    if rebooted {
        Figure::Measured(raw)
    } else if not_below {
        Figure::Difference(Box::new(Figure::Measured(raw)), Box::new(last))
    } else {
        Figure::Count(0)
    }
}

/// Whether `result` is what the alerts need to know of a report, after which the machine is `row`.
pub open spec fn tells_of<S, D>(
    result: UpsertResult<S, D>,
    payload: ReportPayload<S, D>,
    row: ServerRow<S, D>,
) -> bool {
    &&& result.id@ == payload.id@
    &&& result.name@ == reported_name(payload)
    &&& result.cpu == row.cpu
    &&& result.mem_used == row.mem_used
    &&& result.mem_total == row.mem_total
    &&& result.cum_in == row.cum_in
    &&& result.cum_out == row.cum_out
    &&& result.traffic_limit == row.traffic_limit
    &&& result.traffic_notify_percent == row.traffic_notify_percent
}

/// Takes a report into the store. `existing` is the machine with the report's id as stored so
/// far, and `facts` compares the report's counters with the ones stored there. Returns the
/// machine as it is to be stored, and what the alerts need to know; the name there is the
/// reported one.
pub fn upsert_server<S: Copy, D: Copy>(
    existing: Option<ServerStatus<S, D>>,
    payload: &ReportPayload<S, D>,
    facts: CounterFacts,
    now: &Moment,
) -> (r: (ServerStatus<S, D>, UpsertResult<S, D>))
    requires
        now.wf(),
    ensures
        r.0@ == reported_row(
            match existing {
                Some(old) => Some(old@),
                None => None,
            },
            *payload,
            facts,
            *now,
        ),
        tells_of(r.1, *payload, r.0@),
        r.1.cpu == Figure::Measured(payload.cpu),
        r.1.mem_used == Figure::Measured(payload.mem_used),
        r.1.mem_total == Figure::Measured(payload.mem_total),
        (existing matches Some(old) ==> old@.wf()) ==> r.0@.wf(),
{
    let reported = match &payload.name {
        Some(name) => clip(name.as_str(), NAME_CHARS),
        None => clip(payload.id.as_str(), NAME_CHARS),
    };
    let country = clip_option(&payload.country, COUNTRY_CHARS);
    let city = clip_option(&payload.city, CITY_CHARS);
    let (telecom, unicom, mobile) = match &payload.latency {
        Some(l) => (l.telecom, l.unicom, l.mobile),
        None => (None, None, None),
    };
    let packet_loss = match payload.loss {
        Some(loss) => Some(Figure::Measured(loss)),
        None => None,
    };
    let fresh = ServerStatus {
        id: payload.id.clone(),
        name: reported.clone(),
        country,
        city,
        cpu: Figure::Measured(payload.cpu),
        load1: Figure::Measured(payload.load[0]),
        load5: Figure::Measured(payload.load[1]),
        load15: Figure::Measured(payload.load[2]),
        mem_used: Figure::Measured(payload.mem_used),
        mem_total: Figure::Measured(payload.mem_total),
        disk_used: Figure::Measured(payload.disk_used),
        disk_total: Figure::Measured(payload.disk_total),
        net_rx: Figure::Measured(payload.net_rx),
        net_tx: Figure::Measured(payload.net_tx),
        cum_in: Figure::Count(0),
        cum_out: Figure::Count(0),
        last_raw_in: Figure::Measured(payload.traffic_in),
        last_raw_out: Figure::Measured(payload.traffic_out),
        traffic_start: Some(now.to_rfc3339()),
        traffic_limit: Figure::Count(0),
        traffic_notify_percent: Figure::Count(DEFAULT_NOTIFY_PERCENT),
        traffic_reset_day: 0,
        last_auto_reset_ym: None,
        uptime: payload.uptime,
        latency_telecom: telecom,
        latency_unicom: unicom,
        latency_mobile: mobile,
        packet_loss,
        last_seen: *now,
        token: None,
    };
    let row = match existing {
        None => fresh,
        Some(old) => {
            let rebooted = payload.uptime < old.uptime;
            let gained_in = counter_increment(
                facts.in_not_below,
                rebooted,
                payload.traffic_in,
                old.last_raw_in,
            );
            let gained_out = counter_increment(
                facts.out_not_below,
                rebooted,
                payload.traffic_out,
                old.last_raw_out,
            );
            ServerStatus {
                id: old.id,
                name: old.name,
                country: if fresh.country.is_some() {
                    fresh.country
                } else {
                    old.country
                },
                city: if fresh.city.is_some() {
                    fresh.city
                } else {
                    old.city
                },
                cum_in: Figure::Sum(Box::new(old.cum_in), Box::new(gained_in)),
                cum_out: Figure::Sum(Box::new(old.cum_out), Box::new(gained_out)),
                traffic_start: old.traffic_start,
                traffic_limit: old.traffic_limit,
                traffic_notify_percent: old.traffic_notify_percent,
                traffic_reset_day: old.traffic_reset_day,
                last_auto_reset_ym: old.last_auto_reset_ym,
                token: old.token,
                ..fresh
            }
        },
    };
    let result = UpsertResult {
        id: payload.id.clone(),
        name: reported,
        cpu: row.cpu.copy(),
        mem_used: row.mem_used.copy(),
        mem_total: row.mem_total.copy(),
        cum_in: row.cum_in.copy(),
        cum_out: row.cum_out.copy(),
        traffic_limit: row.traffic_limit.copy(),
        traffic_notify_percent: row.traffic_notify_percent.copy(),
    };
    (row, result)
}

/// The first second of the calendar's last month, whose end the calendar cannot name.
pub const LAST_MONTH_SECS: i64 = 8210264198400;

/// The last day of a month. Month 0 stands for the December before month 1.
pub fn last_day_of_month(year: i32, month: u32) -> (r: u32)
    requires
        MIN_YEAR <= year <= MAX_YEAR,
        month <= 12,
        !(year == MIN_YEAR && month == 0),
        !(year == MAX_YEAR && month == 12),
    ensures
        r == moment::month_length(year as int, month as int),
{
    let (next_year, next_month): (i32, u32) = if month == 12 {
        (year + 1, 1)
    } else {
        (year, month + 1)
    };
    match day_before(next_year, next_month, 1) {
        Some(last) => {
            proof {
                let found = (last.year as int, last.month as int, last.day as int);
                let (y, m) = if month == 0 {
                    (year - 1, 12int)
                } else {
                    (year as int, month as int)
                };
                moment::law_month_follows_month(y, m);
                moment::law_day_numbers_differ(found, (y, m, moment::month_length(y, m)));
            }
            last.day
        },
        None => {
            assert(false);
            0
        },
    }
}

/// The day of the month of an instant.
pub open spec fn day_of(now: Moment) -> int {
    moment::civil_date(now.secs as int / SECS_PER_DAY as int).2
}

/// How many days the month of an instant has.
pub open spec fn length_of_month(now: Moment) -> int {
    let date = moment::civil_date(now.secs as int / SECS_PER_DAY as int);
    moment::month_length(date.0, date.1)
}

/// The day on which a machine's account starts anew in a month of `length` days: the set one,
/// or the month's last where the month is shorter.
pub open spec fn effective_day(reset_day: i64, length: int) -> int {
    if reset_day < length {
        reset_day as int
    } else {
        length
    }
}

/// Whether a machine's account is to start anew: the day has come this month, whether today or
/// before, and the account has not been reset this month.
pub open spec fn reset_due<S, D>(row: ServerRow<S, D>, now: Moment) -> bool {
    &&& row.traffic_reset_day > 0
    &&& row.last_auto_reset_ym != Some(moment::month_of(now))
    &&& day_of(now) >= effective_day(row.traffic_reset_day, length_of_month(now))
}

/// A machine with its traffic account started anew.
pub open spec fn reset_row<S, D>(row: ServerRow<S, D>, now: Moment) -> ServerRow<S, D> {
    ServerRow {
        cum_in: Figure::Count(0),
        cum_out: Figure::Count(0),
        traffic_start: Some(moment::rfc3339(now.secs as int, now.nanos as int)),
        last_auto_reset_ym: Some(moment::month_of(now)),
        ..row
    }
}

/// What a list of machines holds.
pub open spec fn rows_of<S, D>(servers: Seq<ServerStatus<S, D>>) -> Seq<ServerRow<S, D>> {
    servers.map_values(|s: ServerStatus<S, D>| s@)
}

/// The machines after those that are due have been reset.
pub open spec fn auto_reset_rows<S, D>(rows: Seq<ServerRow<S, D>>, now: Moment) -> Seq<
    ServerRow<S, D>,
> {
    rows.map_values(
        |row: ServerRow<S, D>|
            if reset_due(row, now) {
                reset_row(row, now)
            } else {
                row
            },
    )
}

/// The ids and names of the machines that are due, in order.
pub open spec fn due_names<S, D>(rows: Seq<ServerRow<S, D>>, now: Moment) -> Seq<
    (Seq<char>, Seq<char>),
>
    decreases rows.len(),
{
    if rows.len() == 0 {
        seq![]
    } else {
        let before = due_names(rows.drop_last(), now);
        if reset_due(rows.last(), now) {
            before.push((rows.last().id, rows.last().name))
        } else {
            before
        }
    }
}

/// What a list of pairs of strings holds.
pub open spec fn pairs_of(pairs: Seq<(String, String)>) -> Seq<(Seq<char>, Seq<char>)> {
    pairs.map_values(|p: (String, String)| (p.0@, p.1@))
}

proof fn lemma_last_month(year: int, month: int, day: int)
    requires
        moment::valid_date(year, month, day),
        year == MAX_YEAR,
        month == 12,
    ensures
        moment::day_number(year, month, day) * SECS_PER_DAY >= LAST_MONTH_SECS,
{
    moment::law_month_follows_month(MAX_YEAR as int, 12);
}

/// Starts the traffic account of a machine anew and notes the month.
fn start_account_anew<S, D>(row: &mut ServerStatus<S, D>, now: &Moment)
    requires
        now.wf(),
    ensures
        final(row)@ == reset_row(old(row)@, *now),
{
    row.cum_in = Figure::Count(0);
    row.cum_out = Figure::Count(0);
    row.traffic_start = Some(now.to_rfc3339());
    row.last_auto_reset_ym = Some(year_month(now));
}

/// Resets the traffic account of every machine whose day has come, and lists the ids and names
/// of those machines. A day that passed while nothing ran is made up for later in the month.
pub fn auto_reset_due_traffic<S, D>(servers: &mut Vec<ServerStatus<S, D>>, now: &Moment) -> (r: Vec<
    (String, String),
>)
    requires
        now.wf(),
        now.secs < LAST_MONTH_SECS,
    ensures
        rows_of(final(servers)@) == auto_reset_rows(rows_of(old(servers)@), *now),
        pairs_of(r@) == due_names(rows_of(old(servers)@), *now),
{
    let date = utc_date(now);
    proof {
        moment::law_civil_date(date.year as int, date.month as int, date.day as int);
        if date.year == MAX_YEAR && date.month == 12 {
            lemma_last_month(date.year as int, date.month as int, date.day as int);
        }
    }
    let this_month = year_month(now);
    let last_day: u32 = last_day_of_month(date.year, date.month);
    let mut reset: Vec<(String, String)> = Vec::new();
    let ghost before = rows_of(servers@);
    let n: usize = servers.len();
    let mut i: usize = 0;
    while i < n
        invariant
            now.wf(),
            n == servers@.len(),
            n == before.len(),
            i <= n,
            this_month@ == moment::month_of(*now),
            date.day == day_of(*now),
            last_day == length_of_month(*now),
            forall|j: int|
                #![trigger servers@[j]]
                0 <= j < i ==> servers@[j]@ == auto_reset_rows(before, *now)[j],
            forall|j: int| #![trigger servers@[j]] i <= j < n ==> servers@[j]@ == before[j],
            pairs_of(reset@) == due_names(before.take(i as int), *now),
        decreases n - i,
    {
        let row = &mut servers[i];
        let done = match &row.last_auto_reset_ym {
            Some(month) => *month == this_month,
            None => false,
        };
        let day: i64 = if row.traffic_reset_day < last_day as i64 {
            row.traffic_reset_day
        } else {
            last_day as i64
        };
        if row.traffic_reset_day > 0 && !done && date.day as i64 >= day {
            reset.push((row.id.clone(), row.name.clone()));
            start_account_anew(row, now);
        }
        proof {
            assert(before.take(i + 1).drop_last() =~= before.take(i as int));
            assert(pairs_of(reset@) =~= due_names(before.take(i + 1), *now));
        }
        i = i + 1;
    }
    assert(before.take(n as int) =~= before);
    reset
}

/// What an optional machine holds.
pub open spec fn row_of<S, D>(row: Option<ServerStatus<S, D>>) -> Option<ServerRow<S, D>> {
    match row {
        Some(s) => Some(s@),
        None => None,
    }
}

/// Starts the traffic account of a machine anew, if there is such a machine. The month counts
/// as dealt with, so that no automatic reset follows in it.
pub fn reset_traffic<S, D>(row: &mut Option<ServerStatus<S, D>>, now: &Moment)
    requires
        now.wf(),
    ensures
        row_of(*final(row)) == match row_of(*old(row)) {
            Some(s) => Some(reset_row(s, *now)),
            None => None,
        },
{
    match row {
        Some(s) => start_account_anew(s, now),
        None => {},
    }
}

/// A machine under another display name.
pub open spec fn renamed_row<S, D>(row: ServerRow<S, D>, name: Seq<char>) -> ServerRow<S, D> {
    ServerRow { name: text::clipped(name, NAME_CHARS as nat), ..row }
}

/// Gives a machine another display name, cut to length, if there is such a machine.
pub fn rename_server<S, D>(row: &mut Option<ServerStatus<S, D>>, name: &str)
    ensures
        row_of(*final(row)) == match row_of(*old(row)) {
            Some(s) => Some(renamed_row(s, name@)),
            None => None,
        },
{
    match row {
        Some(s) => {
            s.name = clip(name, NAME_CHARS);
        },
        None => {},
    }
}

/// The reset day to store: a day of the month, or 0 for anything else.
pub open spec fn stored_reset_day(day: i64) -> i64 {
    if 1 <= day <= 31 {
        day
    } else {
        0
    }
}

/// A machine with another traffic limit.
pub open spec fn limited_row<S, D>(
    row: ServerRow<S, D>,
    limit: D,
    percent: D,
    reset_day: i64,
) -> ServerRow<S, D> {
    ServerRow {
        traffic_limit: Figure::Measured(limit),
        traffic_notify_percent: Figure::Measured(percent),
        traffic_reset_day: stored_reset_day(reset_day),
        ..row
    }
}

/// Sets a machine's traffic limit, the share of it at which to give notice and the day of its
/// monthly reset, if there is such a machine.
pub fn update_traffic_limit<S, D>(
    row: &mut Option<ServerStatus<S, D>>,
    limit: D,
    percent: D,
    reset_day: i64,
)
    ensures
        row_of(*final(row)) == match row_of(*old(row)) {
            Some(s) => Some(limited_row(s, limit, percent, reset_day)),
            None => None,
        },
{
    match row {
        Some(s) => {
            s.traffic_limit = Figure::Measured(limit);
            s.traffic_notify_percent = Figure::Measured(percent);
            s.traffic_reset_day = if 1 <= reset_day && reset_day <= 31 {
                reset_day
            } else {
                0
            };
        },
        None => {},
    }
}

/// A machine that is registered and has not reported yet.
pub open spec fn registered_row<S, D>(
    id: Seq<char>,
    name: Seq<char>,
    token: Seq<char>,
    now: Moment,
) -> ServerRow<S, D> {
    ServerRow {
        id,
        name: text::clipped(name, NAME_CHARS as nat),
        country: None,
        city: None,
        cpu: Figure::Count(0),
        load1: Figure::Count(0),
        load5: Figure::Count(0),
        load15: Figure::Count(0),
        mem_used: Figure::Count(0),
        mem_total: Figure::Count(0),
        disk_used: Figure::Count(0),
        disk_total: Figure::Count(0),
        net_rx: Figure::Count(0),
        net_tx: Figure::Count(0),
        cum_in: Figure::Count(0),
        cum_out: Figure::Count(0),
        last_raw_in: Figure::Count(0),
        last_raw_out: Figure::Count(0),
        traffic_start: None,
        traffic_limit: Figure::Count(0),
        traffic_notify_percent: Figure::Count(DEFAULT_NOTIFY_PERCENT),
        traffic_reset_day: 0,
        last_auto_reset_ym: None,
        uptime: 0,
        latency_telecom: None,
        latency_unicom: None,
        latency_mobile: None,
        packet_loss: None,
        last_seen: now,
        token: Some(token),
    }
}

/// Registers a machine under a token: a row that holds no report yet.
pub fn register_agent<S, D>(id: &str, name: &str, token: &str, now: &Moment) -> (r: ServerStatus<
    S,
    D,
>)
    requires
        now.wf(),
    ensures
        r@ == registered_row::<S, D>(id@, name@, token@, *now),
        r@.wf(),
{
    ServerStatus {
        id: id.to_owned(),
        name: clip(name, NAME_CHARS),
        country: None,
        city: None,
        cpu: Figure::Count(0),
        load1: Figure::Count(0),
        load5: Figure::Count(0),
        load15: Figure::Count(0),
        mem_used: Figure::Count(0),
        mem_total: Figure::Count(0),
        disk_used: Figure::Count(0),
        disk_total: Figure::Count(0),
        net_rx: Figure::Count(0),
        net_tx: Figure::Count(0),
        cum_in: Figure::Count(0),
        cum_out: Figure::Count(0),
        last_raw_in: Figure::Count(0),
        last_raw_out: Figure::Count(0),
        traffic_start: None,
        traffic_limit: Figure::Count(0),
        traffic_notify_percent: Figure::Count(DEFAULT_NOTIFY_PERCENT),
        traffic_reset_day: 0,
        last_auto_reset_ym: None,
        uptime: 0,
        latency_telecom: None,
        latency_unicom: None,
        latency_mobile: None,
        packet_loss: None,
        last_seen: *now,
        token: Some(token.to_owned()),
    }
}

/// Registers a machine under a new random token. Returns its row and the token.
pub fn create_agent<S, D>(id: &str, name: &str, now: &Moment) -> (r: (ServerStatus<S, D>, String))
    requires
        now.wf(),
    ensures
        r.0@ == registered_row::<S, D>(id@, name@, r.1@, *now),
        r.0@.wf(),
        token_shape(r.1@),
{
    let token = gen_random_token();
    let row = register_agent(id, name, token.as_str(), now);
    (row, token)
}

/// The token of the machine that was looked up: `row` is what is stored of it, if anything.
pub fn get_agent_token(row: Option<Option<String>>) -> (r: Option<String>)
    ensures
        r == match row {
            Some(token) => token,
            None => None,
        },
{
    match row {
        Some(token) => token,
        None => None,
    }
}

/// A machine with another token.
pub open spec fn row_with_token<S, D>(row: ServerRow<S, D>, token: Seq<char>) -> ServerRow<S, D> {
    ServerRow { token: Some(token), ..row }
}

/// Puts a token in the place of the one that a machine has, if there is such a machine.
pub fn replace_token<S, D>(row: &mut Option<ServerStatus<S, D>>, token: &str)
    ensures
        row_of(*final(row)) == match row_of(*old(row)) {
            Some(s) => Some(row_with_token(s, token@)),
            None => None,
        },
{
    match row {
        Some(s) => {
            s.token = Some(token.to_owned());
        },
        None => {},
    }
}

/// Gives a machine a new random token, which takes the place of the one it has, and returns it.
pub fn rotate_agent_token<S, D>(row: &mut Option<ServerStatus<S, D>>) -> (r: String)
    ensures
        row_of(*final(row)) == match row_of(*old(row)) {
            Some(s) => Some(row_with_token(s, r@)),
            None => None,
        },
        token_shape(r@),
{
    let token = gen_random_token();
    replace_token(row, token.as_str());
    token
}

/// Whether a machine is stored without a token: there is none, or an empty one.
pub open spec fn lacks_token(token: Option<Seq<char>>) -> bool {
    token is None || token->0.len() == 0
}

/// The ids of the machines without a token, in order.
pub open spec fn ids_without_token(machines: Seq<(String, Option<String>)>) -> Seq<Seq<char>>
    decreases machines.len(),
{
    if machines.len() == 0 {
        seq![]
    } else {
        let before = ids_without_token(machines.drop_last());
        if lacks_token(text::text_view(machines.last().1)) {
            before.push(machines.last().0@)
        } else {
            before
        }
    }
}

proof fn lemma_ids_without_token(machines: Seq<(String, Option<String>)>, k: int)
    requires
        0 <= k <= machines.len(),
    ensures
        ids_without_token(machines.take(k)).len() <= ids_without_token(machines).len(),
    decreases machines.len(),
{
    if k < machines.len() {
        lemma_ids_without_token(machines.drop_last(), k);
        assert(machines.drop_last().take(k) =~= machines.take(k));
    } else {
        assert(machines.take(k) =~= machines);
    }
}

fn is_without_token(token: &Option<String>) -> (r: bool)
    ensures
        r == lacks_token(text::text_view(*token)),
{
    match token {
        Some(t) => t.as_str().is_empty(),
        None => true,
    }
}

/// Issues a token to every machine without one, each from bytes of its own: the first such
/// machine's from the first bytes drawn, and so on. Returns the ids with their tokens.
pub fn issue_tokens(machines: &Vec<(String, Option<String>)>, drawn: &Vec<[u8; 32]>) -> (r: Vec<
    (String, String),
>)
    requires
        drawn@.len() == ids_without_token(machines@).len(),
    ensures
        r@.map_values(|p: (String, String)| p.0@) == ids_without_token(machines@),
        forall|k: int| 0 <= k < r@.len() ==> (#[trigger] r@[k]).1@ == text::hex(drawn@[k]@),
{
    let mut issued: Vec<(String, String)> = Vec::new();
    let n: usize = machines.len();
    let mut i: usize = 0;
    while i < n
        invariant
            n == machines@.len(),
            i <= n,
            drawn@.len() == ids_without_token(machines@).len(),
            issued@.map_values(|p: (String, String)| p.0@) == ids_without_token(
                machines@.take(i as int),
            ),
            forall|k: int|
                0 <= k < issued@.len() ==> (#[trigger] issued@[k]).1@ == text::hex(drawn@[k]@),
        decreases n - i,
    {
        proof {
            let next = machines@.take(i + 1);
            assert(next.drop_last() =~= machines@.take(i as int));
            lemma_ids_without_token(machines@, i + 1);
            assert(issued@.map_values(|p: (String, String)| p.0@).len() == issued@.len());
        }
        if is_without_token(&machines[i].1) {
            let token = token_text(&drawn[issued.len()]);
            issued.push((machines[i].0.clone(), token));
        }
        assert(issued@.map_values(|p: (String, String)| p.0@) =~= ids_without_token(
            machines@.take(i + 1),
        ));
        i = i + 1;
    }
    assert(machines@.take(n as int) =~= machines@);
    issued
}

/// The step that readies a database for use: every machine in it that has no token, such as one
/// registered before machines had tokens of their own, is issued a new random one. Takes the ids
/// and tokens stored, and returns the ids that lack a token with the tokens to store for them.
pub fn init_db(machines: &Vec<(String, Option<String>)>) -> (r: Vec<(String, String)>)
    ensures
        r@.map_values(|p: (String, String)| p.0@) == ids_without_token(machines@),
        forall|i: int| 0 <= i < r@.len() ==> token_shape(#[trigger] r@[i].1@),
{
    let mut drawn: Vec<[u8; 32]> = Vec::new();
    let n: usize = machines.len();
    let mut i: usize = 0;
    while i < n
        invariant
            n == machines@.len(),
            i <= n,
            drawn@.len() == ids_without_token(machines@.take(i as int)).len(),
        decreases n - i,
    {
        assert(machines@.take(i + 1).drop_last() =~= machines@.take(i as int));
        if is_without_token(&machines[i].1) {
            drawn.push(draw());
        }
        i = i + 1;
    }
    assert(machines@.take(n as int) =~= machines@);
    let issued = issue_tokens(machines, &drawn);
    proof {
        assert forall|k: int| 0 <= k < issued@.len() implies token_shape(
            #[trigger] issued@[k].1@,
        ) by {
            text::law_hex_shape(drawn@[k]@);
        }
    }
    issued
}

/// The administrator's account as stored.
#[derive(Debug)]
pub struct AdminAccount {
    pub username: String,
    pub password_hash: String,
    pub created_at: String,
}

/// The administrator's account to store.
pub fn create_admin(username: &str, password_hash: &str, now: &Moment) -> (r: AdminAccount)
    requires
        now.wf(),
    ensures
        r.username@ == username@,
        r.password_hash@ == password_hash@,
        r.created_at@ == moment::rfc3339(now.secs as int, now.nanos as int),
{
    AdminAccount {
        username: username.to_owned(),
        password_hash: password_hash.to_owned(),
        created_at: now.to_rfc3339(),
    }
}

/// How long a login lasts.
pub const SESSION_TTL_DAYS: i64 = 30;

/// A login as stored.
#[derive(Debug)]
pub struct Session {
    pub token: String,
    pub created_at: String,
    pub expires_at: String,
}

/// The session under `token` that starts at `now`.
pub fn session_from(token: String, now: &Moment) -> (r: Session)
    requires
        now.wf(),
        now.ordinary(),
        now.secs + SESSION_TTL_DAYS * SECS_PER_DAY <= moment::MAX_SECS,
    ensures
        r.token == token,
        r.created_at@ == moment::rfc3339(now.secs as int, now.nanos as int),
        r.expires_at@ == moment::rfc3339(
            now.secs + SESSION_TTL_DAYS * SECS_PER_DAY,
            now.nanos as int,
        ),
        session_end(*now).four_digit_year() ==> moment::moment_named(r.expires_at@) == Some(
            session_end(*now),
        ),
{
    match shifted(now, SESSION_TTL_DAYS * SECS_PER_DAY) {
        Some(end) => Session {
            token,
            created_at: now.to_rfc3339(),
            expires_at: end.to_rfc3339(),
        },
        None => {
            assert(false);
            Session { token, created_at: now.to_rfc3339(), expires_at: now.to_rfc3339() }
        },
    }
}

/// The end of a session that starts at `now`.
pub open spec fn session_end(now: Moment) -> Moment {
    Moment { secs: (now.secs + SESSION_TTL_DAYS * SECS_PER_DAY) as i64, nanos: now.nanos }
}

/// A session under a new random token that starts at `now`.
pub fn create_session(now: &Moment) -> (r: Session)
    requires
        now.wf(),
        now.ordinary(),
        now.secs + SESSION_TTL_DAYS * SECS_PER_DAY <= moment::MAX_SECS,
    ensures
        token_shape(r.token@),
        r.created_at@ == moment::rfc3339(now.secs as int, now.nanos as int),
        r.expires_at@ == moment::rfc3339(
            now.secs + SESSION_TTL_DAYS * SECS_PER_DAY,
            now.nanos as int,
        ),
        session_end(*now).four_digit_year() ==> moment::moment_named(r.expires_at@) == Some(
            session_end(*now),
        ),
{
    session_from(gen_random_token(), now)
}

/// What is to be made of a session's token.
#[derive(Clone, Copy, Debug, PartialEq, Eq, Structural)]
pub enum SessionState {
    /// No session has the token.
    Unknown,
    /// The session has ended, and is to be removed.
    Ended,
    /// The session is valid.
    Live,
}

/// What is to be made of a session: `found` is its end, if there is such a session and its end
/// can be read. An end that cannot be read counts as past.
pub open spec fn session_state(found: Option<Option<Moment>>, now: Moment) -> SessionState {
    match found {
        None => SessionState::Unknown,
        Some(None) => SessionState::Ended,
        Some(Some(end)) => if end.precedes(&now) {
            SessionState::Ended
        } else {
            SessionState::Live
        },
    }
}

/// The end of a session as read from its stored text, if there is such a session.
pub open spec fn session_end_found(expires_at: Option<Seq<char>>) -> Option<Option<Moment>> {
    match expires_at {
        None => None,
        Some(text) => Some(moment::moment_named(text)),
    }
}

/// What is to be made at `now` of a session with the given end.
pub fn judge_session(found: &Option<Option<Moment>>, now: &Moment) -> (r: SessionState)
    ensures
        r == session_state(*found, *now),
{
    match found {
        None => SessionState::Unknown,
        Some(None) => SessionState::Ended,
        Some(Some(end)) => if end.is_before(now) {
            SessionState::Ended
        } else {
            SessionState::Live
        },
    }
}

/// Whether a session is valid at `now`, given its stored end if there is such a session.
pub fn session_valid(expires_at: &Option<String>, now: &Moment) -> (r: SessionState)
    ensures
        r == session_state(session_end_found(text::text_view(*expires_at)), *now),
{
    let found = match expires_at {
        None => None,
        Some(text) => Some(Moment::parse_rfc3339(text.as_str())),
    };
    judge_session(&found, now)
}

/// A request to start a machine's traffic account anew.
#[derive(Debug)]
pub struct AdminResetTraffic {
    pub id: String,
}

/// A request to give a machine another display name.
#[derive(Debug)]
pub struct AdminRename {
    pub id: String,
    pub name: String,
}

/// A request to set a machine's traffic limit.
#[derive(Debug)]
pub struct AdminUpdateTrafficLimit<D> {
    pub id: String,
    pub traffic_limit: D,
    pub traffic_notify_percent: D,
    /// The day of the month to reset the account on; 0 for none.
    pub traffic_reset_day: i64,
}

/// A request to change how alerts are sent.
#[derive(Debug)]
pub struct AdminNotifySettings<S> {
    pub telegram_enabled: bool,
    pub telegram_bot_token: String,
    pub telegram_chat_id: String,
    pub webhook_enabled: bool,
    pub webhook_url: String,
    pub offline_minutes: i64,
    pub cpu_threshold: S,
    pub mem_threshold: S,
}

} // verus!
