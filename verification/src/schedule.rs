//! Commercial breaks and timed notices: when they run and what running
//! them does.
use crate::action::{
    channel_key, chan_key, effects, emit, opt_view, say, store2, store3, Action, CallView, Effect,
    HttpCall, Method, Service,
};
use crate::commands::lower_is;
use crate::clock::{units_since, units_since_value};
use crate::text::{
    concat2, concat3, decimal, decimal_string, lowercase, parse_u16, parse_u64, parse_unsigned,
    same_text, split_words, views, words,
};
use vstd::prelude::*;

verus! {

/// What the store holds that a commercial break reads.
pub struct CommercialState {
    /// The channel's Twitch id.
    pub id: String,
    /// The stored sub-only-during-commercials flag.
    pub submode: String,
    /// The message of the command to run at the start of a break, when one is set.
    pub notice_message: Option<String>,
    /// How many recent breaks are recorded.
    pub recent_count: u16,
    /// The current time, RFC 3339.
    pub now: String,
}

/// The web request that starts a break of `n` thirty-second commercials.
pub open spec fn commercial_call(id: Seq<char>, n: nat) -> CallView {
    CallView {
        method: Method::Post,
        service: Service::Kraken,
        url: "https://api.twitch.tv/kraken/channels/"@ + id + "/commercial"@,
        content_type: Some("application/json"@),
        body: Some("{\"length\": "@ + decimal(n * 30) + "}"@),
    }
}

/// What running a break of `n` commercials does: records it (keeping at most
/// eight records), turns sub-only mode on for its length when the channel
/// asks, runs the notice command, logs, announces and starts it.  `label` is
/// how the announcement counts the commercials; `direct` sends the notice and
/// the announcement as they are rather than through the usual path.
pub open spec fn run_effects(
    c: Seq<char>,
    label: Seq<char>,
    n: nat,
    id: Seq<char>,
    submode: Seq<char>,
    notice: Option<Seq<char>>,
    recent_count: nat,
    now: Seq<char>,
    direct: bool,
) -> Seq<Effect> {
    let recent = chan_key(c, "commercials:recent"@);
    let line = label + " commercials have been run"@;
    seq![Effect::Store(seq!["lpush"@, recent, now + " "@ + decimal(n)])] + (if recent_count > 7 {
        seq![Effect::Store(seq!["rpop"@, recent])]
    } else {
        seq![]
    }) + (if submode == "true"@ {
        seq![Effect::Post("/subscribers"@), Effect::PostLater(n * 30, "/subscribersoff"@)]
    } else {
        seq![]
    }) + (match notice {
        Some(m) => if direct {
            seq![Effect::Post(m)]
        } else {
            seq![Effect::Say(m)]
        },
        None => seq![],
    }) + seq![
        Effect::Log("run_commercials"@, line),
        if direct {
            Effect::Post(line)
        } else {
            Effect::Say(line)
        },
        Effect::Call(commercial_call(id, n)),
    ]
}

fn run_break(
    channel: &str,
    label: &str,
    n: u64,
    st: &CommercialState,
    direct: bool,
    r: &mut Vec<Action>,
)
    requires
        n * 30 <= u64::MAX,
    ensures
        effects(final(r)@) == effects(old(r)@) + run_effects(
            channel@,
            label@,
            n as nat,
            st.id@,
            st.submode@,
            opt_view(st.notice_message),
            st.recent_count as nat,
            st.now@,
            direct,
        ),
{
    let recent = channel_key(channel, "commercials:recent");
    let count = decimal_string(n);
    let entry = concat3(st.now.as_str(), " ", count.as_str());
    emit(r, store3("lpush", recent.as_str(), entry.as_str()));
    if st.recent_count > 7 {
        emit(r, store2("rpop", recent.as_str()));
    }
    if same_text(st.submode.as_str(), "true") {
        emit(r, Action::Post("/subscribers".to_owned()));
        emit(r, Action::PostLater(n * 30, "/subscribersoff".to_owned()));
    }
    match &st.notice_message {
        Some(m) => {
            if direct {
                emit(r, Action::Post(m.clone()));
            } else {
                emit(r, Action::Say(m.clone()));
            }
        },
        None => {},
    }
    let line = concat2(label, " commercials have been run");
    emit(r, Action::Log("run_commercials".to_owned(), line.clone()));
    if direct {
        emit(r, Action::Post(line.clone()));
    } else {
        emit(r, Action::Say(line.clone()));
    }
    let length = decimal_string(n * 30);
    let call = HttpCall {
        method: Method::Post,
        service: Service::Kraken,
        url: concat3("https://api.twitch.tv/kraken/channels/", st.id.as_str(), "/commercial"),
        content_type: Some("application/json".to_owned()),
        body: Some(concat3("{\"length\": ", length.as_str(), "}")),
    };
    emit(r, Action::Call(call));
    assert(effects(r@) =~= effects(old(r)@) + run_effects(
        channel@,
        label@,
        n as nat,
        st.id@,
        st.submode@,
        opt_view(st.notice_message),
        st.recent_count as nat,
        st.now@,
        direct,
    ));
}

/// A break may not start within eight minutes of the last one (the bot
/// counts up to nine whole minutes).
pub open spec fn too_soon(minutes_since_last: Option<i64>) -> bool {
    match minutes_since_last {
        Some(m) => m <= 9,
        None => false,
    }
}

/// What `!commercials run <n>` does with a parsed count.
pub open spec fn run_cmd_effects(
    c: Seq<char>,
    a1: Seq<char>,
    n: nat,
    minutes_since_last: Option<i64>,
    st: CommercialState,
) -> Seq<Effect> {
    if 0 < n && n < 7 {
        if too_soon(minutes_since_last) {
            seq![Effect::Say("Commercials can't be run within eight minutes of each other"@)]
        } else {
            run_effects(
                c,
                a1,
                n,
                st.id@,
                st.submode@,
                opt_view(st.notice_message),
                st.recent_count as nat,
                st.now@,
                false,
            )
        }
    } else {
        seq![Effect::Say(a1 + " must be a number between one and six"@)]
    }
}

/// What `!commercials submode on|off`, `notice <command>`, `hourly <n>` and
/// `run <n>` do.  `notice_exists` tells whether the command `args[1]`
/// exists; `minutes_since_last` is the age of the latest recorded break.
pub open spec fn commercials_effects(
    c: Seq<char>,
    a: Seq<Seq<char>>,
    notice_exists: bool,
    minutes_since_last: Option<i64>,
    st: CommercialState,
) -> Seq<Effect> {
    if a.len() > 1 {
        let s0 = lowercase(a[0]);
        if s0 == "submode"@ {
            let s1 = lowercase(a[1]);
            if s1 == "on"@ {
                seq![
                    Effect::Store(seq!["set"@, chan_key(c, "commercials:submode"@), "true"@]),
                    Effect::Say("Submode during commercials has been turned on"@),
                ]
            } else if s1 == "off"@ {
                seq![
                    Effect::Store(seq!["set"@, chan_key(c, "commercials:submode"@), "false"@]),
                    Effect::Say("Submode during commercials has been turned off"@),
                ]
            } else {
                seq![]
            }
        } else if s0 == "notice"@ {
            if notice_exists {
                seq![
                    Effect::Store(seq!["set"@, chan_key(c, "commercials:notice"@), a[1]]),
                    Effect::Say(a[1] + " will be run at the start of commercials"@),
                ]
            } else {
                seq![Effect::Say(a[1] + " is not an existing command"@)]
            }
        } else if s0 == "hourly"@ {
            match parse_unsigned(a[1], 65535) {
                Some(_) => seq![
                    Effect::Store(seq!["set"@, chan_key(c, "commercials:hourly"@), a[1]]),
                    Effect::Say(a[1] + " commercials will be run each hour"@),
                ],
                None => seq![Effect::Say(a[1] + " could not be parsed as a number"@)],
            }
        } else if s0 == "run"@ {
            match parse_unsigned(a[1], u64::MAX as nat) {
                Some(n) => run_cmd_effects(c, a[1], n, minutes_since_last, st),
                None => seq![Effect::Say(a[1] + " could not be parsed as a number"@)],
            }
        } else {
            seq![]
        }
    } else {
        seq![]
    }
}

/// `!commercials ...`.
pub fn commercials_cmd(
    channel: &str,
    args: &Vec<String>,
    notice_exists: bool,
    minutes_since_last: Option<i64>,
    st: &CommercialState,
) -> (r: Vec<Action>)
    ensures
        effects(r@) == commercials_effects(
            channel@,
            views(args@),
            notice_exists,
            minutes_since_last,
            *st,
        ),
{
    let mut r: Vec<Action> = Vec::new();
    assert(effects(r@) =~= seq![]);
    if args.len() > 1 {
        let a0 = args[0].as_str();
        let a1 = args[1].as_str();
        if lower_is(a0, "submode") {
            let key = channel_key(channel, "commercials:submode");
            if lower_is(a1, "on") {
                emit(&mut r, store3("set", key.as_str(), "true"));
                emit(&mut r, say("Submode during commercials has been turned on"));
            } else if lower_is(a1, "off") {
                emit(&mut r, store3("set", key.as_str(), "false"));
                emit(&mut r, say("Submode during commercials has been turned off"));
            }
        } else if lower_is(a0, "notice") {
            if notice_exists {
                let key = channel_key(channel, "commercials:notice");
                emit(&mut r, store3("set", key.as_str(), a1));
                emit(&mut r, Action::Say(concat2(a1, " will be run at the start of commercials")));
            } else {
                emit(&mut r, Action::Say(concat2(a1, " is not an existing command")));
            }
        } else if lower_is(a0, "hourly") {
            match parse_u16(a1) {
                Some(_) => {
                    let key = channel_key(channel, "commercials:hourly");
                    emit(&mut r, store3("set", key.as_str(), a1));
                    emit(&mut r, Action::Say(concat2(a1, " commercials will be run each hour")));
                },
                None => {
                    emit(&mut r, Action::Say(concat2(a1, " could not be parsed as a number")));
                },
            }
        } else if lower_is(a0, "run") {
            match parse_u64(a1) {
                Some(n) => {
                    if 0 < n && n < 7 {
                        let soon = match minutes_since_last {
                            Some(m) => m <= 9,
                            None => false,
                        };
                        if soon {
                            emit(
                                &mut r,
                                say("Commercials can't be run within eight minutes of each other"),
                            );
                        } else {
                            run_break(channel, a1, n, st, false, &mut r);
                        }
                    } else {
                        emit(
                            &mut r,
                            Action::Say(concat2(a1, " must be a number between one and six")),
                        );
                    }
                },
                None => {
                    emit(&mut r, Action::Say(concat2(a1, " could not be parsed as a number")));
                },
            }
        }
    }
    assert(effects(r@) =~= commercials_effects(
        channel@,
        views(args@),
        notice_exists,
        minutes_since_last,
        *st,
    ));
    r
}

// ---------------------------------------------------------------------------
/// One step of the hourly budget: a break recorded less than an hour ago
/// with a readable count uses up that many commercials, if that many are
/// left.
pub open spec fn budget_step(acc: nat, minutes_ago: int, count: Seq<char>) -> nat {
    if minutes_ago < 60 {
        match parse_unsigned(count, u64::MAX as nat) {
            Some(n) => if acc >= n {
                (acc - n) as nat
            } else {
                acc
            },
            None => acc,
        }
    } else {
        acc
    }
}

/// How many of the `hourly` commercials are left after the recorded breaks
/// (each: minutes since it ran, and its recorded count), taken in order.
pub open spec fn budget(hourly: nat, recent: Seq<(int, Seq<char>)>) -> nat
    decreases recent.len(),
{
    if recent.len() == 0 {
        hourly
    } else {
        let last = recent.last();
        budget_step(budget(hourly, recent.drop_last()), last.0, last.1)
    }
}

/// The model of the recorded breaks.
pub open spec fn recent_view(recent: Seq<(i64, String)>) -> Seq<(int, Seq<char>)> {
    recent.map_values(|e: (i64, String)| (e.0 as int, e.1@))
}

/// The budget never exceeds the hourly allowance.
pub proof fn lemma_budget_bounded(hourly: nat, recent: Seq<(int, Seq<char>)>)
    ensures
        budget(hourly, recent) <= hourly,
    decreases recent.len(),
{
    if recent.len() > 0 {
        lemma_budget_bounded(hourly, recent.drop_last());
    }
}

/// The commercials a recorded break takes from the hourly allowance: its
/// readable count when it ran less than an hour ago, else none.
pub open spec fn break_count(e: (int, Seq<char>)) -> nat {
    if e.0 < 60 {
        match parse_unsigned(e.1, u64::MAX as nat) {
            Some(n) => n,
            None => 0,
        }
    } else {
        0
    }
}

/// The commercials the recorded breaks of the last hour ran, all together.
pub open spec fn breaks_total(recent: Seq<(int, Seq<char>)>) -> nat
    decreases recent.len(),
{
    if recent.len() == 0 {
        0
    } else {
        breaks_total(recent.drop_last()) + break_count(recent.last())
    }
}

/// Every break of the last hour counts against the allowance, wherever it
/// stands among the records: the budget is never below the allowance less
/// all of them, and is exactly that when they fit in the allowance (a break
/// that would overdraw the allowance is skipped).
pub proof fn lemma_budget_counts_every_break(hourly: nat, recent: Seq<(int, Seq<char>)>)
    ensures
        hourly - breaks_total(recent) <= budget(hourly, recent) <= hourly,
        breaks_total(recent) <= hourly ==> budget(hourly, recent) == hourly - breaks_total(recent),
    decreases recent.len(),
{
    if recent.len() > 0 {
        lemma_budget_counts_every_break(hourly, recent.drop_last());
    }
}

/// A recorded break (`<time> <count>`) as the budget reads it at `now`:
/// the minutes since it ran and its count as written. Nothing when its time
/// cannot be read, or when a break of the last hour has no count.
pub open spec fn break_entry(now: (i64, u32), rec: Seq<char>) -> Option<(i64, Seq<char>)> {
    let w = words(rec);
    if w.len() == 0 {
        None
    } else {
        match units_since_value(now, w[0], 60) {
            Some(m) => if m < 60 && w.len() < 2 {
                None
            } else {
                Some((m, if w.len() > 1 { w[1] } else { seq![] }))
            },
            None => None,
        }
    }
}

/// The recorded breaks as the budget reads them, in order; nothing when one
/// of them cannot be read.
pub open spec fn break_entries(now: (i64, u32), recs: Seq<Seq<char>>) -> Option<Seq<(i64, Seq<char>)>>
    decreases recs.len(),
{
    if recs.len() == 0 {
        Some(seq![])
    } else {
        match (break_entries(now, recs.drop_last()), break_entry(now, recs.last())) {
            (Some(a), Some(e)) => Some(a.push(e)),
            _ => None,
        }
    }
}

/// Reads the recorded breaks `recs` at `now` for the budget; `None` when
/// one of them cannot be read (the check then fails).
pub fn break_records(now: (i64, u32), recs: &Vec<String>) -> (r: Option<Vec<(i64, String)>>)
    ensures
        match break_entries(now, views(recs@)) {
            Some(s) => r matches Some(v) && v@.map_values(|e: (i64, String)| (e.0, e.1@)) == s,
            None => r is None,
        },
{
    let mut out: Vec<(i64, String)> = Vec::new();
    let mut i: usize = 0;
    while i < recs.len()
        invariant
            i <= recs.len(),
            break_entries(now, views(recs@).take(i as int)) matches Some(s) && out@.map_values(
                |e: (i64, String)| (e.0, e.1@),
            ) == s,
        decreases recs.len() - i,
    {
        assert(views(recs@).take(i + 1).drop_last() =~= views(recs@).take(i as int));
        assert(views(recs@).take(i + 1).last() == recs@[i as int]@);
        let w = split_words(recs[i].as_str());
        if w.len() == 0 {
            proof {
                lemma_entries_stop(now, views(recs@), i as int);
            }
            return None;
        }
        let m = match units_since(now, w[0].as_str(), 60) {
            Some(m) => m,
            None => {
                proof {
                    lemma_entries_stop(now, views(recs@), i as int);
                }
                return None;
            },
        };
        if m < 60 && w.len() < 2 {
            proof {
                lemma_entries_stop(now, views(recs@), i as int);
            }
            return None;
        }
        let count = if w.len() > 1 { w[1].clone() } else { String::new() };
        let ghost before = out@;
        out.push((m, count));
        assert(out@.map_values(|e: (i64, String)| (e.0, e.1@)) =~= before.map_values(
            |e: (i64, String)| (e.0, e.1@),
        ).push((m, count@)));
        i = i + 1;
    }
    assert(views(recs@).take(recs.len() as int) =~= views(recs@));
    Some(out)
}

/// Once a record cannot be read, neither can the list of records.
proof fn lemma_entries_stop(now: (i64, u32), recs: Seq<Seq<char>>, i: int)
    requires
        0 <= i < recs.len(),
        break_entry(now, recs[i]) is None,
    ensures
        break_entries(now, recs) is None,
    decreases recs.len(),
{
    if i < recs.len() - 1 {
        assert(recs.drop_last()[i] == recs[i]);
        lemma_entries_stop(now, recs.drop_last(), i);
    }
}

/// How many of the `hourly` commercials are left after the recorded breaks.
pub fn commercial_budget(hourly: u64, recent: &Vec<(i64, String)>) -> (r: u64)
    ensures
        r as nat == budget(hourly as nat, recent_view(recent@)),
        r <= hourly,
{
    let ghost rv = recent_view(recent@);
    let mut acc = hourly;
    let mut i: usize = 0;
    while i < recent.len()
        invariant
            i <= recent.len(),
            rv == recent_view(recent@),
            acc as nat == budget(hourly as nat, rv.take(i as int)),
        decreases recent.len() - i,
    {
        assert(rv.take(i + 1).drop_last() =~= rv.take(i as int));
        let (m, count) = (recent[i].0, &recent[i].1);
        if m < 60 {
            match parse_u64(count.as_str()) {
                Some(n) => {
                    if acc >= n {
                        acc = acc - n;
                    }
                },
                None => {},
            }
        }
        i = i + 1;
    }
    assert(rv.take(recent.len() as int) =~= rv);
    proof {
        lemma_budget_bounded(hourly as nat, rv);
    }
    acc
}

/// What the periodic commercial check does for a live channel: runs the
/// commercials still due this hour, unless a break ran less than eight
/// minutes ago.
pub open spec fn auto_commercial_effects(
    c: Seq<char>,
    live: Seq<char>,
    due: nat,
    minutes_since_last: Option<i64>,
    st: CommercialState,
) -> Seq<Effect> {
    if live == "true"@ && due > 0 && !too_soon(minutes_since_last) {
        run_effects(
            c,
            decimal(due),
            due,
            st.id@,
            st.submode@,
            opt_view(st.notice_message),
            st.recent_count as nat,
            st.now@,
            true,
        )
    } else {
        seq![]
    }
}

/// The periodic commercial check; `due` is the budget left this hour.
pub fn auto_commercials(
    channel: &str,
    live: &str,
    due: u64,
    minutes_since_last: Option<i64>,
    st: &CommercialState,
) -> (r: Vec<Action>)
    requires
        due * 30 <= u64::MAX,
    ensures
        effects(r@) == auto_commercial_effects(channel@, live@, due as nat, minutes_since_last, *st),
{
    let mut r: Vec<Action> = Vec::new();
    assert(effects(r@) =~= seq![]);
    let soon = match minutes_since_last {
        Some(m) => m <= 9,
        None => false,
    };
    if same_text(live, "true") && due > 0 && !soon {
        let label = decimal_string(due);
        run_break(channel, label.as_str(), due, st, true, &mut r);
    }
    r
}


// ---------------------------------------------------------------------------
/// The stored countdown of a notice entry (its interval as written in its
/// key, and its countdown as stored), read as a number.
pub open spec fn countdown_of(e: (Seq<char>, Seq<char>)) -> Option<nat> {
    parse_unsigned(e.1, 65535)
}

/// A notice entry the periodic check can handle: its countdown is a number
/// that is either zero or at least a minute.
pub open spec fn countdown_ok(e: (Seq<char>, Seq<char>)) -> bool {
    match countdown_of(e) {
        Some(n) => n == 0 || n >= 60,
        None => false,
    }
}

/// The notice is due this minute: its countdown reaches zero.
pub open spec fn notice_ready(e: (Seq<char>, Seq<char>)) -> bool {
    match countdown_of(e) {
        Some(n) => n == 0 || n == 60,
        None => false,
    }
}

/// Every notice entry can be handled, and the interval of each due one is a number.
pub open spec fn notices_well_formed(entries: Seq<(Seq<char>, Seq<char>)>) -> bool {
    forall|i: int|
        0 <= i < entries.len() ==> countdown_ok(#[trigger] entries[i]) && (notice_ready(entries[i])
            ==> parse_unsigned(entries[i].0, 65535) is Some)
}

/// The longest interval among the due notices, or 0 when none is due.
pub open spec fn due_interval(entries: Seq<(Seq<char>, Seq<char>)>) -> nat
    decreases entries.len(),
{
    if entries.len() == 0 {
        0
    } else {
        let d = due_interval(entries.drop_last());
        let e = entries.last();
        if notice_ready(e) {
            let v = parse_unsigned(e.0, 65535).unwrap();
            if d > v {
                d
            } else {
                v
            }
        } else {
            d
        }
    }
}

/// The interval a notice entry's key names, read as a number.
pub open spec fn interval_of(e: (Seq<char>, Seq<char>)) -> Option<nat> {
    parse_unsigned(e.0, 65535)
}

proof fn lemma_due_is_longest(entries: Seq<(Seq<char>, Seq<char>)>)
    requires
        notices_well_formed(entries),
    ensures
        forall|i: int|
            0 <= i < entries.len() && notice_ready(#[trigger] entries[i]) ==> interval_of(entries[i])->0
                <= due_interval(entries),
        due_interval(entries) == 0 || exists|i: int|
            0 <= i < entries.len() && notice_ready(#[trigger] entries[i]) && interval_of(entries[i])
                == Some(due_interval(entries)),
    decreases entries.len(),
{
    if entries.len() > 0 {
        let p = entries.drop_last();
        assert forall|i: int| 0 <= i < p.len() implies countdown_ok(#[trigger] p[i]) && (notice_ready(p[i])
            ==> parse_unsigned(p[i].0, 65535) is Some) by {
            assert(p[i] == entries[i]);
        }
        lemma_due_is_longest(p);
        let last = entries.len() - 1;
        assert(entries[last] == entries.last());
        assert forall|i: int|
            0 <= i < entries.len() && notice_ready(#[trigger] entries[i]) implies interval_of(entries[i])->0
                <= due_interval(entries) by {
            if i < last {
                assert(p[i] == entries[i]);
            }
        }
        if due_interval(entries) != 0 {
            if due_interval(entries) != due_interval(p) {
                assert(notice_ready(entries[last]));
            } else {
                let i = choose|i: int|
                    0 <= i < p.len() && notice_ready(#[trigger] p[i]) && interval_of(p[i]) == Some(due_interval(p));
                assert(p[i] == entries[i]);
            }
        }
    }
}

/// The longest due notice runs: when several notices are due in the same
/// minute, the interval the check picks is due and at least as long as
/// every due one, whatever the order of the entries; its countdown starts
/// over; when none is due, none runs.
pub proof fn lemma_longest_due_notice_runs(c: Seq<char>, entries: Seq<(Seq<char>, Seq<char>)>)
    requires
        notices_well_formed(entries),
    ensures
        ({
            let (e, due) = notice_tick_effects(c, "true"@, entries);
            &&& forall|i: int|
                0 <= i < entries.len() && notice_ready(#[trigger] entries[i]) ==> interval_of(entries[i])->0 <= due
            &&& due == 0 || exists|i: int|
                0 <= i < entries.len() && notice_ready(#[trigger] entries[i]) && interval_of(entries[i]) == Some(due)
            &&& due != 0 ==> e.last() == Effect::Store(
                seq!["set"@, chan_key(c, "notices:"@ + decimal(due) + ":countdown"@), decimal(due)],
            )
        }),
{
    lemma_due_is_longest(entries);
}

/// The countdowns to decrease by a minute: those still running.
pub open spec fn countdown_steps(c: Seq<char>, entries: Seq<(Seq<char>, Seq<char>)>) -> Seq<Effect>
    decreases entries.len(),
{
    if entries.len() == 0 {
        seq![]
    } else {
        let e = entries.last();
        countdown_steps(c, entries.drop_last()) + (if countdown_of(e) != Some(0nat) {
            seq![
                Effect::Store(
                    seq!["decrby"@, chan_key(c, "notices:"@ + e.0 + ":countdown"@), "60"@],
                ),
            ]
        } else {
            seq![]
        })
    }
}

/// The model of notice entries.
pub open spec fn entries_view(v: Seq<(String, String)>) -> Seq<(Seq<char>, Seq<char>)> {
    v.map_values(|e: (String, String)| (e.0@, e.1@))
}

/// What the minute's notice check does for a channel: while live, every
/// running countdown goes down a minute, and the longest due interval (if
/// any) restarts its countdown; the caller then runs that interval's next
/// command.
pub open spec fn notice_tick_effects(
    c: Seq<char>,
    live: Seq<char>,
    entries: Seq<(Seq<char>, Seq<char>)>,
) -> (Seq<Effect>, nat) {
    if live == "true"@ {
        let due = due_interval(entries);
        (countdown_steps(c, entries) + (if due != 0 {
            seq![
                Effect::Store(
                    seq![
                        "set"@,
                        chan_key(c, "notices:"@ + decimal(due) + ":countdown"@),
                        decimal(due),
                    ],
                ),
            ]
        } else {
            seq![]
        }), due)
    } else {
        (seq![], 0)
    }
}

/// The minute's notice check; `entries` are the channel's notice intervals
/// (as their keys write them) with their stored countdowns.
pub fn notice_tick(channel: &str, live: &str, entries: &Vec<(String, String)>) -> (r: (
    Vec<Action>,
    u16,
))
    requires
        notices_well_formed(entries_view(entries@)),
    ensures
        (effects(r.0@), r.1 as nat) == notice_tick_effects(
            channel@,
            live@,
            entries_view(entries@),
        ),
{
    let mut r: Vec<Action> = Vec::new();
    assert(effects(r@) =~= seq![]);
    if !same_text(live, "true") {
        return (r, 0);
    }
    let ghost ev = entries_view(entries@);
    let mut due: u16 = 0;
    let mut i: usize = 0;
    while i < entries.len()
        invariant
            i <= entries.len(),
            ev == entries_view(entries@),
            notices_well_formed(ev),
            effects(r@) == countdown_steps(channel@, ev.take(i as int)),
            due as nat == due_interval(ev.take(i as int)),
        decreases entries.len() - i,
    {
        assert(ev.take(i + 1).drop_last() =~= ev.take(i as int));
        assert(ev[i as int] == (entries@[i as int].0@, entries@[i as int].1@));
        let count = parse_u16(entries[i].1.as_str());
        assert(countdown_ok(ev[i as int]));
        let n = match count {
            Some(n) => n,
            None => 0,
        };
        if n != 0 {
            let key = channel_key(
                channel,
                concat3("notices:", entries[i].0.as_str(), ":countdown").as_str(),
            );
            emit(&mut r, store3("decrby", key.as_str(), "60"));
        }
        if n == 0 || n == 60 {
            let v = match parse_u16(entries[i].0.as_str()) {
                Some(v) => v,
                None => 0,
            };
            if !(due > v) {
                due = v;
            }
        }
        i = i + 1;
    }
    assert(ev.take(entries.len() as int) =~= ev);
    if due != 0 {
        let d = decimal_string(due as u64);
        let key = channel_key(channel, concat3("notices:", d.as_str(), ":countdown").as_str());
        emit(&mut r, store3("set", key.as_str(), d.as_str()));
    }
    (r, due)
}

/// What running a due notice does once its next command has been taken
/// from the front of the interval's queue: the command goes to the back of
/// the queue and its message, if it has one, is posted.
pub open spec fn notice_fire_effects(
    c: Seq<char>,
    interval: nat,
    cmd: Seq<char>,
    message: Option<Seq<char>>,
) -> Seq<Effect> {
    seq![
        Effect::Store(
            seq!["rpush"@, chan_key(c, "notices:"@ + decimal(interval) + ":commands"@), cmd],
        ),
    ] + match message {
        Some(m) => seq![Effect::Post(m)],
        None => seq![],
    }
}

/// Runs a due notice whose next command `cmd` was taken from its queue;
/// `message` is that command's message.
pub fn notice_fire(channel: &str, interval: u16, cmd: &str, message: &Option<String>) -> (r: Vec<
    Action,
>)
    ensures
        effects(r@) == notice_fire_effects(channel@, interval as nat, cmd@, opt_view(*message)),
{
    let mut r: Vec<Action> = Vec::new();
    let d = decimal_string(interval as u64);
    let key = channel_key(channel, concat3("notices:", d.as_str(), ":commands").as_str());
    emit(&mut r, store3("rpush", key.as_str(), cmd));
    match message {
        Some(m) => emit(&mut r, Action::Post(m.clone())),
        None => {},
    }
    assert(effects(r@) =~= notice_fire_effects(channel@, interval as nat, cmd@, opt_view(*message)));
    r
}

} // verus!
