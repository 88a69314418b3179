//! The values of the template variables that need no web request, given
//! what the store holds for them.
use crate::action::{chan_key, channel_key, effects, emit, opt_view, store4, Action, Effect};
use crate::commands::{counter_full, counter_next, next_counter};
use crate::text::{
    concat3, decimal, decimal_string, join, join_range, parse_i64, parse_signed, parse_u16,
    parse_unsigned, parse_usize, same_text, signed_decimal, signed_decimal_string, split, split_on,
    split_words, views, words,
};
use vstd::prelude::*;

verus! {

/// What `(args [n])` shows: the `n`-th argument of the command (from 1),
/// nothing when there is no such argument or `n` is not a number; without
/// `n`, all the arguments separated by spaces.
pub open spec fn args_value(vargs: Seq<Seq<char>>, cargs: Seq<Seq<char>>) -> Seq<char> {
    if vargs.len() > 0 {
        match parse_unsigned(vargs[0], usize::MAX as nat) {
            Some(n) => if n > 0 && cargs.len() >= n {
                cargs[n - 1]
            } else {
                seq![]
            },
            None => seq![],
        }
    } else {
        join(cargs, " "@)
    }
}

/// The `(args [n])` variable.
pub fn args_var(vargs: &Vec<String>, cargs: &Vec<String>) -> (r: String)
    ensures
        r@ == args_value(views(vargs@), views(cargs@)),
{
    if vargs.len() > 0 {
        assert(views(vargs@)[0] == vargs@[0]@);
        match parse_usize(vargs[0].as_str()) {
            Some(n) => {
                if n > 0 && cargs.len() >= n {
                    assert(views(cargs@)[n - 1] == cargs@[n - 1]@);
                    cargs[n - 1].clone()
                } else {
                    String::new()
                }
            },
            None => String::new(),
        }
    } else {
        assert(cargs@.subrange(0, cargs@.len() as int) =~= cargs@);
        join_range(cargs, 0, cargs.len(), " ")
    }
}

/// What `(counter name)` shows, given the counter's stored value: the
/// number (as a number reads back), nothing when the value is not a
/// number, `0` when the counter is not stored; nothing without a name.
pub open spec fn counter_value(vargs: Seq<Seq<char>>, stored: Option<Seq<char>>) -> Seq<char> {
    if vargs.len() > 0 {
        match stored {
            Some(v) => match parse_unsigned(v, 65535) {
                Some(n) => decimal(n),
                None => seq![],
            },
            None => "0"@,
        }
    } else {
        seq![]
    }
}

/// The `(counter name)` variable; `stored` is the counter's stored value.
pub fn counter_var(vargs: &Vec<String>, stored: &Option<String>) -> (r: String)
    ensures
        r@ == counter_value(views(vargs@), opt_view(*stored)),
{
    if vargs.len() > 0 {
        match stored {
            Some(v) => match parse_u16(v.as_str()) {
                Some(n) => decimal_string(n as u64),
                None => String::new(),
            },
            None => "0".to_owned(),
        }
    } else {
        String::new()
    }
}

/// What `(counterinc name)` does: stores the counter increased by one (it
/// shows nothing).
pub open spec fn counterinc_effects(c: Seq<char>, vargs: Seq<Seq<char>>, stored: Option<Seq<char>>) -> Seq<Effect> {
    if vargs.len() > 0 {
        seq![Effect::Store(seq!["hset"@, chan_key(c, "counters"@), vargs[0], counter_next(stored)])]
    } else {
        seq![]
    }
}

/// The `(counterinc name)` variable; `stored` is the counter's stored value.
pub fn counterinc_var(channel: &str, vargs: &Vec<String>, stored: &Option<String>) -> (r: Vec<Action>)
    requires
        vargs.len() > 0 ==> !counter_full(opt_view(*stored)),
    ensures
        effects(r@) == counterinc_effects(channel@, views(vargs@), opt_view(*stored)),
{
    let mut r: Vec<Action> = Vec::new();
    if vargs.len() > 0 {
        let key = channel_key(channel, "counters");
        let next = next_counter(stored);
        emit(&mut r, store4("hset", key.as_str(), vargs[0].as_str(), next.as_str()));
    }
    assert(effects(r@) =~= counterinc_effects(channel@, views(vargs@), opt_view(*stored)));
    r
}

/// What `(phrase name)` shows: the stored phrase, or nothing.
pub open spec fn phrase_value(vargs: Seq<Seq<char>>, stored: Option<Seq<char>>) -> Seq<char> {
    if vargs.len() > 0 {
        match stored {
            Some(p) => p,
            None => seq![],
        }
    } else {
        seq![]
    }
}

/// The `(phrase name)` variable; `stored` is the phrase's stored text.
pub fn phrase_var(vargs: &Vec<String>, stored: &Option<String>) -> (r: String)
    ensures
        r@ == phrase_value(views(vargs@), opt_view(*stored)),
{
    if vargs.len() > 0 {
        match stored {
            Some(p) => p.clone(),
            None => String::new(),
        }
    } else {
        String::new()
    }
}

/// A game statistic variable (`(fortnite:wins)`, `(pubg:kills)`, ...):
/// the stored statistic, `0` when none is stored.
pub fn stat_var(stored: &Option<String>) -> (r: String)
    ensures
        r@ == (match opt_view(*stored) {
            Some(v) => v,
            None => "0"@,
        }),
{
    match stored {
        Some(v) => v.clone(),
        None => "0".to_owned(),
    }
}

/// The store hash and field a game statistic variable reads.
pub fn stat_source(name: &str) -> (r: Option<(&'static str, &'static str)>)
    ensures
        r == (if name@ == "fortnite:wins"@ {
            Some(("stats:fortnite", "wins"))
        } else if name@ == "fortnite:kills"@ {
            Some(("stats:fortnite", "kills"))
        } else if name@ == "pubg:damage"@ {
            Some(("stats:pubg", "damageDealt"))
        } else if name@ == "pubg:headshots"@ {
            Some(("stats:pubg", "headshotKills"))
        } else if name@ == "pubg:kills"@ {
            Some(("stats:pubg", "kills"))
        } else if name@ == "pubg:roadkills"@ {
            Some(("stats:pubg", "roadKills"))
        } else if name@ == "pubg:teamkills"@ {
            Some(("stats:pubg", "teamKills"))
        } else if name@ == "pubg:vehicles-destroyed"@ {
            Some(("stats:pubg", "vehicleDestroys"))
        } else if name@ == "pubg:wins"@ {
            Some(("stats:pubg", "wins"))
        } else {
            None
        }),
{
    if same_text(name, "fortnite:wins") {
        Some(("stats:fortnite", "wins"))
    } else if same_text(name, "fortnite:kills") {
        Some(("stats:fortnite", "kills"))
    } else if same_text(name, "pubg:damage") {
        Some(("stats:pubg", "damageDealt"))
    } else if same_text(name, "pubg:headshots") {
        Some(("stats:pubg", "headshotKills"))
    } else if same_text(name, "pubg:kills") {
        Some(("stats:pubg", "kills"))
    } else if same_text(name, "pubg:roadkills") {
        Some(("stats:pubg", "roadKills"))
    } else if same_text(name, "pubg:teamkills") {
        Some(("stats:pubg", "teamKills"))
    } else if same_text(name, "pubg:vehicles-destroyed") {
        Some(("stats:pubg", "vehicleDestroys"))
    } else if same_text(name, "pubg:wins") {
        Some(("stats:pubg", "wins"))
    } else {
        None
    }
}

// ---------------------------------------------------------------------------
/// The text `humantime::format_duration` gives for a duration of `secs`
/// seconds and `nanos` nanoseconds (`2h 5m 3s` and the like).
pub uninterp spec fn duration_text(secs: nat, nanos: nat) -> Seq<char>;

/// `humantime::format_duration`, as text: it has at least one word (the
/// crate writes `0s` for a zero duration, and otherwise at least one
/// non-zero unit).
#[verifier::external_body]
fn format_duration_text(secs: u64, nanos: u32) -> (r: String)
    requires
        nanos < 1_000_000_000,
    ensures
        r@ == duration_text(secs as nat, nanos as nat),
        words(r@).len() >= 1,
{
    humantime::format_duration(std::time::Duration::new(secs, nanos)).to_string()
}

/// A duration in its two largest units, joined by `sep` (just the one unit
/// when it has only one).
pub open spec fn two_units(secs: nat, nanos: nat, sep: Seq<char>) -> Seq<char> {
    let w = words(duration_text(secs, nanos));
    if w.len() == 1 {
        w[0]
    } else {
        w[0] + sep + w[1]
    }
}

/// A duration in its two largest units, joined by `sep`.
pub fn duration_label(secs: u64, nanos: u32, sep: &str) -> (r: String)
    requires
        nanos < 1_000_000_000,
    ensures
        r@ == two_units(secs as nat, nanos as nat, sep@),
{
    let text = format_duration_text(secs, nanos);
    let w = split_words(text.as_str());
    assert(views(w@)[0] == w@[0]@);
    if w.len() == 1 {
        w[0].clone()
    } else {
        assert(views(w@)[1] == w@[1]@);
        concat3(w[0].as_str(), sep, w[1].as_str())
    }
}

/// The most minutes a watch time may hold to be shown (what a time delta
/// in seconds of at most `i64::MAX / 1000` allows).
pub open spec fn max_watch_minutes() -> int {
    153722867280912
}

/// A stored watch time the bot can show: not a number, or a number of
/// minutes that is not negative and not too large.
pub open spec fn watchtime_showable(stored: Option<Seq<char>>) -> bool {
    match stored {
        Some(v) => match parse_signed(v, i64::MIN as int, i64::MAX as int) {
            Some(n) => 0 <= n <= max_watch_minutes(),
            None => true,
        },
        None => true,
    }
}

/// What `(watchtime)` shows: the sender's stored minutes as a duration in
/// two units ("2h and 5m"), `0m` when nothing readable is stored.
pub open spec fn watchtime_value(stored: Option<Seq<char>>) -> Seq<char> {
    match stored {
        Some(v) => match parse_signed(v, i64::MIN as int, i64::MAX as int) {
            Some(n) => two_units((n * 60) as nat, 0, " and "@),
            None => "0m"@,
        },
        None => "0m"@,
    }
}

/// The `(watchtime)` variable; `stored` is the sender's stored minutes.
pub fn watchtime_var(stored: &Option<String>) -> (r: String)
    requires
        watchtime_showable(opt_view(*stored)),
    ensures
        r@ == watchtime_value(opt_view(*stored)),
{
    match stored {
        Some(v) => match parse_i64(v.as_str()) {
            Some(n) => duration_label((n as u64) * 60, 0, " and "),
            None => "0m".to_owned(),
        },
        None => "0m".to_owned(),
    }
}

/// A count the Twitch API reported, as shown (`0` when it could not be
/// read).
pub fn total_label(total: Option<i32>) -> (r: String)
    ensures
        r@ == (match total {
            Some(t) => signed_decimal(t as int),
            None => "0"@,
        }),
{
    match total {
        Some(t) => signed_decimal_string(t as i64),
        None => "0".to_owned(),
    }
}

// ---------------------------------------------------------------------------
/// The pieces of a `title - url` answer.
pub open spec fn video_pieces(body: Seq<char>) -> Seq<Seq<char>> {
    split(body, " - "@)
}

/// What `(youtube:latest-url)` shows: the last ` - `-separated piece of the
/// answer, when there are at least two.
pub open spec fn latest_url(body: Seq<char>) -> Seq<char> {
    let p = video_pieces(body);
    if p.len() > 1 {
        p.last()
    } else {
        seq![]
    }
}

/// What `(youtube:latest-title)` shows: every piece but the last, joined
/// back with ` - `, when there are at least two.
pub open spec fn latest_title(body: Seq<char>) -> Seq<char> {
    let p = video_pieces(body);
    if p.len() > 1 {
        join(p.drop_last(), " - "@)
    } else {
        seq![]
    }
}

/// The `(youtube:latest-url)` variable from the service's answer.
pub fn youtube_latest_url(body: &str) -> (r: String)
    ensures
        r@ == latest_url(body@),
{
    proof {
        reveal_strlit(" - ");
    }
    let p = split_on(body, " - ");
    if p.len() > 1 {
        assert(views(p@).last() == p@[p.len() - 1]@);
        p[p.len() - 1].clone()
    } else {
        String::new()
    }
}

/// The `(youtube:latest-title)` variable from the service's answer.
pub fn youtube_latest_title(body: &str) -> (r: String)
    ensures
        r@ == latest_title(body@),
{
    proof {
        reveal_strlit(" - ");
    }
    let p = split_on(body, " - ");
    if p.len() > 1 {
        assert(views(p@.subrange(0, p.len() - 1)) =~= views(p@).drop_last());
        join_range(&p, 0, p.len() - 1, " - ")
    } else {
        String::new()
    }
}

} // verus!
