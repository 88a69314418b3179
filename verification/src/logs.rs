//! Log entries: the line written to the console and the lines kept in the
//! store, globally or per channel (the newest ten thousand of each).
use crate::action::{chan_key, channel_key, effects, emit, store2, store3, store4, Action, Effect};
use crate::text::{chars_of, concat2, concat3, concat4, same_text, string_of, views};
use vstd::prelude::*;

verus! {

/// `s` with its line breaks turned into spaces.
pub open spec fn one_line(s: Seq<char>) -> Seq<char> {
    s.map_values(|c: char| if c == '\n' { ' ' } else { c })
}

/// `s` on one line.
pub fn flatten(s: &str) -> (r: String)
    ensures
        r@ == one_line(s@),
{
    let v = chars_of(s);
    let mut out: Vec<char> = Vec::new();
    let mut i: usize = 0;
    while i < v.len()
        invariant
            i <= v.len(),
            v@ == s@,
            out@ == one_line(s@).take(i as int),
        decreases v.len() - i,
    {
        let c = if v[i] == '\n' { ' ' } else { v[i] };
        out.push(c);
        assert(one_line(s@).take(i + 1) =~= one_line(s@).take(i as int).push(c));
        i = i + 1;
    }
    assert(one_line(s@).take(v.len() as int) =~= one_line(s@));
    string_of(&out, 0, out.len())
}

/// Whose log an entry belongs to.
pub enum LogScope {
    /// The bot's own log.
    Global,
    /// A bot's: it goes to the logs of the channels the bot serves.
    Bot(String),
    /// These channels'.
    Channels(Vec<String>),
}

/// A log entry: the console line, when there is one, and what it stores.
pub struct LogPlan {
    pub console: Option<String>,
    pub actions: Vec<Action>,
}

/// What keeping `line` in the log list `key` stores.
pub open spec fn kept(key: Seq<char>, line: Seq<char>) -> Seq<Effect> {
    seq![
        Effect::Store(seq!["lpush"@, key, line]),
        Effect::Store(seq!["ltrim"@, key, "0"@, "9999"@]),
    ]
}

/// What keeping `line` in each channel's log stores.
pub open spec fn kept_in(channels: Seq<Seq<char>>, line: Seq<char>) -> Seq<Effect>
    decreases channels.len(),
{
    if channels.len() == 0 {
        seq![]
    } else {
        kept_in(channels.drop_last(), line) + kept(chan_key(channels.last(), "logs"@), line)
    }
}

fn keep(r: &mut Vec<Action>, key: &str, line: &str)
    ensures
        effects(final(r)@) == effects(old(r)@) + kept(key@, line@),
{
    emit(r, store3("lpush", key, line));
    emit(r, store4("ltrim", key, "0", "9999"));
    assert(effects(r@) =~= effects(old(r)@) + kept(key@, line@));
}

fn keep_in(r: &mut Vec<Action>, channels: &Vec<String>, line: &str)
    ensures
        effects(final(r)@) == effects(old(r)@) + kept_in(views(channels@), line@),
{
    let ghost start = effects(r@);
    let mut i: usize = 0;
    while i < channels.len()
        invariant
            i <= channels.len(),
            effects(r@) == start + kept_in(views(channels@).take(i as int), line@),
        decreases channels.len() - i,
    {
        assert(views(channels@).take(i + 1).drop_last() =~= views(channels@).take(i as int));
        assert(views(channels@).take(i + 1).last() == channels@[i as int]@);
        let k = channel_key(channels[i].as_str(), "logs");
        keep(r, k.as_str(), line);
        assert(effects(r@) =~= start + kept_in(views(channels@).take(i + 1), line@));
        i = i + 1;
    }
    assert(views(channels@).take(channels.len() as int) =~= views(channels@));
}

/// `[a] [b] c`.
pub open spec fn tagged(a: Seq<char>, b: Seq<char>, c: Seq<char>) -> Seq<char> {
    "["@ + a + "] ["@ + b + "] "@ + c
}

fn tag(a: &str, b: &str, c: &str) -> (r: String)
    ensures
        r@ == tagged(a@, b@, c@),
{
    let mut s = concat3("[", a, "] [");
    s.append(b);
    s.append("] ");
    s.append(c);
    s
}

/// The channels among `channels` that `bot` serves; `bots` holds each
/// channel's bot.
pub open spec fn served_by(channels: Seq<Seq<char>>, bots: Seq<Seq<char>>, bot: Seq<char>) -> Seq<Seq<char>>
    decreases channels.len(),
{
    if channels.len() == 0 || bots.len() == 0 {
        seq![]
    } else {
        let rest = served_by(channels.drop_last(), bots.drop_last(), bot);
        if bots.last() == bot {
            rest.push(channels.last())
        } else {
            rest
        }
    }
}

/// The channels `bot` serves, in order.
pub fn served_channels(channels: &Vec<String>, bots: &Vec<String>, bot: &str) -> (r: Vec<String>)
    requires
        channels.len() == bots.len(),
    ensures
        views(r@) == served_by(views(channels@), views(bots@), bot@),
{
    let mut r: Vec<String> = Vec::new();
    let mut i: usize = 0;
    while i < channels.len()
        invariant
            i <= channels.len(),
            channels.len() == bots.len(),
            views(r@) == served_by(views(channels@).take(i as int), views(bots@).take(i as int), bot@),
        decreases channels.len() - i,
    {
        assert(views(channels@).take(i + 1).drop_last() =~= views(channels@).take(i as int));
        assert(views(bots@).take(i + 1).drop_last() =~= views(bots@).take(i as int));
        assert(views(channels@).take(i + 1).last() == channels@[i as int]@);
        assert(views(bots@).take(i + 1).last() == bots@[i as int]@);
        if same_text(bots[i].as_str(), bot) {
            let ghost b = r@;
            r.push(channels[i].clone());
            assert(views(r@) =~= views(b).push(channels@[i as int]@));
        }
        i = i + 1;
    }
    assert(views(channels@).take(channels.len() as int) =~= views(channels@));
    assert(views(bots@).take(channels.len() as int) =~= views(bots@));
    r
}

/// What a log entry made at `stamp` under `descriptor` does. `served` are
/// the channels a bot serves (for a bot's entry); `first_bot` is the bot
/// of the first channel (for an entry of several channels).
pub open spec fn log_effects(
    scope: LogScope,
    stamp: Seq<char>,
    descriptor: Seq<char>,
    content: Seq<char>,
    served: Seq<Seq<char>>,
    first_bot: Seq<char>,
) -> (Option<Seq<char>>, Seq<Effect>) {
    match scope {
        LogScope::Global => {
            let line = tagged(stamp, descriptor, content);
            (Some(line), kept("logs"@, line))
        },
        LogScope::Bot(b) => {
            let c = one_line(content);
            (
                Some("["@ + stamp + "] "@ + tagged(b@, descriptor, c)),
                kept_in(served, tagged(stamp, descriptor, c)),
            )
        },
        LogScope::Channels(chs) => {
            let c = one_line(content);
            if chs.len() == 0 {
                (None, seq![])
            } else {
                let label = if chs.len() > 1 { first_bot } else { chs@[0]@ };
                (
                    Some("["@ + stamp + "] "@ + tagged(label, descriptor, c)),
                    kept_in(views(chs@), tagged(stamp, descriptor, c)),
                )
            }
        },
    }
}

/// A log entry.
pub fn log_entry(
    scope: &LogScope,
    stamp: &str,
    descriptor: &str,
    content: &str,
    served: &Vec<String>,
    first_bot: &str,
) -> (r: LogPlan)
    ensures
        ({
            let e = log_effects(*scope, stamp@, descriptor@, content@, views(served@), first_bot@);
            &&& match r.console {
                Some(l) => e.0 == Some(l@),
                None => e.0 is None,
            }
            &&& effects(r.actions@) == e.1
        }),
{
    let mut r: Vec<Action> = Vec::new();
    match scope {
        LogScope::Global => {
            let line = tag(stamp, descriptor, content);
            keep(&mut r, "logs", line.as_str());
            assert(effects(r@) =~= kept("logs"@, line@));
            LogPlan { console: Some(line), actions: r }
        },
        LogScope::Bot(b) => {
            let c = flatten(content);
            let line = tag(stamp, descriptor, c.as_str());
            keep_in(&mut r, served, line.as_str());
            assert(effects(r@) =~= kept_in(views(served@), line@));
            let console = concat3("[", stamp, "] ");
            let mut console = console;
            console.append(tag(b.as_str(), descriptor, c.as_str()).as_str());
            LogPlan { console: Some(console), actions: r }
        },
        LogScope::Channels(chs) => {
            if chs.len() == 0 {
                assert(effects(r@) =~= seq![]);
                return LogPlan { console: None, actions: r };
            }
            let c = flatten(content);
            let line = tag(stamp, descriptor, c.as_str());
            keep_in(&mut r, chs, line.as_str());
            assert(effects(r@) =~= kept_in(views(chs@), line@));
            let label = if chs.len() > 1 { first_bot } else { chs[0].as_str() };
            let mut console = concat3("[", stamp, "] ");
            console.append(tag(label, descriptor, c.as_str()).as_str());
            LogPlan { console: Some(console), actions: r }
        },
    }
}

} // verus!
