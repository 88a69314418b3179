//! The decisions of the bot's long-running workers: the chat connection's
//! setup, the per-channel workers that watch for signals, and what they do
//! with what they hear.
use crate::action::{chan_key, channel_key, effects, emit, store2, store3, store4, Action, Effect};
use crate::handler::{alias_expansion, expand_alias, native_command, native_lookup, Native};
use crate::text::{chars_of, concat2, concat3, lowercase, same_text, split_words, string_of, views, words};
use crate::types::{ClientAction, ThreadAction};
use vstd::prelude::*;

verus! {

/// The settings of one chat connection: a bot's login and the channels it
/// joins.
pub struct BotConfig {
    pub server: String,
    pub use_ssl: bool,
    pub nickname: String,
    pub password: String,
    pub channels: Vec<String>,
    /// Seconds without a ping before the connection counts as lost; the
    /// client's default when `None`.
    pub ping_timeout: Option<u32>,
}

/// The IRC names of channels: each with a leading `#`.
pub open spec fn irc_names(channels: Seq<Seq<char>>) -> Seq<Seq<char>> {
    channels.map_values(|c: Seq<char>| "#"@ + c)
}

/// The IRC names of `channels`.
pub fn irc_channels(channels: &Vec<String>) -> (r: Vec<String>)
    ensures
        views(r@) == irc_names(views(channels@)),
{
    let mut r: Vec<String> = Vec::new();
    let mut i: usize = 0;
    while i < channels.len()
        invariant
            i <= channels.len(),
            views(r@) == irc_names(views(channels@)).take(i as int),
        decreases channels.len() - i,
    {
        let ghost b = r@;
        r.push(concat2("#", channels[i].as_str()));
        assert(views(r@) =~= views(b).push("#"@ + channels@[i as int]@));
        assert(irc_names(views(channels@)).take(i + 1) =~= irc_names(views(channels@)).take(
            i as int,
        ).push(irc_names(views(channels@))[i as int]));
        i = i + 1;
    }
    assert(irc_names(views(channels@)).take(channels.len() as int) =~= irc_names(
        views(channels@),
    ));
    r
}

/// The connection of bot `bot` with OAuth token `token` to Twitch's chat
/// server, joining `channels`.
pub fn bot_config(bot: &str, token: &str, channels: &Vec<String>, ping_timeout: Option<u32>) -> (r:
    BotConfig)
    ensures
        r.server@ == "irc.chat.twitch.tv"@,
        r.use_ssl,
        r.nickname@ == bot@,
        r.password@ == "oauth:"@ + token@,
        views(r.channels@) == irc_names(views(channels@)),
        r.ping_timeout == ping_timeout,
{
    BotConfig {
        server: "irc.chat.twitch.tv".to_owned(),
        use_ssl: true,
        nickname: bot.to_owned(),
        password: concat2("oauth:", token),
        channels: irc_channels(channels),
        ping_timeout,
    }
}

/// The connection for a single channel.
pub fn channel_config(bot: &str, token: &str, channel: &str, ping_timeout: Option<u32>) -> (r:
    BotConfig)
    ensures
        r.server@ == "irc.chat.twitch.tv"@,
        r.use_ssl,
        r.nickname@ == bot@,
        r.password@ == "oauth:"@ + token@,
        views(r.channels@) == seq!["#"@ + channel@],
        r.ping_timeout == ping_timeout,
{
    let mut one: Vec<String> = Vec::new();
    one.push(channel.to_owned());
    assert(irc_names(views(one@)) =~= seq!["#"@ + channel@]);
    bot_config(bot, token, &one, ping_timeout)
}

// ---------------------------------------------------------------------------
/// What a channel worker hears from its supervisor when it looks: a
/// signal, nothing yet, or that the supervisor is gone.
pub enum Signal {
    Heard(ThreadAction),
    Quiet,
    Closed,
}

/// A worker that does not track channels goes on unless it is told to stop
/// or its supervisor is gone.
pub open spec fn runs_on(s: Signal) -> bool {
    match s {
        Signal::Heard(ThreadAction::Kill) => false,
        Signal::Heard(ThreadAction::Part(_)) => true,
        Signal::Quiet => true,
        Signal::Closed => false,
    }
}

/// Whether a worker goes on after hearing `s`.
pub fn keeps_running(s: &Signal) -> (r: bool)
    ensures
        r == runs_on(*s),
{
    match s {
        Signal::Heard(ThreadAction::Kill) => false,
        Signal::Heard(ThreadAction::Part(_)) => true,
        Signal::Quiet => true,
        Signal::Closed => false,
    }
}

/// What the authorisation checker does next: go on, stop, or start over
/// with its (changed) channel list.
pub enum Supervision {
    Go,
    Stop,
    Restart,
}

/// The first position of `c` in `s`, if any.
pub open spec fn position(s: Seq<Seq<char>>, c: Seq<char>) -> Option<int>
    decreases s.len(),
{
    if s.len() == 0 {
        None
    } else {
        match position(s.drop_last(), c) {
            Some(i) => Some(i),
            None => if s.last() == c {
                Some(s.len() - 1)
            } else {
                None
            },
        }
    }
}

/// `s` without the first occurrence of `c` (unchanged when `c` does not
/// occur).
pub open spec fn without(s: Seq<Seq<char>>, c: Seq<char>) -> Seq<Seq<char>> {
    match position(s, c) {
        Some(i) => s.remove(i),
        None => s,
    }
}

proof fn lemma_position(s: Seq<Seq<char>>, c: Seq<char>)
    ensures
        position(s, c) matches Some(i) ==> 0 <= i < s.len() && s[i] == c && forall|j: int|
            0 <= j < i ==> s[j] != c,
        position(s, c) is None ==> forall|j: int| 0 <= j < s.len() ==> s[j] != c,
    decreases s.len(),
{
    if s.len() > 0 {
        lemma_position(s.drop_last(), c);
        assert forall|j: int| 0 <= j < s.len() - 1 implies s.drop_last()[j] == s[j] by {}
    }
}

proof fn lemma_position_first(s: Seq<Seq<char>>, c: Seq<char>, i: int)
    requires
        0 <= i < s.len(),
        s[i] == c,
        forall|j: int| 0 <= j < i ==> s[j] != c,
    ensures
        position(s, c) == Some(i),
    decreases s.len(),
{
    lemma_position(s, c);
    if s.len() > 0 {
        lemma_position(s.drop_last(), c);
        if i < s.len() - 1 {
            lemma_position_first(s.drop_last(), c, i);
        }
    }
}

/// Removes the first occurrence of `c` from `channels`.
pub fn remove_channel(channels: &mut Vec<String>, c: &str)
    ensures
        views(final(channels)@) == without(views(old(channels)@), c@),
{
    let ghost s = views(channels@);
    proof {
        lemma_position(s, c@);
    }
    let mut i: usize = 0;
    while i < channels.len()
        invariant
            i <= channels.len(),
            s == views(channels@),
            s == views(old(channels)@),
            forall|j: int| 0 <= j < i ==> s[j] != c@,
        decreases channels.len() - i,
    {
        assert(s[i as int] == channels@[i as int]@);
        if same_text(channels[i].as_str(), c) {
            proof {
                lemma_position_first(s, c@, i as int);
            }
            channels.remove(i);
            assert(views(channels@) =~= s.remove(i as int));
            return;
        }
        i = i + 1;
    }
    assert(position(s, c@) is None) by {
        if position(s, c@) is Some {
            let k = position(s, c@)->0;
            assert(s[k] == c@);
        }
    }
}

/// What the authorisation checker does with a signal: a part request drops
/// that channel and starts the checker over.
pub fn authcheck_signal(channels: &mut Vec<String>, s: Signal) -> (r: Supervision)
    ensures
        match s {
            Signal::Heard(ThreadAction::Kill) => r == Supervision::Stop && final(channels)@
                == old(channels)@,
            Signal::Heard(ThreadAction::Part(c)) => r == Supervision::Restart && views(
                final(channels)@,
            ) == without(views(old(channels)@), c@),
            Signal::Quiet => r == Supervision::Go && final(channels)@ == old(channels)@,
            Signal::Closed => r == Supervision::Stop && final(channels)@ == old(channels)@,
        },
{
    match s {
        Signal::Heard(ThreadAction::Kill) => Supervision::Stop,
        Signal::Heard(ThreadAction::Part(c)) => {
            remove_channel(channels, c.as_str());
            Supervision::Restart
        },
        Signal::Quiet => Supervision::Go,
        Signal::Closed => Supervision::Stop,
    }
}

/// What the checker does with a channel's authorisation flag: it renews the
/// time of the last authorisation while the bot is a moderator, and asks to
/// be made one (by entering) while it is not.
pub open spec fn auth_probe_effects(c: Seq<char>, auth: Seq<char>, now: Seq<char>) -> Seq<Effect> {
    if auth == "true"@ {
        seq![Effect::Store(seq!["set"@, chan_key(c, "auth:last"@), now])]
    } else if auth == "false"@ {
        seq![Effect::Post("/me has entered"@)]
    } else {
        seq![]
    }
}

/// The checker's look at `channel`, whose flag reads `auth`, at time `now`.
pub fn auth_probe(channel: &str, auth: &str, now: &str) -> (r: Vec<Action>)
    ensures
        effects(r@) == auth_probe_effects(channel@, auth@, now@),
{
    let mut r: Vec<Action> = Vec::new();
    if same_text(auth, "true") {
        let k = channel_key(channel, "auth:last");
        emit(&mut r, store3("set", k.as_str(), now));
    } else if same_text(auth, "false") {
        emit(&mut r, Action::Post("/me has entered".to_owned()));
    }
    assert(effects(r@) =~= auth_probe_effects(channel@, auth@, now@));
    r
}

/// How old a channel's last authorisation is: unreadable (it is renewed),
/// more than a day (the bot leaves), or recent.
pub enum AuthAge {
    Renew,
    Expired,
    Fresh,
}

/// The age verdict for a last authorisation `hours` hours ago (`None` when
/// the stored time cannot be read).
pub fn auth_age(hours: Option<i64>) -> (r: AuthAge)
    ensures
        match hours {
            None => r == AuthAge::Renew,
            Some(h) => if h > 24 {
                r == AuthAge::Expired
            } else {
                r == AuthAge::Fresh
            },
        },
{
    match hours {
        None => AuthAge::Renew,
        Some(h) => if h > 24 {
            AuthAge::Expired
        } else {
            AuthAge::Fresh
        },
    }
}

/// Renews the time of a channel's last authorisation.
pub fn renew_auth(channel: &str, now: &str) -> (r: Vec<Action>)
    ensures
        effects(r@) == seq![Effect::Store(seq!["set"@, chan_key(channel@, "auth:last"@), now@])],
{
    let mut r: Vec<Action> = Vec::new();
    let k = channel_key(channel, "auth:last");
    emit(&mut r, store3("set", k.as_str(), now));
    assert(effects(r@) =~= seq![Effect::Store(seq!["set"@, chan_key(channel@, "auth:last"@), now@])]);
    r
}

/// What leaving a channel for good stores: it is no longer the bot's nor
/// among the channels.
pub open spec fn leave_effects(c: Seq<char>, bot: Seq<char>) -> Seq<Effect> {
    seq![
        Effect::Store(seq!["srem"@, "bot:"@ + bot + ":channels"@, c]),
        Effect::Store(seq!["srem"@, "channels"@, c]),
    ]
}

/// Leaves `channel`, served by `bot`: drops it from the checker's list and
/// from the store's.
pub fn leave_channel(channels: &mut Vec<String>, channel: &str, bot: &str) -> (r: Vec<Action>)
    ensures
        effects(r@) == leave_effects(channel@, bot@),
        views(final(channels)@) == without(views(old(channels)@), channel@),
{
    let mut r: Vec<Action> = Vec::new();
    let k = concat3("bot:", bot, ":channels");
    emit(&mut r, store3("srem", k.as_str(), channel));
    emit(&mut r, store3("srem", "channels", channel));
    remove_channel(channels, channel);
    assert(effects(r@) =~= leave_effects(channel@, bot@));
    r
}

// ---------------------------------------------------------------------------
/// The two tokens a rename signal carries: the new bot's access token and
/// refresh token.
pub fn rename_tokens(payload: &str) -> (r: (String, String))
    requires
        words(payload@).len() >= 2,
    ensures
        r.0@ == words(payload@)[0],
        r.1@ == words(payload@)[1],
{
    let w = split_words(payload);
    assert(views(w@)[0] == w@[0]@);
    assert(views(w@)[1] == w@[1]@);
    (w[0].clone(), w[1].clone())
}

/// What moving a channel to a bot of its own stores: the old bot gives the
/// channel up, and the new bot, named after the token's owner, is recorded
/// with its tokens.
pub open spec fn rename_effects(
    c: Seq<char>,
    old_bot: Seq<char>,
    name: Seq<char>,
    token: Seq<char>,
    refresh: Seq<char>,
) -> Seq<Effect> {
    seq![
        Effect::Store(seq!["srem"@, "bot:"@ + old_bot + ":channels"@, c]),
        Effect::Store(seq!["sadd"@, "bots"@, name]),
        Effect::Store(seq!["sadd"@, "bot:"@ + name + ":channels"@, c]),
        Effect::Store(seq!["set"@, "bot:"@ + name + ":token"@, token]),
        Effect::Store(seq!["set"@, "bot:"@ + name + ":refresh"@, refresh]),
        Effect::Store(seq!["set"@, chan_key(c, "bot"@), name]),
    ]
}

/// A rename signal for `channel`: when the token belongs to an account
/// other than the channel (`name`), the channel moves to that account's
/// bot. Nothing is stored otherwise.
pub fn rename_channel(channel: &str, old_bot: &str, name: &str, token: &str, refresh: &str) -> (r:
    Option<Vec<Action>>)
    ensures
        name@ == channel@ ==> r is None,
        name@ != channel@ ==> (r matches Some(a) && effects(a@) == rename_effects(
            channel@,
            old_bot@,
            name@,
            token@,
            refresh@,
        )),
{
    if same_text(name, channel) {
        return None;
    }
    let mut r: Vec<Action> = Vec::new();
    let k = concat3("bot:", old_bot, ":channels");
    emit(&mut r, store3("srem", k.as_str(), channel));
    emit(&mut r, store3("sadd", "bots", name));
    let k = concat3("bot:", name, ":channels");
    emit(&mut r, store3("sadd", k.as_str(), channel));
    let k = concat3("bot:", name, ":token");
    emit(&mut r, store3("set", k.as_str(), token));
    let k = concat3("bot:", name, ":refresh");
    emit(&mut r, store3("set", k.as_str(), refresh));
    let k = channel_key(channel, "bot");
    emit(&mut r, store3("set", k.as_str(), name));
    assert(effects(r@) =~= rename_effects(channel@, old_bot@, name@, token@, refresh@));
    Some(r)
}

// ---------------------------------------------------------------------------
/// A command signal (`channel:<c>:signals:command`) becomes a command for
/// the chat worker, word by word.
pub fn command_signal(channel: &str, payload: &str) -> (r: ClientAction)
    ensures
        r matches ClientAction::Command(c, w) && c@ == channel@ && views(w@) == words(payload@),
{
    ClientAction::Command(channel.to_owned(), split_words(payload))
}

/// The IRC name of a channel.
pub fn chat_target(channel: &str) -> (r: String)
    ensures
        r@ == "#"@ + channel@,
{
    concat2("#", channel)
}

/// The command word of a relayed command: its first word, lowercased.
pub fn relay_word(words: &Vec<String>) -> (r: Option<String>)
    ensures
        words.len() == 0 ==> r is None,
        words.len() > 0 ==> (r matches Some(w) && w@ == lowercase(words@[0]@)),
{
    if words.len() == 0 {
        None
    } else {
        Some(words[0].to_lowercase())
    }
}

/// A relayed command after alias expansion (`alias` is the stored alias of
/// its command word): the command word, its arguments, and the built-in
/// command it calls, if any. Relayed commands carry no user, so no
/// moderator check applies.
pub fn relayed_command(prefix: &str, words: &Vec<String>, alias: &Option<String>) -> (r: (
    String,
    Vec<String>,
    Option<Native>,
))
    requires
        words.len() > 0,
    ensures
        ({
            let ex = alias_expansion(
                lowercase(words@[0]@),
                views(words@).skip(1),
                match alias {
                    Some(a) => Some(a@),
                    None => None,
                },
            );
            &&& r.0@ == ex.0
            &&& views(r.1@) == ex.1
            &&& r.2 == match native_lookup(prefix@, ex.0) {
                Some(e) => Some(e.0),
                None => None,
            }
        }),
{
    let word = words[0].to_lowercase();
    let mut args: Vec<String> = Vec::new();
    let mut i: usize = 1;
    while i < words.len()
        invariant
            1 <= i <= words.len(),
            views(args@) == views(words@).subrange(1, i as int),
        decreases words.len() - i,
    {
        let ghost b = args@;
        args.push(words[i].clone());
        assert(views(args@) =~= views(b).push(words@[i as int]@));
        assert(views(args@) =~= views(words@).subrange(1, i + 1));
        i = i + 1;
    }
    assert(views(words@).subrange(1, words.len() as int) =~= views(words@).skip(1));
    let (w, a) = expand_alias(word.as_str(), &args, alias);
    let native = match native_command(prefix, w.as_str()) {
        Some(e) => Some(e.0),
        None => None,
    };
    (w, a, native)
}

/// A request to the store is a command and at least one argument;
/// anything shorter is answered with an error.
pub fn store_request(args: &Vec<String>) -> (r: Result<(), String>)
    ensures
        args.len() > 1 ==> r is Ok,
        args.len() <= 1 ==> (r matches Err(e) && e@ == "not enough args"@),
{
    if args.len() > 1 {
        Ok(())
    } else {
        Err("not enough args".to_owned())
    }
}

// ---------------------------------------------------------------------------
/// A channel name as Twitch sends it: `#` (or another one-byte character)
/// and the name.
pub open spec fn irc_channel(chan: Seq<char>) -> bool {
    chan.len() > 0 && (chan[0] as u32) < 128
}

/// The channel's name without its leading `#`.
pub fn strip_hash(chan: &str) -> (r: String)
    requires
        irc_channel(chan@),
    ensures
        r@ == chan@.drop_first(),
{
    let v = chars_of(chan);
    string_of(&v, 1, v.len())
}

/// What the bot's own state line (`USERSTATE`) in the channels `chans`
/// stores: whether it is a moderator there, and if so when it last was.
pub open spec fn userstate_effects(moderator: bool, chans: Seq<Seq<char>>, now: Seq<char>) -> Seq<
    Effect,
>
    decreases chans.len(),
{
    if chans.len() == 0 {
        seq![]
    } else {
        let c = chans.last().drop_first();
        userstate_effects(moderator, chans.drop_last(), now) + if moderator {
            seq![
                Effect::Store(seq!["set"@, chan_key(c, "auth"@), "true"@]),
                Effect::Store(seq!["set"@, chan_key(c, "auth:last"@), now]),
            ]
        } else {
            seq![Effect::Store(seq!["set"@, chan_key(c, "auth"@), "false"@])]
        }
    }
}

/// Records the bot's moderator status in the channels of a state line.
pub fn userstate(moderator: bool, chans: &Vec<String>, now: &str) -> (r: Vec<Action>)
    requires
        forall|i: int| 0 <= i < chans.len() ==> irc_channel(#[trigger] chans@[i]@),
    ensures
        effects(r@) == userstate_effects(moderator, views(chans@), now@),
{
    let ghost cs = views(chans@);
    let mut r: Vec<Action> = Vec::new();
    let mut i: usize = 0;
    while i < chans.len()
        invariant
            i <= chans.len(),
            cs == views(chans@),
            forall|k: int| 0 <= k < chans.len() ==> irc_channel(#[trigger] chans@[k]@),
            effects(r@) == userstate_effects(moderator, cs.take(i as int), now@),
        decreases chans.len() - i,
    {
        assert(cs.take(i + 1).drop_last() =~= cs.take(i as int));
        assert(cs.take(i + 1).last() == chans@[i as int]@);
        assert(irc_channel(chans@[i as int]@));
        let c = strip_hash(chans[i].as_str());
        let k = channel_key(c.as_str(), "auth");
        if moderator {
            emit(&mut r, store3("set", k.as_str(), "true"));
            let k2 = channel_key(c.as_str(), "auth:last");
            emit(&mut r, store3("set", k2.as_str(), now));
        } else {
            emit(&mut r, store3("set", k.as_str(), "false"));
        }
        i = i + 1;
    }
    assert(cs.take(chans.len() as int) =~= cs);
    r
}

/// A chat line's command word (its first word, lowercased) and its
/// arguments (the other words), when it has a word.
pub fn chat_line(msg: &str) -> (r: Option<(String, Vec<String>)>)
    ensures
        words(msg@).len() == 0 ==> r is None,
        words(msg@).len() > 0 ==> (r matches Some(p) && p.0@ == lowercase(words(msg@)[0]) && views(
            p.1@,
        ) == words(msg@).skip(1)),
{
    let w = split_words(msg);
    if w.len() == 0 {
        return None;
    }
    let word = w[0].to_lowercase();
    assert(views(w@)[0] == w@[0]@);
    let mut args: Vec<String> = Vec::new();
    let mut i: usize = 1;
    while i < w.len()
        invariant
            1 <= i <= w.len(),
            views(args@) == views(w@).subrange(1, i as int),
        decreases w.len() - i,
    {
        let ghost b = args@;
        args.push(w[i].clone());
        assert(views(args@) =~= views(b).push(w@[i as int]@));
        assert(views(args@) =~= views(w@).subrange(1, i + 1));
        i = i + 1;
    }
    assert(views(w@).subrange(1, w.len() as int) =~= views(w@).skip(1));
    Some((word, args))
}

/// Records when `nick` was last seen in the channel.
pub fn seen(channel: &str, nick: &str, now: &str) -> (r: Vec<Action>)
    ensures
        effects(r@) == seq![Effect::Store(seq!["hset"@, chan_key(channel@, "lastseen"@), nick@, now@])],
{
    let mut r: Vec<Action> = Vec::new();
    let k = channel_key(channel, "lastseen");
    emit(&mut r, store4("hset", k.as_str(), nick, now));
    assert(effects(r@) =~= seq![Effect::Store(seq!["hset"@, chan_key(channel@, "lastseen"@), nick@, now@])]);
    r
}


/// What `babblebot run_command <channel> <words>...` does: it publishes the
/// words, joined by spaces, on the channel's command signal (nothing
/// without words).
pub fn run_command(channel: &str, command: &Vec<String>) -> (r: Vec<Action>)
    ensures
        command.len() == 0 ==> r@.len() == 0,
        command.len() > 0 ==> effects(r@) == seq![
            Effect::Store(seq!["publish"@, chan_key(channel@, "signals:command"@), crate::text::join(views(command@), " "@)]),
        ],
{
    let mut r: Vec<Action> = Vec::new();
    if command.len() > 0 {
        let k = channel_key(channel, "signals:command");
        let w = crate::text::join_all(command, " ");
        emit(&mut r, store3("publish", k.as_str(), w.as_str()));
        assert(effects(r@) =~= seq![
            Effect::Store(seq!["publish"@, chan_key(channel@, "signals:command"@), crate::text::join(views(command@), " "@)]),
        ]);
    }
    r
}

} // verus!
