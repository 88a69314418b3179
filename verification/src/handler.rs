//! How the bot reacts to a chat line: moderation, aliases, built-in and
//! custom commands, greetings.
use crate::action::{chan_key, channel_key, effects, emit, store4, Action, Effect};
use crate::text::{
    concat2, concat3, concat4, join, parse_i64, parse_signed, parse_u16, parse_unsigned,
    same_text, split, split_on, split_words, views, words,
};
use vstd::prelude::*;
use vstd::string::StringSliceAdditionalSpecFns;

verus! {

/// The built-in commands.
pub enum Native {
    Echo,
    SetSetting,
    Unset,
    Command,
    Title,
    Game,
    Notices,
    Moderation,
    Permit,
    Multi,
    Clip,
    Counters,
    Phrases,
    Commercials,
    Songreq,
}

/// The built-in commands in the order the bot tries them: name, command,
/// whether running it without arguments takes a moderator, whether running
/// it with arguments does.
pub open spec fn native_table() -> Seq<(Seq<char>, Native, bool, bool)> {
    seq![
        ("echo"@, Native::Echo, true, true),
        ("set"@, Native::SetSetting, true, true),
        ("unset"@, Native::Unset, true, true),
        ("command"@, Native::Command, true, true),
        ("title"@, Native::Title, false, true),
        ("game"@, Native::Game, false, true),
        ("notices"@, Native::Notices, true, true),
        ("moderation"@, Native::Moderation, true, true),
        ("permit"@, Native::Permit, true, true),
        ("multi"@, Native::Multi, false, true),
        ("clip"@, Native::Clip, true, true),
        ("counters"@, Native::Counters, true, true),
        ("phrases"@, Native::Phrases, true, true),
        ("commercials"@, Native::Commercials, true, true),
        ("songreq"@, Native::Songreq, true, false),
    ]
}

/// Entry `i` of the table of built-in commands.
pub fn native_entry(i: usize) -> (r: (&'static str, Native, bool, bool))
    requires
        i < 15,
    ensures
        (r.0@, r.1, r.2, r.3) == native_table()[i as int],
{
    match i {
        0 => ("echo", Native::Echo, true, true),
        1 => ("set", Native::SetSetting, true, true),
        2 => ("unset", Native::Unset, true, true),
        3 => ("command", Native::Command, true, true),
        4 => ("title", Native::Title, false, true),
        5 => ("game", Native::Game, false, true),
        6 => ("notices", Native::Notices, true, true),
        7 => ("moderation", Native::Moderation, true, true),
        8 => ("permit", Native::Permit, true, true),
        9 => ("multi", Native::Multi, false, true),
        10 => ("clip", Native::Clip, true, true),
        11 => ("counters", Native::Counters, true, true),
        12 => ("phrases", Native::Phrases, true, true),
        13 => ("commercials", Native::Commercials, true, true),
        _ => ("songreq", Native::Songreq, true, false),
    }
}

/// The first entry of the table from `i` on whose name, after the channel's
/// command prefix, is `word`.
pub open spec fn native_from(prefix: Seq<char>, word: Seq<char>, i: int) -> Option<int>
    decreases 15 - i,
{
    if i < 0 || i >= 15 {
        None
    } else if prefix + native_table()[i].0 == word {
        Some(i)
    } else {
        native_from(prefix, word, i + 1)
    }
}

/// The built-in command `word` calls, with its moderator flags.
pub open spec fn native_lookup(prefix: Seq<char>, word: Seq<char>) -> Option<(Native, bool, bool)> {
    match native_from(prefix, word, 0) {
        Some(i) => Some((native_table()[i].1, native_table()[i].2, native_table()[i].3)),
        None => None,
    }
}

/// The built-in command `word` calls (the channel's prefix and then the
/// command's name), with its moderator flags.
pub fn native_command(prefix: &str, word: &str) -> (r: Option<(Native, bool, bool)>)
    ensures
        r == native_lookup(prefix@, word@),
{
    let mut i: usize = 0;
    while i < 15
        invariant
            i <= 15,
            native_from(prefix@, word@, 0) == native_from(prefix@, word@, i as int),
        decreases 15 - i,
    {
        let e = native_entry(i);
        let name = concat2(prefix, e.0);
        if same_text(name.as_str(), word) {
            return Some((e.1, e.2, e.3));
        }
        i = i + 1;
    }
    None
}

/// A built-in command may run: when it is called without arguments and
/// needs no moderator for that, when it is called with arguments and needs
/// no moderator for that, or when the caller is a moderator.
pub open spec fn native_allowed(entry: (Native, bool, bool), args_empty: bool, auth: bool) -> bool {
    if args_empty {
        !entry.1 || auth
    } else {
        !entry.2 || auth
    }
}

/// The built-in command a chat line runs, if any: the one its first word
/// calls, when the caller may run it.
pub fn native_to_run(prefix: &str, word: &str, args_empty: bool, auth: bool) -> (r: Option<Native>)
    ensures
        r == (match native_lookup(prefix@, word@) {
            Some(e) => if native_allowed(e, args_empty, auth) {
                Some(e.0)
            } else {
                None
            },
            None => None,
        }),
{
    match native_command(prefix, word) {
        Some(e) => {
            let allowed = if args_empty {
                !e.1 || auth
            } else {
                !e.2 || auth
            };
            if allowed {
                Some(e.0)
            } else {
                None
            }
        },
        None => None,
    }
}

/// Moderator-only commands stay with moderators: a built-in command that
/// needs a moderator for the way it is called never runs for a caller who
/// is not one.
pub proof fn lemma_mod_only_commands(prefix: Seq<char>, word: Seq<char>, args_empty: bool)
    requires
        native_lookup(prefix, word) matches Some(e) && (if args_empty { e.1 } else { e.2 }),
    ensures
        !native_allowed(native_lookup(prefix, word)->0, args_empty, false),
{
}

// ---------------------------------------------------------------------------
/// A line's command word and arguments after alias expansion: when the word
/// has an alias with at least one word, the alias's first word becomes the
/// command and its other words go before the line's arguments.
pub open spec fn alias_expansion(
    word: Seq<char>,
    args: Seq<Seq<char>>,
    alias: Option<Seq<char>>,
) -> (Seq<char>, Seq<Seq<char>>) {
    match alias {
        Some(a) => {
            let w = words(a);
            if w.len() > 0 {
                (w[0], w.skip(1) + args)
            } else {
                (word, args)
            }
        },
        None => (word, args),
    }
}

/// Alias expansion; `alias` is the stored alias of `word`.
pub fn expand_alias(word: &str, args: &Vec<String>, alias: &Option<String>) -> (r: (
    String,
    Vec<String>,
))
    ensures
        (r.0@, views(r.1@)) == alias_expansion(
            word@,
            views(args@),
            match alias {
                Some(a) => Some(a@),
                None => None,
            },
        ),
{
    match alias {
        Some(a) => {
            let w = split_words(a.as_str());
            if w.len() > 0 {
                let mut out: Vec<String> = Vec::new();
                let mut i: usize = 1;
                while i < w.len()
                    invariant
                        1 <= i <= w.len(),
                        views(out@) == views(w@).subrange(1, i as int),
                    decreases w.len() - i,
                {
                    let ghost before = out@;
                    out.push(w[i].clone());
                    assert(views(out@) =~= views(before).push(w@[i as int]@));
                    assert(views(out@) =~= views(w@).subrange(1, i + 1));
                    i = i + 1;
                }
                let mut j: usize = 0;
                while j < args.len()
                    invariant
                        j <= args.len(),
                        views(out@) == views(w@).skip(1) + views(args@).take(j as int),
                    decreases args.len() - j,
                {
                    let ghost before = out@;
                    out.push(args[j].clone());
                    assert(views(out@) =~= views(before).push(args@[j as int]@));
                    assert(views(out@) =~= views(w@).skip(1) + views(args@).take(j + 1));
                    j = j + 1;
                }
                assert(views(args@).take(args.len() as int) =~= views(args@));
                assert(views(w@)[0] == w@[0]@);
                (w[0].clone(), out)
            } else {
                (word.to_owned(), args.clone())
            }
        },
        None => (word.to_owned(), args.clone()),
    }
}

// ---------------------------------------------------------------------------
/// The protection flag of a custom command that applies to a call: the
/// argument flag when the call has arguments, else the command flag.
pub open spec fn protection_field(args_len: nat) -> Seq<char> {
    if args_len > 0 {
        "arg_protected"@
    } else {
        "cmd_protected"@
    }
}

/// The protection flag that applies to a call with `args_len` arguments.
pub fn protection_flag(args_len: usize) -> (r: &'static str)
    ensures
        r@ == protection_field(args_len as nat),
{
    if args_len > 0 {
        "arg_protected"
    } else {
        "cmd_protected"
    }
}

/// A custom command runs unless it ran less than five seconds ago, and only
/// for moderators when the applicable protection flag is not `false`.
pub open spec fn custom_runs(seconds_since_last: Option<i64>, protected: Seq<char>, auth: bool) -> bool {
    !(match seconds_since_last {
        Some(s) => s < 5,
        None => false,
    }) && (protected == "false"@ || auth)
}

/// Whether a custom command runs; `seconds_since_last` is the time since
/// its last run, `protected` the applicable protection flag.
pub fn custom_command_runs(seconds_since_last: Option<i64>, protected: &str, auth: bool) -> (r: bool)
    ensures
        r == custom_runs(seconds_since_last, protected@, auth),
{
    let recent = match seconds_since_last {
        Some(s) => s < 5,
        None => false,
    };
    !recent && (same_text(protected, "false") || auth)
}

/// What running a custom command stores: the time it ran.
pub open spec fn custom_run_effects(c: Seq<char>, word: Seq<char>, now: Seq<char>) -> Seq<Effect> {
    seq![Effect::Store(seq!["hset"@, chan_key(c, "commands:"@ + word), "lastrun"@, now])]
}

/// Records that the custom command `word` ran at `now`.
pub fn custom_run_record(channel: &str, word: &str, now: &str) -> (r: Vec<Action>)
    ensures
        effects(r@) == custom_run_effects(channel@, word@, now@),
{
    let mut r: Vec<Action> = Vec::new();
    let key = channel_key(channel, concat2("commands:", word).as_str());
    emit(&mut r, store4("hset", key.as_str(), "lastrun", now));
    assert(effects(r@) =~= custom_run_effects(channel@, word@, now@));
    r
}

// ---------------------------------------------------------------------------
/// The piece of a colon-separated store key at position `k`.
pub open spec fn key_part(key: Seq<char>, k: int) -> Seq<char> {
    split(key, ":"@)[k]
}

/// Every key has more than `k` colon-separated pieces.
pub open spec fn keys_have_part(keys: Seq<Seq<char>>, k: int) -> bool {
    forall|i: int| 0 <= i < keys.len() ==> split(#[trigger] keys[i], ":"@).len() > k
}

/// The piece of `key` at position `k`.
pub fn key_piece(key: &str, k: usize) -> (r: String)
    requires
        split(key@, ":"@).len() > k,
    ensures
        r@ == key_part(key@, k as int),
{
    proof {
        reveal_strlit(":");
    }
    let parts = split_on(key, ":");
    assert(views(parts@)[k as int] == parts@[k as int]@);
    parts[k].clone()
}

/// The index of the first greeting key (`channel:<c>:greetings:<nick>`)
/// for `nick`.
pub open spec fn greeting_from(keys: Seq<Seq<char>>, nick: Seq<char>, i: int) -> Option<int>
    decreases keys.len() - i,
{
    if i < 0 || i >= keys.len() {
        None
    } else if key_part(keys[i], 3) == nick {
        Some(i)
    } else {
        greeting_from(keys, nick, i + 1)
    }
}

/// The first greeting key for `nick`, if any.
pub fn greeting_key(keys: &Vec<String>, nick: &str) -> (r: Option<usize>)
    requires
        keys_have_part(views(keys@), 3),
    ensures
        match r {
            Some(i) => greeting_from(views(keys@), nick@, 0) == Some(i as int),
            None => greeting_from(views(keys@), nick@, 0) is None,
        },
{
    let mut i: usize = 0;
    while i < keys.len()
        invariant
            i <= keys.len(),
            keys_have_part(views(keys@), 3),
            greeting_from(views(keys@), nick@, 0) == greeting_from(views(keys@), nick@, i as int),
        decreases keys.len() - i,
    {
        assert(views(keys@)[i as int] == keys@[i as int]@);
        let part = key_piece(keys[i].as_str(), 3);
        if same_text(part.as_str(), nick) {
            return Some(i);
        }
        i = i + 1;
    }
    None
}

/// A greeting is said unless the user was seen less than its number of
/// hours ago.
pub open spec fn greets(hours: Seq<char>, hours_since_seen: Option<i64>) -> bool {
    match hours_since_seen {
        Some(h) => !(h < parse_signed(hours, i64::MIN as int, i64::MAX as int)->0),
        None => true,
    }
}

/// Whether a greeting with `hours` is said to a user seen `hours_since_seen`
/// hours ago.
pub fn greets_now(hours: &str, hours_since_seen: Option<i64>) -> (r: bool)
    requires
        hours_since_seen is Some ==> parse_signed(hours@, i64::MIN as int, i64::MAX as int) is Some,
    ensures
        r == greets(hours@, hours_since_seen),
{
    match hours_since_seen {
        Some(h) => {
            let limit = match parse_i64(hours) {
                Some(v) => v,
                None => 0,
            };
            !(h < limit)
        },
        None => true,
    }
}

// ---------------------------------------------------------------------------
/// The chat lines for timing a user out: the timeout itself and, when the
/// channel displays reasons, the reason.
pub open spec fn timeout_effects(
    nick: Seq<char>,
    seconds: Seq<char>,
    reason: Seq<char>,
    display: Seq<char>,
) -> Seq<Effect> {
    seq![Effect::Post("/timeout "@ + nick + " "@ + seconds)] + if display == "true"@ {
        seq![Effect::Say("@"@ + nick + " you've been timed out for "@ + reason)]
    } else {
        seq![]
    }
}

/// Times `nick` out for `seconds`, giving `reason` when the channel
/// displays reasons.
pub fn timeout(nick: &str, seconds: &str, reason: &str, display: &str) -> (r: Vec<Action>)
    ensures
        effects(r@) == timeout_effects(nick@, seconds@, reason@, display@),
{
    let mut r: Vec<Action> = Vec::new();
    emit(&mut r, Action::Post(concat4("/timeout ", nick, " ", seconds)));
    if same_text(display, "true") {
        emit(&mut r, Action::Say(concat4("@", nick, " you've been timed out for ", reason)));
    }
    assert(effects(r@) =~= timeout_effects(nick@, seconds@, reason@, display@));
    r
}

/// The bytes of an IRC `ACTION` (a `/me` line): byte 1, then `ACTION`.
pub open spec fn is_action_line(b: Seq<u8>) -> bool {
    b.len() > 6 && b[0] == 1u8 && b.subrange(1, 7) == seq![65u8, 67u8, 84u8, 73u8, 79u8, 78u8]
}

/// The one line the color filter cannot read: it starts with byte 1 and
/// cuts a character at byte 7.
pub open spec fn color_check_fails(b: Seq<u8>) -> bool {
    b.len() > 6 && b[0] == 1u8 && !vstd::utf8::is_char_boundary(b, 7)
}

/// What the color filter does: times out colored (`/me`) lines when the
/// channel turned it on.
pub open spec fn color_effects(colors: Seq<char>, msg: Seq<u8>, nick: Seq<char>, display: Seq<char>) -> Seq<Effect> {
    if colors == "true"@ && is_action_line(msg) {
        timeout_effects(nick, "1"@, "posting colors"@, display)
    } else {
        seq![]
    }
}

/// The color filter for the chat line `msg` by `nick`.
pub fn color_filter(colors: &str, msg: &str, nick: &str, display: &str) -> (r: Vec<Action>)
    requires
        !color_check_fails(msg.spec_bytes()),
    ensures
        effects(r@) == color_effects(colors@, msg.spec_bytes(), nick@, display@),
{
    let b = msg.as_bytes();
    if same_text(colors, "true") && b.len() > 6 && b[0] == 1u8 && b[1] == 65u8 && b[2] == 67u8
        && b[3] == 84u8 && b[4] == 73u8 && b[5] == 79u8 && b[6] == 78u8 {
        assert(b@.subrange(1, 7) =~= seq![65u8, 67u8, 84u8, 73u8, 79u8, 78u8]);
        timeout(nick, "1", "posting colors", display)
    } else {
        assert(b.len() > 6 ==> (b@.subrange(1, 7) == seq![65u8, 67u8, 84u8, 73u8, 79u8, 78u8] ==> (
        b@.subrange(1, 7)[0] == 65u8 && b@.subrange(1, 7)[1] == 67u8 && b@.subrange(1, 7)[2] == 84u8
            && b@.subrange(1, 7)[3] == 73u8 && b@.subrange(1, 7)[4] == 79u8 && b@.subrange(1, 7)[5]
            == 78u8)));
        let r: Vec<Action> = Vec::new();
        assert(effects(r@) =~= seq![]);
        r
    }
}

// ---------------------------------------------------------------------------
/// One step of choosing the cheer event: a threshold (the fifth piece of
/// an event key) is taken when the cheer reaches it and it is higher than
/// the best so far.
pub open spec fn bits_step(best: nat, donated: Seq<char>, key: Seq<char>) -> nat {
    match (parse_unsigned(donated, 65535), parse_unsigned(key_part(key, 4), 65535)) {
        (Some(d), Some(n)) => if d >= n && n > best {
            n
        } else {
            best
        },
        _ => best,
    }
}

/// The highest event threshold a cheer of `donated` bits reaches (0 when
/// none), over the event keys `channel:<c>:events:bits:<threshold>`.
pub open spec fn bits_threshold(donated: Seq<char>, keys: Seq<Seq<char>>) -> nat
    decreases keys.len(),
{
    if keys.len() == 0 {
        0
    } else {
        bits_step(bits_threshold(donated, keys.drop_last()), donated, keys.last())
    }
}

/// The threshold of the event key `key`, read as a number.
pub open spec fn threshold_of(key: Seq<char>) -> Option<nat> {
    parse_unsigned(key_part(key, 4), 65535)
}

/// A cheer of `donated` bits reaches the event key `key`.
pub open spec fn cheer_reaches(donated: Seq<char>, key: Seq<char>) -> bool {
    match (parse_unsigned(donated, 65535), threshold_of(key)) {
        (Some(d), Some(n)) => d >= n,
        _ => false,
    }
}

/// The highest threshold a cheer reaches fires: the chosen threshold is
/// one the cheer reaches (or 0 when it reaches none above 0), and no event
/// the cheer reaches has a higher threshold, whatever the order of the keys.
pub proof fn lemma_highest_threshold_fires(donated: Seq<char>, keys: Seq<Seq<char>>)
    ensures
        forall|i: int|
            0 <= i < keys.len() && cheer_reaches(donated, #[trigger] keys[i]) ==> threshold_of(keys[i])->0
                <= bits_threshold(donated, keys),
        bits_threshold(donated, keys) == 0 || exists|i: int|
            0 <= i < keys.len() && cheer_reaches(donated, #[trigger] keys[i]) && threshold_of(keys[i]) == Some(
                bits_threshold(donated, keys),
            ),
    decreases keys.len(),
{
    if keys.len() > 0 {
        let p = keys.drop_last();
        lemma_highest_threshold_fires(donated, p);
        let last = keys.len() - 1;
        assert(keys[last] == keys.last());
        assert forall|i: int|
            0 <= i < keys.len() && cheer_reaches(donated, #[trigger] keys[i]) implies threshold_of(keys[i])->0
                <= bits_threshold(donated, keys) by {
            if i < last {
                assert(p[i] == keys[i]);
            }
        }
        if bits_threshold(donated, keys) != 0 {
            if bits_threshold(donated, keys) != bits_threshold(donated, p) {
                assert(cheer_reaches(donated, keys[last]));
            } else {
                let i = choose|i: int|
                    0 <= i < p.len() && cheer_reaches(donated, #[trigger] p[i]) && threshold_of(p[i]) == Some(
                        bits_threshold(donated, p),
                    );
                assert(p[i] == keys[i]);
            }
        }
    }
}

/// The highest event threshold the cheer `donated` reaches.
pub fn bits_event(donated: &str, keys: &Vec<String>) -> (r: u16)
    requires
        keys_have_part(views(keys@), 4),
    ensures
        r as nat == bits_threshold(donated@, views(keys@)),
{
    let ghost kv = views(keys@);
    let d = parse_u16(donated);
    let mut best: u16 = 0;
    let mut i: usize = 0;
    while i < keys.len()
        invariant
            i <= keys.len(),
            kv == views(keys@),
            keys_have_part(kv, 4),
            d == (match parse_unsigned(donated@, 65535) {
                Some(v) => Some(v as u16),
                None => None,
            }),
            best as nat == bits_threshold(donated@, kv.take(i as int)),
        decreases keys.len() - i,
    {
        assert(kv.take(i + 1).drop_last() =~= kv.take(i as int));
        assert(kv[i as int] == keys@[i as int]@);
        let part = key_piece(keys[i].as_str(), 4);
        let n = parse_u16(part.as_str());
        match (d, n) {
            (Some(dv), Some(nv)) => {
                if dv >= nv && nv > best {
                    best = nv;
                }
            },
            _ => {},
        }
        i = i + 1;
    }
    assert(kv.take(keys.len() as int) =~= kv);
    best
}

/// What a cheer event of kind `local` does: queues its actions for the
/// channel's agent.
pub open spec fn bits_event_effects(c: Seq<char>, kind: Seq<char>, ids: Seq<Seq<char>>) -> Seq<Effect> {
    if kind == "local"@ {
        seq![Effect::Store(seq!["lpush"@, chan_key(c, "local:actions"@), join(ids, " "@)])]
    } else {
        seq![]
    }
}

/// Runs a cheer event of kind `kind` with the actions `ids`.
pub fn bits_event_actions(channel: &str, kind: &str, ids: &Vec<String>) -> (r: Vec<Action>)
    ensures
        effects(r@) == bits_event_effects(channel@, kind@, views(ids@)),
{
    let mut r: Vec<Action> = Vec::new();
    if same_text(kind, "local") {
        let key = channel_key(channel, "local:actions");
        let list = crate::text::join_all(ids, " ");
        emit(&mut r, crate::action::store3("lpush", key.as_str(), list.as_str()));
    }
    assert(effects(r@) =~= bits_event_effects(channel@, kind@, views(ids@)));
    r
}

} // verus!
