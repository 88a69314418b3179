//! A model of the key-value store the bot keeps its records in, and the
//! laws of what later reads give back of the bot's writes.
use crate::action::{chan_key, Effect};
use crate::commands::{moderation_effects, command_effects, counter_full, counter_next, counters_effects, phrases_effects, set_effects, unset_effects};
use crate::handler::alias_expansion;
use crate::listeners::{leave_effects, rename_effects};
use crate::logs::kept;
use crate::moderation::link_filter_effects;
use crate::text::{decimal, join, lemma_parse_decimal, lowercase, parse_unsigned, words};
use crate::vars::{counter_value, phrase_value};
use crate::web::{bcrypt_check, new_notice_effects, password_effects, signup_effects};
use vstd::prelude::*;

verus! {

/// The value stored under a key.
pub enum Entry {
    /// A string (`set`).
    Text(Seq<char>),
    /// A hash of fields (`hset`).
    Fields(Map<Seq<char>, Seq<char>>),
    /// A list (`lpush`, `rpush`).
    Items(Seq<Seq<char>>),
    /// A set (`sadd`).
    Members(Set<Seq<char>>),
}

/// The store: the value under each key.
pub type Db = Map<Seq<char>, Entry>;

/// `db` with the aggregate `e` under `k`, or without `k` when `e` is
/// empty (the store drops empty hashes, lists and sets).
pub open spec fn put(db: Db, k: Seq<char>, e: Entry) -> Db {
    let empty = match e {
        Entry::Fields(m) => m.dom() =~= Set::empty(),
        Entry::Items(l) => l.len() == 0,
        Entry::Members(s) => s =~= Set::empty(),
        Entry::Text(_) => false,
    };
    if empty {
        db.remove(k)
    } else {
        db.insert(k, e)
    }
}

/// `l` without any occurrence of `v`.
pub open spec fn without_all(l: Seq<Seq<char>>, v: Seq<char>) -> Seq<Seq<char>> {
    l.filter(|x: Seq<char>| x != v)
}

/// What a store command does to the store, for the commands the bot
/// issues in the forms it issues them; `None` for anything else. A command
/// on a key that holds another kind of value fails and changes nothing, as
/// the store does; `publish` and `expire` change no value.
pub open spec fn run(db: Db, cmd: Seq<Seq<char>>) -> Option<Db> {
    if cmd.len() == 0 {
        None
    } else {
        let op = cmd[0];
        if op == "set"@ && cmd.len() == 3 {
            Some(db.insert(cmd[1], Entry::Text(cmd[2])))
        } else if op == "del"@ && cmd.len() == 2 {
            Some(db.remove(cmd[1]))
        } else if op == "hset"@ && cmd.len() == 4 {
            let k = cmd[1];
            if !db.contains_key(k) {
                Some(db.insert(k, Entry::Fields(map![cmd[2] => cmd[3]])))
            } else {
                match db[k] {
                    Entry::Fields(m) => Some(db.insert(k, Entry::Fields(m.insert(cmd[2], cmd[3])))),
                    _ => Some(db),
                }
            }
        } else if op == "hdel"@ && cmd.len() == 3 {
            let k = cmd[1];
            if !db.contains_key(k) {
                Some(db)
            } else {
                match db[k] {
                    Entry::Fields(m) => Some(put(db, k, Entry::Fields(m.remove(cmd[2])))),
                    _ => Some(db),
                }
            }
        } else if (op == "lpush"@ || op == "rpush"@) && cmd.len() == 3 {
            let k = cmd[1];
            if !db.contains_key(k) {
                Some(db.insert(k, Entry::Items(seq![cmd[2]])))
            } else {
                match db[k] {
                    Entry::Items(l) => Some(
                        db.insert(
                            k,
                            Entry::Items(if op == "lpush"@ { seq![cmd[2]] + l } else { l.push(cmd[2]) }),
                        ),
                    ),
                    _ => Some(db),
                }
            }
        } else if op == "ltrim"@ && cmd.len() == 4 && cmd[2] == "0"@ && cmd[3] == "9999"@ {
            let k = cmd[1];
            if !db.contains_key(k) {
                Some(db)
            } else {
                match db[k] {
                    Entry::Items(l) => Some(put(db, k, Entry::Items(if l.len() > 10000 { l.take(10000) } else { l }))),
                    _ => Some(db),
                }
            }
        } else if op == "lrem"@ && cmd.len() == 4 && cmd[2] == "0"@ {
            let k = cmd[1];
            if !db.contains_key(k) {
                Some(db)
            } else {
                match db[k] {
                    Entry::Items(l) => Some(put(db, k, Entry::Items(without_all(l, cmd[3])))),
                    _ => Some(db),
                }
            }
        } else if op == "sadd"@ && cmd.len() == 3 {
            let k = cmd[1];
            if !db.contains_key(k) {
                Some(db.insert(k, Entry::Members(set![cmd[2]])))
            } else {
                match db[k] {
                    Entry::Members(s) => Some(db.insert(k, Entry::Members(s.insert(cmd[2])))),
                    _ => Some(db),
                }
            }
        } else if op == "srem"@ && cmd.len() == 3 {
            let k = cmd[1];
            if !db.contains_key(k) {
                Some(db)
            } else {
                match db[k] {
                    Entry::Members(s) => Some(put(db, k, Entry::Members(s.remove(cmd[2])))),
                    _ => Some(db),
                }
            }
        } else if (op == "publish"@ || op == "expire"@) && cmd.len() == 3 {
            Some(db)
        } else {
            None
        }
    }
}

/// What a sequence of the bot's actions does to the store: each store
/// command in order (the other actions leave it alone); `None` when one of
/// them is not modelled.
pub open spec fn run_all(db: Db, effects: Seq<Effect>) -> Option<Db>
    decreases effects.len(),
{
    if effects.len() == 0 {
        Some(db)
    } else {
        match run_all(db, effects.drop_last()) {
            Some(d) => match effects.last() {
                Effect::Store(cmd) => run(d, cmd),
                _ => Some(d),
            },
            None => None,
        }
    }
}

/// `GET`: the string under `k`.
pub open spec fn get(db: Db, k: Seq<char>) -> Option<Seq<char>> {
    if db.contains_key(k) {
        match db[k] {
            Entry::Text(v) => Some(v),
            _ => None,
        }
    } else {
        None
    }
}

/// `HGET`: field `f` of the hash under `k`.
pub open spec fn hget(db: Db, k: Seq<char>, f: Seq<char>) -> Option<Seq<char>> {
    if db.contains_key(k) {
        match db[k] {
            Entry::Fields(m) => if m.contains_key(f) {
                Some(m[f])
            } else {
                None
            },
            _ => None,
        }
    } else {
        None
    }
}

/// `LRANGE 0 -1`: the list under `k`.
pub open spec fn items(db: Db, k: Seq<char>) -> Seq<Seq<char>> {
    if db.contains_key(k) {
        match db[k] {
            Entry::Items(l) => l,
            _ => seq![],
        }
    } else {
        seq![]
    }
}

/// `SISMEMBER`: whether the set under `k` holds `m`.
pub open spec fn member(db: Db, k: Seq<char>, m: Seq<char>) -> bool {
    db.contains_key(k) && match db[k] {
        Entry::Members(s) => s.contains(m),
        _ => false,
    }
}

/// Key `k` holds nothing, or a hash.
pub open spec fn hash_or_absent(db: Db, k: Seq<char>) -> bool {
    db.contains_key(k) ==> db[k] is Fields
}

/// Key `k` holds nothing, or a list.
pub open spec fn list_or_absent(db: Db, k: Seq<char>) -> bool {
    db.contains_key(k) ==> db[k] is Items
}

/// Key `k` holds nothing, or a set.
pub open spec fn set_or_absent(db: Db, k: Seq<char>) -> bool {
    db.contains_key(k) ==> db[k] is Members
}

// ---------------------------------------------------------------------------
/// Counting up: after `!counters inc <name>`, `(counter <name>)` shows one
/// more than the counter held, or 1 when it held no number; the counters
/// hash must hold no other kind of value, and the counter must not be at
/// its largest value (where the command fails).
pub proof fn lemma_counter_counts_up(db: Db, c: Seq<char>, a: Seq<Seq<char>>)
    requires
        a.len() > 1,
        lowercase(a[0]) == "inc"@,
        lowercase(a[0]) != "set"@,
        hash_or_absent(db, chan_key(c, "counters"@)),
        !counter_full(hget(db, chan_key(c, "counters"@), a[1])),
    ensures
        run_all(db, counters_effects(c, a, hget(db, chan_key(c, "counters"@), a[1]))) matches Some(after)
            && counter_value(seq![a[1]], hget(after, chan_key(c, "counters"@), a[1]))
            == match hget(db, chan_key(c, "counters"@), a[1]) {
                Some(v) => match parse_unsigned(v, 65535) {
                    Some(n) => decimal(n + 1),
                    None => "1"@,
                },
                None => "1"@,
            },
{
    let key = chan_key(c, "counters"@);
    let stored = hget(db, key, a[1]);
    let e = counters_effects(c, a, stored);
    reveal_strlit("hset");
    reveal_strlit("set");
    reveal_strlit("del");
    reveal_strlit("lpush");
    reveal_strlit("rpush");
    reveal_strlit("hdel");
    reveal_strlit("1");
    assert(e.len() == 2);
    assert(e.drop_last().drop_last() =~= Seq::<Effect>::empty());
    assert(e[0] == Effect::Store(seq!["hset"@, key, a[1], counter_next(stored)]));
    let after = run(db, seq!["hset"@, key, a[1], counter_next(stored)]);
    assert(after is Some);
    assert(hget(after->0, key, a[1]) == Some(counter_next(stored)));
    assert(run_all(db, e.drop_last().drop_last()) == Some(db));
    assert(e.drop_last().last() == e[0]);
    assert(run_all(db, e.drop_last()) == after);
    assert(run_all(db, e) == after);
    match stored {
        Some(v) => match parse_unsigned(v, 65535) {
            Some(n) => {
                lemma_parse_decimal(n + 1, 65535);
            },
            None => {
                lemma_parse_decimal(1, 65535);
                assert(decimal(1) == "1"@) by {
                    reveal_with_fuel(decimal, 2);
                }
            },
        },
        None => {
            lemma_parse_decimal(1, 65535);
            assert(decimal(1) == "1"@) by {
                reveal_with_fuel(decimal, 2);
            }
        },
    }
}


// ---------------------------------------------------------------------------
/// Whether an action may change the value under `k`: a store command on
/// that key (or one too short to name a key).
pub open spec fn touches(e: Effect, k: Seq<char>) -> bool {
    match e {
        Effect::Store(cmd) => cmd.len() <= 1 || cmd[1] == k,
        _ => false,
    }
}

proof fn lemma_run_frame(db: Db, cmd: Seq<Seq<char>>, k: Seq<char>)
    requires
        cmd.len() > 1,
        cmd[1] != k,
        run(db, cmd) is Some,
    ensures
        (run(db, cmd)->0).contains_key(k) == db.contains_key(k),
        db.contains_key(k) ==> (run(db, cmd)->0)[k] == db[k],
{
}

/// Running actions none of which touches `k` leaves the value under `k`
/// as it was.
pub proof fn lemma_frame(db: Db, e: Seq<Effect>, k: Seq<char>)
    requires
        forall|i: int| 0 <= i < e.len() ==> !touches(#[trigger] e[i], k),
        run_all(db, e) is Some,
    ensures
        (run_all(db, e)->0).contains_key(k) == db.contains_key(k),
        db.contains_key(k) ==> (run_all(db, e)->0)[k] == db[k],
    decreases e.len(),
{
    if e.len() > 0 {
        assert forall|i: int| 0 <= i < e.drop_last().len() implies !touches(#[trigger] e.drop_last()[i], k) by {
            assert(e.drop_last()[i] == e[i]);
        }
        lemma_frame(db, e.drop_last(), k);
        let d = run_all(db, e.drop_last())->0;
        assert(!touches(e[e.len() - 1], k));
        match e.last() {
            Effect::Store(cmd) => {
                lemma_run_frame(d, cmd, k);
            },
            _ => {},
        }
    }
}

/// Running `a` and then `b` is running `a + b`.
pub proof fn lemma_run_append(db: Db, a: Seq<Effect>, b: Seq<Effect>)
    ensures
        run_all(db, a + b) == match run_all(db, a) {
            Some(d) => run_all(d, b),
            None => None,
        },
    decreases b.len(),
{
    if b.len() == 0 {
        assert(a + b =~= a);
    } else {
        assert((a + b).drop_last() =~= a + b.drop_last());
        assert((a + b).last() == b.last());
        lemma_run_append(db, a, b.drop_last());
    }
}

/// Running one action.
pub proof fn lemma_run_one(db: Db, x: Effect)
    ensures
        run_all(db, seq![x]) == match x {
            Effect::Store(cmd) => run(db, cmd),
            _ => Some(db),
        },
{
    assert(seq![x].drop_last() =~= Seq::<Effect>::empty());
    assert(run_all(db, seq![x].drop_last()) == Some(db));
    assert(seq![x].last() == x);
}

proof fn reveal_words()
    ensures
        "set"@ == seq!['s', 'e', 't'],
        "del"@ == seq!['d', 'e', 'l'],
        "hset"@ == seq!['h', 's', 'e', 't'],
        "hdel"@ == seq!['h', 'd', 'e', 'l'],
        "lpush"@ == seq!['l', 'p', 'u', 's', 'h'],
        "rpush"@ == seq!['r', 'p', 'u', 's', 'h'],
        "ltrim"@ == seq!['l', 't', 'r', 'i', 'm'],
        "lrem"@ == seq!['l', 'r', 'e', 'm'],
        "sadd"@ == seq!['s', 'a', 'd', 'd'],
        "srem"@ == seq!['s', 'r', 'e', 'm'],
        "publish"@ == seq!['p', 'u', 'b', 'l', 'i', 's', 'h'],
        "expire"@ == seq!['e', 'x', 'p', 'i', 'r', 'e'],
        "0"@ == seq!['0'],
        "9999"@ == seq!['9', '9', '9', '9'],
{
    reveal_strlit("set");
    reveal_strlit("del");
    reveal_strlit("hset");
    reveal_strlit("hdel");
    reveal_strlit("lpush");
    reveal_strlit("rpush");
    reveal_strlit("ltrim");
    reveal_strlit("lrem");
    reveal_strlit("sadd");
    reveal_strlit("srem");
    reveal_strlit("publish");
    reveal_strlit("expire");
    reveal_strlit("0");
    reveal_strlit("9999");
}

// ---------------------------------------------------------------------------
/// Logs stay bounded: after an entry is kept in a log (a list or nothing
/// yet), the log starts with the entry and holds at most ten thousand
/// lines.
pub proof fn lemma_log_bounded(db: Db, key: Seq<char>, line: Seq<char>)
    requires
        list_or_absent(db, key),
    ensures
        run_all(db, kept(key, line)) matches Some(after) && items(after, key).len() <= 10000
            && items(after, key).len() >= 1 && items(after, key)[0] == line,
{
    reveal_words();
    let e = kept(key, line);
    let c1 = seq!["lpush"@, key, line];
    let c2 = seq!["ltrim"@, key, "0"@, "9999"@];
    assert(e =~= seq![Effect::Store(c1)] + seq![Effect::Store(c2)]);
    lemma_run_append(db, seq![Effect::Store(c1)], seq![Effect::Store(c2)]);
    lemma_run_one(db, Effect::Store(c1));
    let d = run(db, c1)->0;
    lemma_run_one(d, Effect::Store(c2));
    assert(d.contains_key(key) && d[key] is Items);
    let l = items(d, key);
    assert(l.len() >= 1 && l[0] == line);
    if l.len() > 10000 {
        assert(l.take(10000)[0] == line);
    }
}

/// A command saved from the dashboard reads back: its message is what
/// was saved (the command's record being a hash or nothing yet).
pub proof fn lemma_saved_command_reads_back(db: Db, c: Seq<char>, cmd: Seq<char>, msg: Seq<char>)
    requires
        hash_or_absent(db, chan_key(c, "commands:"@ + cmd)),
    ensures
        run_all(db, seq![Effect::Store(seq!["hset"@, chan_key(c, "commands:"@ + cmd), "message"@, msg])])
            matches Some(after) && hget(after, chan_key(c, "commands:"@ + cmd), "message"@) == Some(msg),
{
    reveal_words();
    lemma_run_one(db, Effect::Store(seq!["hset"@, chan_key(c, "commands:"@ + cmd), "message"@, msg]));
}

/// A new password logs in: after a password change stores a hash of the
/// new password (what `password` stores), the key a login for the channel
/// reads holds a hash the password verifies against. Channel names are
/// lowercase, as Twitch writes them.
pub proof fn lemma_password_then_login(db: Db, c: Seq<char>, pw: Seq<char>, h: Seq<char>)
    requires
        lowercase(c) == c,
        bcrypt_check(pw, h) == Some(true),
    ensures
        run_all(db, password_effects(c, h)) matches Some(after) && get(after, chan_key(lowercase(c), "password"@)) matches Some(stored)
            && bcrypt_check(pw, stored) == Some(true),
{
    reveal_words();
    lemma_run_one(db, Effect::Store(seq!["set"@, chan_key(c, "password"@), h]));
    assert(password_effects(c, h) =~= seq![Effect::Store(seq!["set"@, chan_key(c, "password"@), h])]);
}

proof fn lemma_key_suffix(c: Seq<char>, x: Seq<char>, y: Seq<char>)
    requires
        x != y,
    ensures
        chan_key(c, x) != chan_key(c, y),
{
    let p = "channel:"@ + c + ":"@;
    assert(chan_key(c, x) =~= p + x);
    assert(chan_key(c, y) =~= p + y);
    if chan_key(c, x) == chan_key(c, y) {
        assert(x =~= (p + x).skip(p.len() as int));
        assert(y =~= (p + y).skip(p.len() as int));
    }
}

proof fn lemma_chan_key_not(c: Seq<char>, x: Seq<char>, k: Seq<char>)
    requires
        k.len() > 0,
        k[0] != 'c' || (k.len() > 7 && k[7] != ':'),
    ensures
        chan_key(c, x) != k,
{
    reveal_strlit("channel:");
    reveal_strlit(":");
    let ck = chan_key(c, x);
    assert(ck[0] == 'c');
    assert(ck[7] == ':');
}

proof fn lemma_bot_key_not(b: Seq<char>, x: Seq<char>, k: Seq<char>)
    requires
        k.len() > 0,
        k[0] != 'b',
    ensures
        "bot:"@ + b + x != k,
{
    reveal_strlit("bot:");
    assert(("bot:"@ + b + x)[0] == 'b');
}

proof fn lemma_bot_suffix(b: Seq<char>, x: Seq<char>, y: Seq<char>)
    requires
        x != y,
    ensures
        "bot:"@ + b + x != "bot:"@ + b + y,
{
    let p = "bot:"@ + b;
    if p + x == p + y {
        assert(x =~= (p + x).skip(p.len() as int));
        assert(y =~= (p + y).skip(p.len() as int));
    }
}

/// A store command of a form the model covers.
pub open spec fn modeled(cmd: Seq<Seq<char>>) -> bool {
    cmd.len() > 0 && {
        let op = cmd[0];
        ||| op == "set"@ && cmd.len() == 3
        ||| op == "del"@ && cmd.len() == 2
        ||| op == "hset"@ && cmd.len() == 4
        ||| op == "hdel"@ && cmd.len() == 3
        ||| (op == "lpush"@ || op == "rpush"@) && cmd.len() == 3
        ||| op == "ltrim"@ && cmd.len() == 4 && cmd[2] == "0"@ && cmd[3] == "9999"@
        ||| op == "lrem"@ && cmd.len() == 4 && cmd[2] == "0"@
        ||| op == "sadd"@ && cmd.len() == 3
        ||| op == "srem"@ && cmd.len() == 3
        ||| (op == "publish"@ || op == "expire"@) && cmd.len() == 3
    }
}

/// Every store command among the actions is of a modelled form.
pub open spec fn all_modeled(e: Seq<Effect>) -> bool {
    forall|i: int| 0 <= i < e.len() ==> (#[trigger] e[i] matches Effect::Store(cmd) ==> modeled(cmd))
}

proof fn lemma_runs(db: Db, e: Seq<Effect>)
    requires
        all_modeled(e),
    ensures
        run_all(db, e) is Some,
    decreases e.len(),
{
    if e.len() > 0 {
        assert forall|i: int| 0 <= i < e.drop_last().len() implies (#[trigger] e.drop_last()[i] matches Effect::Store(cmd) ==> modeled(cmd)) by {
            assert(e.drop_last()[i] == e[i]);
        }
        lemma_runs(db, e.drop_last());
        assert(e[e.len() - 1] == e.last());
    }
}

/// The value under `k` after `e` is the one its last write `e[i]` left:
/// the actions after it do not touch `k`.
proof fn lemma_last_write(db: Db, e: Seq<Effect>, i: int, k: Seq<char>)
    requires
        0 <= i < e.len(),
        all_modeled(e),
        forall|j: int| i < j < e.len() ==> !touches(#[trigger] e[j], k),
    ensures
        run_all(db, e) is Some,
        run_all(db, e.take(i + 1)) is Some,
        (run_all(db, e)->0).contains_key(k) == (run_all(db, e.take(i + 1))->0).contains_key(k),
        (run_all(db, e)->0).contains_key(k) ==> (run_all(db, e)->0)[k] == (run_all(db, e.take(i + 1))->0)[k],
        run_all(db, e.take(i + 1)) == match run_all(db, e.take(i)) {
            Some(d) => match e[i] {
                Effect::Store(cmd) => run(d, cmd),
                _ => Some(d),
            },
            None => None,
        },
{
    let head = e.take(i + 1);
    let tail = e.skip(i + 1);
    assert(e =~= head + tail);
    assert forall|j: int| 0 <= j < head.len() implies (#[trigger] head[j] matches Effect::Store(cmd) ==> modeled(cmd)) by {
        assert(head[j] == e[j]);
    }
    assert forall|j: int| 0 <= j < tail.len() implies (#[trigger] tail[j] matches Effect::Store(cmd) ==> modeled(cmd)) by {
        assert(tail[j] == e[j + i + 1]);
    }
    lemma_runs(db, head);
    lemma_runs(db, e);
    lemma_run_append(db, head, tail);
    let d = run_all(db, head)->0;
    lemma_runs(d, tail);
    assert forall|j: int| 0 <= j < tail.len() implies !touches(#[trigger] tail[j], k) by {
        assert(tail[j] == e[j + i + 1]);
    }
    lemma_frame(d, tail, k);
    assert(head.drop_last() =~= e.take(i));
    assert(head.last() == e[i]);
}

proof fn lemma_bots_not(b: Seq<char>, x: Seq<char>)
    ensures
        "bot:"@ + b + x != "bots"@,
{
    reveal_strlit("bot:");
    reveal_strlit("bots");
    assert(("bot:"@ + b + x)[3] == ':');
}

/// Signing up makes a channel that logs in: after a sign-up is recorded
/// (with a hash the password verifies against), the channel is among the
/// channels, its password key holds that hash, it is served by the bot,
/// and the bot lists it. The sets the sign-up adds to must hold sets or
/// nothing.
pub proof fn lemma_signup_then_login(
    db: Db,
    login: Seq<char>,
    id: Seq<char>,
    display: Seq<char>,
    token: Seq<char>,
    pw: Seq<char>,
    h: Seq<char>,
    bot: Seq<char>,
    bot_token: Seq<char>,
)
    requires
        bcrypt_check(pw, h) == Some(true),
        set_or_absent(db, "bots"@),
        set_or_absent(db, "channels"@),
        set_or_absent(db, "bot:"@ + bot + ":channels"@),
    ensures
        run_all(db, signup_effects(login, id, display, token, h, bot, bot_token)) matches Some(after)
            && member(after, "channels"@, login)
            && get(after, chan_key(login, "password"@)) == Some(h)
            && bcrypt_check(pw, h) == Some(true)
            && get(after, chan_key(login, "bot"@)) == Some(bot)
            && member(after, "bot:"@ + bot + ":channels"@, login),
{
    reveal_words();
    reveal_strlit("bots");
    reveal_strlit("channels");
    reveal_strlit("new_channels");
    reveal_strlit(":token");
    reveal_strlit(":channels");
    reveal_strlit("bot");
    reveal_strlit("token");
    reveal_strlit("password");
    reveal_strlit("live");
    reveal_strlit("id");
    reveal_strlit("display-name");
    reveal_strlit("bot:");
    let e = signup_effects(login, id, display, token, h, bot, bot_token);
    let bk = "bot:"@ + bot + ":channels"@;
    let tk = "bot:"@ + bot + ":token"@;
    assert(all_modeled(e)) by {
        assert forall|i: int| 0 <= i < e.len() implies (#[trigger] e[i] matches Effect::Store(cmd) ==> modeled(cmd)) by {
            if i == 0 {} else if i == 1 {} else if i == 2 {} else if i == 3 {} else if i == 4 {}
            else if i == 5 {} else if i == 6 {} else if i == 7 {} else if i == 8 {} else if i == 9 {} else {}
        }
    }
    // Facts about which keys differ.
    lemma_bots_not(bot, ":channels"@);
    lemma_bots_not(bot, ":token"@);
    lemma_bot_suffix(bot, ":token"@, ":channels"@);
    lemma_bot_key_not(bot, ":token"@, "channels"@);
    lemma_bot_key_not(bot, ":channels"@, "channels"@);
    lemma_bot_key_not(bot, ":channels"@, "new_channels"@);
    lemma_chan_key_not(login, "bot"@, "channels"@);
    lemma_chan_key_not(login, "token"@, "channels"@);
    lemma_chan_key_not(login, "password"@, "channels"@);
    lemma_chan_key_not(login, "live"@, "channels"@);
    lemma_chan_key_not(login, "id"@, "channels"@);
    lemma_chan_key_not(login, "display-name"@, "channels"@);
    lemma_chan_key_not(login, "bot"@, bk);
    lemma_chan_key_not(login, "token"@, bk);
    lemma_chan_key_not(login, "password"@, bk);
    lemma_chan_key_not(login, "live"@, bk);
    lemma_chan_key_not(login, "id"@, bk);
    lemma_chan_key_not(login, "display-name"@, bk);
    lemma_chan_key_not(login, "password"@, "new_channels"@);
    lemma_chan_key_not(login, "bot"@, "new_channels"@);
    lemma_key_suffix(login, "bot"@, "token"@);
    lemma_key_suffix(login, "bot"@, "password"@);
    lemma_key_suffix(login, "bot"@, "live"@);
    lemma_key_suffix(login, "bot"@, "id"@);
    lemma_key_suffix(login, "bot"@, "display-name"@);
    lemma_key_suffix(login, "password"@, "live"@);
    lemma_key_suffix(login, "password"@, "id"@);
    lemma_key_suffix(login, "password"@, "display-name"@);
    // The channels set: written at 1.
    lemma_last_write(db, e, 1, "channels"@);
    assert("bots"@ != "channels"@);
    assert forall|j: int| 0 <= j < e.take(1).len() implies !touches(#[trigger] e.take(1)[j], "channels"@) by {
        assert(e.take(1)[j] == e[j]);
        assert(e[0] == Effect::Store(seq!["sadd"@, "bots"@, bot]));
    }
    lemma_runs(db, e.take(1));
    lemma_frame(db, e.take(1), "channels"@);
    // The bot's channel set: written at 3; nothing before touches it.
    lemma_last_write(db, e, 3, bk);
    assert forall|j: int| 0 <= j < e.take(3).len() implies !touches(#[trigger] e.take(3)[j], bk) by {
        assert(e.take(3)[j] == e[j]);
    }
    lemma_frame(db, e.take(3), bk);
    // The channel's bot: written at 4.
    lemma_last_write(db, e, 4, chan_key(login, "bot"@));
    // The password: written at 6.
    lemma_last_write(db, e, 6, chan_key(login, "password"@));
}


/// Leaving a channel for good forgets it: afterwards it is neither among
/// the channels nor among the channels of the bot that served it.
pub proof fn lemma_leave_forgets(db: Db, c: Seq<char>, bot: Seq<char>)
    ensures
        run_all(db, leave_effects(c, bot)) matches Some(after)
            && !member(after, "channels"@, c)
            && !member(after, "bot:"@ + bot + ":channels"@, c),
{
    reveal_words();
    reveal_strlit("channels");
    reveal_strlit(":channels");
    reveal_strlit("bot:");
    let e = leave_effects(c, bot);
    let bk = "bot:"@ + bot + ":channels"@;
    assert(all_modeled(e)) by {
        assert forall|i: int| 0 <= i < e.len() implies (#[trigger] e[i] matches Effect::Store(cmd) ==> modeled(cmd)) by {
            if i == 0 {} else {}
        }
    }
    lemma_bot_key_not(bot, ":channels"@, "channels"@);
    lemma_last_write(db, e, 1, "channels"@);
    lemma_last_write(db, e, 0, bk);
    assert(e.take(0) =~= Seq::<Effect>::empty());
    assert(e.take(2) =~= e);
}

/// Moving a channel to the bot of its own account: afterwards the channel
/// is served by that bot, the bot lists it and holds the new token. The
/// bots' channel sets and the set of bots must hold sets or nothing.
pub proof fn lemma_rename_moves(
    db: Db,
    c: Seq<char>,
    old_bot: Seq<char>,
    name: Seq<char>,
    token: Seq<char>,
    refresh: Seq<char>,
)
    requires
        set_or_absent(db, "bots"@),
        set_or_absent(db, "bot:"@ + old_bot + ":channels"@),
        set_or_absent(db, "bot:"@ + name + ":channels"@),
    ensures
        run_all(db, rename_effects(c, old_bot, name, token, refresh)) matches Some(after)
            && get(after, chan_key(c, "bot"@)) == Some(name)
            && member(after, "bot:"@ + name + ":channels"@, c)
            && get(after, "bot:"@ + name + ":token"@) == Some(token),
{
    reveal_words();
    reveal_strlit("bots");
    reveal_strlit(":channels");
    reveal_strlit(":token");
    reveal_strlit(":refresh");
    reveal_strlit("bot:");
    reveal_strlit("bot");
    let e = rename_effects(c, old_bot, name, token, refresh);
    let nk = "bot:"@ + name + ":channels"@;
    let ok = "bot:"@ + old_bot + ":channels"@;
    let tk = "bot:"@ + name + ":token"@;
    assert(all_modeled(e)) by {
        assert forall|i: int| 0 <= i < e.len() implies (#[trigger] e[i] matches Effect::Store(cmd) ==> modeled(cmd)) by {
            if i == 0 {} else if i == 1 {} else if i == 2 {} else if i == 3 {} else if i == 4 {} else {}
        }
    }
    lemma_bots_not(name, ":channels"@);
    lemma_bot_suffix(name, ":token"@, ":channels"@);
    lemma_bot_suffix(name, ":refresh"@, ":channels"@);
    lemma_bot_suffix(name, ":refresh"@, ":token"@);
    lemma_chan_key_not(c, "bot"@, nk);
    lemma_chan_key_not(c, "bot"@, tk);
    // The channel's bot: written last.
    lemma_last_write(db, e, 5, chan_key(c, "bot"@));
    assert(e.take(6) =~= e);
    // The new bot's token: written at 3.
    lemma_last_write(db, e, 3, tk);
    // The new bot's channels: written at 2; before it, only the old bot's
    // set (possibly the same) and the set of bots changed.
    lemma_last_write(db, e, 2, nk);
    lemma_last_write(db, e.take(2), 1, nk);
    assert(e.take(2).take(2) =~= e.take(2));
    assert(e.take(2).take(1) =~= e.take(1));
    assert(e.take(2)[1] == e[1]);
    lemma_run_one(db, e[0]);
    assert(e.take(1) =~= seq![e[0]]);
    if ok != nk {
        lemma_run_frame(db, seq!["srem"@, ok, c], nk);
    }
}

/// A store command followed by a chat line does what the command does.
proof fn lemma_store_then_say(db: Db, cmd: Seq<Seq<char>>, s: Seq<char>)
    ensures
        run_all(db, seq![Effect::Store(cmd), Effect::Say(s)]) == run(db, cmd),
{
    let e = seq![Effect::Store(cmd), Effect::Say(s)];
    assert(e.drop_last() =~= seq![Effect::Store(cmd)]);
    lemma_run_one(db, Effect::Store(cmd));
}

/// A setting reads back: after `!set <name> [value...]` the channel's
/// settings hold the value under the name (`true` when none was given);
/// the settings record must be a hash or nothing yet.
pub proof fn lemma_set_reads_back(db: Db, c: Seq<char>, a: Seq<Seq<char>>)
    requires
        a.len() > 0,
        hash_or_absent(db, chan_key(c, "settings"@)),
    ensures
        run_all(db, set_effects(c, a)) matches Some(after) && hget(after, chan_key(c, "settings"@), a[0])
            == Some(if a.len() == 1 { "true"@ } else { join(a.skip(1), " "@) }),
{
    reveal_words();
    let v = if a.len() == 1 { "true"@ } else { join(a.skip(1), " "@) };
    let say = if a.len() == 1 { a[0] + " has been set to: true"@ } else { a[0] + " has been set to: "@ + v };
    assert(set_effects(c, a) =~= seq![Effect::Store(seq!["hset"@, chan_key(c, "settings"@), a[0], v]), Effect::Say(say)]);
    lemma_store_then_say(db, seq!["hset"@, chan_key(c, "settings"@), a[0], v], say);
}

/// `!unset <name>` forgets the setting: afterwards no value is stored
/// under the name.
pub proof fn lemma_unset_forgets(db: Db, c: Seq<char>, name: Seq<char>)
    ensures
        run_all(db, unset_effects(c, seq![name])) matches Some(after) && hget(after, chan_key(c, "settings"@), name)
            is None,
{
    reveal_words();
    let k = chan_key(c, "settings"@);
    let say = name + " has been unset"@;
    assert(unset_effects(c, seq![name]) =~= seq![Effect::Store(seq!["hdel"@, k, name]), Effect::Say(say)]);
    lemma_store_then_say(db, seq!["hdel"@, k, name], say);
}

/// A custom command reads back: after `!command add <name> <message...>`
/// (or `modadd`) the command named by the lowercased name answers with the
/// message; its record must be a hash or nothing yet.
pub proof fn lemma_added_command_reads_back(db: Db, c: Seq<char>, a: Seq<Seq<char>>)
    requires
        a.len() > 2,
        lowercase(a[0]) == "add"@ || lowercase(a[0]) == "modadd"@,
        hash_or_absent(db, chan_key(c, "commands:"@ + lowercase(a[1]))),
    ensures
        run_all(db, command_effects(c, a)) matches Some(after) && hget(
            after,
            chan_key(c, "commands:"@ + lowercase(a[1])),
            "message"@,
        ) == Some(join(a.skip(2), " "@)),
{
    reveal_words();
    reveal_strlit("add");
    reveal_strlit("modadd");
    reveal_strlit("message");
    reveal_strlit("cmd_protected");
    reveal_strlit("arg_protected");
    let k = chan_key(c, "commands:"@ + lowercase(a[1]));
    let m = join(a.skip(2), " "@);
    let p = if lowercase(a[0]) == "add"@ { "false"@ } else { "true"@ };
    let e = command_effects(c, a);
    let w0 = seq!["hset"@, k, "message"@, m];
    let w1 = seq!["hset"@, k, "cmd_protected"@, p];
    let w2 = seq!["hset"@, k, "arg_protected"@, p];
    assert(e =~= seq![Effect::Store(w0), Effect::Store(w1), Effect::Store(w2), Effect::Say(a[1] + " has been added"@)]);
    assert("message"@.len() != "cmd_protected"@.len());
    assert("message"@.len() != "arg_protected"@.len());
    let d0 = run(db, w0)->0;
    assert(hget(d0, k, "message"@) == Some(m));
    let d1 = run(d0, w1)->0;
    assert(hget(d1, k, "message"@) == Some(m));
    let d2 = run(d1, w2)->0;
    assert(hget(d2, k, "message"@) == Some(m));
    lemma_run_one(db, Effect::Store(w0));
    let e3 = e.drop_last();
    let e2 = e3.drop_last();
    let e1 = e2.drop_last();
    assert(e1 =~= seq![Effect::Store(w0)]);
    assert(run_all(db, e1) == Some(d0));
    assert(e2.last() == Effect::Store(w1));
    assert(run_all(db, e2) == Some(d1));
    assert(e3.last() == Effect::Store(w2));
    assert(run_all(db, e3) == Some(d2));
    assert(run_all(db, e) == Some(d2));
}

/// `!command remove <name>` forgets the command: afterwards the command
/// named by the lowercased name has no message.
pub proof fn lemma_removed_command_forgets(db: Db, c: Seq<char>, a: Seq<Seq<char>>)
    requires
        a.len() > 1,
        lowercase(a[0]) == "remove"@,
    ensures
        run_all(db, command_effects(c, a)) matches Some(after) && hget(
            after,
            chan_key(c, "commands:"@ + lowercase(a[1])),
            "message"@,
        ) is None,
{
    reveal_words();
    reveal_strlit("add");
    reveal_strlit("modadd");
    reveal_strlit("remove");
    let k = chan_key(c, "commands:"@ + lowercase(a[1]));
    let say = a[1] + " has been removed"@;
    assert("remove"@.len() != "add"@.len());
    assert("remove"@[0] != "modadd"@[0]);
    assert(command_effects(c, a) =~= seq![Effect::Store(seq!["del"@, k]), Effect::Say(say)]);
    lemma_store_then_say(db, seq!["del"@, k], say);
}

/// A phrase reads back: after `!phrases set <name> <text...>` the
/// `(phrase <name>)` variable shows the text; the phrases record must be a
/// hash or nothing yet.
pub proof fn lemma_phrase_reads_back(db: Db, c: Seq<char>, a: Seq<Seq<char>>)
    requires
        a.len() > 2,
        lowercase(a[0]) == "set"@,
        hash_or_absent(db, chan_key(c, "phrases"@)),
    ensures
        run_all(db, phrases_effects(c, a)) matches Some(after) && phrase_value(
            seq![a[1]],
            hget(after, chan_key(c, "phrases"@), a[1]),
        ) == join(a.skip(2), " "@),
{
    reveal_words();
    let k = chan_key(c, "phrases"@);
    let v = join(a.skip(2), " "@);
    let say = a[1] + " has been set to: "@ + v;
    assert(phrases_effects(c, a) =~= seq![Effect::Store(seq!["hset"@, k, a[1], v]), Effect::Say(say)]);
    lemma_store_then_say(db, seq!["hset"@, k, a[1], v], say);
}

/// A notice added from the dashboard joins its interval's rotation: the
/// command goes to the back of the interval's queue and the interval's
/// countdown starts from the interval; the queue must be a list or nothing
/// yet.
pub proof fn lemma_added_notice_joins_rotation(db: Db, c: Seq<char>, interval: Seq<char>, command: Seq<char>)
    requires
        list_or_absent(db, chan_key(c, "notices:"@ + interval + ":commands"@)),
    ensures
        run_all(db, new_notice_effects(c, interval, command)) matches Some(after)
            && items(after, chan_key(c, "notices:"@ + interval + ":commands"@)) == items(
            db,
            chan_key(c, "notices:"@ + interval + ":commands"@),
        ).push(command) && get(after, chan_key(c, "notices:"@ + interval + ":countdown"@)) == Some(interval),
{
    reveal_words();
    reveal_strlit(":commands");
    reveal_strlit(":countdown");
    let x = "notices:"@ + interval + ":commands"@;
    let y = "notices:"@ + interval + ":countdown"@;
    assert(x.len() != y.len());
    lemma_key_suffix(c, x, y);
    let kq = chan_key(c, x);
    let kc = chan_key(c, y);
    let e = new_notice_effects(c, interval, command);
    let w0 = seq!["rpush"@, kq, command];
    let w1 = seq!["set"@, kc, interval];
    lemma_run_one(db, Effect::Store(w0));
    assert(e.drop_last() =~= seq![Effect::Store(w0)]);
    assert(e.last() == Effect::Store(w1));
    let d0 = run(db, w0)->0;
    assert(items(d0, kq) =~= items(db, kq).push(command));
    assert(run_all(db, e) == run(d0, w1));
}

/// A notice removed from the dashboard leaves its interval's rotation: the
/// interval's queue no longer holds the command.
pub proof fn lemma_trashed_notice_leaves_rotation(db: Db, c: Seq<char>, interval: Seq<char>, command: Seq<char>)
    ensures
        run_all(
            db,
            seq![Effect::Store(seq!["lrem"@, chan_key(c, "notices:"@ + interval + ":commands"@), "0"@, command])],
        ) matches Some(after) && !items(after, chan_key(c, "notices:"@ + interval + ":commands"@)).contains(
            command,
        ),
{
    broadcast use vstd::seq_lib::group_filter_ensures;
    reveal_words();
    let k = chan_key(c, "notices:"@ + interval + ":commands"@);
    let w = seq!["lrem"@, k, "0"@, command];
    lemma_run_one(db, Effect::Store(w));
    if db.contains_key(k) {
        match db[k] {
            Entry::Items(l) => {
                let f = without_all(l, command);
                if f.contains(command) {
                    let i = choose|i: int| 0 <= i < f.len() && f[i] == command;
                    assert(f[i] != command);
                }
            },
            _ => {},
        }
    }
}

/// An alias reads back and expands: after `!command alias <name>
/// <target...>` the channel's aliases hold the lowercased target under the
/// lowercased name, and a line whose command word is that name runs the
/// target's first word with the target's other words before the line's
/// arguments; the aliases record must be a hash or nothing yet.
pub proof fn lemma_alias_expands(db: Db, c: Seq<char>, a: Seq<Seq<char>>, args: Seq<Seq<char>>)
    requires
        a.len() > 2,
        lowercase(a[0]) == "alias"@,
        hash_or_absent(db, chan_key(c, "aliases"@)),
    ensures
        run_all(db, command_effects(c, a)) matches Some(after) && hget(
            after,
            chan_key(c, "aliases"@),
            lowercase(a[1]),
        ) == Some(lowercase(join(a.skip(2), " "@))) && alias_expansion(
            lowercase(a[1]),
            args,
            hget(after, chan_key(c, "aliases"@), lowercase(a[1])),
        ) == (if words(lowercase(join(a.skip(2), " "@))).len() > 0 {
            (
                words(lowercase(join(a.skip(2), " "@)))[0],
                words(lowercase(join(a.skip(2), " "@))).skip(1) + args,
            )
        } else {
            (lowercase(a[1]), args)
        }),
{
    reveal_words();
    reveal_strlit("add");
    reveal_strlit("modadd");
    reveal_strlit("remove");
    reveal_strlit("alias");
    assert("alias"@.len() != "add"@.len());
    assert("alias"@.len() != "modadd"@.len());
    assert("alias"@.len() != "remove"@.len());
    let k = chan_key(c, "aliases"@);
    let name = lowercase(a[1]);
    let t = lowercase(join(a.skip(2), " "@));
    let say = name + " has been added as an alias to "@ + t;
    assert(command_effects(c, a) =~= seq![Effect::Store(seq!["hset"@, k, name, t]), Effect::Say(say)]);
    lemma_store_then_say(db, seq!["hset"@, k, name, t], say);
}

/// `!command remalias <name>` forgets the alias: afterwards the lowercased
/// name has no alias, and a line with that command word runs as it is.
pub proof fn lemma_removed_alias_forgets(db: Db, c: Seq<char>, a: Seq<Seq<char>>, args: Seq<Seq<char>>)
    requires
        a.len() > 1,
        lowercase(a[0]) == "remalias"@,
    ensures
        run_all(db, command_effects(c, a)) matches Some(after) && hget(after, chan_key(c, "aliases"@), lowercase(a[1]))
            is None && alias_expansion(
            lowercase(a[1]),
            args,
            hget(after, chan_key(c, "aliases"@), lowercase(a[1])),
        ) == (lowercase(a[1]), args),
{
    reveal_words();
    reveal_strlit("add");
    reveal_strlit("modadd");
    reveal_strlit("remove");
    reveal_strlit("alias");
    reveal_strlit("remalias");
    assert("remalias"@.len() != "add"@.len());
    assert("remalias"@.len() != "modadd"@.len());
    assert("remalias"@.len() != "remove"@.len());
    assert("remalias"@.len() != "alias"@.len());
    let k = chan_key(c, "aliases"@);
    let name = lowercase(a[1]);
    let say = name + " has been removed as an alias"@;
    assert(command_effects(c, a) =~= seq![Effect::Store(seq!["hdel"@, k, name]), Effect::Say(say)]);
    lemma_store_then_say(db, seq!["hdel"@, k, name], say);
}

/// `!moderation links blocksubs` takes links from subscribers: afterwards
/// the stored subscriber-links setting reads `false`, and the link filter
/// treats a subscriber's line exactly as anyone else's.
pub proof fn lemma_blocksubs_filters_subscribers(
    db: Db,
    c: Seq<char>,
    a: Seq<Seq<char>>,
    msg: Seq<char>,
    links: Seq<Seq<char>>,
    permitted: Seq<Seq<char>>,
    nick: Seq<char>,
    display: Seq<char>,
)
    requires
        a.len() > 1,
        lowercase(a[0]) == "links"@,
        lowercase(a[1]) == "blocksubs"@,
    ensures
        run_all(db, moderation_effects(c, a)) matches Some(after) && get(after, chan_key(c, "moderation:links:subs"@))
            == Some("false"@) && link_filter_effects(msg, links, permitted, "false"@, true, nick, display)
            == link_filter_effects(msg, links, permitted, "false"@, false, nick, display),
{
    reveal_words();
    reveal_strlit("links");
    reveal_strlit("add");
    reveal_strlit("remove");
    reveal_strlit("allowsubs");
    reveal_strlit("blocksubs");
    reveal_strlit("true");
    reveal_strlit("false");
    assert("blocksubs"@.len() != "add"@.len());
    assert("blocksubs"@.len() != "remove"@.len());
    assert("blocksubs"@[0] != "allowsubs"@[0]);
    assert("false"@.len() != "true"@.len());
    let k = chan_key(c, "moderation:links:subs"@);
    let say = "Subs are not allowed to post links"@;
    assert(moderation_effects(c, a) =~= seq![Effect::Store(seq!["set"@, k, "false"@]), Effect::Say(say)]);
    lemma_store_then_say(db, seq!["set"@, k, "false"@], say);
}

/// `!moderation links allowsubs` lets subscribers post links: afterwards
/// the stored subscriber-links setting reads `true`, and the link filter
/// leaves every subscriber's line alone.
pub proof fn lemma_allowsubs_spares_subscribers(
    db: Db,
    c: Seq<char>,
    a: Seq<Seq<char>>,
    msg: Seq<char>,
    links: Seq<Seq<char>>,
    permitted: Seq<Seq<char>>,
    nick: Seq<char>,
    display: Seq<char>,
)
    requires
        a.len() > 1,
        lowercase(a[0]) == "links"@,
        lowercase(a[1]) == "allowsubs"@,
    ensures
        run_all(db, moderation_effects(c, a)) matches Some(after) && get(after, chan_key(c, "moderation:links:subs"@))
            == Some("true"@) && link_filter_effects(msg, links, permitted, "true"@, true, nick, display)
            == Some(Seq::<Effect>::empty()),
{
    reveal_words();
    reveal_strlit("links");
    reveal_strlit("add");
    reveal_strlit("remove");
    reveal_strlit("allowsubs");
    assert("allowsubs"@.len() != "add"@.len());
    assert("allowsubs"@.len() != "remove"@.len());
    let k = chan_key(c, "moderation:links:subs"@);
    let say = "Subs are now allowed to post links"@;
    assert(moderation_effects(c, a) =~= seq![Effect::Store(seq!["set"@, k, "true"@]), Effect::Say(say)]);
    lemma_store_then_say(db, seq!["set"@, k, "true"@], say);
}

} // verus!
