//! The chat commands every channel has (`!set`, `!command`, `!notices`, ...):
//! what each asks of the store and what it answers.
use crate::action::{
    channel_key, chan_key, effects, emit, say, store2, store3, store4, Action, Effect,
};
use crate::action::opt_view;
use crate::text::{
    concat2, concat3, concat4, decimal, decimal_string, join, join_all, join_from, lowercase,
    parse_u16, parse_unsigned, same_text, views,
};
use vstd::prelude::*;

verus! {

/// `s` lowercased is `lit`.
pub fn lower_is(s: &str, lit: &str) -> (b: bool)
    ensures
        b == (lowercase(s@) == lit@),
{
    let l = s.to_lowercase();
    same_text(l.as_str(), lit)
}

// ---------------------------------------------------------------------------
/// What `!echo` does: says its arguments.
pub open spec fn echo_effects(a: Seq<Seq<char>>) -> Seq<Effect> {
    seq![Effect::Say(join(a, " "@))]
}

/// `!echo <words>`.
pub fn echo_cmd(args: &Vec<String>) -> (r: Vec<Action>)
    ensures
        effects(r@) == echo_effects(views(args@)),
{
    let mut r: Vec<Action> = Vec::new();
    let line = join_all(args, " ");
    emit(&mut r, Action::Say(line));
    assert(effects(r@) =~= echo_effects(views(args@)));
    r
}

// ---------------------------------------------------------------------------
/// What `!set` does: sets a channel setting (to `true` when no value is
/// given) and says so.
pub open spec fn set_effects(c: Seq<char>, a: Seq<Seq<char>>) -> Seq<Effect> {
    if a.len() == 0 {
        seq![]
    } else if a.len() == 1 {
        seq![
            Effect::Store(seq!["hset"@, chan_key(c, "settings"@), a[0], "true"@]),
            Effect::Say(a[0] + " has been set to: true"@),
        ]
    } else {
        let v = join(a.skip(1), " "@);
        seq![
            Effect::Store(seq!["hset"@, chan_key(c, "settings"@), a[0], v]),
            Effect::Say(a[0] + " has been set to: "@ + v),
        ]
    }
}

/// `!set <name> [value...]`.
pub fn set_cmd(channel: &str, args: &Vec<String>) -> (r: Vec<Action>)
    ensures
        effects(r@) == set_effects(channel@, views(args@)),
{
    let mut r: Vec<Action> = Vec::new();
    let key = channel_key(channel, "settings");
    if args.len() == 0 {
    } else if args.len() == 1 {
        emit(&mut r, store4("hset", key.as_str(), args[0].as_str(), "true"));
        emit(&mut r, Action::Say(concat2(args[0].as_str(), " has been set to: true")));
    } else {
        let v = join_from(args, 1, " ");
        assert(views(args@.skip(1)) =~= views(args@).skip(1));
        emit(&mut r, store4("hset", key.as_str(), args[0].as_str(), v.as_str()));
        emit(&mut r, Action::Say(concat3(args[0].as_str(), " has been set to: ", v.as_str())));
    }
    assert(effects(r@) =~= set_effects(channel@, views(args@)));
    r
}

/// What `!unset` does: removes one channel setting and says so.
pub open spec fn unset_effects(c: Seq<char>, a: Seq<Seq<char>>) -> Seq<Effect> {
    if a.len() == 1 {
        seq![
            Effect::Store(seq!["hdel"@, chan_key(c, "settings"@), a[0]]),
            Effect::Say(a[0] + " has been unset"@),
        ]
    } else {
        seq![]
    }
}

/// `!unset <name>`.
pub fn unset_cmd(channel: &str, args: &Vec<String>) -> (r: Vec<Action>)
    ensures
        effects(r@) == unset_effects(channel@, views(args@)),
{
    let mut r: Vec<Action> = Vec::new();
    if args.len() == 1 {
        let key = channel_key(channel, "settings");
        emit(&mut r, store3("hdel", key.as_str(), args[0].as_str()));
        emit(&mut r, Action::Say(concat2(args[0].as_str(), " has been unset")));
    }
    assert(effects(r@) =~= unset_effects(channel@, views(args@)));
    r
}

// ---------------------------------------------------------------------------
/// What adding a custom command does: stores its message and its two
/// protection flags, then says so.
pub open spec fn add_command_effects(
    c: Seq<char>,
    a: Seq<Seq<char>>,
    protect: Seq<char>,
) -> Seq<Effect> {
    let key = chan_key(c, "commands:"@ + lowercase(a[1]));
    seq![
        Effect::Store(seq!["hset"@, key, "message"@, join(a.skip(2), " "@)]),
        Effect::Store(seq!["hset"@, key, "cmd_protected"@, protect]),
        Effect::Store(seq!["hset"@, key, "arg_protected"@, protect]),
        Effect::Say(a[1] + " has been added"@),
    ]
}

/// What `!command` does: `add` and `modadd` store a custom command (open to
/// everyone, or to moderators only), `remove` deletes one, `alias` and
/// `remalias` manage aliases.
pub open spec fn command_effects(c: Seq<char>, a: Seq<Seq<char>>) -> Seq<Effect> {
    if a.len() > 1 {
        let sub = lowercase(a[0]);
        let name = lowercase(a[1]);
        if sub == "add"@ {
            if a.len() > 2 {
                add_command_effects(c, a, "false"@)
            } else {
                seq![]
            }
        } else if sub == "modadd"@ {
            if a.len() > 2 {
                add_command_effects(c, a, "true"@)
            } else {
                seq![]
            }
        } else if sub == "remove"@ {
            seq![
                Effect::Store(seq!["del"@, chan_key(c, "commands:"@ + name)]),
                Effect::Say(a[1] + " has been removed"@),
            ]
        } else if sub == "alias"@ {
            if a.len() > 2 {
                let target = lowercase(join(a.skip(2), " "@));
                seq![
                    Effect::Store(seq!["hset"@, chan_key(c, "aliases"@), name, target]),
                    Effect::Say(name + " has been added as an alias to "@ + target),
                ]
            } else {
                seq![]
            }
        } else if sub == "remalias"@ {
            seq![
                Effect::Store(seq!["hdel"@, chan_key(c, "aliases"@), name]),
                Effect::Say(name + " has been removed as an alias"@),
            ]
        } else {
            seq![]
        }
    } else {
        seq![]
    }
}

fn add_command(channel: &str, args: &Vec<String>, protect: &str) -> (r: Vec<Action>)
    requires
        args.len() > 2,
    ensures
        effects(r@) == add_command_effects(channel@, views(args@), protect@),
{
    let mut r: Vec<Action> = Vec::new();
    let name = args[1].to_lowercase();
    let key = channel_key(channel, concat2("commands:", name.as_str()).as_str());
    let msg = join_from(args, 2, " ");
    assert(views(args@.skip(2)) =~= views(args@).skip(2));
    emit(&mut r, store4("hset", key.as_str(), "message", msg.as_str()));
    emit(&mut r, store4("hset", key.as_str(), "cmd_protected", protect));
    emit(&mut r, store4("hset", key.as_str(), "arg_protected", protect));
    emit(&mut r, Action::Say(concat2(args[1].as_str(), " has been added")));
    assert(effects(r@) =~= add_command_effects(channel@, views(args@), protect@));
    r
}

/// `!command add|modadd|remove|alias|remalias ...`.
pub fn command_cmd(channel: &str, args: &Vec<String>) -> (r: Vec<Action>)
    ensures
        effects(r@) == command_effects(channel@, views(args@)),
{
    let mut r: Vec<Action> = Vec::new();
    if args.len() > 1 {
        let a0 = args[0].as_str();
        let name = args[1].to_lowercase();
        if lower_is(a0, "add") {
            if args.len() > 2 {
                r = add_command(channel, args, "false");
            }
        } else if lower_is(a0, "modadd") {
            if args.len() > 2 {
                r = add_command(channel, args, "true");
            }
        } else if lower_is(a0, "remove") {
            let key = channel_key(channel, concat2("commands:", name.as_str()).as_str());
            emit(&mut r, store2("del", key.as_str()));
            emit(&mut r, Action::Say(concat2(args[1].as_str(), " has been removed")));
        } else if lower_is(a0, "alias") {
            if args.len() > 2 {
                let joined = join_from(args, 2, " ");
                assert(views(args@.skip(2)) =~= views(args@).skip(2));
                let target = joined.to_lowercase();
                let key = channel_key(channel, "aliases");
                emit(&mut r, store4("hset", key.as_str(), name.as_str(), target.as_str()));
                emit(
                    &mut r,
                    Action::Say(
                        concat3(name.as_str(), " has been added as an alias to ", target.as_str()),
                    ),
                );
            }
        } else if lower_is(a0, "remalias") {
            let key = channel_key(channel, "aliases");
            emit(&mut r, store3("hdel", key.as_str(), name.as_str()));
            emit(&mut r, Action::Say(concat2(name.as_str(), " has been removed as an alias")));
        }
    }
    assert(effects(r@) =~= command_effects(channel@, views(args@)));
    r
}


// ---------------------------------------------------------------------------
/// The one input on which `!notices` fails: `add` with an interval that is a
/// multiple of 60 but no command after it.
pub open spec fn notices_lacks_command(a: Seq<Seq<char>>) -> bool {
    a.len() == 2 && lowercase(a[0]) == "add"@ && match parse_unsigned(a[1], 65535) {
        Some(n) => n % 60 == 0,
        None => false,
    }
}

/// What `!notices add <seconds> <command>` does: queues the command under
/// the interval and starts its countdown, when the interval is a number of
/// minutes.
pub open spec fn notices_effects(c: Seq<char>, a: Seq<Seq<char>>) -> Seq<Effect> {
    if a.len() > 1 && lowercase(a[0]) == "add"@ {
        match parse_unsigned(a[1], 65535) {
            Some(n) => if n % 60 == 0 {
                seq![
                    Effect::Store(
                        seq!["rpush"@, chan_key(c, "notices:"@ + a[1] + ":commands"@), a[2]],
                    ),
                    Effect::Store(
                        seq!["set"@, chan_key(c, "notices:"@ + a[1] + ":countdown"@), a[1]],
                    ),
                    Effect::Say("notice has been added"@),
                ]
            } else {
                seq![Effect::Say("notice interval must be a multiple of 60"@)]
            },
            None => seq![],
        }
    } else {
        seq![]
    }
}

/// `!notices add <seconds> <command>`.
pub fn notices_cmd(channel: &str, args: &Vec<String>) -> (r: Vec<Action>)
    requires
        !notices_lacks_command(views(args@)),
    ensures
        effects(r@) == notices_effects(channel@, views(args@)),
{
    let mut r: Vec<Action> = Vec::new();
    if args.len() > 1 && lower_is(args[0].as_str(), "add") {
        match parse_u16(args[1].as_str()) {
            Some(n) => {
                if n % 60 == 0 {
                    let k1 = channel_key(
                        channel,
                        concat3("notices:", args[1].as_str(), ":commands").as_str(),
                    );
                    let k2 = channel_key(
                        channel,
                        concat3("notices:", args[1].as_str(), ":countdown").as_str(),
                    );
                    emit(&mut r, store3("rpush", k1.as_str(), args[2].as_str()));
                    emit(&mut r, store3("set", k2.as_str(), args[1].as_str()));
                    emit(&mut r, say("notice has been added"));
                } else {
                    emit(&mut r, say("notice interval must be a multiple of 60"));
                }
            },
            None => {},
        }
    }
    assert(effects(r@) =~= notices_effects(channel@, views(args@)));
    r
}

// ---------------------------------------------------------------------------
/// `!moderation links ...`: the link whitelist and whether subscribers may
/// post links.  (Adding to the whitelist removes from the set, as the bot
/// always has.)
pub open spec fn links_effects(c: Seq<char>, a: Seq<Seq<char>>) -> Seq<Effect> {
    let s1 = lowercase(a[1]);
    if s1 == "add"@ {
        if a.len() > 2 {
            seq![
                Effect::Store(seq!["srem"@, chan_key(c, "moderation:links"@), a[2]]),
                Effect::Say(a[2] + " has been whitelisted"@),
            ]
        } else {
            seq![]
        }
    } else if s1 == "remove"@ {
        if a.len() > 2 {
            seq![
                Effect::Store(seq!["srem"@, chan_key(c, "moderation:links"@), a[2]]),
                Effect::Say(a[2] + " has been removed from the whitelist"@),
            ]
        } else {
            seq![]
        }
    } else if s1 == "allowsubs"@ {
        seq![
            Effect::Store(seq!["set"@, chan_key(c, "moderation:links:subs"@), "true"@]),
            Effect::Say("Subs are now allowed to post links"@),
        ]
    } else if s1 == "blocksubs"@ {
        seq![
            Effect::Store(seq!["set"@, chan_key(c, "moderation:links:subs"@), "false"@]),
            Effect::Say("Subs are not allowed to post links"@),
        ]
    } else {
        seq![]
    }
}

/// `!moderation colors on|off`.  (Both store `true`, as the bot always has.)
pub open spec fn colors_effects(c: Seq<char>, a: Seq<Seq<char>>) -> Seq<Effect> {
    let s1 = lowercase(a[1]);
    if s1 == "on"@ {
        seq![
            Effect::Store(seq!["set"@, chan_key(c, "moderation:colors"@), "true"@]),
            Effect::Say("Color filter has been turned on"@),
        ]
    } else if s1 == "off"@ {
        seq![
            Effect::Store(seq!["set"@, chan_key(c, "moderation:colors"@), "true"@]),
            Effect::Say("Color filter has been turned off"@),
        ]
    } else {
        seq![]
    }
}

/// `!moderation caps set <limit> <trigger> [subs]|off`.
pub open spec fn caps_effects(c: Seq<char>, a: Seq<Seq<char>>) -> Seq<Effect> {
    let s1 = lowercase(a[1]);
    if s1 == "set"@ {
        if a.len() > 3 {
            let head = seq![
                Effect::Store(seq!["set"@, chan_key(c, "moderation:caps"@), "true"@]),
                Effect::Store(seq!["set"@, chan_key(c, "moderation:caps:limit"@), a[2]]),
                Effect::Store(seq!["set"@, chan_key(c, "moderation:caps:trigger"@), a[3]]),
            ];
            let subs = if a.len() > 4 {
                seq![Effect::Store(seq!["set"@, chan_key(c, "moderation:caps:subs"@), a[4]])]
            } else {
                seq![]
            };
            head + subs + seq![Effect::Say("Caps filter has been turned on"@)]
        } else {
            seq![]
        }
    } else if s1 == "off"@ {
        seq![
            Effect::Store(seq!["del"@, chan_key(c, "moderation:caps"@)]),
            Effect::Say("Caps filter has been turned off"@),
        ]
    } else {
        seq![]
    }
}

/// `!moderation age set <minutes>|off`.
pub open spec fn age_effects(c: Seq<char>, a: Seq<Seq<char>>) -> Seq<Effect> {
    let s1 = lowercase(a[1]);
    if s1 == "set"@ {
        if a.len() > 2 {
            seq![
                Effect::Store(seq!["set"@, chan_key(c, "moderation:age"@), a[2]]),
                Effect::Say("Minimum account age has been set to: "@ + a[2]),
            ]
        } else {
            seq![]
        }
    } else if s1 == "off"@ {
        seq![
            Effect::Store(seq!["del"@, chan_key(c, "moderation:age"@)]),
            Effect::Say("Minimum account age filter has been turned off"@),
        ]
    } else {
        seq![]
    }
}

/// `!moderation display on|off`.
pub open spec fn display_effects(c: Seq<char>, a: Seq<Seq<char>>) -> Seq<Effect> {
    let s1 = lowercase(a[1]);
    if s1 == "on"@ {
        seq![
            Effect::Store(seq!["set"@, chan_key(c, "moderation:display"@), "true"@]),
            Effect::Say("Displaying timeout reasons has been turned on"@),
        ]
    } else if s1 == "off"@ {
        seq![
            Effect::Store(seq!["set"@, chan_key(c, "moderation:display"@), "false"@]),
            Effect::Say("Displaying timeout reasons has been turned off"@),
        ]
    } else {
        seq![]
    }
}

/// What `!moderation <filter> ...` does.
pub open spec fn moderation_effects(c: Seq<char>, a: Seq<Seq<char>>) -> Seq<Effect> {
    if a.len() > 1 {
        let s0 = lowercase(a[0]);
        if s0 == "links"@ {
            links_effects(c, a)
        } else if s0 == "colors"@ {
            colors_effects(c, a)
        } else if s0 == "caps"@ {
            caps_effects(c, a)
        } else if s0 == "age"@ {
            age_effects(c, a)
        } else if s0 == "display"@ {
            display_effects(c, a)
        } else {
            seq![]
        }
    } else {
        seq![]
    }
}

/// A store command that sets `channel:<c>:<suffix>` to `value`, and a line to say.
fn set_and_say(channel: &str, suffix: &str, value: &str, line: &str, r: &mut Vec<Action>)
    ensures
        effects(final(r)@) == effects(old(r)@) + seq![
            Effect::Store(seq!["set"@, chan_key(channel@, suffix@), value@]),
            Effect::Say(line@),
        ],
{
    let key = channel_key(channel, suffix);
    emit(r, store3("set", key.as_str(), value));
    emit(r, say(line));
    assert(effects(r@) =~= effects(old(r)@) + seq![
        Effect::Store(seq!["set"@, chan_key(channel@, suffix@), value@]),
        Effect::Say(line@),
    ]);
}

/// A store command that deletes `channel:<c>:<suffix>`, and a line to say.
fn del_and_say(channel: &str, suffix: &str, line: &str, r: &mut Vec<Action>)
    ensures
        effects(final(r)@) == effects(old(r)@) + seq![
            Effect::Store(seq!["del"@, chan_key(channel@, suffix@)]),
            Effect::Say(line@),
        ],
{
    let key = channel_key(channel, suffix);
    emit(r, store2("del", key.as_str()));
    emit(r, say(line));
    assert(effects(r@) =~= effects(old(r)@) + seq![
        Effect::Store(seq!["del"@, chan_key(channel@, suffix@)]),
        Effect::Say(line@),
    ]);
}

/// `!moderation <filter> ...`.
pub fn moderation_cmd(channel: &str, args: &Vec<String>) -> (r: Vec<Action>)
    ensures
        effects(r@) == moderation_effects(channel@, views(args@)),
{
    let mut r: Vec<Action> = Vec::new();
    assert(effects(r@) =~= seq![]);
    if args.len() > 1 {
        let a0 = args[0].as_str();
        let a1 = args[1].as_str();
        if lower_is(a0, "links") {
            if lower_is(a1, "add") {
                if args.len() > 2 {
                    let key = channel_key(channel, "moderation:links");
                    emit(&mut r, store3("srem", key.as_str(), args[2].as_str()));
                    emit(&mut r, Action::Say(concat2(args[2].as_str(), " has been whitelisted")));
                }
            } else if lower_is(a1, "remove") {
                if args.len() > 2 {
                    let key = channel_key(channel, "moderation:links");
                    emit(&mut r, store3("srem", key.as_str(), args[2].as_str()));
                    emit(
                        &mut r,
                        Action::Say(
                            concat2(args[2].as_str(), " has been removed from the whitelist"),
                        ),
                    );
                }
            } else if lower_is(a1, "allowsubs") {
                set_and_say(
                    channel,
                    "moderation:links:subs",
                    "true",
                    "Subs are now allowed to post links",
                    &mut r,
                );
            } else if lower_is(a1, "blocksubs") {
                set_and_say(
                    channel,
                    "moderation:links:subs",
                    "false",
                    "Subs are not allowed to post links",
                    &mut r,
                );
            }
            assert(effects(r@) =~= links_effects(channel@, views(args@)));
        } else if lower_is(a0, "colors") {
            if lower_is(a1, "on") {
                set_and_say(
                    channel,
                    "moderation:colors",
                    "true",
                    "Color filter has been turned on",
                    &mut r,
                );
            } else if lower_is(a1, "off") {
                set_and_say(
                    channel,
                    "moderation:colors",
                    "true",
                    "Color filter has been turned off",
                    &mut r,
                );
            }
            assert(effects(r@) =~= colors_effects(channel@, views(args@)));
        } else if lower_is(a0, "caps") {
            if lower_is(a1, "set") {
                if args.len() > 3 {
                    let k0 = channel_key(channel, "moderation:caps");
                    let k1 = channel_key(channel, "moderation:caps:limit");
                    let k2 = channel_key(channel, "moderation:caps:trigger");
                    emit(&mut r, store3("set", k0.as_str(), "true"));
                    emit(&mut r, store3("set", k1.as_str(), args[2].as_str()));
                    emit(&mut r, store3("set", k2.as_str(), args[3].as_str()));
                    if args.len() > 4 {
                        let k3 = channel_key(channel, "moderation:caps:subs");
                        emit(&mut r, store3("set", k3.as_str(), args[4].as_str()));
                    }
                    emit(&mut r, say("Caps filter has been turned on"));
                }
            } else if lower_is(a1, "off") {
                del_and_say(channel, "moderation:caps", "Caps filter has been turned off", &mut r);
            }
            assert(effects(r@) =~= caps_effects(channel@, views(args@)));
        } else if lower_is(a0, "age") {
            if lower_is(a1, "set") {
                if args.len() > 2 {
                    let key = channel_key(channel, "moderation:age");
                    emit(&mut r, store3("set", key.as_str(), args[2].as_str()));
                    emit(
                        &mut r,
                        Action::Say(
                            concat2("Minimum account age has been set to: ", args[2].as_str()),
                        ),
                    );
                }
            } else if lower_is(a1, "off") {
                del_and_say(
                    channel,
                    "moderation:age",
                    "Minimum account age filter has been turned off",
                    &mut r,
                );
            }
            assert(effects(r@) =~= age_effects(channel@, views(args@)));
        } else if lower_is(a0, "display") {
            if lower_is(a1, "on") {
                set_and_say(
                    channel,
                    "moderation:display",
                    "true",
                    "Displaying timeout reasons has been turned on",
                    &mut r,
                );
            } else if lower_is(a1, "off") {
                set_and_say(
                    channel,
                    "moderation:display",
                    "false",
                    "Displaying timeout reasons has been turned off",
                    &mut r,
                );
            }
            assert(effects(r@) =~= display_effects(channel@, views(args@)));
        }
    }
    r
}

// ---------------------------------------------------------------------------
/// What `!permit <nick>` does: lets the user post links for thirty seconds.
pub open spec fn permit_effects(c: Seq<char>, a: Seq<Seq<char>>) -> Seq<Effect> {
    if a.len() > 0 {
        let nick = lowercase(a[0]);
        let key = chan_key(c, "moderation:permitted:"@ + nick);
        seq![
            Effect::Store(seq!["set"@, key, ""@]),
            Effect::Store(seq!["expire"@, key, "30"@]),
            Effect::Say(nick + " can post links for the next 30 seconds"@),
        ]
    } else {
        seq![]
    }
}

/// `!permit <nick>`.
pub fn permit_cmd(channel: &str, args: &Vec<String>) -> (r: Vec<Action>)
    ensures
        effects(r@) == permit_effects(channel@, views(args@)),
{
    let mut r: Vec<Action> = Vec::new();
    if args.len() > 0 {
        let nick = args[0].to_lowercase();
        let key = channel_key(channel, concat2("moderation:permitted:", nick.as_str()).as_str());
        emit(&mut r, store3("set", key.as_str(), ""));
        emit(&mut r, store3("expire", key.as_str(), "30"));
        emit(&mut r, Action::Say(concat2(nick.as_str(), " can post links for the next 30 seconds")));
    }
    assert(effects(r@) =~= permit_effects(channel@, views(args@)));
    r
}

// ---------------------------------------------------------------------------
/// What `!multi` does: with no arguments, posts the multistream link of the
/// stored streams (when there are any); `clear` forgets them; `set` stores
/// new ones.
pub open spec fn multi_effects(
    c: Seq<char>,
    a: Seq<Seq<char>>,
    streams: Seq<Seq<char>>,
) -> Seq<Effect> {
    let key = chan_key(c, "multi"@);
    if a.len() == 0 {
        if streams.len() > 0 {
            seq![Effect::Post("http://multistre.am/"@ + c + "/"@ + join(streams, "/"@))]
        } else {
            seq![]
        }
    } else if a.len() == 1 && a[0] == "clear"@ {
        seq![Effect::Store(seq!["del"@, key]), Effect::Say("!multi has been cleared"@)]
    } else if a.len() > 1 && a[0] == "set"@ {
        seq![Effect::Store(seq!["del"@, key])] + a.skip(1).map_values(
            |s: Seq<char>| Effect::Store(seq!["sadd"@, key, s]),
        ) + seq![Effect::Say("!multi has been set"@)]
    } else {
        seq![]
    }
}

/// `!multi [clear | set <streams...>]`; `streams` are the stored streams.
pub fn multi_cmd(channel: &str, args: &Vec<String>, streams: &Vec<String>) -> (r: Vec<Action>)
    ensures
        effects(r@) == multi_effects(channel@, views(args@), views(streams@)),
{
    let mut r: Vec<Action> = Vec::new();
    let key = channel_key(channel, "multi");
    if args.len() == 0 {
        if streams.len() > 0 {
            let list = join_all(streams, "/");
            emit(&mut r, Action::Post(concat4("http://multistre.am/", channel, "/", list.as_str())));
        }
    } else if args.len() == 1 && same_text(args[0].as_str(), "clear") {
        emit(&mut r, store2("del", key.as_str()));
        emit(&mut r, say("!multi has been cleared"));
    } else if args.len() > 1 && same_text(args[0].as_str(), "set") {
        emit(&mut r, store2("del", key.as_str()));
        let ghost a = views(args@);
        let mut i: usize = 1;
        while i < args.len()
            invariant
                1 <= i <= args.len(),
                a == views(args@),
                key@ == chan_key(channel@, "multi"@),
                effects(r@) == seq![Effect::Store(seq!["del"@, key@])] + a.subrange(1, i as int).map_values(
                    |s: Seq<char>| Effect::Store(seq!["sadd"@, key@, s]),
                ),
            decreases args.len() - i,
        {
            emit(&mut r, store3("sadd", key.as_str(), args[i].as_str()));
            assert(a.subrange(1, i + 1) =~= a.subrange(1, i as int).push(a[i as int]));
            assert(a.subrange(1, i + 1).map_values(|s: Seq<char>| Effect::Store(seq!["sadd"@, key@, s]))
                =~= a.subrange(1, i as int).map_values(|s: Seq<char>| Effect::Store(seq!["sadd"@, key@, s])).push(Effect::Store(seq!["sadd"@, key@, a[i as int]])));
            i = i + 1;
        }
        assert(a.subrange(1, a.len() as int) =~= a.skip(1));
        emit(&mut r, say("!multi has been set"));
    }
    assert(effects(r@) =~= multi_effects(channel@, views(args@), views(streams@)));
    r
}

// ---------------------------------------------------------------------------
/// The value a counter takes when it is increased from its stored value:
/// one more than a stored number, else 1.
pub open spec fn counter_next(stored: Option<Seq<char>>) -> Seq<char> {
    match stored {
        Some(v) => match parse_unsigned(v, 65535) {
            Some(n) => decimal(n + 1),
            None => "1"@,
        },
        None => "1"@,
    }
}

/// The one stored value a counter cannot be increased from: the largest
/// number it can hold.
pub open spec fn counter_full(stored: Option<Seq<char>>) -> bool {
    match stored {
        Some(v) => parse_unsigned(v, 65535) == Some(65535nat),
        None => false,
    }
}

/// The next value of a counter whose stored value is `stored`.
pub fn next_counter(stored: &Option<String>) -> (r: String)
    requires
        !counter_full(opt_view(*stored)),
    ensures
        r@ == counter_next(opt_view(*stored)),
{
    match stored {
        Some(v) => match parse_u16(v.as_str()) {
            Some(n) => decimal_string((n as u64) + 1),
            None => "1".to_owned(),
        },
        None => "1".to_owned(),
    }
}

/// The one input on which `!counters` fails: `inc` of a counter that holds
/// the largest number it can.
pub open spec fn counters_overflow(a: Seq<Seq<char>>, stored: Option<Seq<char>>) -> bool {
    a.len() > 1 && lowercase(a[0]) == "inc"@ && counter_full(stored)
}

/// What `!counters set <name> <value>` and `!counters inc <name>` do;
/// `stored` is the counter's stored value.
pub open spec fn counters_effects(
    c: Seq<char>,
    a: Seq<Seq<char>>,
    stored: Option<Seq<char>>,
) -> Seq<Effect> {
    if a.len() > 1 {
        let key = chan_key(c, "counters"@);
        let s0 = lowercase(a[0]);
        if s0 == "set"@ {
            if a.len() > 2 {
                seq![
                    Effect::Store(seq!["hset"@, key, a[1], a[2]]),
                    Effect::Say(a[1] + " has been set to: "@ + a[2]),
                ]
            } else {
                seq![]
            }
        } else if s0 == "inc"@ {
            seq![
                Effect::Store(seq!["hset"@, key, a[1], counter_next(stored)]),
                Effect::Say(a[1] + " has been increased"@),
            ]
        } else {
            seq![]
        }
    } else {
        seq![]
    }
}

/// `!counters set|inc <name> [value]`; `stored` is the stored value of the
/// counter `args[1]`.
pub fn counters_cmd(channel: &str, args: &Vec<String>, stored: &Option<String>) -> (r: Vec<Action>)
    requires
        !counters_overflow(views(args@), opt_view(*stored)),
    ensures
        effects(r@) == counters_effects(channel@, views(args@), opt_view(*stored)),
{
    let mut r: Vec<Action> = Vec::new();
    if args.len() > 1 {
        let key = channel_key(channel, "counters");
        if lower_is(args[0].as_str(), "set") {
            if args.len() > 2 {
                emit(&mut r, store4("hset", key.as_str(), args[1].as_str(), args[2].as_str()));
                emit(
                    &mut r,
                    Action::Say(concat3(args[1].as_str(), " has been set to: ", args[2].as_str())),
                );
            }
        } else if lower_is(args[0].as_str(), "inc") {
            let next = next_counter(stored);
            emit(&mut r, store4("hset", key.as_str(), args[1].as_str(), next.as_str()));
            emit(&mut r, Action::Say(concat2(args[1].as_str(), " has been increased")));
        }
    }
    assert(effects(r@) =~= counters_effects(channel@, views(args@), opt_view(*stored)));
    r
}

// ---------------------------------------------------------------------------
/// What `!phrases set <name> <text...>` does.
pub open spec fn phrases_effects(c: Seq<char>, a: Seq<Seq<char>>) -> Seq<Effect> {
    if a.len() > 2 && lowercase(a[0]) == "set"@ {
        let v = join(a.skip(2), " "@);
        seq![
            Effect::Store(seq!["hset"@, chan_key(c, "phrases"@), a[1], v]),
            Effect::Say(a[1] + " has been set to: "@ + v),
        ]
    } else {
        seq![]
    }
}

/// `!phrases set <name> <text...>`.
pub fn phrases_cmd(channel: &str, args: &Vec<String>) -> (r: Vec<Action>)
    ensures
        effects(r@) == phrases_effects(channel@, views(args@)),
{
    let mut r: Vec<Action> = Vec::new();
    if args.len() > 2 && lower_is(args[0].as_str(), "set") {
        let v = join_from(args, 2, " ");
        assert(views(args@.skip(2)) =~= views(args@).skip(2));
        let key = channel_key(channel, "phrases");
        emit(&mut r, store4("hset", key.as_str(), args[1].as_str(), v.as_str()));
        emit(&mut r, Action::Say(concat3(args[1].as_str(), " has been set to: ", v.as_str())));
    }
    assert(effects(r@) =~= phrases_effects(channel@, views(args@)));
    r
}

} // verus!
