use babblebot::action::Action;
use babblebot::handler::{
    bits_event, bits_event_actions, color_filter, custom_command_runs, custom_run_record,
    expand_alias, greeting_key, greets_now, key_piece, native_command, native_to_run,
    protection_flag, timeout, Native,
};
use babblebot::irc::{find_tag, get_badges, get_bits, get_id, get_nick, is_moderator, user_var, ChatMessage, Tag};
use babblebot::moderation::{
    age_check, blacklist_rule, keyword_fires, link_filter, link_word, permitted_nicks, url_regex,
};
use babblebot::pattern::{escape, Pattern};
use babblebot::ranking::{bot_names, listed, sort_by_time, watchrank_var};
use babblebot::templates::{
    apply_fetched, apply_var, compose_reply, emote_line, replace_var, send_message, var_arguments,
    var_calls, var_pattern_of,
};
use babblebot::text::{
    decimal_string, join_all, parse_i64, parse_u16, parse_u64, same_text, signed_decimal_string,
    split_on, split_words,
};
use babblebot::vars::{
    args_var, counter_var, counterinc_var, duration_label, phrase_var, stat_source, stat_var,
    total_label, watchtime_var, youtube_latest_title, youtube_latest_url,
};

fn show(a: &Action) -> String {
    match a {
        Action::Store(w) => format!("store {}", w.join(" ")),
        Action::Say(s) => format!("say {}", s),
        Action::Post(s) => format!("post {}", s),
        Action::PostLater(n, s) => format!("later {} {}", n, s),
        Action::Call(c) => format!("call {}", c.url),
        Action::Log(a, b) => format!("log {} {}", a, b),
    }
}

fn shown(v: &[Action]) -> Vec<String> {
    v.iter().map(show).collect()
}

fn words(v: &[&str]) -> Vec<String> {
    v.iter().map(|s| s.to_string()).collect()
}

fn line(prefix: Option<&str>, tags: Vec<(&str, Option<&str>)>) -> ChatMessage {
    ChatMessage {
        prefix: prefix.map(|p| p.to_string()),
        tags: Some(
            tags.into_iter()
                .map(|(k, v)| Tag { key: k.to_string(), value: v.map(|v| v.to_string()) })
                .collect(),
        ),
    }
}

#[test]
fn text_helpers() {
    assert_eq!(split_words("  a \t b\nc  "), words(&["a", "b", "c"]));
    assert_eq!(split_on("a:b::c", ":"), words(&["a", "b", "", "c"]));
    assert_eq!(join_all(&words(&["a", "b"]), ", "), "a, b");
    assert_eq!(parse_u16("65535"), Some(65535));
    assert_eq!(parse_u16("65536"), None);
    assert_eq!(parse_u16("+12"), Some(12));
    assert_eq!(parse_u16(""), None);
    assert_eq!(parse_u64("18446744073709551615"), Some(u64::MAX));
    assert_eq!(parse_i64("-9223372036854775808"), Some(i64::MIN));
    assert_eq!(parse_i64("-"), None);
    assert_eq!(decimal_string(0), "0");
    assert_eq!(decimal_string(1234), "1234");
    assert_eq!(signed_decimal_string(-42), "-42");
    assert!(same_text("ä", "ä") && !same_text("a", "ä"));
    for n in [0u64, 7, 10, 65535, u64::MAX] {
        assert_eq!(parse_u64(&decimal_string(n)), Some(n));
    }
}

#[test]
fn nicks_tags_and_badges() {
    let m = line(
        Some("bob!bob@host"),
        vec![
            ("badges", Some("moderator/1,subscriber/12")),
            ("user-id", Some("7")),
            ("bits", Some("100")),
            ("display-name", Some("Bob")),
            ("badges", Some("vip")),
        ],
    );
    assert_eq!(get_nick(&m), "bob");
    assert_eq!(get_id(&m), Some("7".to_string()));
    assert_eq!(get_bits(&m), Some("100".to_string()));
    assert_eq!(find_tag(&m, "nope"), None);
    assert_eq!(user_var(&Some(m)), "Bob");
    let m = line(None, vec![("badges", Some("moderator/1,subscriber/12")), ("badges", Some("vip,moderator/2"))]);
    let b = get_badges(&m);
    assert_eq!(b.get("moderator"), Some("2".to_string()));
    assert_eq!(b.get("vip"), Some("".to_string()));
    assert!(b.contains("subscriber"));
    assert!(!b.contains("broadcaster"));
    assert_eq!(get_nick(&m), "");
    assert_eq!(user_var(&None), "");
}

#[test]
fn built_in_commands_and_rights() {
    assert!(matches!(native_command("!", "!title"), Some((Native::Title, false, true))));
    assert!(native_command("!", "!nothing").is_none());
    assert!(matches!(native_to_run("!", "!title", true, false), Some(Native::Title)));
    assert!(native_to_run("!", "!title", false, false).is_none());
    assert!(matches!(native_to_run("!", "!title", false, true), Some(Native::Title)));
    assert!(matches!(native_to_run("?", "?songreq", false, false), Some(Native::Songreq)));
    let (w, a) = expand_alias("!hi", &words(&["x"]), &Some("!echo hello".to_string()));
    assert_eq!((w.as_str(), a), ("!echo", words(&["hello", "x"])));
    let (w, a) = expand_alias("!hi", &words(&["x"]), &Some("   ".to_string()));
    assert_eq!((w.as_str(), a), ("!hi", words(&["x"])));
}

#[test]
fn custom_commands_cool_down() {
    assert_eq!(protection_flag(0), "cmd_protected");
    assert_eq!(protection_flag(2), "arg_protected");
    assert!(custom_command_runs(None, "false", false));
    assert!(!custom_command_runs(Some(4), "false", true));
    assert!(custom_command_runs(Some(5), "false", false));
    assert!(!custom_command_runs(Some(10), "true", false));
    assert!(custom_command_runs(Some(10), "true", true));
    assert_eq!(shown(&custom_run_record("c", "!hi", "T")), vec!["store hset channel:c:commands:!hi lastrun T"]);
}

#[test]
fn greetings() {
    let keys = words(&["channel:c:greetings:amy", "channel:c:greetings:bob"]);
    assert_eq!(greeting_key(&keys, "bob"), Some(1));
    assert_eq!(greeting_key(&keys, "eve"), None);
    assert_eq!(key_piece("channel:c:greetings:bob", 3), "bob");
    assert!(greets_now("3", None));
    assert!(!greets_now("3", Some(2)));
    assert!(greets_now("3", Some(3)));
}

#[test]
fn timeouts_and_colors() {
    assert_eq!(shown(&timeout("bob", "1", "posting links", "false")), vec!["post /timeout bob 1"]);
    assert_eq!(
        shown(&timeout("bob", "1", "posting links", "true")),
        vec!["post /timeout bob 1", "say @bob you've been timed out for posting links"]
    );
    assert_eq!(
        shown(&color_filter("true", "\u{1}ACTION waves\u{1}", "bob", "false")),
        vec!["post /timeout bob 1"]
    );
    assert!(color_filter("false", "\u{1}ACTION waves\u{1}", "bob", "false").is_empty());
    assert!(color_filter("true", "hello there", "bob", "false").is_empty());
}

#[test]
fn cheer_events() {
    let keys = words(&["channel:c:events:bits:100", "channel:c:events:bits:500", "channel:c:events:bits:x"]);
    assert_eq!(bits_event("250", &keys), 100);
    assert_eq!(bits_event("500", &keys), 500);
    assert_eq!(bits_event("50", &keys), 0);
    assert_eq!(bits_event("lots", &keys), 0);
    assert_eq!(
        shown(&bits_event_actions("c", "local", &words(&["a", "b"]))),
        vec!["store lpush channel:c:local:actions a b"]
    );
    assert!(bits_event_actions("c", "remote", &words(&["a"])).is_empty());
}

#[test]
fn regexes() {
    let p = Pattern::compile("a+b").unwrap();
    assert!(p.is_match("xaab"));
    assert!(!p.is_match("ba"));
    assert_eq!(p.replace_first("aab aab", "$1"), "$1 aab");
    assert!(Pattern::compile("(").is_none());
    assert!(Pattern::compile_folded("(").is_err());
    assert!(Pattern::compile_folded("HELLO").unwrap().is_match("hello"));
    assert_eq!(escape("a.b"), "a\\.b");
    let caps = Pattern::compile("x(\\d)?").unwrap().captures("x1 x");
    assert_eq!(caps, vec![("x1".to_string(), Some("1".to_string())), ("x".to_string(), None)]);
}

#[test]
fn templates_fill_variables() {
    assert_eq!(var_pattern_of("args"), "\\(args ?((?:[\\w\\-\\?\\._:/&!= ]+)*)\\)");
    assert_eq!(
        var_arguments("counter", "deaths: (counter deaths) and (counter wins)"),
        Some(vec![words(&["deaths"]), words(&["wins"])])
    );
    assert_eq!(
        apply_var("counter", "deaths: (counter deaths) and (counter wins)", &words(&["3", "5"])),
        Some("deaths: 3 and 5".to_string())
    );
    assert_eq!(replace_var("name", "Bob", "hi (name), (name)!"), Some("hi Bob, Bob!".to_string()));
    assert_eq!(replace_var("name", "Bob", "nothing here"), Some("nothing here".to_string()));
    assert_eq!(
        var_calls("uptime", "live for (uptime)"),
        Some(vec![("(uptime)".to_string(), vec![])])
    );
    assert_eq!(
        apply_fetched("live for (uptime)", &vec![("(uptime)".to_string(), "2h5m".to_string())]),
        Some("live for 2h5m".to_string())
    );
    assert_eq!(apply_fetched("nothing", &vec![]), Some("nothing".to_string()));
    let huge = "(".repeat(1_000_000);
    assert_eq!(apply_fetched("x", &vec![(huge, "y".to_string())]), None);
    assert_eq!(compose_reply("hi", &words(&["@amy"]), "false"), "@amy -> hi");
    assert_eq!(compose_reply("hi", &words(&["amy"]), "true"), "/me hi");
    assert_eq!(emote_line("true", "x"), "/me x");
    assert_eq!(send_message("true", "false", "x"), Some("x".to_string()));
    assert_eq!(send_message("false", "true", "x"), None);
}

#[test]
fn variables() {
    assert_eq!(args_var(&vec![], &words(&["a", "b"])), "a b");
    assert_eq!(args_var(&words(&["2"]), &words(&["a", "b"])), "b");
    assert_eq!(args_var(&words(&["3"]), &words(&["a", "b"])), "");
    assert_eq!(args_var(&words(&["0"]), &words(&["a", "b"])), "");
    assert_eq!(counter_var(&words(&["d"]), &Some("7".to_string())), "7");
    assert_eq!(counter_var(&words(&["d"]), &Some("x".to_string())), "");
    assert_eq!(counter_var(&words(&["d"]), &None), "0");
    assert_eq!(
        shown(&counterinc_var("c", &words(&["d"]), &Some("7".to_string()))),
        vec!["store hset channel:c:counters d 8"]
    );
    assert_eq!(phrase_var(&words(&["p"]), &Some("hey".to_string())), "hey");
    assert_eq!(stat_var(&None), "0");
    assert_eq!(stat_source("pubg:vehicles-destroyed"), Some(("stats:pubg", "vehicleDestroys")));
    assert_eq!(stat_source("pubg:nothing"), None);
    assert_eq!(duration_label(7500, 0, ""), "2h5m");
    assert_eq!(duration_label(0, 0, " and "), "0s");
    assert_eq!(watchtime_var(&Some("125".to_string())), "2h and 5m");
    assert_eq!(watchtime_var(&None), "0m");
    assert_eq!(total_label(Some(-3)), "-3");
    assert_eq!(total_label(None), "0");
    assert_eq!(youtube_latest_url("A - B - https://y.tu/x"), "https://y.tu/x");
    assert_eq!(youtube_latest_title("A - B - https://y.tu/x"), "A - B");
    assert_eq!(youtube_latest_title("no video"), "");
}

#[test]
fn rankings() {
    let sorted = sort_by_time(&vec![("a".to_string(), 5), ("b".to_string(), 9), ("c".to_string(), 5)]);
    assert_eq!(sorted, vec![("b".to_string(), 9), ("a".to_string(), 5), ("c".to_string(), 5)]);
    assert!(listed(&words(&["x", "y"]), "y"));
    assert!(bot_names().contains(&"nightbot"));
    let times = vec![
        ("amy".to_string(), "50".to_string()),
        ("nightbot".to_string(), "900".to_string()),
        ("bob".to_string(), "70".to_string()),
        ("chan".to_string(), "999".to_string()),
        ("eve".to_string(), "60".to_string()),
    ];
    assert_eq!(watchrank_var(&times, "chan", "eve", &vec![], "amy"), "2");
    assert_eq!(watchrank_var(&times, "chan", "", &words(&["2"]), "amy"), "bob, eve");
    assert_eq!(watchrank_var(&times, "chan", "", &words(&["x"]), "amy"), "");
    assert_eq!(watchrank_var(&times, "chan", "", &vec![], "zed"), "");
}

#[test]
fn link_and_phrase_filters() {
    let re = url_regex().unwrap();
    let links = words(&["example.com", "twitch.tv/chan"]);
    assert_eq!(link_word("www.example.com/page", &links, &re), Some(false));
    assert_eq!(link_word("evil.com", &links, &re), Some(true));
    assert_eq!(link_word("twitch.tv/chan", &links, &re), Some(false));
    assert_eq!(link_word("twitch.tv/other", &links, &re), Some(true));
    assert_eq!(link_word("hello", &links, &re), Some(false));
    let r = link_filter("look evil.com now", &links, &vec![], "false", false, "bob", "true", &re).unwrap();
    assert_eq!(shown(&r), vec!["post /timeout bob 1", "say @bob you've been timed out for posting links"]);
    let r = link_filter("look evil.com now", &links, &words(&["bob"]), "false", false, "bob", "true", &re).unwrap();
    assert!(r.is_empty());
    let r = link_filter("look evil.com now", &links, &vec![], "true", true, "bob", "true", &re).unwrap();
    assert!(r.is_empty());
    let r = link_filter("look evil.com now", &vec![], &vec![], "false", false, "bob", "true", &re).unwrap();
    assert!(r.is_empty());
    let (r, hit) = blacklist_rule("bad\\s+word", "600", "a BAD  word", "bob", "false");
    assert!(hit);
    assert_eq!(shown(&r), vec!["post /timeout bob 600"]);
    let (r, hit) = blacklist_rule("(", "600", "a BAD  word", "bob", "false");
    assert!(!hit);
    assert_eq!(r.len(), 1);
    assert!(matches!(&r[0], Action::Log(src, _) if src == "regex_error"));
    assert!(keyword_fires("hello", "well hello"));
    assert!(!keyword_fires("(", "well hello"));
    assert_eq!(permitted_nicks(&words(&["channel:c:moderation:permitted:bob"])), words(&["bob"]));
    assert_eq!(
        shown(&age_check("bob", 60, 20, "true")),
        vec!["post /timeout bob 2400", "say @bob you've been timed out for not reaching the minimum account age"]
    );
    assert!(age_check("bob", 60, 60, "true").is_empty());
}

#[test]
fn moderators_are_the_broadcaster_and_the_moderators() {
    let badges = |v: &str| get_badges(&line(None, vec![("badges", Some(v))]));
    assert!(is_moderator(&badges("broadcaster/1")));
    assert!(is_moderator(&badges("subscriber/3,moderator/1")));
    assert!(!is_moderator(&badges("subscriber/3,vip/1")));
    assert!(!is_moderator(&get_badges(&line(None, vec![]))));
}
