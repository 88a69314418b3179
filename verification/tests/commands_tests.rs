use babblebot::action::Action;
use babblebot::commands::{
    command_cmd, counters_cmd, echo_cmd, moderation_cmd, multi_cmd, next_counter, notices_cmd,
    permit_cmd, phrases_cmd, set_cmd, unset_cmd,
};

fn show(a: &Action) -> String {
    match a {
        Action::Store(w) => format!("store {}", w.join(" ")),
        Action::Say(s) => format!("say {}", s),
        Action::Post(s) => format!("post {}", s),
        Action::PostLater(n, s) => format!("later {} {}", n, s),
        Action::Call(c) => format!("call {}", c.url),
        Action::Log(a, b) => format!("log {} {}", a, b),
    }
}

fn shown(v: &[Action]) -> Vec<String> {
    v.iter().map(show).collect()
}

fn words(v: &[&str]) -> Vec<String> {
    v.iter().map(|s| s.to_string()).collect()
}

#[test]
fn echo_says_the_arguments() {
    let r = echo_cmd(&words(&["hello", "there"]));
    assert_eq!(shown(&r), vec!["say hello there"]);
}

#[test]
fn echo_without_arguments_says_nothing_but_an_empty_line() {
    let r = echo_cmd(&words(&[]));
    assert_eq!(shown(&r), vec!["say "]);
}

#[test]
fn set_with_one_argument_sets_true() {
    let r = set_cmd("chan", &words(&["channel:me"]));
    assert_eq!(
        shown(&r),
        vec!["store hset channel:chan:settings channel:me true", "say channel:me has been set to: true"]
    );
}

#[test]
fn set_joins_the_value() {
    let r = set_cmd("chan", &words(&["greeting", "hi", "all"]));
    assert_eq!(
        shown(&r),
        vec!["store hset channel:chan:settings greeting hi all", "say greeting has been set to: hi all"]
    );
    assert!(set_cmd("chan", &words(&[])).is_empty());
}

#[test]
fn unset_needs_exactly_one_argument() {
    let r = unset_cmd("chan", &words(&["x"]));
    assert_eq!(shown(&r), vec!["store hdel channel:chan:settings x", "say x has been unset"]);
    assert!(unset_cmd("chan", &words(&["x", "y"])).is_empty());
}

#[test]
fn command_add_stores_message_and_flags() {
    let r = command_cmd("chan", &words(&["ADD", "Hello", "hi", "there"]));
    assert_eq!(
        shown(&r),
        vec![
            "store hset channel:chan:commands:hello message hi there",
            "store hset channel:chan:commands:hello cmd_protected false",
            "store hset channel:chan:commands:hello arg_protected false",
            "say Hello has been added",
        ]
    );
}

#[test]
fn command_modadd_protects() {
    let r = command_cmd("chan", &words(&["modadd", "x", "msg"]));
    assert_eq!(
        shown(&r),
        vec![
            "store hset channel:chan:commands:x message msg",
            "store hset channel:chan:commands:x cmd_protected true",
            "store hset channel:chan:commands:x arg_protected true",
            "say x has been added",
        ]
    );
}

#[test]
fn command_remove_and_aliases() {
    let r = command_cmd("chan", &words(&["remove", "Hello"]));
    assert_eq!(shown(&r), vec!["store del channel:chan:commands:hello", "say Hello has been removed"]);
    let r = command_cmd("chan", &words(&["alias", "HI", "!Hello", "World"]));
    assert_eq!(
        shown(&r),
        vec![
            "store hset channel:chan:aliases hi !hello world",
            "say hi has been added as an alias to !hello world",
        ]
    );
    let r = command_cmd("chan", &words(&["remalias", "HI"]));
    assert_eq!(shown(&r), vec!["store hdel channel:chan:aliases hi", "say hi has been removed as an alias"]);
    assert!(command_cmd("chan", &words(&["add", "x"])).is_empty());
    assert!(command_cmd("chan", &words(&["bogus", "x", "y"])).is_empty());
}

#[test]
fn notices_add_takes_whole_minutes() {
    let r = notices_cmd("chan", &words(&["add", "300", "hello"]));
    assert_eq!(
        shown(&r),
        vec![
            "store rpush channel:chan:notices:300:commands hello",
            "store set channel:chan:notices:300:countdown 300",
            "say notice has been added",
        ]
    );
    let r = notices_cmd("chan", &words(&["add", "301", "hello"]));
    assert_eq!(shown(&r), vec!["say notice interval must be a multiple of 60"]);
    assert!(notices_cmd("chan", &words(&["add", "abc", "hello"])).is_empty());
    assert!(notices_cmd("chan", &words(&["add", "70000", "hello"])).is_empty());
}

#[test]
fn moderation_links_and_filters() {
    let r = moderation_cmd("chan", &words(&["links", "add", "example.com"]));
    assert_eq!(
        shown(&r),
        vec!["store srem channel:chan:moderation:links example.com", "say example.com has been whitelisted"]
    );
    let r = moderation_cmd("chan", &words(&["links", "allowsubs"]));
    assert_eq!(
        shown(&r),
        vec!["store set channel:chan:moderation:links:subs true", "say Subs are now allowed to post links"]
    );
    let r = moderation_cmd("chan", &words(&["colors", "off"]));
    assert_eq!(
        shown(&r),
        vec!["store set channel:chan:moderation:colors true", "say Color filter has been turned off"]
    );
    let r = moderation_cmd("chan", &words(&["caps", "set", "50", "10", "true"]));
    assert_eq!(
        shown(&r),
        vec![
            "store set channel:chan:moderation:caps true",
            "store set channel:chan:moderation:caps:limit 50",
            "store set channel:chan:moderation:caps:trigger 10",
            "store set channel:chan:moderation:caps:subs true",
            "say Caps filter has been turned on",
        ]
    );
    let r = moderation_cmd("chan", &words(&["age", "set", "60"]));
    assert_eq!(
        shown(&r),
        vec!["store set channel:chan:moderation:age 60", "say Minimum account age has been set to: 60"]
    );
    let r = moderation_cmd("chan", &words(&["display", "on"]));
    assert_eq!(
        shown(&r),
        vec![
            "store set channel:chan:moderation:display true",
            "say Displaying timeout reasons has been turned on",
        ]
    );
    assert!(moderation_cmd("chan", &words(&["caps", "set", "50"])).is_empty());
}

#[test]
fn permit_lowercases_and_expires() {
    let r = permit_cmd("chan", &words(&["Bob"]));
    assert_eq!(
        shown(&r),
        vec![
            "store set channel:chan:moderation:permitted:bob ",
            "store expire channel:chan:moderation:permitted:bob 30",
            "say bob can post links for the next 30 seconds",
        ]
    );
    assert!(permit_cmd("chan", &words(&[])).is_empty());
}

#[test]
fn multi_lists_sets_and_clears() {
    let r = multi_cmd("chan", &words(&[]), &words(&["a", "b"]));
    assert_eq!(shown(&r), vec!["post http://multistre.am/chan/a/b"]);
    assert!(multi_cmd("chan", &words(&[]), &words(&[])).is_empty());
    let r = multi_cmd("chan", &words(&["clear"]), &words(&[]));
    assert_eq!(shown(&r), vec!["store del channel:chan:multi", "say !multi has been cleared"]);
    let r = multi_cmd("chan", &words(&["set", "x", "y"]), &words(&[]));
    assert_eq!(
        shown(&r),
        vec![
            "store del channel:chan:multi",
            "store sadd channel:chan:multi x",
            "store sadd channel:chan:multi y",
            "say !multi has been set",
        ]
    );
}

#[test]
fn counters_set_and_increase() {
    let r = counters_cmd("chan", &words(&["set", "deaths", "4"]), &None);
    assert_eq!(
        shown(&r),
        vec!["store hset channel:chan:counters deaths 4", "say deaths has been set to: 4"]
    );
    let r = counters_cmd("chan", &words(&["inc", "deaths"]), &Some("4".to_string()));
    assert_eq!(
        shown(&r),
        vec!["store hset channel:chan:counters deaths 5", "say deaths has been increased"]
    );
    let r = counters_cmd("chan", &words(&["INC", "deaths"]), &None);
    assert_eq!(
        shown(&r),
        vec!["store hset channel:chan:counters deaths 1", "say deaths has been increased"]
    );
}

#[test]
fn next_counter_edges() {
    assert_eq!(next_counter(&Some("65534".to_string())), "65535");
    assert_eq!(next_counter(&Some("x".to_string())), "1");
    assert_eq!(next_counter(&Some("+7".to_string())), "8");
    assert_eq!(next_counter(&None), "1");
}

#[test]
fn phrases_set_joins() {
    let r = phrases_cmd("chan", &words(&["set", "motd", "be", "nice"]));
    assert_eq!(
        shown(&r),
        vec!["store hset channel:chan:phrases motd be nice", "say motd has been set to: be nice"]
    );
    assert!(phrases_cmd("chan", &words(&["set", "motd"])).is_empty());
}

