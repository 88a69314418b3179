use babblebot::action::Action;
use babblebot::handler::Native;
use babblebot::listeners::{
    auth_age, auth_probe, authcheck_signal, bot_config, channel_config, chat_line, chat_target,
    command_signal, irc_channels, keeps_running, leave_channel, relay_word, relayed_command,
    remove_channel, rename_channel, rename_tokens, renew_auth, run_command, seen, store_request,
    strip_hash, userstate, AuthAge, Signal, Supervision,
};
use babblebot::types::{ClientAction, ThreadAction};

fn show(a: &Action) -> String {
    match a {
        Action::Store(w) => format!("store {}", w.join(" ")),
        Action::Say(s) => format!("say {}", s),
        Action::Post(s) => format!("post {}", s),
        Action::PostLater(n, s) => format!("later {} {}", n, s),
        Action::Call(c) => format!("call {}", c.url),
        Action::Log(a, b) => format!("log {} {}", a, b),
    }
}

fn shown(v: &[Action]) -> Vec<String> {
    v.iter().map(show).collect()
}

fn words(v: &[&str]) -> Vec<String> {
    v.iter().map(|s| s.to_string()).collect()
}

#[test]
fn bot_configs_join_channels_by_irc_name() {
    let c = bot_config("bot", "tok", &words(&["a", "b"]), Some(60));
    assert_eq!(c.server, "irc.chat.twitch.tv");
    assert!(c.use_ssl);
    assert_eq!(c.nickname, "bot");
    assert_eq!(c.password, "oauth:tok");
    assert_eq!(c.channels, words(&["#a", "#b"]));
    assert_eq!(c.ping_timeout, Some(60));
    let c = channel_config("bot", "tok", "solo", None);
    assert_eq!(c.channels, words(&["#solo"]));
    assert_eq!(c.ping_timeout, None);
    assert!(irc_channels(&vec![]).is_empty());
}

#[test]
fn workers_stop_on_kill_or_when_orphaned() {
    assert!(!keeps_running(&Signal::Heard(ThreadAction::Kill)));
    assert!(keeps_running(&Signal::Heard(ThreadAction::Part("x".to_string()))));
    assert!(keeps_running(&Signal::Quiet));
    assert!(!keeps_running(&Signal::Closed));
}

#[test]
fn removing_a_channel_drops_its_first_occurrence_only() {
    let mut v = words(&["a", "b", "a"]);
    remove_channel(&mut v, "a");
    assert_eq!(v, words(&["b", "a"]));
    remove_channel(&mut v, "z");
    assert_eq!(v, words(&["b", "a"]));
}

#[test]
fn the_authcheck_restarts_on_part() {
    let mut v = words(&["a", "b"]);
    assert!(matches!(authcheck_signal(&mut v, Signal::Heard(ThreadAction::Part("a".to_string()))), Supervision::Restart));
    assert_eq!(v, words(&["b"]));
    assert!(matches!(authcheck_signal(&mut v, Signal::Quiet), Supervision::Go));
    assert!(matches!(authcheck_signal(&mut v, Signal::Heard(ThreadAction::Kill)), Supervision::Stop));
    assert!(matches!(authcheck_signal(&mut v, Signal::Closed), Supervision::Stop));
    assert_eq!(v, words(&["b"]));
}

#[test]
fn auth_probes() {
    assert_eq!(shown(&auth_probe("c", "true", "T")), vec!["store set channel:c:auth:last T"]);
    assert_eq!(shown(&auth_probe("c", "false", "T")), vec!["post /me has entered"]);
    assert!(auth_probe("c", "maybe", "T").is_empty());
    assert!(matches!(auth_age(None), AuthAge::Renew));
    assert!(matches!(auth_age(Some(25)), AuthAge::Expired));
    assert!(matches!(auth_age(Some(24)), AuthAge::Fresh));
    assert_eq!(shown(&renew_auth("c", "T")), vec!["store set channel:c:auth:last T"]);
}

#[test]
fn leaving_a_channel() {
    let mut v = words(&["c", "d"]);
    let r = leave_channel(&mut v, "c", "bot");
    assert_eq!(shown(&r), vec!["store srem bot:bot:channels c", "store srem channels c"]);
    assert_eq!(v, words(&["d"]));
}

#[test]
fn renames_move_the_channel_to_its_own_bot() {
    let (t, r) = rename_tokens("  tok   ref extra ");
    assert_eq!((t.as_str(), r.as_str()), ("tok", "ref"));
    assert!(rename_channel("chan", "old", "chan", "tok", "ref").is_none());
    let a = rename_channel("chan", "old", "mybot", "tok", "ref").unwrap();
    assert_eq!(
        shown(&a),
        vec![
            "store srem bot:old:channels chan",
            "store sadd bots mybot",
            "store sadd bot:mybot:channels chan",
            "store set bot:mybot:token tok",
            "store set bot:mybot:refresh ref",
            "store set channel:chan:bot mybot",
        ]
    );
}

#[test]
fn command_signals_and_relays() {
    match command_signal("chan", " !hello  world ") {
        ClientAction::Command(c, w) => {
            assert_eq!(c, "chan");
            assert_eq!(w, words(&["!hello", "world"]));
        },
        _ => panic!("expected a command"),
    }
    assert_eq!(chat_target("chan"), "#chan");
    assert_eq!(relay_word(&words(&["!HeLLo"])), Some("!hello".to_string()));
    assert_eq!(relay_word(&vec![]), None);
    let (w, a, n) = relayed_command("!", &words(&["!Hi", "x"]), &Some("!echo hey".to_string()));
    assert_eq!(w, "!echo");
    assert_eq!(a, words(&["hey", "x"]));
    assert!(matches!(n, Some(Native::Echo)));
    let (w, a, n) = relayed_command("!", &words(&["!custom"]), &None);
    assert_eq!((w.as_str(), a.len()), ("!custom", 0));
    assert!(n.is_none());
}

#[test]
fn store_requests_need_arguments() {
    assert!(store_request(&words(&["get", "k"])).is_ok());
    assert_eq!(store_request(&words(&["get"])), Err("not enough args".to_string()));
}

#[test]
fn userstate_records_moderator_status() {
    assert_eq!(strip_hash("#chan"), "chan");
    let r = userstate(true, &words(&["#a"]), "T");
    assert_eq!(shown(&r), vec!["store set channel:a:auth true", "store set channel:a:auth:last T"]);
    let r = userstate(false, &words(&["#a", "#b"]), "T");
    assert_eq!(shown(&r), vec!["store set channel:a:auth false", "store set channel:b:auth false"]);
}

#[test]
fn chat_lines_split_into_command_and_arguments() {
    let (w, a) = chat_line("!Title  Hello world").unwrap();
    assert_eq!(w, "!title");
    assert_eq!(a, words(&["Hello", "world"]));
    assert!(chat_line("   ").is_none());
    assert_eq!(shown(&seen("c", "nick", "T")), vec!["store hset channel:c:lastseen nick T"]);
}

#[test]
fn run_command_publishes_the_words() {
    assert_eq!(
        shown(&run_command("chan", &words(&["!echo", "hi"]))),
        vec!["store publish channel:chan:signals:command !echo hi"]
    );
    assert!(run_command("chan", &vec![]).is_empty());
}
