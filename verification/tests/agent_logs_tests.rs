use babblebot::action::Action;
use babblebot::agent::{agent_answer, agent_poll, press_key, press_mouse, AgentStep};
use babblebot::logs::{flatten, log_entry, served_channels, LogScope};
use babblebot::types::{AgentAction, AgentRsp};

fn show(a: &Action) -> String {
    match a {
        Action::Store(w) => format!("store {}", w.join(" ")),
        Action::Say(s) => format!("say {}", s),
        Action::Post(s) => format!("post {}", s),
        Action::PostLater(n, s) => format!("later {} {}", n, s),
        Action::Call(c) => format!("call {}", c.url),
        Action::Log(a, b) => format!("log {} {}", a, b),
    }
}

fn shown(v: &[Action]) -> Vec<String> {
    v.iter().map(show).collect()
}

fn words(v: &[&str]) -> Vec<String> {
    v.iter().map(|s| s.to_string()).collect()
}

fn step(s: &AgentStep) -> String {
    match s {
        AgentStep::Print(t) => format!("print {}", t),
        AgentStep::Mouse(m) => format!("mouse {} {} {} {}", m.flags, m.dx, m.dy, m.data),
        AgentStep::Key(k) => format!("key {} {} {}", k.scan, k.virtual_key, k.flags),
        AgentStep::WaitMillis(n) => format!("wait {}", n),
        AgentStep::Stop => "stop".to_string(),
    }
}

fn rsp(version: &str, success: bool, actions: Vec<AgentAction>, err: Option<&str>) -> AgentRsp {
    AgentRsp {
        version: version.to_string(),
        success,
        actions,
        error_message: err.map(|e| e.to_string()),
    }
}

#[test]
fn agent_polls_with_a_form() {
    let c = agent_poll("https://x", "chan", "key");
    assert_eq!(c.url, "https://x/api/agent");
    assert_eq!(c.body.as_deref(), Some("channel=chan&key=key"));
}

#[test]
fn input_events() {
    let m = press_mouse(2);
    assert_eq!((m.flags, m.dx, m.dy, m.data), (2, 0, 0, 0));
    let k = press_key(30, 10);
    assert_eq!((k.scan, k.virtual_key, k.flags), (30, 0, 8));
}

#[test]
fn agent_plays_actions() {
    let acts = vec![
        AgentAction { name: "MOUSE".to_string(), keys: vec![], hold: 3, delay: 1 },
        AgentAction { name: "KEYBD".to_string(), keys: vec![30, 31], hold: 0, delay: 2 },
        AgentAction { name: "OTHER".to_string(), keys: vec![], hold: 0, delay: 0 },
    ];
    let steps: Vec<String> = agent_answer(&rsp("1.0.0", true, acts, None)).iter().map(step).collect();
    assert_eq!(
        steps,
        vec![
            "print received action: MOUSE",
            "mouse 2 0 0 0",
            "wait 300",
            "mouse 4 0 0 0",
            "wait 100",
            "print received action: KEYBD",
            "key 30 0 8",
            "key 31 0 8",
            "wait 100",
            "key 30 0 8",
            "key 31 0 8",
            "wait 200",
            "print received action: OTHER",
            "wait 0",
        ]
    );
}

#[test]
fn agent_stops_for_newer_versions_and_reports_errors() {
    let steps: Vec<String> = agent_answer(&rsp("1.0.1", true, vec![], None)).iter().map(step).collect();
    assert_eq!(steps, vec!["print version error: your client is out of date", "stop"]);
    let steps: Vec<String> = agent_answer(&rsp("0.9.0", false, vec![], Some("bad key"))).iter().map(step).collect();
    assert_eq!(steps, vec!["print response error: bad key"]);
    assert!(agent_answer(&rsp("not a version", true, vec![], None)).is_empty());
    assert!(agent_answer(&rsp("1.0.0", false, vec![], None)).is_empty());
}

#[test]
fn log_lines() {
    assert_eq!(flatten("a\nb\n"), "a b ");
    let p = log_entry(&LogScope::Global, "T", "main", "starting\nup", &vec![], "");
    assert_eq!(p.console.as_deref(), Some("[T] [main] starting\nup"));
    assert_eq!(shown(&p.actions), vec!["store lpush logs [T] [main] starting\nup", "store ltrim logs 0 9999"]);
    let p = log_entry(&LogScope::Bot("b".to_string()), "T", "d", "x\ny", &words(&["c1", "c2"]), "");
    assert_eq!(p.console.as_deref(), Some("[T] [b] [d] x y"));
    assert_eq!(
        shown(&p.actions),
        vec![
            "store lpush channel:c1:logs [T] [d] x y",
            "store ltrim channel:c1:logs 0 9999",
            "store lpush channel:c2:logs [T] [d] x y",
            "store ltrim channel:c2:logs 0 9999",
        ]
    );
    let p = log_entry(&LogScope::Channels(words(&["c1"])), "T", "d", "x", &vec![], "");
    assert_eq!(p.console.as_deref(), Some("[T] [c1] [d] x"));
    let p = log_entry(&LogScope::Channels(words(&["c1", "c2"])), "T", "d", "x", &vec![], "bot");
    assert_eq!(p.console.as_deref(), Some("[T] [bot] [d] x"));
    assert_eq!(p.actions.len(), 4);
    let p = log_entry(&LogScope::Channels(vec![]), "T", "d", "x", &vec![], "bot");
    assert!(p.console.is_none() && p.actions.is_empty());
}

#[test]
fn channels_served_by_a_bot() {
    assert_eq!(
        served_channels(&words(&["a", "b", "c"]), &words(&["x", "y", "x"]), "x"),
        words(&["a", "c"])
    );
}
