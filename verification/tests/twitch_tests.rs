use babblebot::action::{Action, Method, Service};
use babblebot::twitch::{
    clip_cmd, clip_reply, commands, dashboard, game_cmd, game_cmd_found, game_cmd_reply, index,
    patreon_cb, songreq_add, songreq_clear, songreq_record, songreq_cmd, songreq_verdict, spotify_cb, title_cmd,
    title_cmd_reply, twitch_cb, twitch_cb_auth, twitch_token_call, Fetch, SongStep, SongVerdict,
    Tokens,
};

fn show(a: &Action) -> String {
    match a {
        Action::Store(w) => format!("store {}", w.join(" ")),
        Action::Say(s) => format!("say {}", s),
        Action::Post(s) => format!("post {}", s),
        Action::PostLater(n, s) => format!("later {} {}", n, s),
        Action::Call(c) => format!("call {}", c.url),
        Action::Log(a, b) => format!("log {} {}", a, b),
    }
}

fn shown(v: &[Action]) -> Vec<String> {
    v.iter().map(show).collect()
}

fn words(v: &[&str]) -> Vec<String> {
    v.iter().map(|s| s.to_string()).collect()
}

fn pairs(v: &[(&str, &str)]) -> Vec<(String, String)> {
    v.iter().map(|(a, b)| (a.to_string(), b.to_string())).collect()
}

#[test]
fn title_command_reads_or_sets() {
    let c = title_cmd("42", &vec![]);
    assert!(matches!(c.method, Method::Get));
    assert_eq!(c.url, "https://api.twitch.tv/kraken/channels/42");
    let c = title_cmd("42", &words(&["Big", "day"]));
    assert!(matches!(c.method, Method::Put));
    assert_eq!(c.body.as_deref(), Some("channel[status]=Big day"));
    assert_eq!(shown(&title_cmd_reply(true, "Hi")), vec!["say Hi"]);
    assert_eq!(shown(&title_cmd_reply(false, "Hi")), vec!["say Title is now set to: Hi"]);
}

#[test]
fn game_command_looks_up_then_sets() {
    let c = game_cmd("42", &words(&["Dark", "Souls"]));
    assert!(matches!(c.service, Service::Helix));
    assert_eq!(c.url, "https://api.twitch.tv/helix/games?name=Dark Souls");
    let (a, call) = game_cmd_found("42", &words(&["Dark", "Souls"]), &vec![]);
    assert_eq!(shown(&a), vec!["say Unable to find a game matching: Dark Souls"]);
    assert!(call.is_none());
    let (a, call) = game_cmd_found("42", &words(&["Dark", "Souls"]), &words(&["Dark Souls"]));
    assert!(a.is_empty());
    let call = call.unwrap();
    assert_eq!(call.body.as_deref(), Some("channel[game]=Dark Souls"));
    assert_eq!(shown(&game_cmd_reply(false, "Dark Souls")), vec!["say Game is now set to: Dark Souls"]);
    assert_eq!(shown(&game_cmd_reply(true, "Chess")), vec!["say Chess"]);
}

#[test]
fn clips() {
    let c = clip_cmd("42");
    assert!(matches!(c.method, Method::Post));
    assert_eq!(c.url, "https://api.twitch.tv/helix/clips?broadcaster_id=42");
    assert_eq!(shown(&clip_reply(&words(&["Abc"]))), vec!["say https://clips.twitch.tv/Abc"]);
    assert!(clip_reply(&vec![]).is_empty());
}

#[test]
fn song_requests_first_step() {
    assert!(matches!(songreq_cmd(false, &words(&["abc"])), Some(SongStep::Nothing)));
    assert!(matches!(songreq_cmd(true, &vec![]), Some(SongStep::Nothing)));
    assert!(matches!(songreq_cmd(true, &words(&["CLEAR"])), Some(SongStep::Clear)));
    match songreq_cmd(true, &words(&["dQw4w9WgXcQ"])) {
        Some(SongStep::Lookup(c)) => assert_eq!(
            c.url,
            "https://www.youtube.com/oembed?format=json&url=https://youtube.com/watch?v=dQw4w9WgXcQ"
        ),
        _ => panic!("expected a lookup"),
    }
    match songreq_cmd(true, &words(&["not/an/id"])) {
        Some(SongStep::Reply(a)) => assert_eq!(shown(&a), vec!["say not/an/id is not a proper youtube id"]),
        _ => panic!("expected a refusal"),
    }
}

#[test]
fn song_queue_clear_and_verdicts() {
    let r = songreq_clear("c", &words(&["channel:c:songreqs:k1"]));
    assert_eq!(
        shown(&r),
        vec![
            "store del channel:c:songreqs",
            "store del channel:c:songreqs:k1",
            "say song requests have been cleared",
        ]
    );
    match songreq_verdict("id", "bob", "Not Found", &vec![]) {
        SongVerdict::Unknown(a) => assert_eq!(shown(&a), vec!["say id is not a proper youtube id"]),
        _ => panic!("expected unknown"),
    }
    match songreq_verdict("id", "bob", "{}", &words(&["amy", "bob"])) {
        SongVerdict::Duplicate(a) => assert_eq!(shown(&a), vec!["say bob already has an entry in the queue"]),
        _ => panic!("expected a duplicate"),
    }
    assert!(matches!(songreq_verdict("id", "bob", "{}", &words(&["amy"])), SongVerdict::Add));
}

#[test]
fn queueing_a_song() {
    let a = songreq_add("c", "vid", "Title", "bob").unwrap();
    let s = shown(&a);
    assert_eq!(s.len(), 5);
    let key = s[0].trim_start_matches("store rpush channel:c:songreqs ").to_string();
    assert!(bcrypt::verify("vid", &key).unwrap());
    assert_eq!(s[1], format!("store hset channel:c:songreqs:{} src https://youtube.com/watch?v=vid", key));
    assert_eq!(s[2], format!("store hset channel:c:songreqs:{} title Title", key));
    assert_eq!(s[3], format!("store hset channel:c:songreqs:{} nick bob", key));
    assert_eq!(s[4], "say vid has been added to the queue");
}

#[test]
fn pages() {
    let p = dashboard("cid");
    assert_eq!(p.template, "dashboard");
    assert_eq!(p.context, pairs(&[("client_id", "cid")]));
    let p = index("cid");
    assert_eq!(p.template, "index");
    assert_eq!(p.context, pairs(&[("client_id", "cid"), ("code", ""), ("channel", "")]));
    let p = commands("chan");
    assert_eq!((p.template.as_str(), p.context.clone()), ("commands", pairs(&[("channel", "chan")])));
}

#[test]
fn twitch_sign_in() {
    let c = twitch_token_call("id", "sec", "code");
    assert_eq!(
        c.url,
        "https://id.twitch.tv/oauth2/token?client_id=id&client_secret=sec&code=code&grant_type=authorization_code&redirect_uri=https://www.babblebot.io/callbacks/twitch"
    );
    assert!(matches!(c.method, Method::Post));
    let p = twitch_cb("cid", &Fetch::Got("tok".to_string()), &Fetch::Got("chan".to_string()));
    assert_eq!(p.context, pairs(&[("client_id", "cid"), ("code", "tok"), ("channel", "chan")]));
    let p = twitch_cb("cid", &Fetch::Unreadable, &Fetch::Failed);
    assert_eq!(p.context, pairs(&[("client_id", "cid")]));
    let p = twitch_cb("cid", &Fetch::Got("tok".to_string()), &Fetch::Failed);
    assert_eq!(p.context, pairs(&[("client_id", "cid"), ("code", ""), ("channel", "")]));
    let (p, a) = twitch_cb_auth("chan", "cid", &Fetch::Got("tok".to_string()));
    assert_eq!(p.template, "dashboard");
    assert_eq!(shown(&a), vec!["store publish channel:chan:signals:rename tok"]);
    let (p, a) = twitch_cb_auth("chan", "cid", &Fetch::Failed);
    assert_eq!(p.template, "index");
    assert!(a.is_empty());
}

#[test]
fn integration_sign_ins_store_tokens() {
    let t = Tokens { access_token: "a".to_string(), refresh_token: "r".to_string(), expires_in: 3600 };
    let (p, a) = patreon_cb("chan", "cid", &Fetch::Got(t));
    assert_eq!(p.template, "dashboard");
    assert_eq!(
        shown(&a),
        vec![
            "store set channel:chan:patreon:token a",
            "store set channel:chan:patreon:refresh r",
            "store set channel:chan:patreon:expires 3600",
        ]
    );
    let t = Tokens { access_token: "a".to_string(), refresh_token: "r".to_string(), expires_in: 1 };
    let (_, a) = spotify_cb("chan", "cid", &Fetch::Got(t));
    assert_eq!(shown(&a)[0], "store set channel:chan:spotify:token a");
    let (_, a) = spotify_cb("chan", "cid", &Fetch::Unreadable);
    assert!(a.is_empty());
}

#[test]
fn song_record_under_a_key() {
    let a = songreq_record("c", "k1", "vid", "Title", "bob");
    assert_eq!(
        shown(&a),
        vec![
            "store rpush channel:c:songreqs k1",
            "store hset channel:c:songreqs:k1 src https://youtube.com/watch?v=vid",
            "store hset channel:c:songreqs:k1 title Title",
            "store hset channel:c:songreqs:k1 nick bob",
            "say vid has been added to the queue",
        ]
    );
}
