use babblebot::action::{Action, Method, Service};
use babblebot::types::{
    ApiLoginReq, ApiNewBlacklistReq, ApiNoticeReq, ApiPasswordReq, ApiRsp, ApiSaveBlacklistReq,
    ApiSaveCommandReq, ApiSaveSettingReq, ApiSignupReq, ApiTrashBlacklistReq, ApiTrashCommandReq,
    ApiTrashSettingReq, Auth, AuthError, HelixUsersData, KrakenChannel,
};
use babblebot::web::{
    data, data_unavailable, from_request, game, game_reply, game_update, internal_error, login,
    logout, new_blacklist, new_command, new_notice, not_found, notice_request_ok, password,
    password_key, public_data, save_blacklist, save_command, save_setting, signup,
    signup_lookup_failed, title, title_reply, trash_blacklist, trash_command, trash_notice,
    trash_setting, trash_song, DashboardStore, SessionOutcome,
};

fn show(a: &Action) -> String {
    match a {
        Action::Store(w) => format!("store {}", w.join(" ")),
        Action::Say(s) => format!("say {}", s),
        Action::Post(s) => format!("post {}", s),
        Action::PostLater(n, s) => format!("later {} {}", n, s),
        Action::Call(c) => format!("call {}", c.url),
        Action::Log(a, b) => format!("log {} {}", a, b),
    }
}

fn shown(v: &[Action]) -> Vec<String> {
    v.iter().map(show).collect()
}

fn rsp(r: &ApiRsp) -> (bool, Option<String>, Option<String>, Option<String>) {
    (r.success, r.success_value.clone(), r.field.clone(), r.error_message.clone())
}

fn ok() -> (bool, Option<String>, Option<String>, Option<String>) {
    (true, None, None, None)
}

fn refused() -> (bool, Option<String>, Option<String>, Option<String>) {
    (false, None, None, None)
}

fn rejected(f: &str, m: &str) -> (bool, Option<String>, Option<String>, Option<String>) {
    (false, None, Some(f.to_string()), Some(m.to_string()))
}

#[test]
fn catchers_answer_codes() {
    assert_eq!(internal_error(), "500");
    assert_eq!(not_found(), "404");
    assert_eq!(rsp(&logout()), ok());
}

#[test]
fn sessions_forward_or_fail_without_a_cookie() {
    assert!(matches!(from_request(false, None), SessionOutcome::Forward));
    assert!(matches!(from_request(true, None), SessionOutcome::Failure(AuthError::Missing)));
    assert!(matches!(from_request(true, Some(None)), SessionOutcome::Failure(AuthError::Missing)));
    let a = Auth { channel: "chan".to_string(), exp: 5 };
    match from_request(true, Some(Some(a))) {
        SessionOutcome::Success(a) => assert_eq!((a.channel.as_str(), a.exp), ("chan", 5)),
        _ => panic!("expected a session"),
    }
}

#[test]
fn new_command_lowercases_and_clears_flags() {
    let d = ApiSaveCommandReq { command: "Hi".to_string(), message: "hello".to_string() };
    let (r, a) = new_command("chan", &d);
    assert_eq!(rsp(&r), ok());
    assert_eq!(
        shown(&a),
        vec![
            "store hset channel:chan:commands:hi message hello",
            "store hset channel:chan:commands:hi cmd_protected 0",
            "store hset channel:chan:commands:hi arg_protected 0",
        ]
    );
    let d = ApiSaveCommandReq { command: "".to_string(), message: "hello".to_string() };
    let (r, a) = new_command("chan", &d);
    assert_eq!(rsp(&r), refused());
    assert!(a.is_empty());
}

#[test]
fn save_and_trash_command() {
    let d = ApiSaveCommandReq { command: "Hi".to_string(), message: "yo".to_string() };
    let (r, a) = save_command("chan", &d);
    assert_eq!(rsp(&r), ok());
    assert_eq!(shown(&a), vec!["store hset channel:chan:commands:Hi message yo"]);
    let d = ApiSaveCommandReq { command: "Hi".to_string(), message: "".to_string() };
    assert_eq!(rsp(&save_command("chan", &d).0), refused());
    let (r, a) = trash_command("chan", &ApiTrashCommandReq { command: "hi".to_string() });
    assert_eq!(rsp(&r), ok());
    assert_eq!(shown(&a), vec!["store del channel:chan:commands:hi"]);
    assert_eq!(rsp(&trash_command("chan", &ApiTrashCommandReq { command: "".to_string() }).0), refused());
}

#[test]
fn notices_need_whole_minutes_and_a_command() {
    let d = ApiNoticeReq { interval: "600".to_string(), command: "hi".to_string() };
    assert!(notice_request_ok(&d));
    let (r, a) = new_notice("chan", &d, true);
    assert_eq!(rsp(&r), ok());
    assert_eq!(
        shown(&a),
        vec![
            "store rpush channel:chan:notices:600:commands hi",
            "store set channel:chan:notices:600:countdown 600",
        ]
    );
    let (r, a) = new_notice("chan", &d, false);
    assert_eq!(rsp(&r), refused());
    assert!(a.is_empty());
    let bad = ApiNoticeReq { interval: "90".to_string(), command: "hi".to_string() };
    assert!(!notice_request_ok(&bad));
    assert_eq!(rsp(&new_notice("chan", &bad, true).0), refused());
    let huge = ApiNoticeReq { interval: "65580".to_string(), command: "hi".to_string() };
    assert!(!notice_request_ok(&huge));
    let (r, a) = trash_notice("chan", &d);
    assert_eq!(rsp(&r), ok());
    assert_eq!(shown(&a), vec!["store lrem channel:chan:notices:600:commands 0 hi"]);
}

#[test]
fn settings_are_lowercased_when_saved() {
    let d = ApiSaveSettingReq { name: "Channel:Me".to_string(), value: "true".to_string() };
    let (r, a) = save_setting("chan", &d);
    assert_eq!(rsp(&r), ok());
    assert_eq!(shown(&a), vec!["store hset channel:chan:settings channel:me true"]);
    let (r, a) = trash_setting("chan", &ApiTrashSettingReq { name: "Channel:Me".to_string() });
    assert_eq!(rsp(&r), ok());
    assert_eq!(shown(&a), vec!["store hdel channel:chan:settings Channel:Me"]);
    let d = ApiSaveSettingReq { name: "x".to_string(), value: "".to_string() };
    assert_eq!(rsp(&save_setting("chan", &d).0), refused());
}

#[test]
fn blacklist_rules_are_keyed_by_a_hash_of_the_pattern() {
    let d = ApiNewBlacklistReq { regex: "bad.*word".to_string(), length: "60".to_string() };
    let (r, a) = new_blacklist("chan", &d).expect("a hash");
    assert_eq!(rsp(&r), ok());
    assert_eq!(a.len(), 2);
    let key = match &a[0] {
        Action::Store(w) => {
            assert_eq!(w[0], "hset");
            assert_eq!(w[2], "regex");
            assert_eq!(w[3], "bad.*word");
            w[1].trim_start_matches("channel:chan:moderation:blacklist:").to_string()
        },
        _ => panic!("expected a store command"),
    };
    assert!(bcrypt::verify("bad.*word", &key).unwrap());
    let d = ApiNewBlacklistReq { regex: "".to_string(), length: "60".to_string() };
    let (r, a) = new_blacklist("chan", &d).unwrap();
    assert_eq!(rsp(&r), refused());
    assert!(a.is_empty());
    let d = ApiSaveBlacklistReq { regex: "x".to_string(), length: "5".to_string(), key: "k".to_string() };
    let (r, a) = save_blacklist("chan", &d);
    assert_eq!(rsp(&r), ok());
    assert_eq!(
        shown(&a),
        vec![
            "store hset channel:chan:moderation:blacklist:k regex x",
            "store hset channel:chan:moderation:blacklist:k length 5",
        ]
    );
    let (r, a) = trash_blacklist("chan", &ApiTrashBlacklistReq { key: "k".to_string() });
    assert_eq!(rsp(&r), ok());
    assert_eq!(shown(&a), vec!["store del channel:chan:moderation:blacklist:k"]);
}

#[test]
fn trash_song_removes_the_entry_and_its_record() {
    let entries = vec!["a".to_string(), "b".to_string()];
    let (r, a) = trash_song("chan", &entries, 1);
    assert_eq!(rsp(&r), ok());
    assert_eq!(shown(&a), vec!["store lrem channel:chan:songreqs 0 b", "store del channel:chan:songreqs:b"]);
}

#[test]
fn password_change_then_login() {
    let (r, a) = password("chan", &ApiPasswordReq { password: "".to_string() }).unwrap();
    assert_eq!(rsp(&r), rejected("password", "empty password"));
    assert!(a.is_empty());
    let (r, a) = password("chan", &ApiPasswordReq { password: "s3cret".to_string() }).unwrap();
    assert_eq!(rsp(&r), ok());
    let hashed = match &a[0] {
        Action::Store(w) => {
            assert_eq!(w[0], "set");
            assert_eq!(w[1], "channel:chan:password");
            w[2].clone()
        },
        _ => panic!("expected a store command"),
    };
    assert_eq!(password_key("Chan"), "channel:chan:password");
    let req = ApiLoginReq { channel: "Chan".to_string(), password: "s3cret".to_string() };
    let (r, claims) = login(&req, &Some(hashed.clone()), Some(100)).unwrap();
    assert_eq!(rsp(&r), ok());
    let claims = claims.unwrap();
    assert_eq!(claims.channel, "chan");
    assert_eq!(claims.exp, 2400100);
    let wrong = ApiLoginReq { channel: "chan".to_string(), password: "nope".to_string() };
    let (r, claims) = login(&wrong, &Some(hashed), Some(100)).unwrap();
    assert_eq!(rsp(&r), rejected("password", "invalid password"));
    assert!(claims.is_none());
    let (r, _) = login(&wrong, &None, None).unwrap();
    assert_eq!(rsp(&r), rejected("channel", "channel not found"));
    assert!(login(&wrong, &Some("not a hash".to_string()), None).is_none());
}

#[test]
fn signup_records_the_channel() {
    let user = HelixUsersData { id: "42".to_string(), login: "chan".to_string(), display_name: "Chan".to_string() };
    let req = ApiSignupReq { token: "tok".to_string(), password: "pw".to_string(), invite: "".to_string() };
    let (r, a, claims) = signup(&req, &user, true, "babblerbot", "bt", Some(1)).unwrap();
    assert_eq!(rsp(&r), rejected("token", "channel is already signed up"));
    assert!(a.is_empty() && claims.is_none());
    let (r, a, claims) = signup(&req, &user, false, "babblerbot", "bt", Some(1)).unwrap();
    assert_eq!(rsp(&r), ok());
    assert_eq!(claims.unwrap().exp, 2400001);
    let s = shown(&a);
    assert_eq!(s.len(), 11);
    assert_eq!(s[0], "store sadd bots babblerbot");
    assert_eq!(s[1], "store sadd channels chan");
    assert_eq!(s[2], "store set bot:babblerbot:token bt");
    assert_eq!(s[3], "store sadd bot:babblerbot:channels chan");
    assert_eq!(s[4], "store set channel:chan:bot babblerbot");
    assert_eq!(s[5], "store set channel:chan:token tok");
    assert!(s[6].starts_with("store set channel:chan:password $2b$12$"));
    assert_eq!(s[7], "store set channel:chan:live 0");
    assert_eq!(s[8], "store set channel:chan:id 42");
    assert_eq!(s[9], "store set channel:chan:display-name Chan");
    assert_eq!(s[10], "store publish new_channels chan");
    let hashed = s[6].trim_start_matches("store set channel:chan:password ").to_string();
    let (r, _) = login(&ApiLoginReq { channel: "chan".to_string(), password: "pw".to_string() }, &Some(hashed), None).unwrap();
    assert_eq!(rsp(&r), ok());
    assert_eq!(rsp(&signup_lookup_failed()), rejected("token", "invalid access code"));
}

#[test]
fn title_and_game_requests() {
    let c = title("123", "new title");
    assert!(matches!(c.method, Method::Put));
    assert!(matches!(c.service, Service::Kraken));
    assert_eq!(c.url, "https://api.twitch.tv/kraken/channels/123");
    assert_eq!(c.body.as_deref(), Some("channel[status]=new title"));
    assert_eq!(c.content_type.as_deref(), Some("application/x-www-form-urlencoded"));
    assert_eq!(rsp(&title_reply(true)), ok());
    assert_eq!(rsp(&title_reply(false)), rejected("title-field", "twitch api error"));
    let g = game("Chess");
    assert!(matches!(g.method, Method::Get));
    assert_eq!(g.url, "https://api.twitch.tv/helix/games?name=Chess");
    assert!(game_update("123", &vec![]).is_none());
    let u = game_update("123", &vec!["Chess".to_string(), "Chess 2".to_string()]).unwrap();
    assert_eq!(u.body.as_deref(), Some("channel[game]=Chess"));
    assert_eq!(
        rsp(&game_reply(&Some("Chess".to_string()))),
        (true, Some("Chess".to_string()), Some("game".to_string()), None)
    );
    assert_eq!(rsp(&game_reply(&None)), rejected("game", "game not found"));
}

fn store() -> DashboardStore {
    DashboardStore {
        bot: "mybot".to_string(),
        spotify_id: "sid".to_string(),
        patreon_client: "pid".to_string(),
        spotify_connected: true,
        patreon_connected: false,
        settings: vec![("channel:me".to_string(), "true".to_string())],
        command_keys: vec!["channel:chan:commands:hi".to_string(), "channel:chan:commands:gone".to_string()],
        command_messages: vec![Some("hello".to_string()), None],
        notice_keys: vec!["channel:chan:notices:600:commands".to_string()],
        notice_lists: vec![Some(vec!["hi".to_string()])],
        blacklist_keys: vec!["channel:chan:moderation:blacklist:k1".to_string()],
        blacklist_tables: vec![vec![("regex".to_string(), "x".to_string())]],
        songreqs: vec![("src".to_string(), "title".to_string(), "nick".to_string())],
    }
}

#[test]
fn dashboard_data_gathers_the_record() {
    let info = KrakenChannel {
        status: "live!".to_string(),
        game: "Chess".to_string(),
        name: "chan".to_string(),
        logo: "".to_string(),
        url: "".to_string(),
        display_name: "Chan".to_string(),
    };
    let d = data("chan", &info, &store());
    assert_eq!(d.channel, "chan");
    assert_eq!(
        d.fields,
        vec![
            ("status".to_string(), "live!".to_string()),
            ("game".to_string(), "Chess".to_string()),
            ("username".to_string(), "mybot".to_string()),
        ]
    );
    assert_eq!(d.commands, vec![("hi".to_string(), "hello".to_string())]);
    assert_eq!(d.notices, vec![("600".to_string(), vec!["hi".to_string()])]);
    assert_eq!(d.blacklist, vec![("k1".to_string(), vec![("regex".to_string(), "x".to_string())])]);
    assert_eq!(d.settings, vec![("channel:me".to_string(), "true".to_string())]);
    assert_eq!(d.songreqs.len(), 1);
    assert_eq!(d.integrations[0].0, "spotify");
    assert_eq!(d.integrations[0].1[1], ("connected".to_string(), "true".to_string()));
    assert_eq!(d.integrations[1].1[1], ("connected".to_string(), "false".to_string()));
    let mut s = store();
    s.bot = "babblerbot".to_string();
    assert_eq!(data("chan", &info, &s).fields.len(), 2);
    let e = data_unavailable("chan");
    assert_eq!(e.channel, "chan");
    assert!(e.fields.is_empty() && e.commands.is_empty());
}

#[test]
fn public_data_shows_commands_only() {
    let keys = vec!["channel:chan:commands:hi".to_string()];
    let msgs = vec![Some("hello".to_string())];
    let d = public_data(true, &keys, &msgs);
    assert_eq!(d.channel, "");
    assert_eq!(d.commands, vec![("hi".to_string(), "hello".to_string())]);
    assert!(public_data(false, &keys, &msgs).commands.is_empty());
}
