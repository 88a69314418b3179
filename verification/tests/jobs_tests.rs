use babblebot::action::Action;
use babblebot::jobs::{
    announcement_body, fortnite_stat, live_update, matches_to_count, patreon_update, present_nicks,
    patreon_next, pubg_stat, refresh_body, refreshed, stats_reset, supports_campaign, watch_tick,
    LiveState, PatreonNext,
};
use babblebot::schedule::{
    auto_commercials, break_records, commercial_budget, commercials_cmd, notice_fire, notice_tick,
    CommercialState,
};
use babblebot::types::Chatters;

fn show(a: &Action) -> String {
    match a {
        Action::Store(w) => format!("store {}", w.join(" ")),
        Action::Say(s) => format!("say {}", s),
        Action::Post(s) => format!("post {}", s),
        Action::PostLater(n, s) => format!("later {} {}", n, s),
        Action::Call(c) => format!("call {} {}", c.url, c.body.clone().unwrap_or_default()),
        Action::Log(a, b) => format!("log {} {}", a, b),
    }
}

fn shown(v: &[Action]) -> Vec<String> {
    v.iter().map(show).collect()
}

fn words(v: &[&str]) -> Vec<String> {
    v.iter().map(|s| s.to_string()).collect()
}

fn state(submode: &str, notice: Option<&str>, recent: u16) -> CommercialState {
    CommercialState {
        id: "42".to_string(),
        submode: submode.to_string(),
        notice_message: notice.map(|n| n.to_string()),
        recent_count: recent,
        now: "T".to_string(),
    }
}

#[test]
fn going_live_and_offline() {
    let st = LiveState {
        live: "false".to_string(),
        streaming: true,
        notice_intervals: words(&["300"]),
        discord: Some(("99".to_string(), "{}".to_string())),
        has_stats_reset: false,
    };
    assert_eq!(
        shown(&live_update("c", &st)),
        vec![
            "store set channel:c:live true",
            "store del channel:c:hosts:recent",
            "store set channel:c:notices:300:countdown 300",
            "call https://discordapp.com/api/channels/99/messages {}",
        ]
    );
    let st = LiveState { live: "true".to_string(), streaming: false, notice_intervals: vec![], discord: None, has_stats_reset: false };
    assert_eq!(
        shown(&live_update("c", &st)),
        vec!["store set channel:c:live false", "store del channel:c:stats:pubg", "store del channel:c:stats:fortnite"]
    );
    let st = LiveState { live: "true".to_string(), streaming: false, notice_intervals: vec![], discord: None, has_stats_reset: true };
    assert_eq!(shown(&live_update("c", &st)), vec!["store set channel:c:live false"]);
    let st = LiveState { live: "true".to_string(), streaming: true, notice_intervals: vec![], discord: None, has_stats_reset: true };
    assert!(live_update("c", &st).is_empty());
}

#[test]
fn announcement_json() {
    assert_eq!(
        announcement_body("hi", "Chan", "Live", "chan", "logo.png", "Chess"),
        "{ \"content\": \"hi\", \"embed\": { \"author\": { \"name\": \"Chan\" }, \"title\": \"Live\", \"url\": \"http://twitch.tv/chan\", \"thumbnail\": { \"url\": \"logo.png\" }, \"fields\": [{ \"name\": \"Now Playing\", \"value\": \"Chess\" }] } }"
    );
}

#[test]
fn watch_time_counts_minutes() {
    assert_eq!(shown(&watch_tick("c", "bob", &None)), vec!["store hset channel:c:watchtimes bob 1"]);
    assert_eq!(shown(&watch_tick("c", "bob", &Some("41".to_string()))), vec!["store hset channel:c:watchtimes bob 42"]);
    assert_eq!(shown(&watch_tick("c", "bob", &Some("-5".to_string()))), vec!["store hset channel:c:watchtimes bob -4"]);
    let ch = Chatters { moderators: words(&["m"]), viewers: words(&["v1", "v2"]), vips: words(&["x"]) };
    assert_eq!(present_nicks(&ch), words(&["m", "v1", "v2", "x"]));
}

#[test]
fn supporters() {
    let inc = vec![("a".to_string(), Some("camp".to_string())), ("b".to_string(), None)];
    assert!(supports_campaign(&words(&["b", "a"]), &inc, "camp"));
    assert!(!supports_campaign(&words(&["b"]), &inc, "camp"));
    assert_eq!(shown(&patreon_update("c", true, "false", "t")), vec!["store set channel:c:patreon:subscribed true"]);
    assert_eq!(
        shown(&patreon_update("c", false, "true", "t")),
        vec!["store set channel:c:patreon:subscribed false", "store publish channel:c:signals:rename t"]
    );
}

#[test]
fn token_refreshes() {
    assert_eq!(
        refresh_body("r", "i", "s"),
        "grant_type=refresh_token&refresh_token=r&client_id=i&client_secret=s"
    );
    assert_eq!(shown(&refreshed("bot:b", "a", "r")), vec!["store set bot:b:token a", "store set bot:b:refresh r"]);
}

#[test]
fn statistics_reset_hourly() {
    let h = Some("5".to_string());
    assert_eq!(shown(&stats_reset("c", "pubg", "true", &h, 5)), vec!["store del channel:c:stats:pubg"]);
    assert_eq!(shown(&stats_reset("c", "pubg", "false", &h, 4)), vec!["store hset channel:c:stats:pubg reset true"]);
    assert!(stats_reset("c", "pubg", "false", &h, 5).is_empty());
    assert!(stats_reset("c", "pubg", "true", &None, 5).is_empty());
}

#[test]
fn new_matches_since_the_cursor() {
    let ids = words(&["m3", "m2", "m1"]);
    let (a, fresh) = matches_to_count("c", "pubg", &ids, "m1");
    assert_eq!(shown(&a), vec!["store hset channel:c:stats:pubg cursor m3"]);
    assert_eq!(fresh, words(&["m3", "m2"]));
    let (_, fresh) = matches_to_count("c", "pubg", &ids, "");
    assert!(fresh.is_empty());
    let (_, fresh) = matches_to_count("c", "pubg", &ids, "gone");
    assert_eq!(fresh, ids);
}

#[test]
fn statistics_add_up() {
    assert_eq!(shown(&pubg_stat("c", "winPlace", 1, &Some("2".to_string()))), vec!["store hset channel:c:stats:pubg wins 3"]);
    assert!(pubg_stat("c", "winPlace", 2, &None).is_empty());
    assert_eq!(shown(&pubg_stat("c", "kills", 4, &None)), vec!["store hset channel:c:stats:pubg kills 4"]);
    assert_eq!(shown(&pubg_stat("c", "kills", 4, &Some("6".to_string()))), vec!["store hset channel:c:stats:pubg kills 10"]);
    assert_eq!(shown(&fortnite_stat("c", "wins", 1, &Some("9".to_string()))), vec!["store hset channel:c:stats:fortnite wins 10"]);
}

#[test]
fn commercials_settings() {
    let st = state("false", None, 0);
    assert_eq!(
        shown(&commercials_cmd("c", &words(&["submode", "ON"]), false, None, &st)),
        vec!["store set channel:c:commercials:submode true", "say Submode during commercials has been turned on"]
    );
    assert_eq!(
        shown(&commercials_cmd("c", &words(&["notice", "ad"]), true, None, &st)),
        vec!["store set channel:c:commercials:notice ad", "say ad will be run at the start of commercials"]
    );
    assert_eq!(
        shown(&commercials_cmd("c", &words(&["notice", "ad"]), false, None, &st)),
        vec!["say ad is not an existing command"]
    );
    assert_eq!(
        shown(&commercials_cmd("c", &words(&["hourly", "3"]), false, None, &st)),
        vec!["store set channel:c:commercials:hourly 3", "say 3 commercials will be run each hour"]
    );
    assert_eq!(
        shown(&commercials_cmd("c", &words(&["hourly", "x"]), false, None, &st)),
        vec!["say x could not be parsed as a number"]
    );
}

#[test]
fn running_commercials() {
    let st = state("true", Some("buy stuff"), 8);
    assert_eq!(
        shown(&commercials_cmd("c", &words(&["run", "2"]), false, Some(30), &st)),
        vec![
            "store lpush channel:c:commercials:recent T 2",
            "store rpop channel:c:commercials:recent",
            "post /subscribers",
            "later 60 /subscribersoff",
            "say buy stuff",
            "log run_commercials 2 commercials have been run",
            "say 2 commercials have been run",
            "call https://api.twitch.tv/kraken/channels/42/commercial {\"length\": 60}",
        ]
    );
    assert_eq!(
        shown(&commercials_cmd("c", &words(&["run", "2"]), false, Some(9), &st)),
        vec!["say Commercials can't be run within eight minutes of each other"]
    );
    assert_eq!(
        shown(&commercials_cmd("c", &words(&["run", "7"]), false, None, &st)),
        vec!["say 7 must be a number between one and six"]
    );
}

#[test]
fn hourly_budget_and_automatic_breaks() {
    let recent = vec![(10i64, "2".to_string()), (70i64, "3".to_string()), (5i64, "x".to_string())];
    assert_eq!(commercial_budget(3, &recent), 1);
    assert_eq!(commercial_budget(1, &vec![(1i64, "4".to_string())]), 1);
    let st = state("false", None, 0);
    let r = auto_commercials("c", "true", 1, None, &st);
    assert_eq!(shown(&r)[0], "store lpush channel:c:commercials:recent T 1");
    assert_eq!(shown(&r)[2], "post 1 commercials have been run");
    assert!(auto_commercials("c", "false", 1, None, &st).is_empty());
    assert!(auto_commercials("c", "true", 0, None, &st).is_empty());
}

#[test]
fn notice_countdowns() {
    let entries = vec![("300".to_string(), "60".to_string()), ("600".to_string(), "0".to_string()), ("120".to_string(), "120".to_string())];
    let (r, due) = notice_tick("c", "true", &entries);
    assert_eq!(due, 600);
    assert_eq!(
        shown(&r),
        vec![
            "store decrby channel:c:notices:300:countdown 60",
            "store decrby channel:c:notices:120:countdown 60",
            "store set channel:c:notices:600:countdown 600",
        ]
    );
    let (r, due) = notice_tick("c", "false", &entries);
    assert_eq!((r.len(), due), (0, 0));
    assert_eq!(
        shown(&notice_fire("c", 600, "hi", &Some("Hello!".to_string()))),
        vec!["store rpush channel:c:notices:600:commands hi", "post Hello!"]
    );
}

#[test]
fn break_records_read_for_the_budget() {
    let now = (1_600_000_000i64, 0u32);
    let recs = words(&["2020-09-13T12:00:00+00:00 2", "2020-09-13T10:00:00+00:00"]);
    let read = break_records(now, &recs).unwrap();
    assert_eq!(read, vec![(26, "2".to_string()), (146, String::new())]);
    assert_eq!(commercial_budget(3, &read), 1);
    assert!(break_records(now, &words(&["2020-09-13T12:20:00+00:00"])).is_none());
    assert!(break_records(now, &words(&["yesterday 2"])).is_none());
    assert!(break_records(now, &words(&[""])).is_none());
    assert_eq!(break_records(now, &Vec::new()).unwrap(), Vec::new());
}

#[test]
fn patreon_check_refreshes_once() {
    assert!(matches!(patreon_next(true, &None, false), PatreonNext::Decide));
    assert!(matches!(patreon_next(true, &Some("r".to_string()), true), PatreonNext::Decide));
    match patreon_next(false, &Some("r".to_string()), false) {
        PatreonNext::Refresh(c) => {
            assert_eq!(c.url, "https://www.patreon.com/api/oauth2/token");
            assert_eq!(c.body.as_deref(), Some("grant_type=refresh_token&refresh_token=r"));
        }
        _ => panic!("expected a refresh"),
    }
    assert!(matches!(patreon_next(false, &Some("r".to_string()), true), PatreonNext::GiveUp));
    assert!(matches!(patreon_next(false, &None, false), PatreonNext::GiveUp));
}
