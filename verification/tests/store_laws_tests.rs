use babblebot::action::Action;
use babblebot::commands::{command_cmd, counters_cmd, phrases_cmd, set_cmd, unset_cmd};
use babblebot::handler::expand_alias;
use babblebot::listeners::{leave_channel, rename_channel};
use babblebot::logs::{log_entry, LogScope};
use babblebot::types::{ApiLoginReq, ApiNoticeReq, ApiSaveCommandReq, ApiSignupReq, HelixUsersData};
use babblebot::vars::{counter_var, phrase_var};
use babblebot::web::{login, new_notice, password_key, save_command, signup, trash_notice};
use std::collections::{HashMap, HashSet};

/// A small key-value store that runs the store commands the bot issues.
enum Entry {
    Text(String),
    Fields(HashMap<String, String>),
    Items(Vec<String>),
    Members(HashSet<String>),
}

struct Store {
    m: HashMap<String, Entry>,
}

impl Store {
    fn new() -> Store {
        Store { m: HashMap::new() }
    }

    fn apply(&mut self, actions: &[Action]) {
        for a in actions {
            if let Action::Store(w) = a {
                self.run(w);
            }
        }
    }

    fn run(&mut self, w: &[String]) {
        let k = w[1].clone();
        match w[0].as_str() {
            "set" => {
                self.m.insert(k, Entry::Text(w[2].clone()));
            }
            "del" => {
                self.m.remove(&k);
            }
            "hset" => {
                let e = self.m.entry(k).or_insert_with(|| Entry::Fields(HashMap::new()));
                if let Entry::Fields(f) = e {
                    f.insert(w[2].clone(), w[3].clone());
                }
            }
            "hdel" => {
                if let Some(Entry::Fields(f)) = self.m.get_mut(&k) {
                    f.remove(&w[2]);
                    if f.is_empty() {
                        self.m.remove(&k);
                    }
                }
            }
            "lpush" | "rpush" => {
                let e = self.m.entry(k).or_insert_with(|| Entry::Items(Vec::new()));
                if let Entry::Items(l) = e {
                    if w[0] == "lpush" {
                        l.insert(0, w[2].clone());
                    } else {
                        l.push(w[2].clone());
                    }
                }
            }
            "ltrim" => {
                assert_eq!((w[2].as_str(), w[3].as_str()), ("0", "9999"));
                if let Some(Entry::Items(l)) = self.m.get_mut(&k) {
                    l.truncate(10000);
                }
            }
            "lrem" => {
                assert_eq!(w[2], "0");
                if let Some(Entry::Items(l)) = self.m.get_mut(&k) {
                    l.retain(|x| x != &w[3]);
                    if l.is_empty() {
                        self.m.remove(&k);
                    }
                }
            }
            "sadd" => {
                let e = self.m.entry(k).or_insert_with(|| Entry::Members(HashSet::new()));
                if let Entry::Members(s) = e {
                    s.insert(w[2].clone());
                }
            }
            "srem" => {
                if let Some(Entry::Members(s)) = self.m.get_mut(&k) {
                    s.remove(&w[2]);
                    if s.is_empty() {
                        self.m.remove(&k);
                    }
                }
            }
            "publish" | "expire" => {}
            other => panic!("unexpected store command {}", other),
        }
    }

    fn get(&self, k: &str) -> Option<String> {
        match self.m.get(k) {
            Some(Entry::Text(v)) => Some(v.clone()),
            _ => None,
        }
    }

    fn hget(&self, k: &str, f: &str) -> Option<String> {
        match self.m.get(k) {
            Some(Entry::Fields(m)) => m.get(f).cloned(),
            _ => None,
        }
    }

    fn items(&self, k: &str) -> Vec<String> {
        match self.m.get(k) {
            Some(Entry::Items(l)) => l.clone(),
            _ => Vec::new(),
        }
    }

    fn member(&self, k: &str, v: &str) -> bool {
        match self.m.get(k) {
            Some(Entry::Members(s)) => s.contains(v),
            _ => false,
        }
    }
}

fn words(v: &[&str]) -> Vec<String> {
    v.iter().map(|s| s.to_string()).collect()
}

#[test]
fn counter_counts_up_in_the_store() {
    let mut db = Store::new();
    let inc = words(&["inc", "deaths"]);
    let stored = db.hget("channel:chan:counters", "deaths");
    db.apply(&counters_cmd("chan", &inc, &stored));
    let stored = db.hget("channel:chan:counters", "deaths");
    assert_eq!(counter_var(&words(&["deaths"]), &stored), "1");
    db.apply(&counters_cmd("chan", &inc, &stored));
    let stored = db.hget("channel:chan:counters", "deaths");
    assert_eq!(counter_var(&words(&["deaths"]), &stored), "2");
}

#[test]
fn log_stays_bounded_in_the_store() {
    let mut db = Store::new();
    for i in 0..10005 {
        let plan = log_entry(&LogScope::Global, "t", "d", &format!("line {}", i), &Vec::new(), "");
        db.apply(&plan.actions);
    }
    let log = db.items("logs");
    assert_eq!(log.len(), 10000);
    assert_eq!(log[0], "[t] [d] line 10004");
}

#[test]
fn saved_command_reads_back_from_the_store() {
    let mut db = Store::new();
    let req = ApiSaveCommandReq { command: "hi".to_string(), message: "hello there".to_string() };
    let (_, actions) = save_command("chan", &req);
    db.apply(&actions);
    assert_eq!(db.hget("channel:chan:commands:hi", "message"), Some("hello there".to_string()));
}

#[test]
fn signup_then_login_through_the_store() {
    let mut db = Store::new();
    let req = ApiSignupReq { token: "tok".to_string(), password: "pw".to_string(), invite: String::new() };
    let user = HelixUsersData { id: "42".to_string(), login: "chan".to_string(), display_name: "Chan".to_string() };
    let (_, actions, _) = signup(&req, &user, false, "babblerbot", "bottok", Some(5)).unwrap();
    db.apply(&actions);
    assert!(db.member("channels", "chan"));
    assert!(db.member("bot:babblerbot:channels", "chan"));
    assert_eq!(db.get("channel:chan:bot"), Some("babblerbot".to_string()));
    let stored = db.get(&password_key("Chan"));
    let (rsp, claims) =
        login(&ApiLoginReq { channel: "Chan".to_string(), password: "pw".to_string() }, &stored, Some(7)).unwrap();
    assert!(rsp.success);
    assert_eq!(claims.unwrap().channel, "chan");
}

#[test]
fn leaving_forgets_the_channel_in_the_store() {
    let mut db = Store::new();
    db.run(&words(&["sadd", "channels", "chan"]));
    db.run(&words(&["sadd", "bot:b:channels", "chan"]));
    db.run(&words(&["sadd", "bot:b:channels", "other"]));
    let mut channels = words(&["chan", "other"]);
    let actions = leave_channel(&mut channels, "chan", "b");
    db.apply(&actions);
    assert_eq!(channels, words(&["other"]));
    assert!(!db.member("channels", "chan"));
    assert!(!db.member("bot:b:channels", "chan"));
    assert!(db.member("bot:b:channels", "other"));
}

#[test]
fn renaming_moves_the_channel_in_the_store() {
    let mut db = Store::new();
    db.run(&words(&["sadd", "bot:old:channels", "chan"]));
    db.run(&words(&["set", "channel:chan:bot", "old"]));
    assert!(rename_channel("chan", "old", "chan", "t", "r").is_none());
    let actions = rename_channel("chan", "old", "mybot", "t", "r").unwrap();
    db.apply(&actions);
    assert_eq!(db.get("channel:chan:bot"), Some("mybot".to_string()));
    assert!(db.member("bot:mybot:channels", "chan"));
    assert!(!db.member("bot:old:channels", "chan"));
    assert!(db.member("bots", "mybot"));
    assert_eq!(db.get("bot:mybot:token"), Some("t".to_string()));
    assert_eq!(db.get("bot:mybot:refresh"), Some("r".to_string()));
}

#[test]
fn setting_reads_back_and_unset_forgets() {
    let mut db = Store::new();
    db.apply(&set_cmd("chan", &words(&["channel:me", "yes", "please"])));
    assert_eq!(db.hget("channel:chan:settings", "channel:me"), Some("yes please".to_string()));
    db.apply(&set_cmd("chan", &words(&["flag"])));
    assert_eq!(db.hget("channel:chan:settings", "flag"), Some("true".to_string()));
    db.apply(&unset_cmd("chan", &words(&["flag"])));
    assert_eq!(db.hget("channel:chan:settings", "flag"), None);
    assert_eq!(db.hget("channel:chan:settings", "channel:me"), Some("yes please".to_string()));
}

#[test]
fn added_command_reads_back_and_remove_forgets() {
    let mut db = Store::new();
    db.apply(&command_cmd("chan", &words(&["add", "Hi", "hello", "world"])));
    assert_eq!(db.hget("channel:chan:commands:hi", "message"), Some("hello world".to_string()));
    assert_eq!(db.hget("channel:chan:commands:hi", "cmd_protected"), Some("false".to_string()));
    db.apply(&command_cmd("chan", &words(&["modadd", "Mod", "only", "mods"])));
    assert_eq!(db.hget("channel:chan:commands:mod", "message"), Some("only mods".to_string()));
    assert_eq!(db.hget("channel:chan:commands:mod", "arg_protected"), Some("true".to_string()));
    db.apply(&command_cmd("chan", &words(&["remove", "HI"])));
    assert_eq!(db.hget("channel:chan:commands:hi", "message"), None);
}

#[test]
fn phrase_reads_back() {
    let mut db = Store::new();
    db.apply(&phrases_cmd("chan", &words(&["set", "motto", "be", "kind"])));
    let stored = db.hget("channel:chan:phrases", "motto");
    assert_eq!(phrase_var(&words(&["motto"]), &stored), "be kind");
}

#[test]
fn notice_joins_and_leaves_the_rotation() {
    let mut db = Store::new();
    let req = |c: &str| ApiNoticeReq { interval: "300".to_string(), command: c.to_string() };
    let (_, a) = new_notice("chan", &req("hi"), true);
    db.apply(&a);
    let (_, a) = new_notice("chan", &req("bye"), true);
    db.apply(&a);
    let (_, a) = new_notice("chan", &req("hi"), true);
    db.apply(&a);
    assert_eq!(db.items("channel:chan:notices:300:commands"), words(&["hi", "bye", "hi"]));
    assert_eq!(db.get("channel:chan:notices:300:countdown"), Some("300".to_string()));
    let (_, a) = trash_notice("chan", &req("hi"));
    db.apply(&a);
    assert_eq!(db.items("channel:chan:notices:300:commands"), words(&["bye"]));
    let (_, a) = trash_notice("chan", &req("bye"));
    db.apply(&a);
    assert!(db.items("channel:chan:notices:300:commands").is_empty());
}

#[test]
fn alias_expands_and_remalias_forgets() {
    let mut db = Store::new();
    db.apply(&command_cmd("chan", &words(&["alias", "!SO", "!Echo", "Go", "follow"])));
    let stored = db.hget("channel:chan:aliases", "!so");
    assert_eq!(stored, Some("!echo go follow".to_string()));
    let (word, args) = expand_alias("!so", &words(&["them"]), &stored);
    assert_eq!(word, "!echo");
    assert_eq!(args, words(&["go", "follow", "them"]));
    db.apply(&command_cmd("chan", &words(&["remalias", "!so"])));
    let stored = db.hget("channel:chan:aliases", "!so");
    assert_eq!(stored, None);
    let (word, args) = expand_alias("!so", &words(&["them"]), &stored);
    assert_eq!(word, "!so");
    assert_eq!(args, words(&["them"]));
}
