//! What a decision asks the bot to do: commands for the key-value store,
//! chat lines, web requests, log lines.
use crate::text::{concat4, views};
use vstd::prelude::*;

verus! {

/// The HTTP method of a web request.
pub enum Method {
    Get,
    Put,
    Post,
}

/// Which service a web request goes to, and so which credentials and
/// headers it carries.
pub enum Service {
    /// Twitch's v5 API with the channel's OAuth token.
    Kraken,
    /// Twitch's Helix API with the channel's bearer token.
    Helix,
    /// Any other address, without credentials.
    Plain,
    /// Discord's API with the channel's bot token.
    Discord,
    /// Spotify's API with the channel's Spotify token.
    Spotify,
    /// Spotify's token endpoint, with the dashboard's client credentials.
    SpotifyRefresh,
    /// Patreon's API with the channel's Patreon token.
    Patreon,
    /// Patreon's token endpoint, with the dashboard's client credentials.
    PatreonRefresh,
    /// Twitch's token endpoint (a form, without credentials).
    TwitchRefresh,
    /// The PUBG API with the bot's key.
    Pubg,
    /// The Fortnite tracker API with the bot's key.
    Fortnite,
}

/// A web request to make.
pub struct HttpCall {
    pub method: Method,
    pub service: Service,
    pub url: String,
    pub content_type: Option<String>,
    pub body: Option<String>,
}

/// The model of a web request.
pub struct CallView {
    pub method: Method,
    pub service: Service,
    pub url: Seq<char>,
    pub content_type: Option<Seq<char>>,
    pub body: Option<Seq<char>>,
}

/// The model of an optional string.
pub open spec fn opt_view(o: Option<String>) -> Option<Seq<char>> {
    match o {
        Some(s) => Some(s@),
        None => None,
    }
}

impl HttpCall {
    pub open spec fn view_call(&self) -> CallView {
        CallView {
            method: self.method,
            service: self.service,
            url: self.url@,
            content_type: opt_view(self.content_type),
            body: opt_view(self.body),
        }
    }
}

/// One thing a decision asks the bot to do, in order with the others.
pub enum Action {
    /// A command for the key-value store, word by word (`hset key field value`).
    Store(Vec<String>),
    /// A chat line through the channel's usual path: sent only while the bot
    /// is authorised in the channel, and as an emote when the channel asks.
    Say(String),
    /// A chat line sent as it is.
    Post(String),
    /// A chat line sent as it is after the given number of seconds.
    PostLater(u64, String),
    /// A web request whose answer is not used.
    Call(HttpCall),
    /// A log line: its source and its content.
    Log(String, String),
}

/// The model of an action.
pub enum Effect {
    Store(Seq<Seq<char>>),
    Say(Seq<char>),
    Post(Seq<char>),
    PostLater(nat, Seq<char>),
    Call(CallView),
    Log(Seq<char>, Seq<char>),
}

impl Action {
    pub open spec fn effect(&self) -> Effect {
        match self {
            Action::Store(w) => Effect::Store(views(w@)),
            Action::Say(s) => Effect::Say(s@),
            Action::Post(s) => Effect::Post(s@),
            Action::PostLater(n, s) => Effect::PostLater(*n as nat, s@),
            Action::Call(c) => Effect::Call(c.view_call()),
            Action::Log(a, b) => Effect::Log(a@, b@),
        }
    }
}

/// The models of a sequence of actions.
pub open spec fn effects(v: Seq<Action>) -> Seq<Effect> {
    v.map_values(|a: Action| a.effect())
}

/// Appends an action.
pub fn emit(v: &mut Vec<Action>, a: Action)
    ensures
        effects(final(v)@) == effects(old(v)@).push(a.effect()),
{
    v.push(a);
    assert(effects(v@) =~= effects(old(v)@).push(a.effect()));
}

/// A store command of two words.
pub fn store2(a: &str, b: &str) -> (r: Action)
    ensures
        r.effect() == Effect::Store(seq![a@, b@]),
{
    let mut w: Vec<String> = Vec::new();
    w.push(a.to_owned());
    w.push(b.to_owned());
    assert(views(w@) =~= seq![a@, b@]);
    Action::Store(w)
}

/// A store command of three words.
pub fn store3(a: &str, b: &str, c: &str) -> (r: Action)
    ensures
        r.effect() == Effect::Store(seq![a@, b@, c@]),
{
    let mut w: Vec<String> = Vec::new();
    w.push(a.to_owned());
    w.push(b.to_owned());
    w.push(c.to_owned());
    assert(views(w@) =~= seq![a@, b@, c@]);
    Action::Store(w)
}

/// A store command of four words.
pub fn store4(a: &str, b: &str, c: &str, d: &str) -> (r: Action)
    ensures
        r.effect() == Effect::Store(seq![a@, b@, c@, d@]),
{
    let mut w: Vec<String> = Vec::new();
    w.push(a.to_owned());
    w.push(b.to_owned());
    w.push(c.to_owned());
    w.push(d.to_owned());
    assert(views(w@) =~= seq![a@, b@, c@, d@]);
    Action::Store(w)
}

/// A chat line through the channel's usual path.
pub fn say(s: &str) -> (r: Action)
    ensures
        r.effect() == Effect::Say(s@),
{
    Action::Say(s.to_owned())
}

/// The store key of a channel's record: `channel:<channel>:<suffix>`.
pub open spec fn chan_key(channel: Seq<char>, suffix: Seq<char>) -> Seq<char> {
    "channel:"@ + channel + ":"@ + suffix
}

/// The store key of a channel's record: `channel:<channel>:<suffix>`.
pub fn channel_key(channel: &str, suffix: &str) -> (r: String)
    ensures
        r@ == chan_key(channel@, suffix@),
{
    concat4("channel:", channel, ":", suffix)
}


impl Method {
    /// A copy.
    pub fn copy(&self) -> (r: Method)
        ensures
            r == *self,
    {
        match self {
            Method::Get => Method::Get,
            Method::Put => Method::Put,
            Method::Post => Method::Post,
        }
    }
}

impl Service {
    /// A copy.
    pub fn copy(&self) -> (r: Service)
        ensures
            r == *self,
    {
        match self {
            Service::Kraken => Service::Kraken,
            Service::Helix => Service::Helix,
            Service::Plain => Service::Plain,
            Service::Discord => Service::Discord,
            Service::Spotify => Service::Spotify,
            Service::SpotifyRefresh => Service::SpotifyRefresh,
            Service::Patreon => Service::Patreon,
            Service::PatreonRefresh => Service::PatreonRefresh,
            Service::TwitchRefresh => Service::TwitchRefresh,
            Service::Pubg => Service::Pubg,
            Service::Fortnite => Service::Fortnite,
        }
    }
}

/// A copy of an optional string.
pub fn copy_opt(o: &Option<String>) -> (r: Option<String>)
    ensures
        opt_view(r) == opt_view(*o),
{
    match o {
        Some(s) => Some(s.clone()),
        None => None,
    }
}

impl Action {
    /// A copy of the action.
    pub fn clone_action(&self) -> (r: Action)
        ensures
            r.effect() == self.effect(),
    {
        match self {
            Action::Store(w) => {
                let mut v: Vec<String> = Vec::new();
                let mut i: usize = 0;
                while i < w.len()
                    invariant
                        i <= w.len(),
                        views(v@) == views(w@).take(i as int),
                    decreases w.len() - i,
                {
                    let ghost before = v@;
                    v.push(w[i].clone());
                    assert(views(v@) =~= views(before).push(w@[i as int]@));
                    assert(views(w@).take(i + 1) =~= views(w@).take(i as int).push(views(w@)[i as int]));
                    i = i + 1;
                }
                assert(views(w@).take(w.len() as int) =~= views(w@));
                Action::Store(v)
            },
            Action::Say(s) => Action::Say(s.clone()),
            Action::Post(s) => Action::Post(s.clone()),
            Action::PostLater(n, s) => Action::PostLater(*n, s.clone()),
            Action::Call(c) => Action::Call(
                HttpCall {
                    method: c.method.copy(),
                    service: c.service.copy(),
                    url: c.url.clone(),
                    content_type: copy_opt(&c.content_type),
                    body: copy_opt(&c.body),
                },
            ),
            Action::Log(a, b) => Action::Log(a.clone(), b.clone()),
        }
    }
}

/// Appends copies of all of `more` to `v`.
pub fn emit_all(v: &mut Vec<Action>, more: &Vec<Action>)
    ensures
        effects(final(v)@) == effects(old(v)@) + effects(more@),
{
    let ghost start = effects(v@);
    let mut j: usize = 0;
    while j < more.len()
        invariant
            j <= more.len(),
            effects(v@) == start + effects(more@).take(j as int),
        decreases more.len() - j,
    {
        emit(v, more[j].clone_action());
        assert(effects(more@).take(j + 1) =~= effects(more@).take(j as int).push(more@[j as int].effect()));
        j = j + 1;
    }
    assert(effects(more@).take(more.len() as int) =~= effects(more@));
}

} // verus!
