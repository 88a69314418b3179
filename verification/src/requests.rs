//! The web requests the bot makes: the headers each service takes, the
//! requests behind the chat variables that fetch their value, and the
//! token refreshes.
use crate::action::{chan_key, channel_key, effects, emit, opt_view, store3, Action, CallView, Effect, HttpCall, Method, Service};
use crate::handler::{native_command, native_lookup, Native};
use crate::text::{concat2, concat3, concat4, decimal, decimal_string, lowercase, same_text, split_words, views, words};
use crate::types::SpotifyTrack;
use crate::web::pairs_view;
use vstd::prelude::*;

verus! {

/// The base64 text (standard alphabet, with padding) of a string's UTF-8
/// bytes, as `base64::encode` writes it.
pub uninterp spec fn base64_text(s: Seq<char>) -> Seq<char>;

/// `base64::encode` of a string's bytes (`base64_text`).
#[verifier::external_body]
fn base64_encode(s: &str) -> (r: String)
    ensures
        r@ == base64_text(s@),
{
    base64::encode(s)
}

/// The credentials the bot holds for outside services.
pub struct Credentials {
    /// The Twitch application's client id.
    pub client_id: String,
    /// The Spotify application's id and secret.
    pub spotify_id: String,
    pub spotify_secret: String,
    /// The Patreon application's id and secret.
    pub patreon_client: String,
    pub patreon_secret: String,
}

/// The media type of a form body.
pub open spec fn form_type() -> Seq<char> {
    "application/x-www-form-urlencoded"@
}

/// The media type Twitch's v5 API answers with.
pub open spec fn kraken_type() -> Seq<char> {
    "application/vnd.twitchtv.v5+json"@
}

/// The media type the Spotify, PUBG and Fortnite APIs are asked for.
pub open spec fn api_type() -> Seq<char> {
    "application/vnd.api+json"@
}

/// The `Basic` credentials of an application.
pub open spec fn basic(id: Seq<char>, secret: Seq<char>) -> Seq<char> {
    "Basic "@ + base64_text(id + ":"@ + secret)
}

/// The headers a request to `service` carries: `token` is the credential
/// of the channel or bot it is made for, `content` the media type of its
/// body (taken by Twitch's APIs and plain requests only).
pub open spec fn header_list(
    service: Service,
    token: Seq<char>,
    content: Option<Seq<char>>,
    client_id: Seq<char>,
    spotify_basic: Seq<char>,
    patreon_basic: Seq<char>,
) -> Seq<(Seq<char>, Seq<char>)> {
    let typed = match content {
        Some(t) => seq![("Content-Type"@, t)],
        None => seq![],
    };
    match service {
        Service::Kraken => seq![
            ("Accept"@, kraken_type()),
            ("Authorization"@, "OAuth "@ + token),
            ("Client-ID"@, client_id),
        ] + typed,
        Service::Helix => seq![
            ("Accept"@, kraken_type()),
            ("Authorization"@, "Bearer "@ + token),
            ("Client-ID"@, client_id),
        ] + typed,
        Service::Plain => typed,
        Service::Discord => seq![
            ("Authorization"@, "Bot "@ + token),
            ("User-Agent"@, "Babblebot (https://gitlab.com/toovs/babblebot, 0.1"@),
            ("Content-Type"@, "application/json"@),
        ],
        Service::Spotify => seq![("Accept"@, api_type()), ("Authorization"@, "Bearer "@ + token)],
        Service::SpotifyRefresh => seq![("Content-Type"@, form_type()), ("Authorization"@, spotify_basic)],
        Service::Patreon => seq![("Authorization"@, "Bearer "@ + token)],
        Service::PatreonRefresh => seq![("Content-Type"@, form_type()), ("Authorization"@, patreon_basic)],
        Service::TwitchRefresh => seq![("Content-Type"@, form_type())],
        Service::Pubg => seq![("Accept"@, api_type()), ("Authorization"@, "Bearer "@ + token)],
        Service::Fortnite => seq![("Accept"@, api_type()), ("TRN-Api-Key"@, token)],
    }
}

fn push_pair(v: &mut Vec<(String, String)>, k: &str, val: &str)
    ensures
        pairs_view(final(v)@) == pairs_view(old(v)@).push((k@, val@)),
{
    v.push((k.to_owned(), val.to_owned()));
    assert(pairs_view(v@) =~= pairs_view(old(v)@).push((k@, val@)));
}

/// The headers of a request to `service`.
pub fn request_headers(service: &Service, token: &str, content: &Option<String>, creds: &Credentials) -> (r: Vec<
    (String, String),
>)
    ensures
        pairs_view(r@) == header_list(
            *service,
            token@,
            opt_view(*content),
            creds.client_id@,
            basic(creds.spotify_id@, creds.spotify_secret@),
            basic(creds.patreon_client@, creds.patreon_secret@),
        ),
{
    let mut r: Vec<(String, String)> = Vec::new();
    match service {
        Service::Kraken | Service::Helix => {
            push_pair(&mut r, "Accept", "application/vnd.twitchtv.v5+json");
            let auth = match service {
                Service::Kraken => concat2("OAuth ", token),
                _ => concat2("Bearer ", token),
            };
            push_pair(&mut r, "Authorization", auth.as_str());
            push_pair(&mut r, "Client-ID", creds.client_id.as_str());
            match content {
                Some(t) => push_pair(&mut r, "Content-Type", t.as_str()),
                None => {},
            }
        },
        Service::Plain => {
            match content {
                Some(t) => push_pair(&mut r, "Content-Type", t.as_str()),
                None => {},
            }
        },
        Service::Discord => {
            let auth = concat2("Bot ", token);
            push_pair(&mut r, "Authorization", auth.as_str());
            push_pair(&mut r, "User-Agent", "Babblebot (https://gitlab.com/toovs/babblebot, 0.1");
            push_pair(&mut r, "Content-Type", "application/json");
        },
        Service::Spotify | Service::Pubg => {
            push_pair(&mut r, "Accept", "application/vnd.api+json");
            let auth = concat2("Bearer ", token);
            push_pair(&mut r, "Authorization", auth.as_str());
        },
        Service::Patreon => {
            let auth = concat2("Bearer ", token);
            push_pair(&mut r, "Authorization", auth.as_str());
        },
        Service::SpotifyRefresh | Service::PatreonRefresh => {
            push_pair(&mut r, "Content-Type", "application/x-www-form-urlencoded");
            let pair = match service {
                Service::SpotifyRefresh => concat3(creds.spotify_id.as_str(), ":", creds.spotify_secret.as_str()),
                _ => concat3(creds.patreon_client.as_str(), ":", creds.patreon_secret.as_str()),
            };
            let auth = concat2("Basic ", base64_encode(pair.as_str()).as_str());
            push_pair(&mut r, "Authorization", auth.as_str());
        },
        Service::TwitchRefresh => {
            push_pair(&mut r, "Content-Type", "application/x-www-form-urlencoded");
        },
        Service::Fortnite => {
            push_pair(&mut r, "Accept", "application/vnd.api+json");
            push_pair(&mut r, "TRN-Api-Key", token);
        },
    }
    assert(pairs_view(r@) =~= header_list(
        *service,
        token@,
        opt_view(*content),
        creds.client_id@,
        basic(creds.spotify_id@, creds.spotify_secret@),
        basic(creds.patreon_client@, creds.patreon_secret@),
    ));
    r
}

// ---------------------------------------------------------------------------
/// A GET request without a body.
pub open spec fn get_call(service: Service, url: Seq<char>) -> CallView {
    CallView { method: Method::Get, service, url, content_type: None, body: None }
}

fn get(service: Service, url: String) -> (r: HttpCall)
    ensures
        r.view_call() == get_call(service, url@),
{
    HttpCall { method: Method::Get, service, url, content_type: None, body: None }
}

/// The address of Spotify's currently-playing track.
pub open spec fn playing_url() -> Seq<char> {
    "https://api.spotify.com/v1/me/player/currently-playing"@
}

/// The request behind a chat variable whose value is fetched: `id` is the
/// channel's Twitch id, `user` the sender's (when the line carries one),
/// `vargs` the variable's arguments. `None` for variables that fetch
/// nothing here.
pub open spec fn var_call(name: Seq<char>, vargs: Seq<Seq<char>>, id: Seq<char>, user: Option<Seq<char>>) -> Option<CallView> {
    if name == "uptime"@ {
        Some(get_call(Service::Kraken, "https://api.twitch.tv/kraken/streams?channel="@ + id))
    } else if name == "followage"@ {
        match user {
            Some(u) => Some(get_call(Service::Kraken, "https://api.twitch.tv/kraken/users/"@ + u + "/follows/channels/"@ + id)),
            None => None,
        }
    } else if name == "subcount"@ {
        Some(get_call(Service::Kraken, "https://api.twitch.tv/kraken/channels/"@ + id + "/subscriptions"@))
    } else if name == "followcount"@ {
        Some(get_call(Service::Kraken, "https://api.twitch.tv/kraken/channels/"@ + id + "/follows"@))
    } else if name == "urlfetch"@ {
        if vargs.len() > 0 {
            Some(get_call(Service::Plain, vargs[0]))
        } else {
            None
        }
    } else if name == "spotify:playing-title"@ || name == "spotify:playing-album"@ || name
        == "spotify:playing-artist"@ {
        Some(get_call(Service::Spotify, playing_url()))
    } else if name == "youtube:latest-url"@ || name == "youtube:latest-title"@ {
        if vargs.len() > 0 {
            Some(get_call(Service::Plain, "https://decapi.me/youtube/latest_video?id="@ + vargs[0]))
        } else {
            None
        }
    } else {
        None
    }
}

/// The request behind the fetched variable `name`; `user` is the sender's
/// Twitch id, which a line from chat always carries (`None` for lines
/// without a sender).
pub fn var_request(name: &str, vargs: &Vec<String>, id: &str, user: &Option<String>) -> (r: Option<HttpCall>)
    ensures
        match r {
            Some(c) => var_call(name@, views(vargs@), id@, opt_view(*user)) == Some(c.view_call()),
            None => var_call(name@, views(vargs@), id@, opt_view(*user)) is None,
        },
{
    if vargs.len() > 0 {
        assert(views(vargs@)[0] == vargs@[0]@);
    }
    if same_text(name, "uptime") {
        Some(get(Service::Kraken, concat2("https://api.twitch.tv/kraken/streams?channel=", id)))
    } else if same_text(name, "followage") {
        match user {
            Some(u) => Some(get(Service::Kraken, concat4("https://api.twitch.tv/kraken/users/", u.as_str(), "/follows/channels/", id))),
            None => None,
        }
    } else if same_text(name, "subcount") {
        Some(get(Service::Kraken, concat3("https://api.twitch.tv/kraken/channels/", id, "/subscriptions")))
    } else if same_text(name, "followcount") {
        Some(get(Service::Kraken, concat3("https://api.twitch.tv/kraken/channels/", id, "/follows")))
    } else if same_text(name, "urlfetch") {
        if vargs.len() > 0 {
            Some(get(Service::Plain, vargs[0].clone()))
        } else {
            None
        }
    } else if same_text(name, "spotify:playing-title") || same_text(name, "spotify:playing-album")
        || same_text(name, "spotify:playing-artist") {
        Some(get(Service::Spotify, "https://api.spotify.com/v1/me/player/currently-playing".to_owned()))
    } else if same_text(name, "youtube:latest-url") || same_text(name, "youtube:latest-title") {
        if vargs.len() > 0 {
            Some(get(Service::Plain, concat2("https://decapi.me/youtube/latest_video?id=", vargs[0].as_str())))
        } else {
            None
        }
    } else {
        None
    }
}

/// Which part of the playing track a Spotify variable shows.
pub enum TrackPart {
    Title,
    Album,
    Artist,
}

/// What a Spotify variable shows of the playing track: its title, its
/// album or its first artist; empty when Spotify's answer could not be
/// read. `None` for a track without artists, where the variable fails.
pub open spec fn track_value(part: TrackPart, track: Option<SpotifyTrack>) -> Option<Seq<char>> {
    match track {
        None => Some(Seq::empty()),
        Some(t) => match part {
            TrackPart::Title => Some(t.name@),
            TrackPart::Album => Some(t.album@),
            TrackPart::Artist => if t.artists.len() > 0 {
                Some(t.artists@[0]@)
            } else {
                None
            },
        },
    }
}

/// A Spotify variable's value from the playing track.
pub fn spotify_playing_var(part: TrackPart, track: &Option<SpotifyTrack>) -> (r: Option<String>)
    ensures
        opt_view(r) == track_value(part, *track),
{
    match track {
        None => Some(String::new()),
        Some(t) => match part {
            TrackPart::Title => Some(t.name.clone()),
            TrackPart::Album => Some(t.album.clone()),
            TrackPart::Artist => if t.artists.len() > 0 {
                Some(t.artists[0].clone())
            } else {
                None
            },
        },
    }
}

// ---------------------------------------------------------------------------
/// The form that asks Spotify for a fresh access token.
pub fn spotify_refresh_body(token: &str) -> (r: String)
    ensures
        r@ == "grant_type=refresh_token&refresh_token="@ + token@,
{
    concat2("grant_type=refresh_token&refresh_token=", token)
}

/// Stores a channel's fresh Spotify access token.
pub fn spotify_refreshed(channel: &str, access: &str) -> (r: Vec<Action>)
    ensures
        effects(r@) == seq![Effect::Store(seq!["set"@, chan_key(channel@, "spotify:token"@), access@])],
{
    let mut r: Vec<Action> = Vec::new();
    let k = channel_key(channel, "spotify:token");
    emit(&mut r, store3("set", k.as_str(), access));
    assert(effects(r@) =~= seq![Effect::Store(seq!["set"@, chan_key(channel@, "spotify:token"@), access@])]);
    r
}

// ---------------------------------------------------------------------------
/// The command word of a Discord message: its first word, lowercased.
pub fn discord_word(content: &str) -> (r: Option<String>)
    ensures
        words(content@).len() == 0 ==> r is None,
        words(content@).len() > 0 ==> (r matches Some(w) && w@ == lowercase(words(content@)[0])),
{
    let w = split_words(content);
    if w.len() == 0 {
        None
    } else {
        assert(views(w@)[0] == w@[0]@);
        Some(w[0].to_lowercase())
    }
}

/// The request that answers a Discord message with a command's message in
/// the same Discord channel.
pub open spec fn discord_post_call(channel_id: nat, message: Seq<char>) -> CallView {
    CallView {
        method: Method::Post,
        service: Service::Discord,
        url: "https://discordapp.com/api/channels/"@ + decimal(channel_id) + "/messages"@,
        content_type: Some("application/json"@),
        body: Some("{ \"content\": \""@ + message + "\" }"@),
    }
}

/// Posts `message` in the Discord channel `channel_id`.
pub fn discord_post(channel_id: u64, message: &str) -> (r: HttpCall)
    ensures
        r.view_call() == discord_post_call(channel_id as nat, message@),
{
    let id = decimal_string(channel_id);
    HttpCall {
        method: Method::Post,
        service: Service::Discord,
        url: concat3("https://discordapp.com/api/channels/", id.as_str(), "/messages"),
        content_type: Some("application/json".to_owned()),
        body: Some(concat3("{ \"content\": \"", message, "\" }")),
    }
}

// ---------------------------------------------------------------------------
/// What `(cmd <name> <args>...)` runs: the custom command `name` with the
/// other words as its arguments when it has a message, else the built-in
/// command whose `!` name is `name`.
pub enum CmdTarget {
    Nothing,
    Custom(String, Vec<String>),
    Builtin(Native, Vec<String>),
}

/// The target of `(cmd)`; `message` is the stored message of the custom
/// command named by its first argument.
pub fn cmd_var(vargs: &Vec<String>, message: &Option<String>) -> (r: CmdTarget)
    ensures
        vargs.len() == 0 ==> r is Nothing,
        vargs.len() > 0 ==> match message {
            Some(m) => r matches CmdTarget::Custom(t, a) && t@ == m@ && views(a@) == views(vargs@).skip(1),
            None => match native_lookup("!"@, vargs@[0]@) {
                Some(e) => r matches CmdTarget::Builtin(n, a) && n == e.0 && views(a@) == views(vargs@).skip(1),
                None => r is Nothing,
            },
        },
{
    if vargs.len() == 0 {
        return CmdTarget::Nothing;
    }
    let mut rest: Vec<String> = Vec::new();
    let mut i: usize = 1;
    while i < vargs.len()
        invariant
            1 <= i <= vargs.len(),
            views(rest@) == views(vargs@).subrange(1, i as int),
        decreases vargs.len() - i,
    {
        let ghost b = rest@;
        rest.push(vargs[i].clone());
        assert(views(rest@) =~= views(b).push(vargs@[i as int]@));
        assert(views(rest@) =~= views(vargs@).subrange(1, i + 1));
        i = i + 1;
    }
    assert(views(vargs@).subrange(1, vargs.len() as int) =~= views(vargs@).skip(1));
    match message {
        Some(m) => CmdTarget::Custom(m.clone(), rest),
        None => match native_command("!", vargs[0].as_str()) {
            Some(e) => CmdTarget::Builtin(e.0, rest),
            None => CmdTarget::Nothing,
        },
    }
}

} // verus!
