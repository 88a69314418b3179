//! The requests the bot's periodic jobs, chat moderation and dashboard make
//! to Twitch, PUBG, Fortnite, Patreon and Spotify.
use crate::action::{CallView, HttpCall, Method, Service};
use crate::jobs::{refresh_body, refresh_form};
use crate::requests::{get_call, spotify_refresh_body};
use crate::text::{concat2, concat3, concat4, join, join_all, views};
use vstd::prelude::*;

verus! {

fn get(service: Service, url: String) -> (r: HttpCall)
    ensures
        r.view_call() == get_call(service, url@),
{
    HttpCall { method: Method::Get, service, url, content_type: None, body: None }
}

/// A POST request with a form body.
pub open spec fn form_call(service: Service, url: Seq<char>, body: Seq<char>) -> CallView {
    CallView { method: Method::Post, service, url, content_type: None, body: Some(body) }
}

fn post_form(service: Service, url: &str, body: String) -> (r: HttpCall)
    ensures
        r.view_call() == form_call(service, url@, body@),
{
    HttpCall { method: Method::Post, service, url: url.to_owned(), content_type: None, body: Some(body) }
}

/// The live check's request: the streams of the channels with Twitch ids
/// `ids`, comma-separated.
pub fn live_streams_call(ids: &Vec<String>) -> (r: HttpCall)
    ensures
        r.view_call() == get_call(
            Service::Kraken,
            "https://api.twitch.tv/kraken/streams?channel="@ + join(views(ids@), ","@),
        ),
{
    let list = join_all(ids, ",");
    get(Service::Kraken, concat2("https://api.twitch.tv/kraken/streams?channel=", list.as_str()))
}

/// The viewers present in `channel`'s chat.
pub fn chatters_call(channel: &str) -> (r: HttpCall)
    ensures
        r.view_call() == get_call(Service::Plain, "http://tmi.twitch.tv/group/user/"@ + channel@ + "/chatters"@),
{
    get(Service::Plain, concat3("http://tmi.twitch.tv/group/user/", channel, "/chatters"))
}

/// The Twitch account named `nick` (for its creation time).
pub fn account_call(nick: &str) -> (r: HttpCall)
    ensures
        r.view_call() == get_call(Service::Kraken, "https://api.twitch.tv/kraken/users?login="@ + nick@),
{
    get(Service::Kraken, concat2("https://api.twitch.tv/kraken/users?login=", nick))
}

/// The Twitch account an OAuth token belongs to (v5 API).
pub fn token_owner_call() -> (r: HttpCall)
    ensures
        r.view_call() == get_call(Service::Kraken, "https://api.twitch.tv/kraken/user"@),
{
    get(Service::Kraken, "https://api.twitch.tv/kraken/user".to_owned())
}

/// The Twitch user an access token belongs to (Helix API).
pub fn token_user_call() -> (r: HttpCall)
    ensures
        r.view_call() == get_call(Service::Helix, "https://api.twitch.tv/helix/users"@),
{
    get(Service::Helix, "https://api.twitch.tv/helix/users".to_owned())
}

/// The record of the channel with Twitch id `id`.
pub fn channel_info_call(id: &str) -> (r: HttpCall)
    ensures
        r.view_call() == get_call(Service::Kraken, "https://api.twitch.tv/kraken/channels/"@ + id@),
{
    get(Service::Kraken, concat2("https://api.twitch.tv/kraken/channels/", id))
}

/// The PUBG player named `name` on `platform` (for the player's id).
pub fn pubg_lookup_call(platform: &str, name: &str) -> (r: HttpCall)
    ensures
        r.view_call() == get_call(
            Service::Pubg,
            "https://api.pubg.com/shards/"@ + platform@ + "/players?filter%5BplayerNames%5D="@ + name@,
        ),
{
    get(Service::Pubg, concat4("https://api.pubg.com/shards/", platform, "/players?filter%5BplayerNames%5D=", name))
}

/// The PUBG player with id `id` on `platform`, with the player's matches.
pub fn pubg_player_call(platform: &str, id: &str) -> (r: HttpCall)
    ensures
        r.view_call() == get_call(Service::Pubg, "https://api.pubg.com/shards/"@ + platform@ + "/players/"@ + id@),
{
    get(Service::Pubg, concat4("https://api.pubg.com/shards/", platform, "/players/", id))
}

/// The PUBG match with id `id`.
pub fn pubg_match_call(id: &str) -> (r: HttpCall)
    ensures
        r.view_call() == get_call(Service::Pubg, "https://api.pubg.com/shards/pc-na/matches/"@ + id@),
{
    get(Service::Pubg, concat2("https://api.pubg.com/shards/pc-na/matches/", id))
}

/// The Fortnite profile of `name` on `platform`, with its recent matches.
pub fn fortnite_profile_call(platform: &str, name: &str) -> (r: HttpCall)
    ensures
        r.view_call() == get_call(
            Service::Fortnite,
            "https://api.fortnitetracker.com/v1/profile/"@ + platform@ + "/"@ + name@,
        ),
{
    get(Service::Fortnite, concat4("https://api.fortnitetracker.com/v1/profile/", platform, "/", name))
}

/// The Patreon user a token belongs to, with the campaigns of its
/// memberships.
pub fn patreon_identity_call() -> (r: HttpCall)
    ensures
        r.view_call() == get_call(
            Service::Patreon,
            "https://www.patreon.com/api/oauth2/v2/identity?include=memberships.campaign"@,
        ),
{
    get(Service::Patreon, "https://www.patreon.com/api/oauth2/v2/identity?include=memberships.campaign".to_owned())
}

/// Fresh Patreon tokens for the refresh token `token`.
pub fn patreon_refresh_call(token: &str) -> (r: HttpCall)
    ensures
        r.view_call() == form_call(
            Service::PatreonRefresh,
            "https://www.patreon.com/api/oauth2/token"@,
            "grant_type=refresh_token&refresh_token="@ + token@,
        ),
{
    post_form(
        Service::PatreonRefresh,
        "https://www.patreon.com/api/oauth2/token",
        concat2("grant_type=refresh_token&refresh_token=", token),
    )
}

/// A fresh Spotify access token for the refresh token `token`.
pub fn spotify_refresh_call(token: &str) -> (r: HttpCall)
    ensures
        r.view_call() == form_call(
            Service::SpotifyRefresh,
            "https://accounts.spotify.com/api/token"@,
            "grant_type=refresh_token&refresh_token="@ + token@,
        ),
{
    post_form(Service::SpotifyRefresh, "https://accounts.spotify.com/api/token", spotify_refresh_body(token))
}

/// Fresh Twitch tokens for the refresh token `token` of the application
/// `id` with secret `secret`.
pub fn twitch_refresh_call(token: &str, id: &str, secret: &str) -> (r: HttpCall)
    ensures
        r.view_call() == form_call(
            Service::TwitchRefresh,
            "https://id.twitch.tv/oauth2/token"@,
            refresh_form(token@, id@, secret@),
        ),
{
    post_form(Service::TwitchRefresh, "https://id.twitch.tv/oauth2/token", refresh_body(token, id, secret))
}

} // verus!
