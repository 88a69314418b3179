use babblebot::action::{HttpCall, Method, Service};
use babblebot::endpoints::{
    account_call, channel_info_call, chatters_call, fortnite_profile_call, live_streams_call, patreon_identity_call,
    patreon_refresh_call, pubg_lookup_call, pubg_match_call, pubg_player_call, spotify_refresh_call,
    token_owner_call, token_user_call, twitch_refresh_call,
};

fn is_get(c: &HttpCall, url: &str) -> bool {
    matches!(c.method, Method::Get) && c.url == url && c.body.is_none() && c.content_type.is_none()
}

fn is_form(c: &HttpCall, url: &str, body: &str) -> bool {
    matches!(c.method, Method::Post) && c.url == url && c.body.as_deref() == Some(body)
}

#[test]
fn twitch_reads() {
    let ids = vec!["1".to_string(), "22".to_string(), "333".to_string()];
    let c = live_streams_call(&ids);
    assert!(is_get(&c, "https://api.twitch.tv/kraken/streams?channel=1,22,333"));
    assert!(matches!(c.service, Service::Kraken));
    let c = live_streams_call(&Vec::new());
    assert!(is_get(&c, "https://api.twitch.tv/kraken/streams?channel="));
    let c = chatters_call("chan");
    assert!(is_get(&c, "http://tmi.twitch.tv/group/user/chan/chatters"));
    assert!(matches!(c.service, Service::Plain));
    let c = account_call("bob");
    assert!(is_get(&c, "https://api.twitch.tv/kraken/users?login=bob"));
    assert!(matches!(c.service, Service::Kraken));
    let c = token_owner_call();
    assert!(is_get(&c, "https://api.twitch.tv/kraken/user"));
    let c = token_user_call();
    assert!(is_get(&c, "https://api.twitch.tv/helix/users"));
    assert!(matches!(c.service, Service::Helix));
    let c = channel_info_call("42");
    assert!(is_get(&c, "https://api.twitch.tv/kraken/channels/42"));
}

#[test]
fn game_statistics_reads() {
    let c = pubg_lookup_call("steam", "Bob");
    assert!(is_get(&c, "https://api.pubg.com/shards/steam/players?filter%5BplayerNames%5D=Bob"));
    assert!(matches!(c.service, Service::Pubg));
    let c = pubg_player_call("xbox", "account.1");
    assert!(is_get(&c, "https://api.pubg.com/shards/xbox/players/account.1"));
    let c = pubg_match_call("m1");
    assert!(is_get(&c, "https://api.pubg.com/shards/pc-na/matches/m1"));
    let c = fortnite_profile_call("pc", "Bob");
    assert!(is_get(&c, "https://api.fortnitetracker.com/v1/profile/pc/Bob"));
    assert!(matches!(c.service, Service::Fortnite));
}

#[test]
fn token_refresh_requests() {
    let c = patreon_identity_call();
    assert!(is_get(&c, "https://www.patreon.com/api/oauth2/v2/identity?include=memberships.campaign"));
    assert!(matches!(c.service, Service::Patreon));
    let c = patreon_refresh_call("r1");
    assert!(is_form(&c, "https://www.patreon.com/api/oauth2/token", "grant_type=refresh_token&refresh_token=r1"));
    assert!(matches!(c.service, Service::PatreonRefresh));
    let c = spotify_refresh_call("r2");
    assert!(is_form(&c, "https://accounts.spotify.com/api/token", "grant_type=refresh_token&refresh_token=r2"));
    assert!(matches!(c.service, Service::SpotifyRefresh));
    let c = twitch_refresh_call("r3", "id", "sec");
    assert!(is_form(
        &c,
        "https://id.twitch.tv/oauth2/token",
        "grant_type=refresh_token&refresh_token=r3&client_id=id&client_secret=sec"
    ));
    assert!(matches!(c.service, Service::TwitchRefresh));
}
