use babblebot::action::{Action, Method, Service};
use babblebot::handler::Native;
use babblebot::requests::{
    cmd_var, discord_post, discord_word, request_headers, spotify_playing_var, spotify_refresh_body,
    spotify_refreshed, var_request, CmdTarget, Credentials, TrackPart,
};
use babblebot::types::SpotifyTrack;

fn words(v: &[&str]) -> Vec<String> {
    v.iter().map(|s| s.to_string()).collect()
}

fn pairs(v: &[(&str, &str)]) -> Vec<(String, String)> {
    v.iter().map(|(a, b)| (a.to_string(), b.to_string())).collect()
}

fn creds() -> Credentials {
    Credentials {
        client_id: "cid".to_string(),
        spotify_id: "user".to_string(),
        spotify_secret: "pass".to_string(),
        patreon_client: "p".to_string(),
        patreon_secret: "q".to_string(),
    }
}

#[test]
fn twitch_headers() {
    assert_eq!(
        request_headers(&Service::Kraken, "tok", &Some("application/json".to_string()), &creds()),
        pairs(&[
            ("Accept", "application/vnd.twitchtv.v5+json"),
            ("Authorization", "OAuth tok"),
            ("Client-ID", "cid"),
            ("Content-Type", "application/json"),
        ])
    );
    assert_eq!(
        request_headers(&Service::Helix, "tok", &None, &creds()),
        pairs(&[
            ("Accept", "application/vnd.twitchtv.v5+json"),
            ("Authorization", "Bearer tok"),
            ("Client-ID", "cid"),
        ])
    );
    assert!(request_headers(&Service::Plain, "tok", &None, &creds()).is_empty());
}

#[test]
fn basic_credentials_are_base64() {
    assert_eq!(
        request_headers(&Service::SpotifyRefresh, "", &None, &creds()),
        pairs(&[
            ("Content-Type", "application/x-www-form-urlencoded"),
            ("Authorization", "Basic dXNlcjpwYXNz"),
        ])
    );
    assert_eq!(
        request_headers(&Service::PatreonRefresh, "", &None, &creds())[1].1,
        "Basic cDpx"
    );
}

#[test]
fn other_service_headers() {
    assert_eq!(
        request_headers(&Service::Fortnite, "key", &None, &creds()),
        pairs(&[("Accept", "application/vnd.api+json"), ("TRN-Api-Key", "key")])
    );
    assert_eq!(
        request_headers(&Service::Discord, "bt", &None, &creds())[0],
        ("Authorization".to_string(), "Bot bt".to_string())
    );
    assert_eq!(
        request_headers(&Service::Patreon, "pt", &None, &creds()),
        pairs(&[("Authorization", "Bearer pt")])
    );
}

#[test]
fn fetched_variables_requests() {
    let c = var_request("uptime", &vec![], "42", &None).unwrap();
    assert_eq!(c.url, "https://api.twitch.tv/kraken/streams?channel=42");
    assert!(matches!(c.service, Service::Kraken));
    assert!(var_request("followage", &vec![], "42", &None).is_none());
    let c = var_request("followage", &vec![], "42", &Some("7".to_string())).unwrap();
    assert_eq!(c.url, "https://api.twitch.tv/kraken/users/7/follows/channels/42");
    let c = var_request("subcount", &vec![], "42", &None).unwrap();
    assert_eq!(c.url, "https://api.twitch.tv/kraken/channels/42/subscriptions");
    let c = var_request("followcount", &vec![], "42", &None).unwrap();
    assert_eq!(c.url, "https://api.twitch.tv/kraken/channels/42/follows");
    let c = var_request("urlfetch", &words(&["http://x"]), "42", &None).unwrap();
    assert_eq!(c.url, "http://x");
    assert!(matches!(c.service, Service::Plain));
    assert!(matches!(c.method, Method::Get));
    let c = var_request("spotify:playing-album", &vec![], "42", &None).unwrap();
    assert!(matches!(c.service, Service::Spotify));
    let c = var_request("youtube:latest-url", &words(&["chan"]), "42", &None).unwrap();
    assert_eq!(c.url, "https://decapi.me/youtube/latest_video?id=chan");
    assert!(var_request("youtube:latest-url", &vec![], "42", &None).is_none());
    assert!(var_request("args", &vec![], "42", &None).is_none());
}

#[test]
fn spotify_track_parts() {
    let t = SpotifyTrack { name: "Song".to_string(), album: "Album".to_string(), artists: words(&["A", "B"]) };
    assert_eq!(spotify_playing_var(TrackPart::Title, &Some(t)), Some("Song".to_string()));
    let t = SpotifyTrack { name: "Song".to_string(), album: "Album".to_string(), artists: words(&["A", "B"]) };
    assert_eq!(spotify_playing_var(TrackPart::Artist, &Some(t)), Some("A".to_string()));
    let t = SpotifyTrack { name: "Song".to_string(), album: "Album".to_string(), artists: vec![] };
    assert_eq!(spotify_playing_var(TrackPart::Artist, &Some(t)), None);
    assert_eq!(spotify_playing_var(TrackPart::Album, &None), Some(String::new()));
}

#[test]
fn spotify_refresh() {
    assert_eq!(spotify_refresh_body("r"), "grant_type=refresh_token&refresh_token=r");
    let a = spotify_refreshed("c", "new");
    match &a[0] {
        Action::Store(w) => assert_eq!(w, &words(&["set", "channel:c:spotify:token", "new"])),
        _ => panic!("expected a store command"),
    }
}

#[test]
fn discord_answers() {
    assert_eq!(discord_word("!HI there"), Some("!hi".to_string()));
    assert_eq!(discord_word(""), None);
    let c = discord_post(123, "hello");
    assert_eq!(c.url, "https://discordapp.com/api/channels/123/messages");
    assert_eq!(c.body.as_deref(), Some("{ \"content\": \"hello\" }"));
    assert!(matches!(c.service, Service::Discord));
    assert!(matches!(c.method, Method::Post));
}

#[test]
fn cmd_variable_targets() {
    assert!(matches!(cmd_var(&vec![], &None), CmdTarget::Nothing));
    match cmd_var(&words(&["hi", "a", "b"]), &Some("msg".to_string())) {
        CmdTarget::Custom(m, a) => {
            assert_eq!(m, "msg");
            assert_eq!(a, words(&["a", "b"]));
        },
        _ => panic!("expected a custom command"),
    }
    match cmd_var(&words(&["!echo", "x"]), &None) {
        CmdTarget::Builtin(n, a) => {
            assert!(matches!(n, Native::Echo));
            assert_eq!(a, words(&["x"]));
        },
        _ => panic!("expected a built-in command"),
    }
    assert!(matches!(cmd_var(&words(&["nothing"]), &None), CmdTarget::Nothing));
}
