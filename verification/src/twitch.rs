//! Chat commands that talk to Twitch or YouTube, and the dashboard's
//! sign-in callbacks.
use crate::action::{chan_key, channel_key, effects, emit, opt_view, say, store2, store3, store4, Action, CallView, Effect, HttpCall, Method, Service};
use crate::pattern::{regex_compiles, regex_is_match, Pattern};
use crate::text::{concat2, concat3, decimal, decimal_string, join, join_all, lowercase, same_text, views};
use crate::web::{bcrypt_check, bcrypt_hash, pairs_view};
use vstd::prelude::*;

verus! {

/// The address of a channel's record in Twitch's v5 API.
pub open spec fn channel_url(id: Seq<char>) -> Seq<char> {
    "https://api.twitch.tv/kraken/channels/"@ + id
}

/// The request behind `!title`: reading the title without arguments,
/// setting it to the arguments otherwise.
pub open spec fn title_cmd_call(id: Seq<char>, args: Seq<Seq<char>>) -> CallView {
    if args.len() == 0 {
        CallView { method: Method::Get, service: Service::Kraken, url: channel_url(id), content_type: None, body: None }
    } else {
        CallView {
            method: Method::Put,
            service: Service::Kraken,
            url: channel_url(id),
            content_type: Some("application/x-www-form-urlencoded"@),
            body: Some("channel[status]="@ + join(args, " "@)),
        }
    }
}

/// `!title`'s request for the channel with Twitch id `id`.
pub fn title_cmd(id: &str, args: &Vec<String>) -> (r: HttpCall)
    ensures
        r.view_call() == title_cmd_call(id@, views(args@)),
{
    let url = concat2("https://api.twitch.tv/kraken/channels/", id);
    if args.len() == 0 {
        HttpCall { method: Method::Get, service: Service::Kraken, url, content_type: None, body: None }
    } else {
        let title = join_all(args, " ");
        HttpCall {
            method: Method::Put,
            service: Service::Kraken,
            url,
            content_type: Some("application/x-www-form-urlencoded".to_owned()),
            body: Some(concat2("channel[status]=", title.as_str())),
        }
    }
}

/// What `!title` says with the channel's title from Twitch's answer.
pub fn title_cmd_reply(args_empty: bool, status: &str) -> (r: Vec<Action>)
    ensures
        effects(r@) == seq![Effect::Say(if args_empty { status@ } else { "Title is now set to: "@ + status@ })],
{
    let mut r: Vec<Action> = Vec::new();
    if args_empty {
        emit(&mut r, say(status));
    } else {
        emit(&mut r, say(concat2("Title is now set to: ", status).as_str()));
    }
    assert(effects(r@) =~= seq![Effect::Say(if args_empty { status@ } else { "Title is now set to: "@ + status@ })]);
    r
}

/// The request behind `!game`: reading the game without arguments, looking
/// the game named by the arguments up otherwise.
pub open spec fn game_cmd_call(id: Seq<char>, args: Seq<Seq<char>>) -> CallView {
    if args.len() == 0 {
        CallView { method: Method::Get, service: Service::Kraken, url: channel_url(id), content_type: None, body: None }
    } else {
        CallView {
            method: Method::Get,
            service: Service::Helix,
            url: "https://api.twitch.tv/helix/games?name="@ + join(args, " "@),
            content_type: None,
            body: None,
        }
    }
}

/// `!game`'s first request for the channel with Twitch id `id`.
pub fn game_cmd(id: &str, args: &Vec<String>) -> (r: HttpCall)
    ensures
        r.view_call() == game_cmd_call(id@, views(args@)),
{
    if args.len() == 0 {
        HttpCall {
            method: Method::Get,
            service: Service::Kraken,
            url: concat2("https://api.twitch.tv/kraken/channels/", id),
            content_type: None,
            body: None,
        }
    } else {
        let name = join_all(args, " ");
        HttpCall {
            method: Method::Get,
            service: Service::Helix,
            url: concat2("https://api.twitch.tv/helix/games?name=", name.as_str()),
            content_type: None,
            body: None,
        }
    }
}

/// What `!game` does with the games the lookup found (`names`): it sets
/// the channel's game to the first, or says none matched.
pub fn game_cmd_found(id: &str, args: &Vec<String>, names: &Vec<String>) -> (r: (Vec<Action>, Option<HttpCall>))
    ensures
        names.len() == 0 ==> effects(r.0@) == seq![Effect::Say("Unable to find a game matching: "@ + join(views(args@), " "@))] && r.1 is None,
        names.len() > 0 ==> (r.0@.len() == 0 && (r.1 matches Some(c) && c.view_call() == CallView {
            method: Method::Put,
            service: Service::Kraken,
            url: channel_url(id@),
            content_type: Some("application/x-www-form-urlencoded"@),
            body: Some("channel[game]="@ + names@[0]@),
        })),
{
    let mut r: Vec<Action> = Vec::new();
    if names.len() == 0 {
        let all = join_all(args, " ");
        emit(&mut r, say(concat2("Unable to find a game matching: ", all.as_str()).as_str()));
        assert(effects(r@) =~= seq![Effect::Say("Unable to find a game matching: "@ + join(views(args@), " "@))]);
        (r, None)
    } else {
        let call = HttpCall {
            method: Method::Put,
            service: Service::Kraken,
            url: concat2("https://api.twitch.tv/kraken/channels/", id),
            content_type: Some("application/x-www-form-urlencoded".to_owned()),
            body: Some(concat2("channel[game]=", names[0].as_str())),
        };
        (r, Some(call))
    }
}

/// What `!game` says once Twitch answered: the game read, or the game set.
pub fn game_cmd_reply(args_empty: bool, game: &str) -> (r: Vec<Action>)
    ensures
        effects(r@) == seq![Effect::Say(if args_empty { game@ } else { "Game is now set to: "@ + game@ })],
{
    let mut r: Vec<Action> = Vec::new();
    if args_empty {
        emit(&mut r, say(game));
    } else {
        emit(&mut r, say(concat2("Game is now set to: ", game).as_str()));
    }
    assert(effects(r@) =~= seq![Effect::Say(if args_empty { game@ } else { "Game is now set to: "@ + game@ })]);
    r
}

/// `!clip`'s request: a clip of the channel with Twitch id `id`.
pub fn clip_cmd(id: &str) -> (r: HttpCall)
    ensures
        r.view_call() == (CallView {
            method: Method::Post,
            service: Service::Helix,
            url: "https://api.twitch.tv/helix/clips?broadcaster_id="@ + id@,
            content_type: None,
            body: None,
        }),
{
    HttpCall {
        method: Method::Post,
        service: Service::Helix,
        url: concat2("https://api.twitch.tv/helix/clips?broadcaster_id=", id),
        content_type: None,
        body: None,
    }
}

/// What `!clip` says with the clips Twitch made (`ids`): the first one's
/// address, or nothing.
pub fn clip_reply(ids: &Vec<String>) -> (r: Vec<Action>)
    ensures
        ids.len() == 0 ==> r@.len() == 0,
        ids.len() > 0 ==> effects(r@) == seq![Effect::Say("https://clips.twitch.tv/"@ + ids@[0]@)],
{
    let mut r: Vec<Action> = Vec::new();
    if ids.len() > 0 {
        emit(&mut r, say(concat2("https://clips.twitch.tv/", ids[0].as_str()).as_str()));
        assert(effects(r@) =~= seq![Effect::Say("https://clips.twitch.tv/"@ + ids@[0]@)]);
    }
    r
}

// ---------------------------------------------------------------------------
/// The pattern a YouTube video id matches.
pub open spec fn video_id_pattern() -> Seq<char> {
    "^[\\-_a-zA-Z0-9]+$"@
}

/// What `!songreq` does first.
pub enum SongStep {
    /// Nothing: no sender or no arguments.
    Nothing,
    /// Clear the queue.
    Clear,
    /// Look the video up with this request.
    Lookup(HttpCall),
    /// Say this.
    Reply(Vec<Action>),
}

/// The lookup of a YouTube video id.
pub open spec fn oembed_call(id: Seq<char>) -> CallView {
    CallView {
        method: Method::Get,
        service: Service::Helix,
        url: "https://www.youtube.com/oembed?format=json&url=https://youtube.com/watch?v="@ + id,
        content_type: None,
        body: None,
    }
}

/// `!songreq`'s first step for a line with arguments `args` (`has_sender`
/// is whether the line has a sender): `clear` clears the queue, a video id
/// is looked up, anything else is refused. Nothing comes back when the
/// regex crate refuses the id pattern.
pub fn songreq_cmd(has_sender: bool, args: &Vec<String>) -> (r: Option<SongStep>)
    ensures
        !has_sender || args.len() == 0 ==> r matches Some(SongStep::Nothing),
        has_sender && args.len() > 0 && lowercase(args@[0]@) == "clear"@ ==> r matches Some(SongStep::Clear),
        has_sender && args.len() > 0 && lowercase(args@[0]@) != "clear"@ ==> match r {
            None => !regex_compiles(video_id_pattern()),
            Some(s) => regex_compiles(video_id_pattern()) && if regex_is_match(video_id_pattern(), false, args@[0]@) {
                s matches SongStep::Lookup(c) && c.view_call() == oembed_call(args@[0]@)
            } else {
                s matches SongStep::Reply(a) && effects(a@) == seq![Effect::Say(args@[0]@ + " is not a proper youtube id"@)]
            },
        },
{
    if !has_sender || args.len() == 0 {
        return Some(SongStep::Nothing);
    }
    let first = args[0].to_lowercase();
    if same_text(first.as_str(), "clear") {
        return Some(SongStep::Clear);
    }
    let pat = match Pattern::compile("^[\\-_a-zA-Z0-9]+$") {
        Some(p) => p,
        None => return None,
    };
    if pat.is_match(args[0].as_str()) {
        Some(SongStep::Lookup(HttpCall {
            method: Method::Get,
            service: Service::Helix,
            url: concat2("https://www.youtube.com/oembed?format=json&url=https://youtube.com/watch?v=", args[0].as_str()),
            content_type: None,
            body: None,
        }))
    } else {
        let mut r: Vec<Action> = Vec::new();
        emit(&mut r, say(concat2(args[0].as_str(), " is not a proper youtube id").as_str()));
        assert(effects(r@) =~= seq![Effect::Say(args@[0]@ + " is not a proper youtube id"@)]);
        Some(SongStep::Reply(r))
    }
}

/// What clearing the song queue does: the queue and every request's record
/// (`keys`) go, and the channel is told.
pub open spec fn songreq_clear_effects(c: Seq<char>, keys: Seq<Seq<char>>) -> Seq<Effect> {
    seq![Effect::Store(seq!["del"@, chan_key(c, "songreqs"@)])] + keys.map_values(
        |k: Seq<char>| Effect::Store(seq!["del"@, k]),
    ) + seq![Effect::Say("song requests have been cleared"@)]
}

/// Clears the song queue; `keys` are the keys of the requests' records.
pub fn songreq_clear(channel: &str, keys: &Vec<String>) -> (r: Vec<Action>)
    ensures
        effects(r@) == songreq_clear_effects(channel@, views(keys@)),
{
    let mut r: Vec<Action> = Vec::new();
    let k = channel_key(channel, "songreqs");
    emit(&mut r, store2("del", k.as_str()));
    let ghost head = effects(r@);
    let mut i: usize = 0;
    while i < keys.len()
        invariant
            i <= keys.len(),
            effects(r@) == head + views(keys@).take(i as int).map_values(
                |k: Seq<char>| Effect::Store(seq!["del"@, k]),
            ),
        decreases keys.len() - i,
    {
        emit(&mut r, store2("del", keys[i].as_str()));
        assert(views(keys@).take(i + 1) =~= views(keys@).take(i as int).push(keys@[i as int]@));
        assert(effects(r@) =~= head + views(keys@).take(i + 1).map_values(
            |k: Seq<char>| Effect::Store(seq!["del"@, k]),
        ));
        i = i + 1;
    }
    assert(views(keys@).take(keys.len() as int) =~= views(keys@));
    emit(&mut r, say("song requests have been cleared"));
    assert(effects(r@) =~= songreq_clear_effects(channel@, views(keys@)));
    r
}

/// What YouTube's answer about a video id leads to.
pub enum SongVerdict {
    /// The id names no video; say this.
    Unknown(Vec<Action>),
    /// The sender has a request queued already; say this.
    Duplicate(Vec<Action>),
    /// Queue the video.
    Add,
}

/// The verdict on a looked-up video: YouTube answered `body`; `queued` are
/// the senders of the queued requests after the first.
pub fn songreq_verdict(id: &str, nick: &str, body: &str, queued: &Vec<String>) -> (r: SongVerdict)
    ensures
        body@ == "Not Found"@ ==> (r matches SongVerdict::Unknown(a) && effects(a@) == seq![Effect::Say(id@ + " is not a proper youtube id"@)]),
        body@ != "Not Found"@ && views(queued@).contains(nick@) ==> (r matches SongVerdict::Duplicate(a) && effects(a@) == seq![Effect::Say(nick@ + " already has an entry in the queue"@)]),
        body@ != "Not Found"@ && !views(queued@).contains(nick@) ==> r is Add,
{
    let mut r: Vec<Action> = Vec::new();
    if same_text(body, "Not Found") {
        emit(&mut r, say(concat2(id, " is not a proper youtube id").as_str()));
        assert(effects(r@) =~= seq![Effect::Say(id@ + " is not a proper youtube id"@)]);
        return SongVerdict::Unknown(r);
    }
    let mut i: usize = 0;
    while i < queued.len()
        invariant
            i <= queued.len(),
            r@.len() == 0,
            body@ != "Not Found"@,
            forall|j: int| 0 <= j < i ==> views(queued@)[j] != nick@,
        decreases queued.len() - i,
    {
        assert(views(queued@)[i as int] == queued@[i as int]@);
        if same_text(queued[i].as_str(), nick) {
            emit(&mut r, say(concat2(nick, " already has an entry in the queue").as_str()));
            assert(effects(r@) =~= seq![Effect::Say(nick@ + " already has an entry in the queue"@)]);
            assert(views(queued@).contains(nick@));
            return SongVerdict::Duplicate(r);
        }
        i = i + 1;
    }
    SongVerdict::Add
}

/// What queueing a video does: its request, keyed by `key`, records the
/// video's address, title and sender, and the channel is told.
pub open spec fn song_added_effects(c: Seq<char>, key: Seq<char>, id: Seq<char>, title: Seq<char>, nick: Seq<char>) -> Seq<Effect> {
    let rec = chan_key(c, "songreqs:"@ + key);
    seq![
        Effect::Store(seq!["rpush"@, chan_key(c, "songreqs"@), key]),
        Effect::Store(seq!["hset"@, rec, "src"@, "https://youtube.com/watch?v="@ + id]),
        Effect::Store(seq!["hset"@, rec, "title"@, title]),
        Effect::Store(seq!["hset"@, rec, "nick"@, nick]),
        Effect::Say(id + " has been added to the queue"@),
    ]
}

/// Queues the video `id` with title `title` for `nick` under the record
/// key `key`.
pub fn songreq_record(channel: &str, key: &str, id: &str, title: &str, nick: &str) -> (r: Vec<Action>)
    ensures
        effects(r@) == song_added_effects(channel@, key@, id@, title@, nick@),
{
    let mut r: Vec<Action> = Vec::new();
    let list = channel_key(channel, "songreqs");
    let rec = channel_key(channel, concat2("songreqs:", key).as_str());
    emit(&mut r, store3("rpush", list.as_str(), key));
    emit(&mut r, store4("hset", rec.as_str(), "src", concat2("https://youtube.com/watch?v=", id).as_str()));
    emit(&mut r, store4("hset", rec.as_str(), "title", title));
    emit(&mut r, store4("hset", rec.as_str(), "nick", nick));
    emit(&mut r, say(concat2(id, " has been added to the queue").as_str()));
    assert(effects(r@) =~= song_added_effects(channel@, key@, id@, title@, nick@));
    r
}

/// Queues the video `id` with title `title` for `nick`, under a bcrypt
/// hash of the id (one that verifies against it), as `songreq_record`
/// records it. Whether a hash can be made, and which, is bcrypt's (its
/// salt is random); nothing comes back when none could be made (the
/// command then fails).
pub fn songreq_add(channel: &str, id: &str, title: &str, nick: &str) -> (r: Option<Vec<Action>>)
    ensures
        r matches Some(a) ==> exists|k: Seq<char>| #[trigger] bcrypt_check(id@, k) == Some(true) && effects(a@) == song_added_effects(channel@, k, id@, title@, nick@),
{
    match bcrypt_hash(id, 12) {
        Some(k) => Some(songreq_record(channel, k.as_str(), id, title, nick)),
        None => None,
    }
}

// ---------------------------------------------------------------------------
/// A dashboard page to render: its template and the values it shows.
pub struct Page {
    pub template: String,
    pub context: Vec<(String, String)>,
}

/// The dashboard page.
pub open spec fn dashboard_page(p: Page, client_id: Seq<char>) -> bool {
    p.template@ == "dashboard"@ && pairs_view(p.context@) == seq![("client_id"@, client_id)]
}

/// The sign-in page, with the values it shows.
pub open spec fn index_page(p: Page, context: Seq<(Seq<char>, Seq<char>)>) -> bool {
    p.template@ == "index"@ && pairs_view(p.context@) == context
}

fn page(template: &str, context: Vec<(String, String)>) -> (r: Page)
    ensures
        r.template@ == template@,
        r.context@ == context@,
{
    Page { template: template.to_owned(), context }
}

fn context1(k: &str, v: &str) -> (r: Vec<(String, String)>)
    ensures
        pairs_view(r@) == seq![(k@, v@)],
{
    let mut r: Vec<(String, String)> = Vec::new();
    r.push((k.to_owned(), v.to_owned()));
    assert(pairs_view(r@) =~= seq![(k@, v@)]);
    r
}

fn context3(k1: &str, v1: &str, k2: &str, v2: &str, k3: &str, v3: &str) -> (r: Vec<(String, String)>)
    ensures
        pairs_view(r@) == seq![(k1@, v1@), (k2@, v2@), (k3@, v3@)],
{
    let mut r: Vec<(String, String)> = Vec::new();
    r.push((k1.to_owned(), v1.to_owned()));
    r.push((k2.to_owned(), v2.to_owned()));
    r.push((k3.to_owned(), v3.to_owned()));
    assert(pairs_view(r@) =~= seq![(k1@, v1@), (k2@, v2@), (k3@, v3@)]);
    r
}

/// The dashboard page for the application `client_id`.
pub fn dashboard(client_id: &str) -> (r: Page)
    ensures
        dashboard_page(r, client_id@),
{
    page("dashboard", context1("client_id", client_id))
}

/// The sign-in page for the application `client_id`, with an empty code
/// and channel.
pub fn index(client_id: &str) -> (r: Page)
    ensures
        index_page(r, seq![("client_id"@, client_id@), ("code"@, Seq::empty()), ("channel"@, Seq::empty())]),
{
    proof {
        reveal_strlit("");
    }
    let r = page("index", context3("client_id", client_id, "code", "", "channel", ""));
    assert(""@ =~= Seq::<char>::empty());
    assert(pairs_view(r.context@) =~= seq![("client_id"@, client_id@), ("code"@, Seq::empty()), ("channel"@, Seq::empty())]);
    r
}

/// The page listing a channel's commands.
pub fn commands(channel: &str) -> (r: Page)
    ensures
        r.template@ == "commands"@ && pairs_view(r.context@) == seq![("channel"@, channel@)],
{
    page("commands", context1("channel", channel))
}

/// How a request to an outside service went: it failed, its answer could
/// not be read, or it gave this.
pub enum Fetch<T> {
    Failed,
    Unreadable,
    Got(T),
}

/// The request that trades a Twitch sign-in code for tokens.
pub fn twitch_token_call(client_id: &str, secret: &str, code: &str) -> (r: HttpCall)
    ensures
        r.view_call() == (CallView {
            method: Method::Post,
            service: Service::Plain,
            url: "https://id.twitch.tv/oauth2/token?client_id="@ + client_id@ + "&client_secret="@ + secret@ + "&code="@ + code@
                + "&grant_type=authorization_code&redirect_uri=https://www.babblebot.io/callbacks/twitch"@,
            content_type: None,
            body: None,
        }),
{
    let mut url = concat2("https://id.twitch.tv/oauth2/token?client_id=", client_id);
    url.append("&client_secret=");
    url.append(secret);
    url.append("&code=");
    url.append(code);
    url.append("&grant_type=authorization_code&redirect_uri=https://www.babblebot.io/callbacks/twitch");
    HttpCall { method: Method::Post, service: Service::Plain, url, content_type: None, body: None }
}

/// The Twitch sign-in callback for a visitor without a session: `token`
/// is the exchange of the code, `user` the name of the token's account.
/// The sign-in page then shows the token and the channel, or nothing when
/// a step failed.
pub fn twitch_cb(client_id: &str, token: &Fetch<String>, user: &Fetch<String>) -> (r: Page)
    ensures
        match token {
            Fetch::Unreadable => index_page(r, seq![("client_id"@, client_id@)]),
            Fetch::Failed => index_page(r, seq![("client_id"@, client_id@), ("code"@, Seq::empty()), ("channel"@, Seq::empty())]),
            Fetch::Got(t) => match user {
                Fetch::Got(n) => index_page(r, seq![("client_id"@, client_id@), ("code"@, t@), ("channel"@, n@)]),
                _ => index_page(r, seq![("client_id"@, client_id@), ("code"@, Seq::empty()), ("channel"@, Seq::empty())]),
            },
        },
{
    match token {
        Fetch::Unreadable => page("index", context1("client_id", client_id)),
        Fetch::Failed => index(client_id),
        Fetch::Got(t) => match user {
            Fetch::Got(n) => page("index", context3("client_id", client_id, "code", t.as_str(), "channel", n.as_str())),
            _ => index(client_id),
        },
    }
}

/// The Twitch sign-in callback for a signed-in channel: a token for the
/// channel's own bot account moves the channel to it (by a rename signal).
pub fn twitch_cb_auth(channel: &str, client_id: &str, token: &Fetch<String>) -> (r: (Page, Vec<Action>))
    ensures
        match token {
            Fetch::Got(t) => dashboard_page(r.0, client_id@) && effects(r.1@) == seq![
                Effect::Store(seq!["publish"@, chan_key(channel@, "signals:rename"@), t@]),
            ],
            Fetch::Unreadable => index_page(r.0, seq![("client_id"@, client_id@)]) && r.1@.len() == 0,
            Fetch::Failed => index_page(r.0, seq![("client_id"@, client_id@), ("code"@, Seq::empty()), ("channel"@, Seq::empty())]) && r.1@.len() == 0,
        },
{
    let mut r: Vec<Action> = Vec::new();
    match token {
        Fetch::Got(t) => {
            let k = channel_key(channel, "signals:rename");
            emit(&mut r, store3("publish", k.as_str(), t.as_str()));
            assert(effects(r@) =~= seq![Effect::Store(seq!["publish"@, chan_key(channel@, "signals:rename"@), t@])]);
            (dashboard(client_id), r)
        },
        Fetch::Unreadable => (page("index", context1("client_id", client_id)), r),
        Fetch::Failed => (index(client_id), r),
    }
}

/// What storing an integration's tokens does: access and refresh tokens
/// and the access token's lifetime in seconds, under `channel:<c>:<kind>:`.
pub open spec fn integration_effects(c: Seq<char>, kind: Seq<char>, access: Seq<char>, refresh: Seq<char>, expires: nat) -> Seq<Effect> {
    seq![
        Effect::Store(seq!["set"@, chan_key(c, kind + ":token"@), access]),
        Effect::Store(seq!["set"@, chan_key(c, kind + ":refresh"@), refresh]),
        Effect::Store(seq!["set"@, chan_key(c, kind + ":expires"@), decimal(expires)]),
    ]
}

/// The tokens an OAuth exchange gives.
pub struct Tokens {
    pub access_token: String,
    pub refresh_token: String,
    pub expires_in: u64,
}

/// An integration's sign-in callback (`kind` is `patreon` or `spotify`):
/// the exchanged tokens are stored for `channel`, and the dashboard shows.
pub fn integration_cb(channel: &str, kind: &str, client_id: &str, tokens: &Fetch<Tokens>) -> (r: (Page, Vec<Action>))
    ensures
        dashboard_page(r.0, client_id@),
        match tokens {
            Fetch::Got(t) => effects(r.1@) == integration_effects(channel@, kind@, t.access_token@, t.refresh_token@, t.expires_in as nat),
            _ => r.1@.len() == 0,
        },
{
    let mut r: Vec<Action> = Vec::new();
    match tokens {
        Fetch::Got(t) => {
            let k1 = channel_key(channel, concat2(kind, ":token").as_str());
            let k2 = channel_key(channel, concat2(kind, ":refresh").as_str());
            let k3 = channel_key(channel, concat2(kind, ":expires").as_str());
            emit(&mut r, store3("set", k1.as_str(), t.access_token.as_str()));
            emit(&mut r, store3("set", k2.as_str(), t.refresh_token.as_str()));
            emit(&mut r, store3("set", k3.as_str(), decimal_string(t.expires_in).as_str()));
            assert(effects(r@) =~= integration_effects(channel@, kind@, t.access_token@, t.refresh_token@, t.expires_in as nat));
        },
        _ => {},
    }
    (dashboard(client_id), r)
}

/// The Patreon sign-in callback; `state` is the channel it was started for.
pub fn patreon_cb(state: &str, client_id: &str, tokens: &Fetch<Tokens>) -> (r: (Page, Vec<Action>))
    ensures
        dashboard_page(r.0, client_id@),
        match tokens {
            Fetch::Got(t) => effects(r.1@) == integration_effects(state@, "patreon"@, t.access_token@, t.refresh_token@, t.expires_in as nat),
            _ => r.1@.len() == 0,
        },
{
    integration_cb(state, "patreon", client_id, tokens)
}

/// The Spotify sign-in callback for the signed-in `channel`.
pub fn spotify_cb(channel: &str, client_id: &str, tokens: &Fetch<Tokens>) -> (r: (Page, Vec<Action>))
    ensures
        dashboard_page(r.0, client_id@),
        match tokens {
            Fetch::Got(t) => effects(r.1@) == integration_effects(channel@, "spotify"@, t.access_token@, t.refresh_token@, t.expires_in as nat),
            _ => r.1@.len() == 0,
        },
{
    integration_cb(channel, "spotify", client_id, tokens)
}

} // verus!
