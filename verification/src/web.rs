//! The dashboard's API: what each form does to the channel's record, and
//! what it answers.
use crate::action::{
    chan_key, channel_key, effects, emit, opt_view, store2, store3, store4, Action, CallView,
    Effect, HttpCall, Method, Service,
};
use crate::handler::{key_part, key_piece};
use crate::text::{concat2, concat3, lowercase, parse_u16, parse_unsigned, split, views};
use crate::types::{
    ApiData, ApiLoginReq, ApiNewBlacklistReq, ApiNoticeReq, ApiPasswordReq, ApiRsp,
    ApiSaveBlacklistReq, ApiSaveCommandReq, ApiSaveSettingReq, ApiSignupReq, ApiTrashBlacklistReq,
    ApiTrashCommandReq, ApiTrashSettingReq, Auth, AuthError, HelixUsersData, KrakenChannel,
};
use vstd::prelude::*;

verus! {

/// What `bcrypt::verify` answers for a password and a stored hash: whether
/// they match, or nothing when the stored hash is malformed.
pub uninterp spec fn bcrypt_check(password: Seq<char>, hashed: Seq<char>) -> Option<bool>;

/// `bcrypt::verify`: checks `password` against the stored hash `hashed`. Its
/// answer, or its refusal of a malformed hash, depends on the two strings
/// alone, and is named `bcrypt_check`.
#[verifier::external_body]
fn bcrypt_verify(password: &str, hashed: &str) -> (r: Option<bool>)
    ensures
        r == bcrypt_check(password@, hashed@),
{
    bcrypt::verify(password, hashed).ok()
}

/// `bcrypt::hash`: hashes `password` at `cost` with a salt drawn from the
/// system's randomness. It fails only when no randomness can be had (the
/// cost is in bcrypt's range); which hash comes back is left open, but
/// `bcrypt::verify` accepts the password against it.
#[verifier::external_body]
pub(crate) fn bcrypt_hash(password: &str, cost: u32) -> (r: Option<String>)
    requires
        4 <= cost <= 31,
    ensures
        r matches Some(h) ==> bcrypt_check(password@, h@) == Some(true),
{
    bcrypt::hash(password, cost).ok()
}

/// What a dashboard answer says: whether the request succeeded, the value
/// it produced, the form field it concerns and the error message.
pub open spec fn answers(
    r: ApiRsp,
    success: bool,
    value: Option<Seq<char>>,
    field: Option<Seq<char>>,
    message: Option<Seq<char>>,
) -> bool {
    &&& r.success == success
    &&& opt_view(r.success_value) == value
    &&& opt_view(r.field) == field
    &&& opt_view(r.error_message) == message
}

impl ApiRsp {
    /// A plain success.
    pub fn accepted() -> (r: ApiRsp)
        ensures
            answers(r, true, None, None, None),
    {
        ApiRsp { success: true, field: None, success_value: None, error_message: None }
    }

    /// A plain failure.
    pub fn refused() -> (r: ApiRsp)
        ensures
            answers(r, false, None, None, None),
    {
        ApiRsp { success: false, field: None, success_value: None, error_message: None }
    }

    /// A failure that points at a form field with a message.
    pub fn rejected(field: &str, message: &str) -> (r: ApiRsp)
        ensures
            answers(r, false, None, Some(field@), Some(message@)),
    {
        ApiRsp {
            success: false,
            field: Some(field.to_owned()),
            success_value: None,
            error_message: Some(message.to_owned()),
        }
    }
}

/// The body of the answer to a request that failed inside the server.
pub fn internal_error() -> (r: &'static str)
    ensures
        r@ == "500"@,
{
    "500"
}

/// The body of the answer to a request for a page that does not exist.
pub fn not_found() -> (r: &'static str)
    ensures
        r@ == "404"@,
{
    "404"
}

/// The answer to logging out (the session cookie is dropped beside it).
pub fn logout() -> (r: ApiRsp)
    ensures
        answers(r, true, None, None, None),
{
    ApiRsp::accepted()
}

// ---------------------------------------------------------------------------
/// How a dashboard request stands with its session: it goes on to the next
/// matching route, fails, or carries the session's claims.
pub enum SessionOutcome {
    Forward,
    Failure(AuthError),
    Success(Auth),
}

/// The session of a request. `no_forward` is whether the request carries
/// the `NoForward` header; `cookie` is `None` without a session cookie, and
/// otherwise the cookie's claims when the token decodes.
pub fn from_request(no_forward: bool, cookie: Option<Option<Auth>>) -> (r: SessionOutcome)
    ensures
        match cookie {
            Some(Some(a)) => r == SessionOutcome::Success(a),
            _ => if no_forward {
                r == SessionOutcome::Failure(AuthError::Missing)
            } else {
                r == SessionOutcome::Forward
            },
        },
{
    match cookie {
        Some(Some(a)) => SessionOutcome::Success(a),
        _ => {
            if no_forward {
                SessionOutcome::Failure(AuthError::Missing)
            } else {
                SessionOutcome::Forward
            }
        },
    }
}

/// How long a dashboard session lasts, in seconds.
pub open spec fn session_seconds() -> nat {
    2400000
}

/// The claims of a new session for `channel`, given the time since the
/// epoch when the clock has one.
pub open spec fn session_claims(channel: Seq<char>, now: Option<u64>, claims: Option<Auth>) -> bool {
    match now {
        Some(t) => claims matches Some(a) && a.channel@ == channel && a.exp == t + session_seconds(),
        None => claims is None,
    }
}

fn new_session(channel: &str, now: Option<u64>) -> (r: Option<Auth>)
    requires
        now matches Some(t) ==> t + session_seconds() <= u64::MAX,
    ensures
        session_claims(channel@, now, r),
{
    match now {
        Some(t) => Some(Auth { channel: channel.to_owned(), exp: t + 2400000 }),
        None => None,
    }
}

// ---------------------------------------------------------------------------
/// The store key of a channel's password hash.
pub fn password_key(channel: &str) -> (r: String)
    ensures
        r@ == chan_key(lowercase(channel@), "password"@),
{
    let c = channel.to_lowercase();
    channel_key(c.as_str(), "password")
}

/// The answer to a login whose stored hash (when the channel is signed
/// up) matches the password or not.
pub open spec fn login_answer(r: ApiRsp, signed_up: bool, matches: bool) -> bool {
    if !signed_up {
        answers(r, false, None, Some("channel"@), Some("channel not found"@))
    } else if matches {
        answers(r, true, None, None, None)
    } else {
        answers(r, false, None, Some("password"@), Some("invalid password"@))
    }
}

/// A login: `stored` is the channel's password hash, `None` when the
/// channel is not signed up; `now` the seconds since the epoch. The answer
/// comes with the claims of the new session when the password matches.
/// Nothing comes back when the stored hash is malformed (the server then
/// answers with an internal error).
pub fn login(data: &ApiLoginReq, stored: &Option<String>, now: Option<u64>) -> (r: Option<
    (ApiRsp, Option<Auth>),
>)
    requires
        now matches Some(t) ==> t + session_seconds() <= u64::MAX,
    ensures
        match stored {
            None => r matches Some(p) && login_answer(p.0, false, false) && p.1 is None,
            Some(h) => match bcrypt_check(data.password@, h@) {
                None => r is None,
                Some(m) => r matches Some(p) && login_answer(p.0, true, m) && if m {
                    session_claims(lowercase(data.channel@), now, p.1)
                } else {
                    p.1 is None
                },
            },
        },
{
    match stored {
        None => Some((ApiRsp::rejected("channel", "channel not found"), None)),
        Some(h) => match bcrypt_verify(data.password.as_str(), h.as_str()) {
            None => None,
            Some(true) => {
                let c = data.channel.to_lowercase();
                Some((ApiRsp::accepted(), new_session(c.as_str(), now)))
            },
            Some(false) => Some((ApiRsp::rejected("password", "invalid password"), None)),
        },
    }
}

/// What setting a password stores: its hash.
pub open spec fn password_effects(c: Seq<char>, hashed: Seq<char>) -> Seq<Effect> {
    seq![Effect::Store(seq!["set"@, chan_key(c, "password"@), hashed])]
}

/// A new password for `channel`: refused when empty, else its hash is
/// stored (one that verifies against it). Nothing comes back when no hash
/// could be made (the server then answers with an internal error).
pub fn password(channel: &str, data: &ApiPasswordReq) -> (r: Option<(ApiRsp, Vec<Action>)>)
    ensures
        data.password@.len() == 0 ==> (r matches Some(p) && answers(
            p.0,
            false,
            None,
            Some("password"@),
            Some("empty password"@),
        ) && p.1@.len() == 0),
        data.password@.len() > 0 ==> (r matches Some(p) ==> answers(p.0, true, None, None, None)
            && exists|h: Seq<char>|
            #[trigger] bcrypt_check(data.password@, h) == Some(true) && effects(p.1@)
                == password_effects(channel@, h)),
{
    if data.password.as_str().is_empty() {
        Some((ApiRsp::rejected("password", "empty password"), Vec::new()))
    } else {
        match bcrypt_hash(data.password.as_str(), 12) {
            None => None,
            Some(h) => {
                let mut r: Vec<Action> = Vec::new();
                let key = channel_key(channel, "password");
                emit(&mut r, store3("set", key.as_str(), h.as_str()));
                assert(effects(r@) =~= password_effects(channel@, h@));
                Some((ApiRsp::accepted(), r))
            },
        }
    }
}

// ---------------------------------------------------------------------------
/// What signing a channel up stores: the bot's record, the channel's
/// record with its token, password hash and Twitch identity, and the
/// announcement of the new channel.
pub open spec fn signup_effects(
    login: Seq<char>,
    id: Seq<char>,
    display: Seq<char>,
    token: Seq<char>,
    hashed: Seq<char>,
    bot: Seq<char>,
    bot_token: Seq<char>,
) -> Seq<Effect> {
    seq![
        Effect::Store(seq!["sadd"@, "bots"@, bot]),
        Effect::Store(seq!["sadd"@, "channels"@, login]),
        Effect::Store(seq!["set"@, "bot:"@ + bot + ":token"@, bot_token]),
        Effect::Store(seq!["sadd"@, "bot:"@ + bot + ":channels"@, login]),
        Effect::Store(seq!["set"@, chan_key(login, "bot"@), bot]),
        Effect::Store(seq!["set"@, chan_key(login, "token"@), token]),
        Effect::Store(seq!["set"@, chan_key(login, "password"@), hashed]),
        Effect::Store(seq!["set"@, chan_key(login, "live"@), "0"@]),
        Effect::Store(seq!["set"@, chan_key(login, "id"@), id]),
        Effect::Store(seq!["set"@, chan_key(login, "display-name"@), display]),
        Effect::Store(seq!["publish"@, "new_channels"@, login]),
    ]
}

/// The answer to a sign-up whose Twitch token could not be checked.
pub fn signup_lookup_failed() -> (r: ApiRsp)
    ensures
        answers(r, false, None, Some("token"@), Some("invalid access code"@)),
{
    ApiRsp::rejected("token", "invalid access code")
}

/// Records a new channel: `user` is the Twitch user the token belongs to,
/// `hashed` the hash of its password; `bot` and `bot_token` the bot that
/// serves new channels.
pub fn signup_record(
    user: &HelixUsersData,
    token: &str,
    hashed: &str,
    bot: &str,
    bot_token: &str,
) -> (r: Vec<Action>)
    ensures
        effects(r@) == signup_effects(
            user.login@,
            user.id@,
            user.display_name@,
            token@,
            hashed@,
            bot@,
            bot_token@,
        ),
{
    let login = user.login.as_str();
    let mut r: Vec<Action> = Vec::new();
    emit(&mut r, store3("sadd", "bots", bot));
    emit(&mut r, store3("sadd", "channels", login));
    let k = concat3("bot:", bot, ":token");
    emit(&mut r, store3("set", k.as_str(), bot_token));
    let k = concat3("bot:", bot, ":channels");
    emit(&mut r, store3("sadd", k.as_str(), login));
    let k = channel_key(login, "bot");
    emit(&mut r, store3("set", k.as_str(), bot));
    let k = channel_key(login, "token");
    emit(&mut r, store3("set", k.as_str(), token));
    let k = channel_key(login, "password");
    emit(&mut r, store3("set", k.as_str(), hashed));
    let k = channel_key(login, "live");
    emit(&mut r, store3("set", k.as_str(), "0"));
    let k = channel_key(login, "id");
    emit(&mut r, store3("set", k.as_str(), user.id.as_str()));
    let k = channel_key(login, "display-name");
    emit(&mut r, store3("set", k.as_str(), user.display_name.as_str()));
    emit(&mut r, store3("publish", "new_channels", login));
    assert(effects(r@) =~= signup_effects(
        user.login@,
        user.id@,
        user.display_name@,
        token@,
        hashed@,
        bot@,
        bot_token@,
    ));
    r
}

/// A sign-up: `user` is the Twitch user of the form's token, `taken`
/// whether that channel is signed up already. A new channel is recorded
/// with a hash of the password (one that verifies against it), and the
/// claims of its first session come back. Nothing comes back when no hash
/// could be made (the server then answers with an internal error).
pub fn signup(
    data: &ApiSignupReq,
    user: &HelixUsersData,
    taken: bool,
    bot: &str,
    bot_token: &str,
    now: Option<u64>,
) -> (r: Option<(ApiRsp, Vec<Action>, Option<Auth>)>)
    requires
        now matches Some(t) ==> t + session_seconds() <= u64::MAX,
    ensures
        taken ==> (r matches Some(p) && answers(
            p.0,
            false,
            None,
            Some("token"@),
            Some("channel is already signed up"@),
        ) && p.1@.len() == 0 && p.2 is None),
        !taken ==> (r matches Some(p) ==> answers(p.0, true, None, None, None) && session_claims(
            user.login@,
            now,
            p.2,
        ) && exists|h: Seq<char>|
            #[trigger] bcrypt_check(data.password@, h) == Some(true) && effects(p.1@)
                == signup_effects(
                user.login@,
                user.id@,
                user.display_name@,
                data.token@,
                h,
                bot@,
                bot_token@,
            )),
{
    if taken {
        return Some(
            (ApiRsp::rejected("token", "channel is already signed up"), Vec::new(), None),
        );
    }
    match bcrypt_hash(data.password.as_str(), 12) {
        None => None,
        Some(h) => {
            let acts = signup_record(user, data.token.as_str(), h.as_str(), bot, bot_token);
            let claims = new_session(user.login.as_str(), now);
            Some((ApiRsp::accepted(), acts, claims))
        },
    }
}

// ---------------------------------------------------------------------------
/// The request that sets a channel's title.
pub open spec fn title_call(id: Seq<char>, title: Seq<char>) -> CallView {
    CallView {
        method: Method::Put,
        service: Service::Kraken,
        url: "https://api.twitch.tv/kraken/channels/"@ + id,
        content_type: Some("application/x-www-form-urlencoded"@),
        body: Some("channel[status]="@ + title),
    }
}

/// The request that sets the title of the channel with Twitch id `id`.
pub fn title(id: &str, status: &str) -> (r: HttpCall)
    ensures
        r.view_call() == title_call(id@, status@),
{
    HttpCall {
        method: Method::Put,
        service: Service::Kraken,
        url: concat2("https://api.twitch.tv/kraken/channels/", id),
        content_type: Some("application/x-www-form-urlencoded".to_owned()),
        body: Some(concat2("channel[status]=", status)),
    }
}

/// The answer to a title change that Twitch took or not.
pub fn title_reply(accepted: bool) -> (r: ApiRsp)
    ensures
        accepted ==> answers(r, true, None, None, None),
        !accepted ==> answers(r, false, None, Some("title-field"@), Some("twitch api error"@)),
{
    if accepted {
        ApiRsp::accepted()
    } else {
        ApiRsp::rejected("title-field", "twitch api error")
    }
}

/// The request that looks a game up by name.
pub open spec fn game_lookup_call(game: Seq<char>) -> CallView {
    CallView {
        method: Method::Get,
        service: Service::Kraken,
        url: "https://api.twitch.tv/helix/games?name="@ + game,
        content_type: Some("application/x-www-form-urlencoded"@),
        body: None,
    }
}

/// The request that looks the game `game` up.
pub fn game(name: &str) -> (r: HttpCall)
    ensures
        r.view_call() == game_lookup_call(name@),
{
    HttpCall {
        method: Method::Get,
        service: Service::Kraken,
        url: concat2("https://api.twitch.tv/helix/games?name=", name),
        content_type: Some("application/x-www-form-urlencoded".to_owned()),
        body: None,
    }
}

/// The request that sets a channel's game.
pub open spec fn game_update_call(id: Seq<char>, name: Seq<char>) -> CallView {
    CallView {
        method: Method::Put,
        service: Service::Kraken,
        url: "https://api.twitch.tv/kraken/channels/"@ + id,
        content_type: Some("application/x-www-form-urlencoded"@),
        body: Some("channel[game]="@ + name),
    }
}

/// The request that sets the game of the channel `id` to the first game the
/// lookup found (`names`), if it found one.
pub fn game_update(id: &str, names: &Vec<String>) -> (r: Option<HttpCall>)
    ensures
        names.len() == 0 ==> r is None,
        names.len() > 0 ==> (r matches Some(c) && c.view_call() == game_update_call(id@, names@[0]@)),
{
    if names.len() == 0 {
        None
    } else {
        Some(
            HttpCall {
                method: Method::Put,
                service: Service::Kraken,
                url: concat2("https://api.twitch.tv/kraken/channels/", id),
                content_type: Some("application/x-www-form-urlencoded".to_owned()),
                body: Some(concat2("channel[game]=", names[0].as_str())),
            },
        )
    }
}

/// The answer to a game change: the game's name when it was set.
pub fn game_reply(set: &Option<String>) -> (r: ApiRsp)
    ensures
        match set {
            Some(n) => answers(r, true, Some(n@), Some("game"@), None),
            None => answers(r, false, None, Some("game"@), Some("game not found"@)),
        },
{
    match set {
        Some(n) => ApiRsp {
            success: true,
            field: Some("game".to_owned()),
            success_value: Some(n.clone()),
            error_message: None,
        },
        None => ApiRsp::rejected("game", "game not found"),
    }
}

// ---------------------------------------------------------------------------
/// What creating a command from the dashboard stores: its message, and
/// both protection flags off (the store writes `false` as `0`).
pub open spec fn new_command_effects(c: Seq<char>, cmd: Seq<char>, msg: Seq<char>) -> Seq<Effect> {
    let key = chan_key(c, "commands:"@ + lowercase(cmd));
    seq![
        Effect::Store(seq!["hset"@, key, "message"@, msg]),
        Effect::Store(seq!["hset"@, key, "cmd_protected"@, "0"@]),
        Effect::Store(seq!["hset"@, key, "arg_protected"@, "0"@]),
    ]
}

/// Creates a command; both its name and message must be given.
pub fn new_command(channel: &str, data: &ApiSaveCommandReq) -> (r: (ApiRsp, Vec<Action>))
    ensures
        r.0.success == (data.command@.len() > 0 && data.message@.len() > 0),
        answers(r.0, r.0.success, None, None, None),
        effects(r.1@) == if r.0.success {
            new_command_effects(channel@, data.command@, data.message@)
        } else {
            seq![]
        },
{
    let mut r: Vec<Action> = Vec::new();
    if !data.command.as_str().is_empty() && !data.message.as_str().is_empty() {
        let name = data.command.to_lowercase();
        let key = channel_key(channel, concat2("commands:", name.as_str()).as_str());
        emit(&mut r, store4("hset", key.as_str(), "message", data.message.as_str()));
        emit(&mut r, store4("hset", key.as_str(), "cmd_protected", "0"));
        emit(&mut r, store4("hset", key.as_str(), "arg_protected", "0"));
        assert(effects(r@) =~= new_command_effects(channel@, data.command@, data.message@));
        (ApiRsp::accepted(), r)
    } else {
        assert(effects(r@) =~= seq![]);
        (ApiRsp::refused(), r)
    }
}

/// Changes a command's message; both its name and message must be given.
pub fn save_command(channel: &str, data: &ApiSaveCommandReq) -> (r: (ApiRsp, Vec<Action>))
    ensures
        r.0.success == (data.command@.len() > 0 && data.message@.len() > 0),
        answers(r.0, r.0.success, None, None, None),
        effects(r.1@) == if r.0.success {
            seq![
                Effect::Store(
                    seq![
                        "hset"@,
                        chan_key(channel@, "commands:"@ + data.command@),
                        "message"@,
                        data.message@,
                    ],
                ),
            ]
        } else {
            seq![]
        },
{
    let mut r: Vec<Action> = Vec::new();
    if !data.command.as_str().is_empty() && !data.message.as_str().is_empty() {
        let key = channel_key(channel, concat2("commands:", data.command.as_str()).as_str());
        emit(&mut r, store4("hset", key.as_str(), "message", data.message.as_str()));
        (ApiRsp::accepted(), r)
    } else {
        assert(effects(r@) =~= seq![]);
        (ApiRsp::refused(), r)
    }
}

/// Deletes a command; its name must be given.
pub fn trash_command(channel: &str, data: &ApiTrashCommandReq) -> (r: (ApiRsp, Vec<Action>))
    ensures
        r.0.success == (data.command@.len() > 0),
        answers(r.0, r.0.success, None, None, None),
        effects(r.1@) == if r.0.success {
            seq![Effect::Store(seq!["del"@, chan_key(channel@, "commands:"@ + data.command@)])]
        } else {
            seq![]
        },
{
    let mut r: Vec<Action> = Vec::new();
    if !data.command.as_str().is_empty() {
        let key = channel_key(channel, concat2("commands:", data.command.as_str()).as_str());
        emit(&mut r, store2("del", key.as_str()));
        (ApiRsp::accepted(), r)
    } else {
        assert(effects(r@) =~= seq![]);
        (ApiRsp::refused(), r)
    }
}

/// A notice request names a command and an interval that is a whole number
/// of minutes, in seconds, that fits in 16 bits.
pub open spec fn notice_request_valid(interval: Seq<char>, command: Seq<char>) -> bool {
    &&& interval.len() > 0
    &&& command.len() > 0
    &&& parse_unsigned(interval, u16::MAX as nat) matches Some(n)
    &&& n % 60 == 0
}

/// Whether a notice request is well formed; only then is the command's
/// existence looked up.
pub fn notice_request_ok(data: &ApiNoticeReq) -> (r: bool)
    ensures
        r == notice_request_valid(data.interval@, data.command@),
{
    if data.interval.as_str().is_empty() || data.command.as_str().is_empty() {
        return false;
    }
    match parse_u16(data.interval.as_str()) {
        Some(n) => n % 60 == 0,
        None => false,
    }
}

/// What adding a notice stores: the command joins the interval's list and
/// the interval's countdown starts over.
pub open spec fn new_notice_effects(c: Seq<char>, interval: Seq<char>, command: Seq<char>) -> Seq<
    Effect,
> {
    seq![
        Effect::Store(
            seq!["rpush"@, chan_key(c, "notices:"@ + interval + ":commands"@), command],
        ),
        Effect::Store(
            seq!["set"@, chan_key(c, "notices:"@ + interval + ":countdown"@), interval],
        ),
    ]
}

/// Adds a notice; `exists` is whether the named command exists.
pub fn new_notice(channel: &str, data: &ApiNoticeReq, exists: bool) -> (r: (ApiRsp, Vec<Action>))
    ensures
        r.0.success == (notice_request_valid(data.interval@, data.command@) && exists),
        answers(r.0, r.0.success, None, None, None),
        effects(r.1@) == if r.0.success {
            new_notice_effects(channel@, data.interval@, data.command@)
        } else {
            seq![]
        },
{
    let mut r: Vec<Action> = Vec::new();
    if notice_request_ok(data) && exists {
        let i = data.interval.as_str();
        let k1 = channel_key(channel, concat3("notices:", i, ":commands").as_str());
        let k2 = channel_key(channel, concat3("notices:", i, ":countdown").as_str());
        emit(&mut r, store3("rpush", k1.as_str(), data.command.as_str()));
        emit(&mut r, store3("set", k2.as_str(), i));
        assert(effects(r@) =~= new_notice_effects(channel@, data.interval@, data.command@));
        (ApiRsp::accepted(), r)
    } else {
        assert(effects(r@) =~= seq![]);
        (ApiRsp::refused(), r)
    }
}

/// Removes a command from a notice interval; both must be given.
pub fn trash_notice(channel: &str, data: &ApiNoticeReq) -> (r: (ApiRsp, Vec<Action>))
    ensures
        r.0.success == (data.interval@.len() > 0 && data.command@.len() > 0),
        answers(r.0, r.0.success, None, None, None),
        effects(r.1@) == if r.0.success {
            seq![
                Effect::Store(
                    seq![
                        "lrem"@,
                        chan_key(channel@, "notices:"@ + data.interval@ + ":commands"@),
                        "0"@,
                        data.command@,
                    ],
                ),
            ]
        } else {
            seq![]
        },
{
    let mut r: Vec<Action> = Vec::new();
    if !data.interval.as_str().is_empty() && !data.command.as_str().is_empty() {
        let k = channel_key(
            channel,
            concat3("notices:", data.interval.as_str(), ":commands").as_str(),
        );
        emit(&mut r, store4("lrem", k.as_str(), "0", data.command.as_str()));
        (ApiRsp::accepted(), r)
    } else {
        assert(effects(r@) =~= seq![]);
        (ApiRsp::refused(), r)
    }
}

/// Sets a channel setting (its name lowercased); both must be given.
pub fn save_setting(channel: &str, data: &ApiSaveSettingReq) -> (r: (ApiRsp, Vec<Action>))
    ensures
        r.0.success == (data.name@.len() > 0 && data.value@.len() > 0),
        answers(r.0, r.0.success, None, None, None),
        effects(r.1@) == if r.0.success {
            seq![
                Effect::Store(
                    seq![
                        "hset"@,
                        chan_key(channel@, "settings"@),
                        lowercase(data.name@),
                        data.value@,
                    ],
                ),
            ]
        } else {
            seq![]
        },
{
    let mut r: Vec<Action> = Vec::new();
    if !data.name.as_str().is_empty() && !data.value.as_str().is_empty() {
        let k = channel_key(channel, "settings");
        let n = data.name.to_lowercase();
        emit(&mut r, store4("hset", k.as_str(), n.as_str(), data.value.as_str()));
        (ApiRsp::accepted(), r)
    } else {
        assert(effects(r@) =~= seq![]);
        (ApiRsp::refused(), r)
    }
}

/// Removes a channel setting; its name must be given.
pub fn trash_setting(channel: &str, data: &ApiTrashSettingReq) -> (r: (ApiRsp, Vec<Action>))
    ensures
        r.0.success == (data.name@.len() > 0),
        answers(r.0, r.0.success, None, None, None),
        effects(r.1@) == if r.0.success {
            seq![Effect::Store(seq!["hdel"@, chan_key(channel@, "settings"@), data.name@])]
        } else {
            seq![]
        },
{
    let mut r: Vec<Action> = Vec::new();
    if !data.name.as_str().is_empty() {
        let k = channel_key(channel, "settings");
        emit(&mut r, store3("hdel", k.as_str(), data.name.as_str()));
        (ApiRsp::accepted(), r)
    } else {
        assert(effects(r@) =~= seq![]);
        (ApiRsp::refused(), r)
    }
}

/// What storing a blacklist rule under `key` does.
pub open spec fn blacklist_effects(c: Seq<char>, key: Seq<char>, regex: Seq<char>, length: Seq<char>) -> Seq<Effect> {
    let k = chan_key(c, "moderation:blacklist:"@ + key);
    seq![
        Effect::Store(seq!["hset"@, k, "regex"@, regex]),
        Effect::Store(seq!["hset"@, k, "length"@, length]),
    ]
}

/// Stores the blacklist rule `key`.
pub fn blacklist_entry(channel: &str, key: &str, regex: &str, length: &str) -> (r: Vec<Action>)
    ensures
        effects(r@) == blacklist_effects(channel@, key@, regex@, length@),
{
    let mut r: Vec<Action> = Vec::new();
    let k = channel_key(channel, concat2("moderation:blacklist:", key).as_str());
    emit(&mut r, store4("hset", k.as_str(), "regex", regex));
    emit(&mut r, store4("hset", k.as_str(), "length", length));
    assert(effects(r@) =~= blacklist_effects(channel@, key@, regex@, length@));
    r
}

/// Adds a blacklist rule, keyed by a bcrypt hash of its pattern (one that
/// verifies against it); pattern and timeout length must be given.
/// Nothing comes back when no hash could be made (the server then answers
/// with an internal error).
pub fn new_blacklist(channel: &str, data: &ApiNewBlacklistReq) -> (r: Option<(ApiRsp, Vec<Action>)>)
    ensures
        !(data.regex@.len() > 0 && data.length@.len() > 0) ==> (r matches Some(p) && answers(
            p.0,
            false,
            None,
            None,
            None,
        ) && p.1@.len() == 0),
        data.regex@.len() > 0 && data.length@.len() > 0 ==> (r matches Some(p) ==> answers(
            p.0,
            true,
            None,
            None,
            None,
        ) && exists|k: Seq<char>|
            #[trigger] bcrypt_check(data.regex@, k) == Some(true) && effects(p.1@)
                == blacklist_effects(channel@, k, data.regex@, data.length@)),
{
    if data.regex.as_str().is_empty() || data.length.as_str().is_empty() {
        return Some((ApiRsp::refused(), Vec::new()));
    }
    match bcrypt_hash(data.regex.as_str(), 6) {
        None => None,
        Some(k) => {
            let r = blacklist_entry(channel, k.as_str(), data.regex.as_str(), data.length.as_str());
            Some((ApiRsp::accepted(), r))
        },
    }
}

/// Changes a blacklist rule; key, pattern and length must be given.
pub fn save_blacklist(channel: &str, data: &ApiSaveBlacklistReq) -> (r: (ApiRsp, Vec<Action>))
    ensures
        r.0.success == (data.key@.len() > 0 && data.regex@.len() > 0 && data.length@.len() > 0),
        answers(r.0, r.0.success, None, None, None),
        effects(r.1@) == if r.0.success {
            blacklist_effects(channel@, data.key@, data.regex@, data.length@)
        } else {
            seq![]
        },
{
    if !data.key.as_str().is_empty() && !data.regex.as_str().is_empty() && !data.length.as_str().is_empty() {
        let r = blacklist_entry(
            channel,
            data.key.as_str(),
            data.regex.as_str(),
            data.length.as_str(),
        );
        (ApiRsp::accepted(), r)
    } else {
        let r: Vec<Action> = Vec::new();
        assert(effects(r@) =~= seq![]);
        (ApiRsp::refused(), r)
    }
}

/// Deletes a blacklist rule; its key must be given.
pub fn trash_blacklist(channel: &str, data: &ApiTrashBlacklistReq) -> (r: (ApiRsp, Vec<Action>))
    ensures
        r.0.success == (data.key@.len() > 0),
        answers(r.0, r.0.success, None, None, None),
        effects(r.1@) == if r.0.success {
            seq![
                Effect::Store(
                    seq!["del"@, chan_key(channel@, "moderation:blacklist:"@ + data.key@)],
                ),
            ]
        } else {
            seq![]
        },
{
    let mut r: Vec<Action> = Vec::new();
    if !data.key.as_str().is_empty() {
        let k = channel_key(channel, concat2("moderation:blacklist:", data.key.as_str()).as_str());
        emit(&mut r, store2("del", k.as_str()));
        (ApiRsp::accepted(), r)
    } else {
        assert(effects(r@) =~= seq![]);
        (ApiRsp::refused(), r)
    }
}

/// Removes song request `index` of the queue `entries`: from the queue and
/// its record.
pub fn trash_song(channel: &str, entries: &Vec<String>, index: usize) -> (r: (ApiRsp, Vec<Action>))
    requires
        index < entries.len(),
    ensures
        answers(r.0, true, None, None, None),
        effects(r.1@) == seq![
            Effect::Store(seq!["lrem"@, chan_key(channel@, "songreqs"@), "0"@, entries@[index as int]@]),
            Effect::Store(seq!["del"@, chan_key(channel@, "songreqs:"@ + entries@[index as int]@)]),
        ],
{
    let mut r: Vec<Action> = Vec::new();
    let e = entries[index].as_str();
    let k1 = channel_key(channel, "songreqs");
    let k2 = channel_key(channel, concat2("songreqs:", e).as_str());
    emit(&mut r, store4("lrem", k1.as_str(), "0", e));
    emit(&mut r, store2("del", k2.as_str()));
    (ApiRsp::accepted(), r)
}


// ---------------------------------------------------------------------------
/// The model of a list of text pairs.
pub open spec fn pairs_view(s: Seq<(String, String)>) -> Seq<(Seq<char>, Seq<char>)> {
    s.map_values(|p: (String, String)| (p.0@, p.1@))
}

/// The model of a list of named word lists.
pub open spec fn lists_view(s: Seq<(String, Vec<String>)>) -> Seq<(Seq<char>, Seq<Seq<char>>)> {
    s.map_values(|p: (String, Vec<String>)| (p.0@, views(p.1@)))
}

/// The model of a list of named tables.
pub open spec fn tables_view(s: Seq<(String, Vec<(String, String)>)>) -> Seq<
    (Seq<char>, Seq<(Seq<char>, Seq<char>)>),
> {
    s.map_values(|p: (String, Vec<(String, String)>)| (p.0@, pairs_view(p.1@)))
}

/// The model of a list of song requests (source, title, nick).
pub open spec fn songs_view(s: Seq<(String, String, String)>) -> Seq<
    (Seq<char>, Seq<char>, Seq<char>),
> {
    s.map_values(|t: (String, String, String)| (t.0@, t.1@, t.2@))
}

/// The models of a list of optional strings.
pub open spec fn opt_views(s: Seq<Option<String>>) -> Seq<Option<Seq<char>>> {
    s.map_values(|o: Option<String>| opt_view(o))
}

/// The models of a list of optional word lists.
pub open spec fn opt_lists(s: Seq<Option<Vec<String>>>) -> Seq<Option<Seq<Seq<char>>>> {
    s.map_values(
        |o: Option<Vec<String>>|
            match o {
                Some(v) => Some(views(v@)),
                None => None,
            },
    )
}

/// The records among `keys` that have a value, in order, each named by
/// piece `k` of its key.
pub open spec fn named_values<V>(keys: Seq<Seq<char>>, vals: Seq<Option<V>>, k: int) -> Seq<
    (Seq<char>, V),
>
    decreases keys.len(),
{
    if keys.len() == 0 || vals.len() == 0 {
        seq![]
    } else {
        let rest = named_values(keys.drop_last(), vals.drop_last(), k);
        match vals.last() {
            Some(v) => rest.push((key_part(keys.last(), k), v)),
            None => rest,
        }
    }
}

/// Every key has more than `k` colon-separated pieces.
pub open spec fn all_have_part(keys: Seq<String>, k: int) -> bool {
    forall|i: int| 0 <= i < keys.len() ==> split(#[trigger] keys[i]@, ":"@).len() > k
}

fn copy_words(v: &Vec<String>) -> (r: Vec<String>)
    ensures
        views(r@) == views(v@),
{
    let mut r: Vec<String> = Vec::new();
    let mut i: usize = 0;
    while i < v.len()
        invariant
            i <= v.len(),
            views(r@) == views(v@).take(i as int),
        decreases v.len() - i,
    {
        let ghost b = r@;
        r.push(v[i].clone());
        assert(views(r@) =~= views(b).push(v@[i as int]@));
        assert(views(v@).take(i + 1) =~= views(v@).take(i as int).push(views(v@)[i as int]));
        i = i + 1;
    }
    assert(views(v@).take(v.len() as int) =~= views(v@));
    r
}

fn copy_pairs(v: &Vec<(String, String)>) -> (r: Vec<(String, String)>)
    ensures
        pairs_view(r@) == pairs_view(v@),
{
    let mut r: Vec<(String, String)> = Vec::new();
    let mut i: usize = 0;
    while i < v.len()
        invariant
            i <= v.len(),
            pairs_view(r@) == pairs_view(v@).take(i as int),
        decreases v.len() - i,
    {
        let ghost b = r@;
        r.push((v[i].0.clone(), v[i].1.clone()));
        assert(pairs_view(r@) =~= pairs_view(b).push((v@[i as int].0@, v@[i as int].1@)));
        assert(pairs_view(v@).take(i + 1) =~= pairs_view(v@).take(i as int).push(
            pairs_view(v@)[i as int],
        ));
        i = i + 1;
    }
    assert(pairs_view(v@).take(v.len() as int) =~= pairs_view(v@));
    r
}

/// The messages of the command records `keys` that have one, named by
/// their command.
fn command_entries(keys: &Vec<String>, messages: &Vec<Option<String>>) -> (r: Vec<(String, String)>)
    requires
        keys.len() == messages.len(),
        all_have_part(keys@, 3),
    ensures
        pairs_view(r@) == named_values(views(keys@), opt_views(messages@), 3),
{
    let ghost ks = views(keys@);
    let ghost ms = opt_views(messages@);
    let mut r: Vec<(String, String)> = Vec::new();
    let mut i: usize = 0;
    while i < keys.len()
        invariant
            i <= keys.len(),
            keys.len() == messages.len(),
            ks == views(keys@),
            ms == opt_views(messages@),
            all_have_part(keys@, 3),
            pairs_view(r@) == named_values(ks.take(i as int), ms.take(i as int), 3),
        decreases keys.len() - i,
    {
        assert(ks.take(i + 1).drop_last() =~= ks.take(i as int));
        assert(ms.take(i + 1).drop_last() =~= ms.take(i as int));
        assert(ks.take(i + 1).last() == keys@[i as int]@);
        assert(ms.take(i + 1).last() == opt_view(messages@[i as int]));
        assert(split(keys@[i as int]@, ":"@).len() > 3);
        match &messages[i] {
            Some(m) => {
                let ghost b = r@;
                let name = key_piece(keys[i].as_str(), 3);
                r.push((name, m.clone()));
                assert(pairs_view(r@) =~= pairs_view(b).push((key_part(keys@[i as int]@, 3), m@)));
            },
            None => {},
        }
        i = i + 1;
    }
    assert(ks.take(keys.len() as int) =~= ks);
    assert(ms.take(keys.len() as int) =~= ms);
    r
}

/// The command lists of the notice records `keys` that have one, named by
/// their interval.
fn notice_entries(keys: &Vec<String>, lists: &Vec<Option<Vec<String>>>) -> (r: Vec<(String, Vec<String>)>)
    requires
        keys.len() == lists.len(),
        all_have_part(keys@, 3),
    ensures
        lists_view(r@) == named_values(views(keys@), opt_lists(lists@), 3),
{
    let ghost ks = views(keys@);
    let ghost ls = opt_lists(lists@);
    let mut r: Vec<(String, Vec<String>)> = Vec::new();
    let mut i: usize = 0;
    while i < keys.len()
        invariant
            i <= keys.len(),
            keys.len() == lists.len(),
            ks == views(keys@),
            ls == opt_lists(lists@),
            all_have_part(keys@, 3),
            lists_view(r@) == named_values(ks.take(i as int), ls.take(i as int), 3),
        decreases keys.len() - i,
    {
        assert(ks.take(i + 1).drop_last() =~= ks.take(i as int));
        assert(ls.take(i + 1).drop_last() =~= ls.take(i as int));
        assert(ks.take(i + 1).last() == keys@[i as int]@);
        assert(ls.take(i + 1).last() == ls[i as int]);
        assert(split(keys@[i as int]@, ":"@).len() > 3);
        match &lists[i] {
            Some(l) => {
                let ghost b = r@;
                let name = key_piece(keys[i].as_str(), 3);
                let copy = copy_words(l);
                r.push((name, copy));
                assert(lists_view(r@) =~= lists_view(b).push((key_part(keys@[i as int]@, 3), views(l@))));
            },
            None => {},
        }
        i = i + 1;
    }
    assert(ks.take(keys.len() as int) =~= ks);
    assert(ls.take(keys.len() as int) =~= ls);
    r
}

/// The blacklist rules `keys` with their tables, named by piece 4 of the
/// key.
pub open spec fn rule_entries(keys: Seq<Seq<char>>, tables: Seq<Seq<(Seq<char>, Seq<char>)>>) -> Seq<
    (Seq<char>, Seq<(Seq<char>, Seq<char>)>),
> {
    Seq::new(keys.len(), |i: int| (key_part(keys[i], 4), tables[i]))
}

fn blacklist_entries(keys: &Vec<String>, tables: &Vec<Vec<(String, String)>>) -> (r: Vec<
    (String, Vec<(String, String)>),
>)
    requires
        keys.len() == tables.len(),
        all_have_part(keys@, 4),
    ensures
        tables_view(r@) == rule_entries(
            views(keys@),
            tables@.map_values(|t: Vec<(String, String)>| pairs_view(t@)),
        ),
{
    let ghost want = rule_entries(
        views(keys@),
        tables@.map_values(|t: Vec<(String, String)>| pairs_view(t@)),
    );
    let mut r: Vec<(String, Vec<(String, String)>)> = Vec::new();
    let mut i: usize = 0;
    while i < keys.len()
        invariant
            i <= keys.len(),
            keys.len() == tables.len(),
            all_have_part(keys@, 4),
            want == rule_entries(
                views(keys@),
                tables@.map_values(|t: Vec<(String, String)>| pairs_view(t@)),
            ),
            tables_view(r@) == want.take(i as int),
        decreases keys.len() - i,
    {
        assert(split(keys@[i as int]@, ":"@).len() > 4);
        let ghost b = r@;
        let name = key_piece(keys[i].as_str(), 4);
        let t = copy_pairs(&tables[i]);
        r.push((name, t));
        assert(tables_view(r@) =~= tables_view(b).push(want[i as int]));
        assert(want.take(i + 1) =~= want.take(i as int).push(want[i as int]));
        i = i + 1;
    }
    assert(want.take(keys.len() as int) =~= want);
    r
}

fn copy_songs(v: &Vec<(String, String, String)>) -> (r: Vec<(String, String, String)>)
    ensures
        songs_view(r@) == songs_view(v@),
{
    let mut r: Vec<(String, String, String)> = Vec::new();
    let mut i: usize = 0;
    while i < v.len()
        invariant
            i <= v.len(),
            songs_view(r@) == songs_view(v@).take(i as int),
        decreases v.len() - i,
    {
        let ghost b = r@;
        r.push((v[i].0.clone(), v[i].1.clone(), v[i].2.clone()));
        assert(songs_view(r@) =~= songs_view(b).push(songs_view(v@)[i as int]));
        assert(songs_view(v@).take(i + 1) =~= songs_view(v@).take(i as int).push(
            songs_view(v@)[i as int],
        ));
        i = i + 1;
    }
    assert(songs_view(v@).take(v.len() as int) =~= songs_view(v@));
    r
}

/// What the dashboard reads of a channel's record.
pub struct DashboardStore {
    /// The bot that serves the channel.
    pub bot: String,
    /// The Spotify and Patreon client ids of the dashboard.
    pub spotify_id: String,
    pub patreon_client: String,
    /// Whether the channel holds a Spotify and a Patreon token.
    pub spotify_connected: bool,
    pub patreon_connected: bool,
    /// The channel's settings, as stored.
    pub settings: Vec<(String, String)>,
    /// The command keys, and each command's message when it has one.
    pub command_keys: Vec<String>,
    pub command_messages: Vec<Option<String>>,
    /// The notice keys, and each one's command list when it has one.
    pub notice_keys: Vec<String>,
    pub notice_lists: Vec<Option<Vec<String>>>,
    /// The blacklist keys and each rule's fields.
    pub blacklist_keys: Vec<String>,
    pub blacklist_tables: Vec<Vec<(String, String)>>,
    /// The song request queue: source, title and requester of each.
    pub songreqs: Vec<(String, String, String)>,
}

/// The store reads the dashboard needs are consistent: one value per key,
/// and keys of the shape `channel:<c>:<kind>:<name>`.
pub open spec fn store_well_formed(s: DashboardStore) -> bool {
    &&& s.command_keys.len() == s.command_messages.len()
    &&& s.notice_keys.len() == s.notice_lists.len()
    &&& s.blacklist_keys.len() == s.blacklist_tables.len()
    &&& all_have_part(s.command_keys@, 3)
    &&& all_have_part(s.notice_keys@, 3)
    &&& all_have_part(s.blacklist_keys@, 4)
}

/// The fields the dashboard shows: the channel's title and game, and the
/// bot's name unless it is the shared bot.
pub open spec fn dashboard_fields(status: Seq<char>, game: Seq<char>, bot: Seq<char>) -> Seq<
    (Seq<char>, Seq<char>),
> {
    let base = seq![("status"@, status), ("game"@, game)];
    if bot == "babblerbot"@ {
        base
    } else {
        base.push(("username"@, bot))
    }
}

/// An integration's entry: the dashboard's client id for it and whether
/// the channel is connected.
pub open spec fn integration(id: Seq<char>, connected: bool) -> Seq<(Seq<char>, Seq<char>)> {
    seq![("client_id"@, id), ("connected"@, if connected { "true"@ } else { "false"@ })]
}

fn integration_entry(id: &str, connected: bool) -> (r: Vec<(String, String)>)
    ensures
        pairs_view(r@) == integration(id@, connected),
{
    let mut r: Vec<(String, String)> = Vec::new();
    r.push(("client_id".to_owned(), id.to_owned()));
    if connected {
        r.push(("connected".to_owned(), "true".to_owned()));
    } else {
        r.push(("connected".to_owned(), "false".to_owned()));
    }
    assert(pairs_view(r@) =~= integration(id@, connected));
    r
}

/// The dashboard's data when the channel's details could not be had: the
/// channel alone.
pub fn data_unavailable(channel: &str) -> (r: ApiData)
    ensures
        r.channel@ == channel@,
        r.fields@.len() == 0 && r.commands@.len() == 0 && r.notices@.len() == 0,
        r.settings@.len() == 0 && r.blacklist@.len() == 0 && r.songreqs@.len() == 0,
        r.integrations@.len() == 0,
{
    ApiData {
        channel: channel.to_owned(),
        fields: Vec::new(),
        commands: Vec::new(),
        notices: Vec::new(),
        settings: Vec::new(),
        blacklist: Vec::new(),
        songreqs: Vec::new(),
        integrations: Vec::new(),
    }
}

/// The dashboard's data for `channel`: `info` is what Twitch says of the
/// channel, `store` what its record holds.
pub fn data(channel: &str, info: &KrakenChannel, store: &DashboardStore) -> (r: ApiData)
    requires
        store_well_formed(*store),
    ensures
        r.channel@ == channel@,
        pairs_view(r.fields@) == dashboard_fields(info.status@, info.game@, store.bot@),
        pairs_view(r.commands@) == named_values(
            views(store.command_keys@),
            opt_views(store.command_messages@),
            3,
        ),
        lists_view(r.notices@) == named_values(
            views(store.notice_keys@),
            opt_lists(store.notice_lists@),
            3,
        ),
        pairs_view(r.settings@) == pairs_view(store.settings@),
        tables_view(r.blacklist@) == rule_entries(
            views(store.blacklist_keys@),
            store.blacklist_tables@.map_values(|t: Vec<(String, String)>| pairs_view(t@)),
        ),
        songs_view(r.songreqs@) == songs_view(store.songreqs@),
        tables_view(r.integrations@) == seq![
            ("spotify"@, integration(store.spotify_id@, store.spotify_connected)),
            ("patreon"@, integration(store.patreon_client@, store.patreon_connected)),
        ],
{
    proof {
        reveal_strlit("babblerbot");
    }
    let mut fields: Vec<(String, String)> = Vec::new();
    fields.push(("status".to_owned(), info.status.clone()));
    fields.push(("game".to_owned(), info.game.clone()));
    if !crate::text::same_text(store.bot.as_str(), "babblerbot") {
        fields.push(("username".to_owned(), store.bot.clone()));
    }
    assert(pairs_view(fields@) =~= dashboard_fields(info.status@, info.game@, store.bot@));
    let mut integrations: Vec<(String, Vec<(String, String)>)> = Vec::new();
    let sp = integration_entry(store.spotify_id.as_str(), store.spotify_connected);
    let pa = integration_entry(store.patreon_client.as_str(), store.patreon_connected);
    integrations.push(("spotify".to_owned(), sp));
    integrations.push(("patreon".to_owned(), pa));
    assert(tables_view(integrations@) =~= seq![
        ("spotify"@, integration(store.spotify_id@, store.spotify_connected)),
        ("patreon"@, integration(store.patreon_client@, store.patreon_connected)),
    ]);
    ApiData {
        channel: channel.to_owned(),
        fields,
        commands: command_entries(&store.command_keys, &store.command_messages),
        notices: notice_entries(&store.notice_keys, &store.notice_lists),
        settings: copy_pairs(&store.settings),
        blacklist: blacklist_entries(&store.blacklist_keys, &store.blacklist_tables),
        songreqs: copy_songs(&store.songreqs),
        integrations,
    }
}

/// A channel's public data: its commands' messages when the channel is
/// signed up (`found`), and nothing else; the channel's name is left out.
pub fn public_data(found: bool, keys: &Vec<String>, messages: &Vec<Option<String>>) -> (r: ApiData)
    requires
        found ==> keys.len() == messages.len() && all_have_part(keys@, 3),
    ensures
        r.channel@ == Seq::<char>::empty(),
        found ==> pairs_view(r.commands@) == named_values(views(keys@), opt_views(messages@), 3),
        !found ==> r.commands@.len() == 0,
        r.fields@.len() == 0 && r.notices@.len() == 0 && r.settings@.len() == 0,
        r.blacklist@.len() == 0 && r.songreqs@.len() == 0 && r.integrations@.len() == 0,
{
    let mut r = data_unavailable("");
    proof {
        reveal_strlit("");
    }
    if found {
        r.commands = command_entries(keys, messages);
    }
    r
}

} // verus!
