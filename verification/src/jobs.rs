//! The bot's periodic work: following which channels are live, counting
//! watch time, game statistics, supporter status, session checks.
use crate::action::{
    chan_key, channel_key, effects, emit, opt_view, store2, store3, store4, Action, CallView,
    Effect, HttpCall, Method, Service,
};
use crate::text::{
    concat2, concat3, concat4, decimal, decimal_string, parse_i64, parse_signed, parse_u64,
    parse_unsigned, same_text, signed_decimal, signed_decimal_string, views,
};
use crate::endpoints::{form_call, patreon_refresh_call};
use vstd::prelude::*;

verus! {

/// What the store and the stream listing say of one channel in the live
/// check.
pub struct LiveState {
    /// The stored live flag (`false` when none is stored).
    pub live: String,
    /// Whether the stream listing has the channel.
    pub streaming: bool,
    /// The intervals of the notice keys `channel:<c>:notices:<interval>:messages`.
    pub notice_intervals: Vec<String>,
    /// The Discord announcement, when the channel has a Discord token and
    /// channel: the target Discord channel id and the announcement body.
    pub discord: Option<(String, String)>,
    /// Whether the channel has a `stats:reset` setting.
    pub has_stats_reset: bool,
}

/// The model of the live state.
pub open spec fn live_view(s: LiveState) -> (Seq<char>, bool, Seq<Seq<char>>, Option<(Seq<char>, Seq<char>)>, bool) {
    (
        s.live@,
        s.streaming,
        views(s.notice_intervals@),
        match s.discord {
            Some(d) => Some((d.0@, d.1@)),
            None => None,
        },
        s.has_stats_reset,
    )
}

/// The request that posts a Discord announcement.
pub open spec fn discord_call(id: Seq<char>, body: Seq<char>) -> CallView {
    CallView {
        method: Method::Post,
        service: Service::Discord,
        url: "https://discordapp.com/api/channels/"@ + id + "/messages"@,
        content_type: None,
        body: Some(body),
    }
}

/// What the live check does for a channel: one that just went live is
/// marked live, its recent hosts forgotten, its notice countdowns restarted
/// and its Discord announcement posted; one that just went offline is
/// marked offline and, unless it resets statistics at a set hour, its game
/// statistics are cleared.
pub open spec fn live_effects(
    c: Seq<char>,
    live: Seq<char>,
    streaming: bool,
    intervals: Seq<Seq<char>>,
    discord: Option<(Seq<char>, Seq<char>)>,
    has_stats_reset: bool,
) -> Seq<Effect> {
    if streaming {
        if live == "false"@ {
            seq![
                Effect::Store(seq!["set"@, chan_key(c, "live"@), "true"@]),
                Effect::Store(seq!["del"@, chan_key(c, "hosts:recent"@)]),
            ] + intervals.map_values(
                |i: Seq<char>| Effect::Store(seq!["set"@, chan_key(c, "notices:"@ + i + ":countdown"@), i]),
            ) + match discord {
                Some(d) => seq![Effect::Call(discord_call(d.0, d.1))],
                None => seq![],
            }
        } else {
            seq![]
        }
    } else if live == "true"@ {
        seq![Effect::Store(seq!["set"@, chan_key(c, "live"@), "false"@])] + if !has_stats_reset {
            seq![
                Effect::Store(seq!["del"@, chan_key(c, "stats:pubg"@)]),
                Effect::Store(seq!["del"@, chan_key(c, "stats:fortnite"@)]),
            ]
        } else {
            seq![]
        }
    } else {
        seq![]
    }
}

/// Going live restarts every notice: the check's effects set the
/// countdown of each of the channel's notice intervals to that interval,
/// one store command per interval, beside marking the channel live,
/// forgetting its recent hosts and the Discord announcement.
pub proof fn lemma_going_live_restarts_every_notice(
    c: Seq<char>,
    intervals: Seq<Seq<char>>,
    discord: Option<(Seq<char>, Seq<char>)>,
    has_stats_reset: bool,
)
    ensures
        ({
            let e = live_effects(c, "false"@, true, intervals, discord, has_stats_reset);
            &&& e.len() == 2 + intervals.len() + (if discord is Some { 1int } else { 0int })
            &&& e[0] == Effect::Store(seq!["set"@, chan_key(c, "live"@), "true"@])
            &&& forall|k: int|
                0 <= k < intervals.len() ==> e.contains(
                    Effect::Store(
                        seq!["set"@, chan_key(c, "notices:"@ + #[trigger] intervals[k] + ":countdown"@), intervals[k]],
                    ),
                )
        }),
{
    let e = live_effects(c, "false"@, true, intervals, discord, has_stats_reset);
    assert forall|k: int| 0 <= k < intervals.len() implies e.contains(
        Effect::Store(seq!["set"@, chan_key(c, "notices:"@ + #[trigger] intervals[k] + ":countdown"@), intervals[k]]),
    ) by {
        assert(e[2 + k] == Effect::Store(
            seq!["set"@, chan_key(c, "notices:"@ + intervals[k] + ":countdown"@), intervals[k]],
        ));
    }
}

/// The live check for one channel.
pub fn live_update(channel: &str, st: &LiveState) -> (r: Vec<Action>)
    ensures
        ({
            let v = live_view(*st);
            effects(r@) == live_effects(channel@, v.0, v.1, v.2, v.3, v.4)
        }),
{
    let mut r: Vec<Action> = Vec::new();
    let ghost v = live_view(*st);
    if st.streaming {
        if same_text(st.live.as_str(), "false") {
            let k1 = channel_key(channel, "live");
            let k2 = channel_key(channel, "hosts:recent");
            emit(&mut r, store3("set", k1.as_str(), "true"));
            emit(&mut r, store2("del", k2.as_str()));
            let ghost head = effects(r@);
            let ghost iv = views(st.notice_intervals@);
            let ghost f = |i: Seq<char>| Effect::Store(seq!["set"@, chan_key(channel@, "notices:"@ + i + ":countdown"@), i]);
            let mut i: usize = 0;
            while i < st.notice_intervals.len()
                invariant
                    i <= st.notice_intervals.len(),
                    iv == views(st.notice_intervals@),
                    f == (|i: Seq<char>| Effect::Store(seq!["set"@, chan_key(channel@, "notices:"@ + i + ":countdown"@), i])),
                    effects(r@) == head + iv.take(i as int).map_values(f),
                decreases st.notice_intervals.len() - i,
            {
                let n = &st.notice_intervals[i];
                let key = channel_key(channel, concat3("notices:", n.as_str(), ":countdown").as_str());
                emit(&mut r, store3("set", key.as_str(), n.as_str()));
                assert(iv.take(i + 1).map_values(f) =~= iv.take(i as int).map_values(f).push(f(iv[i as int])));
                i = i + 1;
            }
            assert(iv.take(st.notice_intervals.len() as int) =~= iv);
            match &st.discord {
                Some(d) => {
                    let call = HttpCall {
                        method: Method::Post,
                        service: Service::Discord,
                        url: concat3("https://discordapp.com/api/channels/", d.0.as_str(), "/messages"),
                        content_type: None,
                        body: Some(d.1.clone()),
                    };
                    emit(&mut r, Action::Call(call));
                },
                None => {},
            }
        }
    } else if same_text(st.live.as_str(), "true") {
        let k1 = channel_key(channel, "live");
        emit(&mut r, store3("set", k1.as_str(), "false"));
        if !st.has_stats_reset {
            let k2 = channel_key(channel, "stats:pubg");
            let k3 = channel_key(channel, "stats:fortnite");
            emit(&mut r, store2("del", k2.as_str()));
            emit(&mut r, store2("del", k3.as_str()));
        }
    }
    assert(effects(r@) =~= live_effects(channel@, v.0, v.1, v.2, v.3, v.4));
    r
}

/// The Discord announcement of a channel going live: the channel's
/// message, and an embed with the display name, stream title, link, logo
/// and game.
pub open spec fn announcement(
    message: Seq<char>,
    display: Seq<char>,
    status: Seq<char>,
    channel: Seq<char>,
    logo: Seq<char>,
    game: Seq<char>,
) -> Seq<char> {
    "{ \"content\": \""@ + message + "\", \"embed\": { \"author\": { \"name\": \""@ + display
        + "\" }, \"title\": \""@ + status + "\", \"url\": \"http://twitch.tv/"@ + channel
        + "\", \"thumbnail\": { \"url\": \""@ + logo
        + "\" }, \"fields\": [{ \"name\": \"Now Playing\", \"value\": \""@ + game + "\" }] } }"@
}

/// The Discord announcement body.
pub fn announcement_body(
    message: &str,
    display: &str,
    status: &str,
    channel: &str,
    logo: &str,
    game: &str,
) -> (r: String)
    ensures
        r@ == announcement(message@, display@, status@, channel@, logo@, game@),
{
    let mut s = "{ \"content\": \"".to_owned();
    s.append(message);
    s.append("\", \"embed\": { \"author\": { \"name\": \"");
    s.append(display);
    s.append("\" }, \"title\": \"");
    s.append(status);
    s.append("\", \"url\": \"http://twitch.tv/");
    s.append(channel);
    s.append("\", \"thumbnail\": { \"url\": \"");
    s.append(logo);
    s.append("\" }, \"fields\": [{ \"name\": \"Now Playing\", \"value\": \"");
    s.append(game);
    s.append("\" }] } }");
    s
}

// ---------------------------------------------------------------------------
/// A stored watch time can be increased: a number below the largest.
pub open spec fn watch_increasable(stored: Option<Seq<char>>) -> bool {
    match stored {
        Some(v) => match parse_signed(v, i64::MIN as int, i64::MAX as int) {
            Some(n) => n < i64::MAX,
            None => false,
        },
        None => true,
    }
}

/// A viewer's watch time after another minute.
pub open spec fn watch_next(stored: Option<Seq<char>>) -> Seq<char> {
    match stored {
        Some(v) => signed_decimal(parse_signed(v, i64::MIN as int, i64::MAX as int)->0 + 1),
        None => "1"@,
    }
}

/// What the minute's watch-time count does for one viewer present in chat.
pub open spec fn watch_effects(c: Seq<char>, nick: Seq<char>, stored: Option<Seq<char>>) -> Seq<Effect> {
    seq![Effect::Store(seq!["hset"@, chan_key(c, "watchtimes"@), nick, watch_next(stored)])]
}

/// Counts a minute of watch time for `nick`, whose stored time is `stored`.
pub fn watch_tick(channel: &str, nick: &str, stored: &Option<String>) -> (r: Vec<Action>)
    requires
        watch_increasable(opt_view(*stored)),
    ensures
        effects(r@) == watch_effects(channel@, nick@, opt_view(*stored)),
{
    let mut r: Vec<Action> = Vec::new();
    let key = channel_key(channel, "watchtimes");
    let next = match stored {
        Some(v) => {
            let n = match parse_i64(v.as_str()) {
                Some(n) => n,
                None => 0,
            };
            signed_decimal_string(n + 1)
        },
        None => "1".to_owned(),
    };
    emit(&mut r, store4("hset", key.as_str(), nick, next.as_str()));
    assert(effects(r@) =~= watch_effects(channel@, nick@, opt_view(*stored)));
    r
}

/// The viewers the watch-time count visits: moderators, then viewers, then
/// VIPs.
pub fn present_nicks(chatters: &crate::types::Chatters) -> (r: Vec<String>)
    ensures
        views(r@) == views(chatters.moderators@) + views(chatters.viewers@) + views(chatters.vips@),
{
    let mut r: Vec<String> = Vec::new();
    let mut i: usize = 0;
    while i < chatters.moderators.len()
        invariant
            i <= chatters.moderators.len(),
            views(r@) == views(chatters.moderators@).take(i as int),
        decreases chatters.moderators.len() - i,
    {
        let ghost b = r@;
        r.push(chatters.moderators[i].clone());
        assert(views(r@) =~= views(b).push(chatters.moderators@[i as int]@));
        assert(views(chatters.moderators@).take(i + 1) =~= views(chatters.moderators@).take(i as int).push(views(chatters.moderators@)[i as int]));
        i = i + 1;
    }
    assert(views(chatters.moderators@).take(chatters.moderators.len() as int) =~= views(chatters.moderators@));
    let ghost m = views(r@);
    let mut j: usize = 0;
    while j < chatters.viewers.len()
        invariant
            j <= chatters.viewers.len(),
            views(r@) == m + views(chatters.viewers@).take(j as int),
        decreases chatters.viewers.len() - j,
    {
        let ghost b = r@;
        r.push(chatters.viewers[j].clone());
        assert(views(r@) =~= views(b).push(chatters.viewers@[j as int]@));
        assert(views(chatters.viewers@).take(j + 1) =~= views(chatters.viewers@).take(j as int).push(views(chatters.viewers@)[j as int]));
        j = j + 1;
    }
    assert(views(chatters.viewers@).take(chatters.viewers.len() as int) =~= views(chatters.viewers@));
    let ghost mv = views(r@);
    let mut k: usize = 0;
    while k < chatters.vips.len()
        invariant
            k <= chatters.vips.len(),
            views(r@) == mv + views(chatters.vips@).take(k as int),
        decreases chatters.vips.len() - k,
    {
        let ghost b = r@;
        r.push(chatters.vips[k].clone());
        assert(views(r@) =~= views(b).push(chatters.vips@[k as int]@));
        assert(views(chatters.vips@).take(k + 1) =~= views(chatters.vips@).take(k as int).push(views(chatters.vips@)[k as int]));
        k = k + 1;
    }
    assert(views(chatters.vips@).take(chatters.vips.len() as int) =~= views(chatters.vips@));
    r
}

// ---------------------------------------------------------------------------
/// A supporter's memberships include the bot's campaign: some membership
/// id is the id of an included item whose campaign is the bot's.
pub open spec fn supports(
    memberships: Seq<Seq<char>>,
    included: Seq<(Seq<char>, Option<Seq<char>>)>,
    campaign: Seq<char>,
) -> bool {
    exists|i: int, j: int|
        0 <= i < memberships.len() && 0 <= j < included.len() && #[trigger] memberships[i]
            == #[trigger] included[j].0 && included[j].1 == Some(campaign)
}

/// What the daily supporter check does: records whether the channel
/// supports the bot's campaign; a channel that stopped supporting it gets
/// its bot renamed back to the shared bot.
pub open spec fn patreon_effects(
    c: Seq<char>,
    subscribed: bool,
    was_subscribed: Seq<char>,
    bot_token: Seq<char>,
) -> Seq<Effect> {
    if subscribed {
        seq![Effect::Store(seq!["set"@, chan_key(c, "patreon:subscribed"@), "true"@])]
    } else {
        seq![Effect::Store(seq!["set"@, chan_key(c, "patreon:subscribed"@), "false"@])] + if was_subscribed == "true"@ {
            seq![Effect::Store(seq!["publish"@, chan_key(c, "signals:rename"@), bot_token])]
        } else {
            seq![]
        }
    }
}

/// The model of included items.
pub open spec fn included_view(v: Seq<(String, Option<String>)>) -> Seq<(Seq<char>, Option<Seq<char>>)> {
    v.map_values(|e: (String, Option<String>)| (e.0@, opt_view(e.1)))
}

/// Whether the memberships include the campaign.
pub fn supports_campaign(
    memberships: &Vec<String>,
    included: &Vec<(String, Option<String>)>,
    campaign: &str,
) -> (r: bool)
    ensures
        r == supports(views(memberships@), included_view(included@), campaign@),
{
    let ghost mv = views(memberships@);
    let ghost iv = included_view(included@);
    let mut i: usize = 0;
    while i < memberships.len()
        invariant
            i <= memberships.len(),
            mv == views(memberships@),
            iv == included_view(included@),
            forall|a: int, b: int|
                0 <= a < i && 0 <= b < iv.len() ==> !(mv[a] == iv[b].0 && iv[b].1 == Some(campaign@)),
        decreases memberships.len() - i,
    {
        let mut j: usize = 0;
        while j < included.len()
            invariant
                i < memberships.len(),
                j <= included.len(),
                mv == views(memberships@),
                iv == included_view(included@),
                forall|a: int, b: int|
                    0 <= a < i && 0 <= b < iv.len() ==> !(mv[a] == iv[b].0 && iv[b].1 == Some(campaign@)),
                forall|b: int| 0 <= b < j ==> !(mv[i as int] == iv[b].0 && iv[b].1 == Some(campaign@)),
            decreases included.len() - j,
        {
            assert(mv[i as int] == memberships@[i as int]@);
            assert(iv[j as int] == (included@[j as int].0@, opt_view(included@[j as int].1)));
            if same_text(memberships[i].as_str(), included[j].0.as_str()) {
                match &included[j].1 {
                    Some(cid) => {
                        if same_text(campaign, cid.as_str()) {
                            assert(mv[i as int] == iv[j as int].0 && iv[j as int].1 == Some(campaign@));
                            return true;
                        }
                    },
                    None => {},
                }
            }
            j = j + 1;
        }
        i = i + 1;
    }
    false
}

/// The daily supporter check for a channel.
pub fn patreon_update(channel: &str, subscribed: bool, was_subscribed: &str, bot_token: &str) -> (r: Vec<Action>)
    ensures
        effects(r@) == patreon_effects(channel@, subscribed, was_subscribed@, bot_token@),
{
    let mut r: Vec<Action> = Vec::new();
    let key = channel_key(channel, "patreon:subscribed");
    if subscribed {
        emit(&mut r, store3("set", key.as_str(), "true"));
    } else {
        emit(&mut r, store3("set", key.as_str(), "false"));
        if same_text(was_subscribed, "true") {
            let sig = channel_key(channel, "signals:rename");
            emit(&mut r, store3("publish", sig.as_str(), bot_token));
        }
    }
    assert(effects(r@) =~= patreon_effects(channel@, subscribed, was_subscribed@, bot_token@));
    r
}

/// What the supporter check does once Patreon answered who the token's
/// user is.
pub enum PatreonNext {
    /// The answer was read: decide on it.
    Decide,
    /// Ask for fresh tokens with this request, store them and ask again.
    Refresh(HttpCall),
    /// Leave the channel as it is until the next check.
    GiveUp,
}

/// The supporter check's next step: `read` is whether Patreon's answer
/// could be read, `refresh` the channel's stored refresh token, `retried`
/// whether the tokens were refreshed already in this check. An unreadable
/// answer leads to one refresh, when a refresh token is stored.
pub fn patreon_next(read: bool, refresh: &Option<String>, retried: bool) -> (r: PatreonNext)
    ensures
        read ==> r is Decide,
        !read && !retried && refresh is Some ==> (r matches PatreonNext::Refresh(c) && c.view_call() == form_call(
            Service::PatreonRefresh,
            "https://www.patreon.com/api/oauth2/token"@,
            "grant_type=refresh_token&refresh_token="@ + refresh->0@,
        )),
        !read && (retried || refresh is None) ==> r is GiveUp,
{
    if read {
        PatreonNext::Decide
    } else if retried {
        PatreonNext::GiveUp
    } else {
        match refresh {
            Some(t) => PatreonNext::Refresh(patreon_refresh_call(t.as_str())),
            None => PatreonNext::GiveUp,
        }
    }
}

// ---------------------------------------------------------------------------
/// The form that asks for fresh tokens with a refresh token.
pub open spec fn refresh_form(token: Seq<char>, id: Seq<char>, secret: Seq<char>) -> Seq<char> {
    "grant_type=refresh_token&refresh_token="@ + token + "&client_id="@ + id + "&client_secret="@ + secret
}

/// The form that asks Twitch for fresh tokens.
pub fn refresh_body(token: &str, id: &str, secret: &str) -> (r: String)
    ensures
        r@ == refresh_form(token@, id@, secret@),
{
    let mut s = concat2("grant_type=refresh_token&refresh_token=", token);
    s.append("&client_id=");
    s.append(id);
    s.append("&client_secret=");
    s.append(secret);
    s
}

/// What storing fresh tokens does: both tokens of the record `owner`
/// (`bot:<name>` or `channel:<name>`) are replaced.
pub open spec fn refreshed_effects(owner: Seq<char>, access: Seq<char>, refresh: Seq<char>) -> Seq<Effect> {
    seq![
        Effect::Store(seq!["set"@, owner + ":token"@, access]),
        Effect::Store(seq!["set"@, owner + ":refresh"@, refresh]),
    ]
}

/// Stores fresh tokens for the record `owner`.
pub fn refreshed(owner: &str, access: &str, refresh: &str) -> (r: Vec<Action>)
    ensures
        effects(r@) == refreshed_effects(owner@, access@, refresh@),
{
    let mut r: Vec<Action> = Vec::new();
    let k1 = concat2(owner, ":token");
    let k2 = concat2(owner, ":refresh");
    emit(&mut r, store3("set", k1.as_str(), access));
    emit(&mut r, store3("set", k2.as_str(), refresh));
    assert(effects(r@) =~= refreshed_effects(owner@, access@, refresh@));
    r
}

// ---------------------------------------------------------------------------
/// What the hourly statistics reset does: at the channel's reset hour the
/// statistics (already flagged for reset) are cleared; at any other hour
/// they are flagged for the next reset.
pub open spec fn stats_reset_effects(
    c: Seq<char>,
    game: Seq<char>,
    flag: Seq<char>,
    setting: Option<Seq<char>>,
    hour: nat,
) -> Seq<Effect> {
    let key = chan_key(c, "stats:"@ + game);
    match setting {
        Some(h) => match parse_unsigned(h, u32::MAX as nat) {
            Some(n) => if n == hour && flag == "true"@ {
                seq![Effect::Store(seq!["del"@, key])]
            } else if n != hour && flag == "false"@ {
                seq![Effect::Store(seq!["hset"@, key, "reset"@, "true"@])]
            } else {
                seq![]
            },
            None => seq![],
        },
        None => seq![],
    }
}

/// The statistics reset of `game` (`pubg` or `fortnite`) at hour `hour`;
/// `flag` is the stored reset flag, `setting` the channel's reset hour.
pub fn stats_reset(channel: &str, game: &str, flag: &str, setting: &Option<String>, hour: u32) -> (r: Vec<Action>)
    ensures
        effects(r@) == stats_reset_effects(channel@, game@, flag@, opt_view(*setting), hour as nat),
{
    let mut r: Vec<Action> = Vec::new();
    let key = channel_key(channel, concat2("stats:", game).as_str());
    match setting {
        Some(h) => match crate::text::parse_unsigned_str(h.as_str(), 4294967295u64) {
            Some(n) => {
                if n == hour as u64 && same_text(flag, "true") {
                    emit(&mut r, store2("del", key.as_str()));
                } else if n != hour as u64 && same_text(flag, "false") {
                    emit(&mut r, store4("hset", key.as_str(), "reset", "true"));
                }
            },
            None => {},
        },
        None => {},
    }
    assert(effects(r@) =~= stats_reset_effects(channel@, game@, flag@, opt_view(*setting), hour as nat));
    r
}

/// The matches newer than the stored cursor: those before the cursor's
/// match, or before the newest one when no cursor is stored.
pub open spec fn new_matches(ids: Seq<Seq<char>>, cursor: Seq<char>) -> Seq<Seq<char>> {
    let cur = if cursor == ""@ { ids[0] } else { cursor };
    ids.take(first_index(ids, cur, 0))
}

/// The first position from `i` on that holds `x`, or the length.
pub open spec fn first_index(ids: Seq<Seq<char>>, x: Seq<char>, i: int) -> int
    decreases ids.len() - i,
{
    if i < 0 || i >= ids.len() {
        ids.len() as int
    } else if ids[i] == x {
        i
    } else {
        first_index(ids, x, i + 1)
    }
}

proof fn lemma_first_index(ids: Seq<Seq<char>>, x: Seq<char>, i: int)
    requires
        0 <= i <= ids.len(),
    ensures
        i <= first_index(ids, x, i) <= ids.len(),
    decreases ids.len() - i,
{
    if i < ids.len() && ids[i] != x {
        lemma_first_index(ids, x, i + 1);
    }
}

/// What the statistics update does with a player's match list (newest
/// first): the newest match becomes the cursor, and the matches newer than
/// the old cursor are the ones to count.
pub open spec fn cursor_effects(c: Seq<char>, game: Seq<char>, ids: Seq<Seq<char>>) -> Seq<Effect> {
    seq![Effect::Store(seq!["hset"@, chan_key(c, "stats:"@ + game), "cursor"@, ids[0]])]
}

/// The cursor update and the matches to count for `game`; `ids` are the
/// player's matches, newest first, `cursor` the stored cursor (empty when
/// none is stored).
pub fn matches_to_count(channel: &str, game: &str, ids: &Vec<String>, cursor: &str) -> (r: (Vec<Action>, Vec<String>))
    requires
        ids.len() > 0,
    ensures
        effects(r.0@) == cursor_effects(channel@, game@, views(ids@)),
        views(r.1@) == new_matches(views(ids@), cursor@),
{
    let mut a: Vec<Action> = Vec::new();
    let key = channel_key(channel, concat2("stats:", game).as_str());
    assert(views(ids@)[0] == ids@[0]@);
    emit(&mut a, store4("hset", key.as_str(), "cursor", ids[0].as_str()));
    assert(effects(a@) =~= cursor_effects(channel@, game@, views(ids@)));
    let cur = if same_text(cursor, "") {
        ids[0].clone()
    } else {
        cursor.to_owned()
    };
    let ghost iv = views(ids@);
    proof {
        lemma_first_index(iv, cur@, 0);
    }
    let mut out: Vec<String> = Vec::new();
    let mut i: usize = 0;
    while i < ids.len()
        invariant
            i <= ids.len(),
            iv == views(ids@),
            first_index(iv, cur@, 0) == first_index(iv, cur@, i as int),
            views(out@) == iv.take(i as int),
        ensures
            i == first_index(iv, cur@, 0),
            views(out@) == iv.take(i as int),
        decreases ids.len() - i,
    {
        assert(iv[i as int] == ids@[i as int]@);
        if same_text(ids[i].as_str(), cur.as_str()) {
            break;
        }
        let ghost b = out@;
        out.push(ids[i].clone());
        assert(views(out@) =~= views(b).push(ids@[i as int]@));
        assert(iv.take(i + 1) =~= iv.take(i as int).push(iv[i as int]));
        i = i + 1;
    }
    (a, out)
}

// ---------------------------------------------------------------------------
/// A stored statistic is a number that can take `more` (or none is stored).
pub open spec fn stat_addable(stored: Option<Seq<char>>, more: nat) -> bool {
    match stored {
        Some(v) => match parse_unsigned(v, u64::MAX as nat) {
            Some(n) => n + more <= u64::MAX,
            None => false,
        },
        None => true,
    }
}

/// What counting one PUBG statistic of a match does: a first place adds a
/// win, any other statistic adds its value to the stored one.
pub open spec fn pubg_stat_effects(c: Seq<char>, stat: Seq<char>, num: nat, stored: Option<Seq<char>>) -> Seq<Effect> {
    let key = chan_key(c, "stats:pubg"@);
    if stat == "winPlace"@ {
        if num == 1 {
            let v = match stored {
                Some(s) => decimal(parse_unsigned(s, u64::MAX as nat)->0 + 1),
                None => "1"@,
            };
            seq![Effect::Store(seq!["hset"@, key, "wins"@, v])]
        } else {
            seq![]
        }
    } else {
        let v = match stored {
            Some(s) => decimal(parse_unsigned(s, u64::MAX as nat)->0 + num),
            None => decimal(num),
        };
        seq![Effect::Store(seq!["hset"@, key, stat, v])]
    }
}

/// Counts the PUBG statistic `stat` (with value `num`) of a match; `stored`
/// is the stored total (of `wins` for `winPlace`).
pub fn pubg_stat(channel: &str, stat: &str, num: u64, stored: &Option<String>) -> (r: Vec<Action>)
    requires
        stat_addable(opt_view(*stored), if stat@ == "winPlace"@ { 1 } else { num as nat }),
    ensures
        effects(r@) == pubg_stat_effects(channel@, stat@, num as nat, opt_view(*stored)),
{
    let mut r: Vec<Action> = Vec::new();
    let key = channel_key(channel, "stats:pubg");
    let old = match stored {
        Some(s) => match parse_u64(s.as_str()) {
            Some(n) => Some(n),
            None => None,
        },
        None => None,
    };
    if same_text(stat, "winPlace") {
        if num == 1 {
            let v = match old {
                Some(n) => decimal_string(n + 1),
                None => "1".to_owned(),
            };
            emit(&mut r, store4("hset", key.as_str(), "wins", v.as_str()));
        }
    } else {
        let v = match old {
            Some(n) => decimal_string(n + num),
            None => decimal_string(num),
        };
        emit(&mut r, store4("hset", key.as_str(), stat, v.as_str()));
    }
    assert(effects(r@) =~= pubg_stat_effects(channel@, stat@, num as nat, opt_view(*stored)));
    r
}

/// What counting one statistic of a Fortnite match does: the match's value
/// is added to the stored total (`wins` or `kills`).
pub open spec fn fortnite_stat_effects(c: Seq<char>, field: Seq<char>, num: nat, stored: Option<Seq<char>>) -> Seq<Effect> {
    let v = match stored {
        Some(s) => decimal(parse_unsigned(s, u64::MAX as nat)->0 + num),
        None => decimal(num),
    };
    seq![Effect::Store(seq!["hset"@, chan_key(c, "stats:fortnite"@), field, v])]
}

/// Adds `num` to the Fortnite total `field`, whose stored value is `stored`.
pub fn fortnite_stat(channel: &str, field: &str, num: u64, stored: &Option<String>) -> (r: Vec<Action>)
    requires
        stat_addable(opt_view(*stored), num as nat),
    ensures
        effects(r@) == fortnite_stat_effects(channel@, field@, num as nat, opt_view(*stored)),
{
    let mut r: Vec<Action> = Vec::new();
    let key = channel_key(channel, "stats:fortnite");
    let v = match stored {
        Some(s) => match parse_u64(s.as_str()) {
            Some(n) => decimal_string(n + num),
            None => decimal_string(num),
        },
        None => decimal_string(num),
    };
    emit(&mut r, store4("hset", key.as_str(), field, v.as_str()));
    assert(effects(r@) =~= fortnite_stat_effects(channel@, field@, num as nat, opt_view(*stored)));
    r
}

} // verus!
