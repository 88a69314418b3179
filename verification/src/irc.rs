//! What the bot reads of a chat line: who sent it and the tags Twitch
//! attaches to it.
use crate::action::opt_view;
use crate::text::{same_text, split, split_on, views};
use vstd::prelude::*;

verus! {

/// One tag of a chat line: a key and an optional value.
pub struct Tag {
    pub key: String,
    pub value: Option<String>,
}

/// What the bot reads of a chat line: its prefix (`nick!user@host`) and its
/// tags, when it has them.
pub struct ChatMessage {
    pub prefix: Option<String>,
    pub tags: Option<Vec<Tag>>,
}

/// The model of a tag.
pub open spec fn tag_view(t: Tag) -> (Seq<char>, Option<Seq<char>>) {
    (t.key@, opt_view(t.value))
}

/// The model of a line's tags (none when it has no tags).
pub open spec fn tags_view(m: ChatMessage) -> Seq<(Seq<char>, Option<Seq<char>>)> {
    match m.tags {
        Some(v) => v@.map_values(|t: Tag| tag_view(t)),
        None => seq![],
    }
}

/// The value of the last tag with key `key` that has a value.
pub open spec fn tag_value(tags: Seq<(Seq<char>, Option<Seq<char>>)>, key: Seq<char>) -> Option<
    Seq<char>,
>
    decreases tags.len(),
{
    if tags.len() == 0 {
        None
    } else if tags.last().0 == key && tags.last().1 is Some {
        tags.last().1
    } else {
        tag_value(tags.drop_last(), key)
    }
}

/// The sender's nick: the prefix up to its first `!`, or nothing.
pub open spec fn nick_of(m: ChatMessage) -> Seq<char> {
    match m.prefix {
        Some(p) => split(p@, "!"@)[0],
        None => seq![],
    }
}

/// The nick of the line's sender.
pub fn get_nick(msg: &ChatMessage) -> (r: String)
    ensures
        r@ == nick_of(*msg),
{
    match &msg.prefix {
        Some(p) => {
            proof {
                reveal_strlit("!");
            }
            let parts = split_on(p.as_str(), "!");
            assert(views(parts@)[0] == parts@[0]@);
            parts[0].clone()
        },
        None => String::new(),
    }
}

/// The value of the last tag of the line with key `key` that has a value.
pub fn find_tag(msg: &ChatMessage, key: &str) -> (r: Option<String>)
    ensures
        opt_view(r) == tag_value(tags_view(*msg), key@),
{
    match &msg.tags {
        Some(tags) => {
            let ghost tv = tags_view(*msg);
            let mut i = tags.len();
            assert(tv.take(i as int) =~= tv);
            while i > 0
                invariant
                    i <= tags.len(),
                    tv == tags@.map_values(|t: Tag| tag_view(t)),
                    tv == tags_view(*msg),
                    tag_value(tv, key@) == tag_value(tv.take(i as int), key@),
                decreases i,
            {
                let t = &tags[i - 1];
                assert(tv.take(i as int).drop_last() =~= tv.take(i - 1));
                assert(tv.take(i as int).last() == tag_view(*t));
                if same_text(t.key.as_str(), key) {
                    match &t.value {
                        Some(v) => {
                            assert(tag_value(tv.take(i as int), key@) == Some(v@));
                            return Some(v.clone());
                        },
                        None => {},
                    }
                }
                i = i - 1;
            }
            None
        },
        None => None,
    }
}

/// The sender's user id (the `user-id` tag).
pub fn get_id(msg: &ChatMessage) -> (r: Option<String>)
    ensures
        opt_view(r) == tag_value(tags_view(*msg), "user-id"@),
{
    find_tag(msg, "user-id")
}

/// How many bits the line cheers (the `bits` tag).
pub fn get_bits(msg: &ChatMessage) -> (r: Option<String>)
    ensures
        opt_view(r) == tag_value(tags_view(*msg), "bits"@),
{
    find_tag(msg, "bits")
}

/// The name the sender shows: the `display-name` tag, else the nick; nothing
/// when there is no line.
pub open spec fn display_name(m: Option<ChatMessage>) -> Seq<char> {
    match m {
        Some(m) => match tag_value(tags_view(m), "display-name"@) {
            Some(n) => n,
            None => nick_of(m),
        },
        None => seq![],
    }
}

/// The `(user)` variable: the sender's display name.
pub fn user_var(msg: &Option<ChatMessage>) -> (r: String)
    ensures
        r@ == display_name(*msg),
{
    match msg {
        Some(m) => match find_tag(m, "display-name") {
            Some(n) => n,
            None => get_nick(m),
        },
        None => String::new(),
    }
}

// ---------------------------------------------------------------------------
/// The badge a `name/version` item names, and its version (empty when it
/// has none).
pub open spec fn badge_of(item: Seq<char>) -> (Seq<char>, Seq<char>) {
    let p = split(item, "/"@);
    if p.len() > 1 {
        (p[0], p[1])
    } else {
        (p[0], Seq::empty())
    }
}

/// The badges a `badges` tag value lists, in order.
pub open spec fn badge_list(value: Seq<char>) -> Seq<(Seq<char>, Seq<char>)> {
    split(value, ","@).map_values(|b: Seq<char>| badge_of(b))
}

/// The badges of all `badges` tags that have a value, in order.
pub open spec fn badge_entries(tags: Seq<(Seq<char>, Option<Seq<char>>)>) -> Seq<
    (Seq<char>, Seq<char>),
>
    decreases tags.len(),
{
    if tags.len() == 0 {
        seq![]
    } else {
        let t = tags.last();
        badge_entries(tags.drop_last()) + (if t.0 == "badges"@ && t.1 is Some {
            badge_list(t.1->0)
        } else {
            seq![]
        })
    }
}

/// The map a sequence of entries makes when inserted in order (a later entry
/// replaces an earlier one with the same key).
pub open spec fn entries_map(e: Seq<(Seq<char>, Seq<char>)>) -> Map<Seq<char>, Seq<char>>
    decreases e.len(),
{
    if e.len() == 0 {
        Map::empty()
    } else {
        entries_map(e.drop_last()).insert(e.last().0, e.last().1)
    }
}

/// A map from badge names to versions, kept as the list of its
/// insertions: a later entry for a name replaces an earlier one, as
/// inserting into a map does.
pub struct BadgeMap {
    entries: Vec<(String, String)>,
}

impl BadgeMap {
    /// The entries in the order they were inserted.
    pub closed spec fn entries_view(&self) -> Seq<(Seq<char>, Seq<char>)> {
        self.entries@.map_values(|e: (String, String)| (e.0@, e.1@))
    }

    /// The map.
    pub open spec fn map(&self) -> Map<Seq<char>, Seq<char>> {
        entries_map(self.entries_view())
    }

    /// The version of badge `key`, if the map has it.
    pub fn get(&self, key: &str) -> (r: Option<String>)
        ensures
            r is Some <==> self.map().contains_key(key@),
            r matches Some(v) ==> v@ == self.map()[key@],
    {
        let ghost ev = self.entries_view();
        let mut i = self.entries.len();
        assert(ev.take(i as int) =~= ev);
        while i > 0
            invariant
                i <= self.entries.len(),
                ev == self.entries_view(),
                entries_map(ev).contains_key(key@) <==> entries_map(ev.take(i as int)).contains_key(key@),
                entries_map(ev).contains_key(key@) ==> entries_map(ev)[key@] == entries_map(ev.take(i as int))[key@],
            decreases i,
        {
            assert(ev.take(i as int).drop_last() =~= ev.take(i - 1));
            assert(ev.take(i as int).last() == (self.entries@[i - 1].0@, self.entries@[i - 1].1@));
            if same_text(self.entries[i - 1].0.as_str(), key) {
                return Some(self.entries[i - 1].1.clone());
            }
            i = i - 1;
        }
        assert(ev.take(0) =~= Seq::<(Seq<char>, Seq<char>)>::empty());
        None
    }

    /// The map has badge `key`.
    pub fn contains(&self, key: &str) -> (r: bool)
        ensures
            r == self.map().contains_key(key@),
    {
        self.get(key).is_some()
    }
}

/// Whether a line's sender moderates the channel, as its badges tell: the
/// broadcaster and the moderators do. Their lines escape moderation and may
/// run every command.
pub fn is_moderator(badges: &BadgeMap) -> (r: bool)
    ensures
        r == (badges.map().contains_key("broadcaster"@) || badges.map().contains_key("moderator"@)),
{
    badges.contains("broadcaster") || badges.contains("moderator")
}

/// The entries of a `badges` value, appended to `out`.
fn push_badges(value: &str, out: &mut Vec<(String, String)>)
    ensures
        final(out)@.map_values(|e: (String, String)| (e.0@, e.1@)) == old(out)@.map_values(
            |e: (String, String)| (e.0@, e.1@),
        ) + badge_list(value@),
{
    proof {
        reveal_strlit(",");
        reveal_strlit("/");
    }
    let items = split_on(value, ",");
    let ghost bl = badge_list(value@);
    let ghost start = old(out)@.map_values(|e: (String, String)| (e.0@, e.1@));
    let mut j: usize = 0;
    while j < items.len()
        invariant
            j <= items.len(),
            views(items@) == split(value@, ","@),
            bl == badge_list(value@),
            out@.map_values(|e: (String, String)| (e.0@, e.1@)) == start + bl.take(j as int),
        decreases items.len() - j,
    {
        proof {
            reveal_strlit("/");
        }
        let parts = split_on(items[j].as_str(), "/");
        let e = if parts.len() > 1 {
            (parts[0].clone(), parts[1].clone())
        } else {
            (parts[0].clone(), String::new())
        };
        assert(views(parts@)[0] == parts@[0]@);
        assert(parts.len() > 1 ==> views(parts@)[1] == parts@[1]@);
        assert(bl[j as int] == badge_of(items@[j as int]@));
        let ghost before = out@;
        out.push(e);
        assert(out@.map_values(|e: (String, String)| (e.0@, e.1@)) =~= before.map_values(
            |e: (String, String)| (e.0@, e.1@),
        ).push((e.0@, e.1@)));
        assert(bl.take(j + 1) =~= bl.take(j as int).push(bl[j as int]));
        j = j + 1;
    }
    assert(bl.take(items.len() as int) =~= bl);
}

/// The badges of the line: every `badges` tag with a value, read as a
/// comma-separated list of `name/version` items.
pub fn get_badges(msg: &ChatMessage) -> (r: BadgeMap)
    ensures
        r.map() == entries_map(badge_entries(tags_view(*msg))),
{
    let mut entries: Vec<(String, String)> = Vec::new();
    let ghost tv = tags_view(*msg);
    match &msg.tags {
        Some(tags) => {
            let mut i: usize = 0;
            while i < tags.len()
                invariant
                    i <= tags.len(),
                    tv == tags@.map_values(|t: Tag| tag_view(t)),
                    entries@.map_values(|e: (String, String)| (e.0@, e.1@)) == badge_entries(
                        tv.take(i as int),
                    ),
                decreases tags.len() - i,
            {
                assert(tv.take(i + 1).drop_last() =~= tv.take(i as int));
                assert(tv.take(i + 1).last() == tag_view(tags@[i as int]));
                let t = &tags[i];
                match &t.value {
                    Some(v) => {
                        if same_text(t.key.as_str(), "badges") {
                            push_badges(v.as_str(), &mut entries);
                        } else {
                            assert(badge_entries(tv.take(i + 1)) =~= badge_entries(tv.take(i as int)));
                        }
                    },
                    None => {
                        assert(badge_entries(tv.take(i + 1)) =~= badge_entries(tv.take(i as int)));
                    },
                }
                i = i + 1;
            }
            assert(tv.take(tags.len() as int) =~= tv);
        },
        None => {
            assert(entries@.map_values(|e: (String, String)| (e.0@, e.1@)) =~= seq![]);
        },
    }
    BadgeMap { entries }
}

} // verus!
