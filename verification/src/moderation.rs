//! The chat filters a channel can turn on: links, blacklisted phrases, and
//! the keywords that run commands.
use crate::action::{effects, emit, emit_all, Action, Effect};
use crate::handler::{key_part, keys_have_part, key_piece, timeout, timeout_effects};
use crate::ranking::listed;
use crate::pattern::{regex_compiles, regex_compiles_folded, regex_is_match, Pattern};
use crate::text::{concat2, join, join_from, same_text, split, split_on, split_words, views, words};
use vstd::prelude::*;
use vstd::string::StringSliceAdditionalSpecFns;
use vstd::utf8::{encode_utf8, is_char_boundary};

verus! {

/// The pattern of a web address (a host under a known top-level domain,
/// with optional scheme, port and path), matched case-insensitively.
pub open spec fn url_pattern() -> Seq<char> {
    "(((ht|f)tp(s?))://)?(([a-zA-Z0-9\\-]+)\\.)+(aero|arpa|biz|cat|com|coop|edu|gov|info|jobs|mil|mobi|museum|name|net|org|pro|travel|ac|ad|ae|af|ag|ai|al|am|an|ao|ap|aq|ar|as|at|au|aw|az|ax|ba|bb|bd|be|bf|bg|bh|bi|bj|bm|bn|bo|br|bs|bt|bv|bw|by|bz|ca|cc|cd|cf|cg|ch|ci|ck|cl|cm|cn|co|cr|cs|cu|cv|cx|cy|cz|de|dj|dk|dm|do|dz|ec|ee|eg|eh|er|es|et|eu|fi|fj|fk|fm|fo|fr|ga|gb|gd|ge|gf|gg|gh|gi|gl|gm|gn|gp|gq|gr|gs|gt|gu|gw|gy|hk|hm|hn|hr|ht|hu|id|ie|il|im|in|io|iq|ir|is|it|je|jm|jo|jp|ke|kg|kh|ki|km|kn|kp|kr|kw|ky|kz|la|lb|lc|li|lk|lr|ls|lt|lu|lv|ly|ma|mc|md|mg|mh|mk|ml|mm|mn|mo|mp|mq|mr|ms|mt|mu|mv|mw|mx|my|mz|na|nc|ne|nf|ng|ni|nl|no|np|nr|nu|nz|om|pa|pe|pf|pg|ph|pk|pl|pm|pn|pr|ps|pt|pw|py|qa|re|ro|ru|rw|sa|sb|sc|sd|se|sg|sh|si|sj|sk|sl|sm|sn|so|sr|st|sv|sy|sz|tc|td|tf|tg|th|tj|tk|tl|tm|tn|to|tp|tr|tt|tv|tw|tz|ua|ug|uk|um|us|uy|uz|va|vc|ve|vg|vi|vn|vu|wf|ws|ye|yt|yu|za|zm|zw)(:[0-9]+)*(/($|[a-zA-Z0-9\\.,;\\?'\\\\\\+&%\\$#=~_\\-]+))*"@
}

/// The web-address pattern, compiled case-insensitively; `None` when the
/// regex crate refuses it.
pub fn url_regex() -> (r: Option<Pattern>)
    ensures
        r is Some <==> regex_compiles_folded(url_pattern()),
        r matches Some(p) ==> p@ == (url_pattern(), true),
{
    match Pattern::compile_folded(
        "(((ht|f)tp(s?))://)?(([a-zA-Z0-9\\-]+)\\.)+(aero|arpa|biz|cat|com|coop|edu|gov|info|jobs|mil|mobi|museum|name|net|org|pro|travel|ac|ad|ae|af|ag|ai|al|am|an|ao|ap|aq|ar|as|at|au|aw|az|ax|ba|bb|bd|be|bf|bg|bh|bi|bj|bm|bn|bo|br|bs|bt|bv|bw|by|bz|ca|cc|cd|cf|cg|ch|ci|ck|cl|cm|cn|co|cr|cs|cu|cv|cx|cy|cz|de|dj|dk|dm|do|dz|ec|ee|eg|eh|er|es|et|eu|fi|fj|fk|fm|fo|fr|ga|gb|gd|ge|gf|gg|gh|gi|gl|gm|gn|gp|gq|gr|gs|gt|gu|gw|gy|hk|hm|hn|hr|ht|hu|id|ie|il|im|in|io|iq|ir|is|it|je|jm|jo|jp|ke|kg|kh|ki|km|kn|kp|kr|kw|ky|kz|la|lb|lc|li|lk|lr|ls|lt|lu|lv|ly|ma|mc|md|mg|mh|mk|ml|mm|mn|mo|mp|mq|mr|ms|mt|mu|mv|mw|mx|my|mz|na|nc|ne|nf|ng|ni|nl|no|np|nr|nu|nz|om|pa|pe|pf|pg|ph|pk|pl|pm|pn|pr|ps|pt|pw|py|qa|re|ro|ru|rw|sa|sb|sc|sd|se|sg|sh|si|sj|sk|sl|sm|sn|so|sr|st|sv|sy|sz|tc|td|tf|tg|th|tj|tk|tl|tm|tn|to|tp|tr|tt|tv|tw|tz|ua|ug|uk|um|us|uy|uz|va|vc|ve|vg|vi|vn|vu|wf|ws|ye|yt|yu|za|zm|zw)(:[0-9]+)*(/($|[a-zA-Z0-9\\.,;\\?'\\\\\\+&%\\$#=~_\\-]+))*",
    ) {
        Ok(p) => Some(p),
        Err(_) => None,
    }
}

/// The parts of a web address the link filter reads (`url::Url::parse`
/// followed by `domain` and `path`): `None` when it does not parse; else
/// its domain (none when its host is an IP address or absent) and its
/// path.
pub uninterp spec fn url_parts(s: Seq<char>) -> Option<(Option<Seq<char>>, Seq<char>)>;

/// `url::Url::parse`, then `Url::domain` and `Url::path`.
#[verifier::external_body]
fn parse_url(s: &str) -> (r: Option<(Option<String>, String)>)
    ensures
        r matches Some(p) ==> url_parts(s@) == Some((crate::action::opt_view(p.0), p.1@)),
        r is None <==> url_parts(s@) is None,
{
    match url::Url::parse(s) {
        Ok(u) => Some((u.domain().map(|d| d.to_string()), u.path().to_string())),
        Err(_) => None,
    }
}

/// The bytes of `http://` and of `https://`.
pub open spec fn http_bytes() -> Seq<u8> {
    seq![104u8, 116u8, 116u8, 112u8, 58u8, 47u8, 47u8]
}

pub open spec fn https_bytes() -> Seq<u8> {
    seq![104u8, 116u8, 116u8, 112u8, 115u8, 58u8, 47u8, 47u8]
}

/// A word the filter cannot read as an address: longer than 7 bytes, with a
/// character boundary at byte 7, not starting `http://`, and with no
/// character boundary at byte 8.
pub open spec fn scheme_check_fails(b: Seq<u8>) -> bool {
    b.len() > 7 && is_char_boundary(b, 7) && b.subrange(0, 7) != http_bytes() && !is_char_boundary(b, 8)
}

/// A word longer than 7 bytes that starts with neither `http://` nor
/// `https://` gets `http://` in front before it is parsed.
pub open spec fn needs_scheme(b: Seq<u8>) -> bool {
    b.len() > 7 && is_char_boundary(b, 7) && b.subrange(0, 7) != http_bytes() && b.subrange(0, 8)
        != https_bytes()
}

/// The address the filter parses for a word.
pub open spec fn candidate(word: Seq<char>) -> Seq<char> {
    if needs_scheme(encode_utf8(word)) {
        "http://"@ + word
    } else {
        word
    }
}

/// A domain the filter cannot read: non-empty, and either shorter than 4
/// bytes or cut in a character at byte 4.
pub open spec fn domain_check_fails(d: Seq<char>) -> bool {
    encode_utf8(d).len() > 0 && (encode_utf8(d).len() < 4 || !is_char_boundary(encode_utf8(d), 4))
}

/// The domain without a leading `www.`.
pub open spec fn bare_domain(d: Seq<char>) -> Seq<char> {
    if d.len() >= 4 && d.take(4) == seq!['w', 'w', 'w', '.'] {
        d.skip(4)
    } else {
        d
    }
}

/// Walks the whitelist from entry `i`: `Some(true)` when an entry allows
/// the address (its domain is the entry's first `/`-piece and, when the
/// entry has more pieces, the path after its leading `/` is the rest of the
/// entry), `Some(false)` when none does, `None` when the path cannot be
/// read.
pub open spec fn scan_links(d: Seq<char>, path: Seq<char>, links: Seq<Seq<char>>, i: int) -> Option<bool>
    decreases links.len() - i,
{
    if i < 0 || i >= links.len() {
        Some(false)
    } else {
        let parts = split(links[i], "/"@);
        if d == parts[0] {
            if parts.len() > 1 {
                let pb = encode_utf8(path);
                if pb.len() > 1 && !is_char_boundary(pb, 1) {
                    None
                } else if pb.len() > 1 && path.skip(1) == join(parts.skip(1), "/"@) {
                    Some(true)
                } else {
                    scan_links(d, path, links, i + 1)
                }
            } else {
                Some(true)
            }
        } else {
            scan_links(d, path, links, i + 1)
        }
    }
}

/// What the link filter makes of one word, given a non-empty whitelist:
/// `Some(true)` when the word is an address no whitelist entry allows,
/// `Some(false)` when it is allowed or not an address, `None` when the
/// filter cannot read it.
pub open spec fn word_verdict(word: Seq<char>, links: Seq<Seq<char>>) -> Option<bool> {
    if !regex_is_match(url_pattern(), true, word) {
        Some(false)
    } else if scheme_check_fails(encode_utf8(word)) {
        None
    } else {
        match url_parts(candidate(word)) {
            None => Some(false),
            Some(p) => match p.0 {
                None => None,
                Some(d) => if domain_check_fails(d) {
                    None
                } else {
                    match scan_links(bare_domain(d), p.1, links, 0) {
                        None => None,
                        Some(w) => Some(!w),
                    }
                },
            },
        }
    }
}

/// The timeouts for the words of a line from `i` on (`None` when one of
/// them cannot be read).
pub open spec fn word_timeouts(
    ws: Seq<Seq<char>>,
    links: Seq<Seq<char>>,
    nick: Seq<char>,
    display: Seq<char>,
    i: int,
) -> Option<Seq<Effect>>
    decreases ws.len() - i,
{
    if i < 0 || i >= ws.len() {
        Some(seq![])
    } else {
        match word_verdict(ws[i], links) {
            None => None,
            Some(bad) => match word_timeouts(ws, links, nick, display, i + 1) {
                None => None,
                Some(rest) => Some(
                    (if bad {
                        timeout_effects(nick, "1"@, "posting links"@, display)
                    } else {
                        seq![]
                    }) + rest,
                ),
            },
        }
    }
}

/// What the link filter does with a chat line: when the channel has a
/// whitelist and the line holds an address, and the sender is neither
/// permitted nor a subscriber the channel lets post links, every address
/// word no entry allows times the sender out.  `None` when a word cannot
/// be read.
pub open spec fn link_filter_effects(
    msg: Seq<char>,
    links: Seq<Seq<char>>,
    permitted: Seq<Seq<char>>,
    sublinks: Seq<char>,
    subscriber: bool,
    nick: Seq<char>,
    display: Seq<char>,
) -> Option<Seq<Effect>> {
    if links.len() > 0 && regex_is_match(url_pattern(), true, msg) {
        if permitted.contains(nick) || (sublinks == "true"@ && subscriber) {
            Some(seq![])
        } else {
            word_timeouts(words(msg), links, nick, display, 0)
        }
    } else {
        Some(seq![])
    }
}

/// The address the filter parses for `word`; `None` when the word cannot be
/// read.
fn candidate_of(word: &str) -> (r: Option<String>)
    ensures
        r is None <==> scheme_check_fails(word.spec_bytes()),
        r matches Some(c) ==> c@ == candidate(word@),
{
    let b = word.as_bytes();
    if b.len() > 7 && word.is_char_boundary(7) {
        let http = b[0] == 104u8 && b[1] == 116u8 && b[2] == 116u8 && b[3] == 112u8 && b[4] == 58u8
            && b[5] == 47u8 && b[6] == 47u8;
        assert(http <==> b@.subrange(0, 7) == http_bytes()) by {
            if b@.subrange(0, 7) == http_bytes() {
                assert(b@.subrange(0, 7)[0] == 104u8 && b@.subrange(0, 7)[6] == 47u8);
                assert(b@.subrange(0, 7)[1] == 116u8 && b@.subrange(0, 7)[2] == 116u8);
                assert(b@.subrange(0, 7)[3] == 112u8 && b@.subrange(0, 7)[4] == 58u8);
                assert(b@.subrange(0, 7)[5] == 47u8);
            }
            if http {
                assert(b@.subrange(0, 7) =~= http_bytes());
            }
        }
        if !http {
            if !word.is_char_boundary(8) {
                return None;
            }
            let https = b[0] == 104u8 && b[1] == 116u8 && b[2] == 116u8 && b[3] == 112u8 && b[4]
                == 115u8 && b[5] == 58u8 && b[6] == 47u8 && b[7] == 47u8;
            assert(https <==> b@.subrange(0, 8) == https_bytes()) by {
                if b@.subrange(0, 8) == https_bytes() {
                    assert(b@.subrange(0, 8)[0] == 104u8 && b@.subrange(0, 8)[7] == 47u8);
                    assert(b@.subrange(0, 8)[1] == 116u8 && b@.subrange(0, 8)[2] == 116u8);
                    assert(b@.subrange(0, 8)[3] == 112u8 && b@.subrange(0, 8)[4] == 115u8);
                    assert(b@.subrange(0, 8)[5] == 58u8 && b@.subrange(0, 8)[6] == 47u8);
                }
                if https {
                    assert(b@.subrange(0, 8) =~= https_bytes());
                }
            }
            if !https {
                return Some(concat2("http://", word));
            }
        }
    }
    Some(word.to_owned())
}

/// The domain without a leading `www.`.
fn strip_www(d: &str) -> (r: String)
    ensures
        r@ == bare_domain(d@),
{
    let cs = crate::text::chars_of(d);
    if cs.len() >= 4 && cs[0] == 'w' && cs[1] == 'w' && cs[2] == 'w' && cs[3] == '.' {
        assert(d@.take(4) =~= seq!['w', 'w', 'w', '.']);
        crate::text::string_of(&cs, 4, cs.len())
    } else {
        assert(cs.len() >= 4 ==> (d@.take(4) == seq!['w', 'w', 'w', '.'] ==> (d@.take(4)[0] == 'w'
            && d@.take(4)[1] == 'w' && d@.take(4)[2] == 'w' && d@.take(4)[3] == '.')));
        d.to_owned()
    }
}

/// The path without its first character.
fn path_rest(path: &str) -> (r: String)
    ensures
        path@.len() > 0 ==> r@ == path@.skip(1),
{
    let cs = crate::text::chars_of(path);
    if cs.len() > 0 {
        assert(cs@.subrange(1, cs@.len() as int) =~= path@.skip(1));
        crate::text::string_of(&cs, 1, cs.len())
    } else {
        String::new()
    }
}

/// Whether the whitelist allows the address with domain `d` (without `www.`)
/// and path `path`; `None` when the path cannot be read.
fn scan_whitelist(d: &str, path: &str, links: &Vec<String>) -> (r: Option<bool>)
    ensures
        r == scan_links(d@, path@, views(links@), 0),
{
    let mut i: usize = 0;
    while i < links.len()
        invariant
            i <= links.len(),
            scan_links(d@, path@, views(links@), 0) == scan_links(d@, path@, views(links@), i as int),
        decreases links.len() - i,
    {
        proof {
            reveal_strlit("/");
            if path@.len() == 0 {
                assert(encode_utf8(path@) =~= Seq::<u8>::empty());
            }
        }
        assert(views(links@)[i as int] == links@[i as int]@);
        let parts = split_on(links[i].as_str(), "/");
        assert(views(parts@)[0] == parts@[0]@);
        if same_text(d, parts[0].as_str()) {
            if parts.len() > 1 {
                let pb = path.as_bytes();
                if pb.len() > 1 && !path.is_char_boundary(1) {
                    return None;
                }
                if pb.len() > 1 {
                    let rest = path_rest(path);
                    let joined = join_from(&parts, 1, "/");
                    assert(views(parts@.skip(1)) =~= views(parts@).skip(1));
                    if same_text(rest.as_str(), joined.as_str()) {
                        return Some(true);
                    }
                }
            } else {
                return Some(true);
            }
        }
        i = i + 1;
    }
    Some(false)
}

/// What the link filter makes of one word (the whitelist being non-empty).
pub fn link_word(word: &str, links: &Vec<String>, re: &Pattern) -> (r: Option<bool>)
    requires
        re@ == (url_pattern(), true),
    ensures
        r == word_verdict(word@, views(links@)),
{
    if !re.is_match(word) {
        return Some(false);
    }
    let url = match candidate_of(word) {
        Some(u) => u,
        None => {
            return None;
        },
    };
    match parse_url(url.as_str()) {
        None => Some(false),
        Some((dom, path)) => match dom {
            None => None,
            Some(d) => {
                let db = d.as_str().as_bytes();
                if db.len() > 0 && (db.len() < 4 || !d.as_str().is_char_boundary(4)) {
                    return None;
                }
                let bare = strip_www(d.as_str());
                match scan_whitelist(bare.as_str(), path.as_str(), links) {
                    None => None,
                    Some(w) => Some(!w),
                }
            },
        },
    }
}

/// The link filter for the chat line `msg` by `nick`; `links` is the
/// channel's whitelist, `permitted` the nicks allowed to post links right
/// now, `sublinks` whether subscribers may, `re` the address pattern.
/// `None` when a word of the line cannot be read.
pub fn link_filter(
    msg: &str,
    links: &Vec<String>,
    permitted: &Vec<String>,
    sublinks: &str,
    subscriber: bool,
    nick: &str,
    display: &str,
    re: &Pattern,
) -> (r: Option<Vec<Action>>)
    requires
        re@ == (url_pattern(), true),
    ensures
        match r {
            Some(v) => link_filter_effects(msg@, views(links@), views(permitted@), sublinks@, subscriber, nick@, display@) == Some(effects(v@)),
            None => link_filter_effects(msg@, views(links@), views(permitted@), sublinks@, subscriber, nick@, display@) is None,
        },
{
    let mut r: Vec<Action> = Vec::new();
    assert(effects(r@) =~= seq![]);
    if links.len() > 0 && re.is_match(msg) {
        let exempt = listed(permitted, nick);
        if exempt || (same_text(sublinks, "true") && subscriber) {
            return Some(r);
        }
        let ws = split_words(msg);
        let ghost wv = views(ws@);
        let ghost ls = views(links@);
        assert(link_filter_effects(msg@, views(links@), views(permitted@), sublinks@, subscriber, nick@, display@)
            == word_timeouts(wv, ls, nick@, display@, 0));
        let mut i: usize = 0;
        while i < ws.len()
            invariant
                i <= ws.len(),
                wv == views(ws@),
                ls == views(links@),
                re@ == (url_pattern(), true),
                link_filter_effects(msg@, views(links@), views(permitted@), sublinks@, subscriber, nick@, display@)
                    == word_timeouts(wv, ls, nick@, display@, 0),
                word_timeouts(wv, ls, nick@, display@, 0) matches Some(all) ==> (
                    word_timeouts(wv, ls, nick@, display@, i as int) matches Some(rest) && all == effects(r@) + rest),
                word_timeouts(wv, ls, nick@, display@, 0) is None ==> word_timeouts(wv, ls, nick@, display@, i as int) is None,
            decreases ws.len() - i,
        {
            assert(wv[i as int] == ws@[i as int]@);
            match link_word(ws[i].as_str(), links, re) {
                None => {
                    return None;
                },
                Some(bad) => {
                    if bad {
                        let t = timeout(nick, "1", "posting links", display);
                        emit_all(&mut r, &t);
                    }
                },
            }
            i = i + 1;
        }
        assert(words(msg@) == wv);
        return Some(r);
    }
    Some(r)
}


// ---------------------------------------------------------------------------
/// What one blacklist rule does with a chat line, when its pattern compiles
/// (case-insensitively): a line it matches times the sender out for the
/// rule's length, and no later rule is tried.
pub open spec fn blacklist_effects(
    pattern: Seq<char>,
    length: Seq<char>,
    msg: Seq<char>,
    nick: Seq<char>,
    display: Seq<char>,
) -> (Seq<Effect>, bool) {
    if regex_is_match(pattern, true, msg) {
        (timeout_effects(nick, length, "posting a blacklisted phrase"@, display), true)
    } else {
        (seq![], false)
    }
}

/// One blacklist rule (its pattern and timeout length) applied to the chat
/// line `msg` by `nick`: the actions, and whether the line matched (so that
/// no further rule is tried).  A pattern that does not compile is logged as
/// `regex_error` with the regex crate's message (whose text is not stated
/// here).
pub fn blacklist_rule(pattern: &str, length: &str, msg: &str, nick: &str, display: &str) -> (r: (
    Vec<Action>,
    bool,
))
    ensures
        regex_compiles_folded(pattern@) ==> (effects(r.0@), r.1) == blacklist_effects(
            pattern@,
            length@,
            msg@,
            nick@,
            display@,
        ),
        !regex_compiles_folded(pattern@) ==> !r.1 && r.0@.len() == 1 && (r.0@[0].effect() matches Effect::Log(src, _) && src == "regex_error"@),
{
    match Pattern::compile_folded(pattern) {
        Err(e) => {
            let mut v: Vec<Action> = Vec::new();
            v.push(Action::Log("regex_error".to_owned(), e));
            (v, false)
        },
        Ok(re) => {
            if re.is_match(msg) {
                (timeout(nick, length, "posting a blacklisted phrase", display), true)
            } else {
                let v: Vec<Action> = Vec::new();
                assert(effects(v@) =~= seq![]);
                (v, false)
            }
        },
    }
}

/// A keyword rule fires on a chat line when its pattern compiles and
/// matches the line.
pub fn keyword_fires(pattern: &str, msg: &str) -> (r: bool)
    ensures
        r == (regex_compiles(pattern@) && regex_is_match(pattern@, false, msg@)),
{
    match Pattern::compile(pattern) {
        Some(re) => re.is_match(msg),
        None => false,
    }
}

/// The nicks of the keys `channel:<c>:moderation:permitted:<nick>`.
pub fn permitted_nicks(keys: &Vec<String>) -> (r: Vec<String>)
    requires
        keys_have_part(views(keys@), 4),
    ensures
        views(r@) == views(keys@).map_values(|k: Seq<char>| key_part(k, 4)),
{
    let mut r: Vec<String> = Vec::new();
    let mut i: usize = 0;
    while i < keys.len()
        invariant
            i <= keys.len(),
            keys_have_part(views(keys@), 4),
            views(r@) == views(keys@).take(i as int).map_values(|k: Seq<char>| key_part(k, 4)),
        decreases keys.len() - i,
    {
        assert(views(keys@)[i as int] == keys@[i as int]@);
        let p = key_piece(keys[i].as_str(), 4);
        let ghost before = r@;
        r.push(p);
        assert(views(r@) =~= views(before).push(p@));
        assert(views(keys@).take(i + 1).map_values(|k: Seq<char>| key_part(k, 4)) =~= views(keys@).take(
            i as int,
        ).map_values(|k: Seq<char>| key_part(k, 4)).push(key_part(views(keys@)[i as int], 4)));
        i = i + 1;
    }
    assert(views(keys@).take(keys.len() as int) =~= views(keys@));
    r
}

// ---------------------------------------------------------------------------
/// What the account-age filter does: an account younger than the channel's
/// minimum age (in minutes) is timed out for the rest of that age, in
/// seconds.
pub open spec fn age_effects(nick: Seq<char>, age: int, minutes: int, display: Seq<char>) -> Seq<Effect> {
    if minutes < age {
        timeout_effects(
            nick,
            crate::text::signed_decimal((age - minutes) * 60),
            "not reaching the minimum account age"@,
            display,
        )
    } else {
        seq![]
    }
}

/// The account-age filter for `nick`, whose account is `minutes` old.
pub fn age_check(nick: &str, age: i64, minutes: i64, display: &str) -> (r: Vec<Action>)
    requires
        minutes < age ==> (age - minutes) * 60 <= i64::MAX,
    ensures
        effects(r@) == age_effects(nick@, age as int, minutes as int, display@),
{
    if minutes < age {
        let length = age - minutes;
        let secs = crate::text::signed_decimal_string(length * 60);
        timeout(nick, secs.as_str(), "not reaching the minimum account age", display)
    } else {
        let v: Vec<Action> = Vec::new();
        assert(effects(v@) =~= seq![]);
        v
    }
}


proof fn lemma_scan_allows(d: Seq<char>, path: Seq<char>, links: Seq<Seq<char>>, i: int, j: int)
    requires
        0 <= i <= j < links.len(),
        split(links[j], "/"@) == seq![d],
    ensures
        scan_links(d, path, links, i) != Some(false),
    decreases j - i,
{
    if i < j {
        let parts = split(links[i], "/"@);
        if !(d == parts[0]) || (parts.len() > 1 && !(encode_utf8(path).len() > 1 && !is_char_boundary(encode_utf8(path), 1))
            && !(encode_utf8(path).len() > 1 && path.skip(1) == join(parts.skip(1), "/"@))) {
            lemma_scan_allows(d, path, links, i + 1, j);
        }
    }
}

/// Whitelisted domains pass: a word whose address's domain (without
/// `www.`) is a whole entry of the whitelist never times its sender out.
pub proof fn lemma_whitelisted_domain_passes(word: Seq<char>, links: Seq<Seq<char>>, j: int, d: Seq<char>)
    requires
        0 <= j < links.len(),
        url_parts(candidate(word)) matches Some(p) && p.0 == Some(d),
        split(links[j], "/"@) == seq![bare_domain(d)],
    ensures
        word_verdict(word, links) != Some(true),
{
    lemma_scan_allows(bare_domain(d), (url_parts(candidate(word))->0).1, links, 0, j);
}

} // verus!
