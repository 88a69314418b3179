//! The watch-time ranking of a channel's viewers.
use crate::text::{
    decimal, decimal_string, join, join_all, parse_u64, parse_unsigned, parse_usize, same_text,
    split_words, views, words,
};
use vstd::prelude::*;

verus! {

/// Known bot accounts, never ranked.
pub open spec fn twitch_bots() -> Seq<Seq<char>> {
    seq![
        "electricallongboard"@,
        "lanfusion"@,
        "cogwhistle"@,
        "freddyybot"@,
        "anotherttvviewer"@,
        "apricotdrupefruit"@,
        "skinnyseahorse"@,
        "p0lizei_"@,
        "xbit01"@,
        "n3td3v"@,
        "cachebear"@,
        "icon_bot"@,
        "virgoproz"@,
        "v_and_k"@,
        "slocool"@,
        "host_giveaway"@,
        "nightbot"@,
        "commanderroot"@,
        "p0sitivitybot"@,
        "streamlabs"@,
    ]
}

/// The known bot accounts, in order.
pub fn bot_names() -> (r: Vec<&'static str>)
    ensures
        r@.map_values(|s: &str| s@) == twitch_bots(),
{
    let r: Vec<&'static str> = vec![
        "electricallongboard",
        "lanfusion",
        "cogwhistle",
        "freddyybot",
        "anotherttvviewer",
        "apricotdrupefruit",
        "skinnyseahorse",
        "p0lizei_",
        "xbit01",
        "n3td3v",
        "cachebear",
        "icon_bot",
        "virgoproz",
        "v_and_k",
        "slocool",
        "host_giveaway",
        "nightbot",
        "commanderroot",
        "p0sitivitybot",
        "streamlabs",
    ];
    assert(r@.map_values(|s: &str| s@) =~= twitch_bots());
    r
}

/// `e` goes into the list sorted by decreasing watch time: after every entry
/// with at least its time.
pub open spec fn insert_desc(sorted: Seq<(Seq<char>, nat)>, e: (Seq<char>, nat)) -> Seq<
    (Seq<char>, nat),
>
    decreases sorted.len(),
{
    if sorted.len() == 0 {
        seq![e]
    } else if sorted[0].1 >= e.1 {
        seq![sorted[0]] + insert_desc(sorted.drop_first(), e)
    } else {
        seq![e] + sorted
    }
}

/// The entries sorted by decreasing watch time, entries with equal times
/// keeping their order (a stable sort).
pub open spec fn sort_desc(s: Seq<(Seq<char>, nat)>) -> Seq<(Seq<char>, nat)>
    decreases s.len(),
{
    if s.len() == 0 {
        seq![]
    } else {
        insert_desc(sort_desc(s.drop_last()), s.last())
    }
}

/// The list is in decreasing order of watch time.
pub open spec fn sorted_desc(s: Seq<(Seq<char>, nat)>) -> bool {
    forall|i: int, j: int| 0 <= i < j < s.len() ==> s[i].1 >= s[j].1
}

/// The first position whose time is below `t`, or the length.
pub open spec fn insert_point(s: Seq<(Seq<char>, nat)>, t: nat) -> int
    decreases s.len(),
{
    if s.len() == 0 {
        0
    } else if s[0].1 >= t {
        1 + insert_point(s.drop_first(), t)
    } else {
        0
    }
}

proof fn lemma_insert_point(s: Seq<(Seq<char>, nat)>, e: (Seq<char>, nat))
    ensures
        0 <= insert_point(s, e.1) <= s.len(),
        insert_desc(s, e) == s.take(insert_point(s, e.1)) + seq![e] + s.skip(insert_point(s, e.1)),
        forall|k: int| 0 <= k < insert_point(s, e.1) ==> s[k].1 >= e.1,
        insert_point(s, e.1) < s.len() ==> s[insert_point(s, e.1)].1 < e.1,
    decreases s.len(),
{
    if s.len() > 0 && s[0].1 >= e.1 {
        let t = s.drop_first();
        lemma_insert_point(t, e);
        let p = insert_point(t, e.1);
        assert(s.take(p + 1) =~= seq![s[0]] + t.take(p));
        assert(s.skip(p + 1) =~= t.skip(p));
        assert forall|k: int| 0 <= k < p + 1 implies s[k].1 >= e.1 by {
            if k > 0 {
                assert(s[k] == t[k - 1]);
            }
        }
    } else {
        assert(s.take(0) =~= Seq::<(Seq<char>, nat)>::empty());
        assert(s.skip(0) =~= s);
    }
}

proof fn lemma_insert_sorted(s: Seq<(Seq<char>, nat)>, e: (Seq<char>, nat))
    requires
        sorted_desc(s),
    ensures
        sorted_desc(insert_desc(s, e)),
        insert_desc(s, e).to_multiset() == s.to_multiset().insert(e),
{
    lemma_insert_point(s, e);
    let p = insert_point(s, e.1);
    let r = insert_desc(s, e);
    assert forall|i: int, j: int| 0 <= i < j < r.len() implies r[i].1 >= r[j].1 by {
        if i < p && j < p {
            assert(r[i] == s[i] && r[j] == s[j]);
        } else if i < p && j == p {
            assert(r[i] == s[i]);
        } else if i < p {
            assert(r[i] == s[i] && r[j] == s[j - 1]);
        } else if i == p {
            assert(r[j] == s[j - 1]);
            assert(s[p].1 < e.1);
            assert(s[p].1 >= s[j - 1].1);
        } else {
            assert(r[i] == s[i - 1] && r[j] == s[j - 1]);
        }
    }
    vstd::seq_lib::lemma_multiset_commutative(s.take(p) + seq![e], s.skip(p));
    vstd::seq_lib::lemma_multiset_commutative(s.take(p), seq![e]);
    vstd::seq_lib::lemma_multiset_commutative(s.take(p), s.skip(p));
    assert(s.take(p) + s.skip(p) =~= s);
    assert(seq![e].to_multiset() =~= vstd::multiset::Multiset::empty().insert(e)) by {
        broadcast use vstd::seq_lib::group_to_multiset_ensures;
        assert(seq![e] =~= Seq::<(Seq<char>, nat)>::empty().push(e));
    }
}

/// The ranking sort orders the entries by decreasing watch time and keeps
/// every entry, each as many times as it occurs.
pub proof fn lemma_sort_desc(s: Seq<(Seq<char>, nat)>)
    ensures
        sorted_desc(sort_desc(s)),
        sort_desc(s).to_multiset() == s.to_multiset(),
    decreases s.len(),
{
    if s.len() == 0 {
        assert(sort_desc(s).to_multiset() =~= s.to_multiset()) by {
            broadcast use vstd::seq_lib::group_to_multiset_ensures;
        }
    } else {
        lemma_sort_desc(s.drop_last());
        lemma_insert_sorted(sort_desc(s.drop_last()), s.last());
        broadcast use vstd::seq_lib::group_to_multiset_ensures;
        assert(s.drop_last().push(s.last()) =~= s);
    }
}

/// The model of parsed watch times.
pub open spec fn times_view(v: Seq<(String, u64)>) -> Seq<(Seq<char>, nat)> {
    v.map_values(|e: (String, u64)| (e.0@, e.1 as nat))
}

/// Sorts by decreasing watch time, stably.
pub fn sort_by_time(v: &Vec<(String, u64)>) -> (r: Vec<(String, u64)>)
    ensures
        times_view(r@) == sort_desc(times_view(v@)),
{
    let ghost vv = times_view(v@);
    let mut r: Vec<(String, u64)> = Vec::new();
    let mut i: usize = 0;
    while i < v.len()
        invariant
            i <= v.len(),
            vv == times_view(v@),
            times_view(r@) == sort_desc(vv.take(i as int)),
        decreases v.len() - i,
    {
        assert(vv.take(i + 1).drop_last() =~= vv.take(i as int));
        let e = (v[i].0.clone(), v[i].1);
        let ghost ev = (e.0@, e.1 as nat);
        assert(vv.take(i + 1).last() == ev);
        let ghost rv = times_view(r@);
        proof {
            lemma_insert_point(rv, ev);
        }
        let mut p: usize = 0;
        while p < r.len() && r[p].1 >= e.1
            invariant
                p <= r.len(),
                rv == times_view(r@),
                forall|k: int| 0 <= k < p ==> rv[k].1 >= ev.1,
                p <= insert_point(rv, ev.1),
                insert_point(rv, ev.1) <= rv.len(),
                insert_point(rv, ev.1) < rv.len() ==> rv[insert_point(rv, ev.1)].1 < ev.1,
                ev == (e.0@, e.1 as nat),
            decreases r.len() - p,
        {
            proof {
                if p == insert_point(rv, ev.1) {
                    assert(rv[p as int].1 < ev.1);
                }
            }
            p = p + 1;
        }
        proof {
            if p < insert_point(rv, ev.1) {
                assert(rv[p as int].1 >= ev.1);
            }
        }
        r.insert(p, e);
        assert(times_view(r@) =~= rv.take(p as int) + seq![ev] + rv.skip(p as int));
        i = i + 1;
    }
    assert(vv.take(v.len() as int) =~= vv);
    r
}

/// The ranking: entries sorted by decreasing time, less the ignored nicks.
pub open spec fn ranking(times: Seq<(Seq<char>, nat)>, ignored: Seq<Seq<char>>) -> Seq<
    (Seq<char>, nat),
> {
    sort_desc(times).filter(|e: (Seq<char>, nat)| !ignored.contains(e.0))
}

/// The nicks never ranked in a channel: the known bots, the channel itself
/// and the nicks of its `watchtime:blacklist` setting.
pub open spec fn ignored_nicks(channel: Seq<char>, blacklist: Seq<char>) -> Seq<Seq<char>> {
    twitch_bots().push(channel) + words(blacklist)
}

/// The stored watch times all read as numbers.
pub open spec fn times_readable(times: Seq<(Seq<char>, Seq<char>)>) -> bool {
    forall|i: int| 0 <= i < times.len() ==> parse_unsigned(#[trigger] times[i].1, u64::MAX as nat) is Some
}

/// The stored watch times read as numbers.
pub open spec fn read_times(times: Seq<(Seq<char>, Seq<char>)>) -> Seq<(Seq<char>, nat)> {
    times.map_values(|e: (Seq<char>, Seq<char>)| (e.0, parse_unsigned(e.1, u64::MAX as nat)->0))
}

/// The position of the first entry for `nick`.
pub open spec fn rank_of(r: Seq<(Seq<char>, nat)>, nick: Seq<char>, i: int) -> Option<int>
    decreases r.len() - i,
{
    if i < 0 || i >= r.len() {
        None
    } else if r[i].0 == nick {
        Some(i)
    } else {
        rank_of(r, nick, i + 1)
    }
}

/// What the `(watchrank)` variable shows: with a number `n`, the nicks of
/// the first `n` ranked viewers, comma-separated; without one, the sender's
/// place in the ranking (from 1); nothing when no one is ranked.
pub open spec fn watchrank(
    times: Seq<(Seq<char>, Seq<char>)>,
    channel: Seq<char>,
    blacklist: Seq<char>,
    vargs: Seq<Seq<char>>,
    nick: Seq<char>,
) -> Seq<char> {
    let r = ranking(read_times(times), ignored_nicks(channel, blacklist));
    if r.len() > 0 {
        if vargs.len() > 0 {
            match parse_unsigned(vargs[0], usize::MAX as nat) {
                Some(n) => join(
                    r.take(if n < r.len() {
                        n as int
                    } else {
                        r.len() as int
                    }).map_values(|e: (Seq<char>, nat)| e.0),
                    ", "@,
                ),
                None => seq![],
            }
        } else {
            match rank_of(r, nick, 0) {
                Some(i) => decimal((i + 1) as nat),
                None => seq![],
            }
        }
    } else {
        seq![]
    }
}

/// `nick` is in the list.
pub fn listed(list: &Vec<String>, nick: &str) -> (b: bool)
    ensures
        b == views(list@).contains(nick@),
{
    let mut i: usize = 0;
    while i < list.len()
        invariant
            i <= list.len(),
            forall|k: int| 0 <= k < i ==> list@[k]@ != nick@,
        decreases list.len() - i,
    {
        if same_text(list[i].as_str(), nick) {
            assert(views(list@)[i as int] == nick@);
            return true;
        }
        i = i + 1;
    }
    assert forall|k: int| 0 <= k < views(list@).len() implies views(list@)[k] != nick@ by {
        assert(views(list@)[k] == list@[k]@);
    }
    false
}

/// The `(watchrank [n])` variable; `times` are the stored watch times
/// (nick and minutes), `blacklist` the channel's `watchtime:blacklist`
/// setting, `nick` the sender.
pub fn watchrank_var(
    times: &Vec<(String, String)>,
    channel: &str,
    blacklist: &str,
    vargs: &Vec<String>,
    nick: &str,
) -> (r: String)
    requires
        times_readable(times@.map_values(|e: (String, String)| (e.0@, e.1@))),
    ensures
        r@ == watchrank(
            times@.map_values(|e: (String, String)| (e.0@, e.1@)),
            channel@,
            blacklist@,
            views(vargs@),
            nick@,
        ),
{
    let ghost tv = times@.map_values(|e: (String, String)| (e.0@, e.1@));
    let mut parsed: Vec<(String, u64)> = Vec::new();
    let mut i: usize = 0;
    while i < times.len()
        invariant
            i <= times.len(),
            tv == times@.map_values(|e: (String, String)| (e.0@, e.1@)),
            times_readable(tv),
            times_view(parsed@) == read_times(tv).take(i as int),
        decreases times.len() - i,
    {
        assert(tv[i as int] == (times@[i as int].0@, times@[i as int].1@));
        let n = match parse_u64(times[i].1.as_str()) {
            Some(n) => n,
            None => 0,
        };
        let ghost before = parsed@;
        parsed.push((times[i].0.clone(), n));
        assert(times_view(parsed@) =~= times_view(before).push((times@[i as int].0@, n as nat)));
        assert(read_times(tv).take(i + 1) =~= read_times(tv).take(i as int).push(read_times(tv)[i as int]));
        i = i + 1;
    }
    assert(read_times(tv).take(times.len() as int) =~= read_times(tv));
    // the nicks never ranked
    let bots = bot_names();
    let mut ignored: Vec<String> = Vec::new();
    let mut b: usize = 0;
    while b < bots.len()
        invariant
            b <= bots.len(),
            bots@.map_values(|s: &str| s@) == twitch_bots(),
            views(ignored@) == twitch_bots().take(b as int),
        decreases bots.len() - b,
    {
        let ghost before = ignored@;
        ignored.push(bots[b].to_owned());
        assert(views(ignored@) =~= views(before).push(bots@[b as int]@));
        assert(twitch_bots().take(b + 1) =~= twitch_bots().take(b as int).push(twitch_bots()[b as int]));
        b = b + 1;
    }
    assert(twitch_bots().take(20) =~= twitch_bots());
    let ghost before = ignored@;
    ignored.push(channel.to_owned());
    assert(views(ignored@) =~= views(before).push(channel@));
    let extra = split_words(blacklist);
    let mut e: usize = 0;
    let ghost base = views(ignored@);
    while e < extra.len()
        invariant
            e <= extra.len(),
            views(ignored@) == base + views(extra@).take(e as int),
        decreases extra.len() - e,
    {
        let ghost before = ignored@;
        ignored.push(extra[e].clone());
        assert(views(ignored@) =~= views(before).push(extra@[e as int]@));
        assert(views(extra@).take(e + 1) =~= views(extra@).take(e as int).push(views(extra@)[e as int]));
        e = e + 1;
    }
    assert(views(extra@).take(extra.len() as int) =~= views(extra@));
    let ghost ig = views(ignored@);
    assert(ig == ignored_nicks(channel@, blacklist@));
    // sort, then drop the ignored nicks
    let sorted = sort_by_time(&parsed);
    let ghost sv = times_view(sorted@);
    let mut ranked: Vec<(String, u64)> = Vec::new();
    let mut k: usize = 0;
    while k < sorted.len()
        invariant
            k <= sorted.len(),
            sv == times_view(sorted@),
            ig == views(ignored@),
            times_view(ranked@) == sv.take(k as int).filter(|e: (Seq<char>, nat)| !ig.contains(e.0)),
        decreases sorted.len() - k,
    {
        let ghost before = ranked@;
        assert(sv.take(k + 1).drop_last() =~= sv.take(k as int));
        assert(sv.take(k + 1).last() == (sorted@[k as int].0@, sorted@[k as int].1 as nat));
        reveal_with_fuel(Seq::filter, 1);
        if !listed(&ignored, sorted[k].0.as_str()) {
            ranked.push((sorted[k].0.clone(), sorted[k].1));
            assert(times_view(ranked@) =~= times_view(before).push((sorted@[k as int].0@, sorted@[k as int].1 as nat)));
        }
        k = k + 1;
    }
    assert(sv.take(sorted.len() as int) =~= sv);
    let ghost rv = times_view(ranked@);
    assert(rv == ranking(read_times(tv), ig));
    if ranked.len() == 0 {
        return String::new();
    }
    if vargs.len() > 0 {
        assert(views(vargs@)[0] == vargs@[0]@);
        match parse_usize(vargs[0].as_str()) {
            Some(n) => {
                let m = if n < ranked.len() {
                    n
                } else {
                    ranked.len()
                };
                let mut names: Vec<String> = Vec::new();
                let mut t: usize = 0;
                while t < m
                    invariant
                        t <= m <= ranked.len(),
                        rv == times_view(ranked@),
                        views(names@) == rv.take(t as int).map_values(|e: (Seq<char>, nat)| e.0),
                    decreases m - t,
                {
                    let ghost before = names@;
                    names.push(ranked[t].0.clone());
                    assert(views(names@) =~= views(before).push(ranked@[t as int].0@));
                    assert(rv.take(t + 1).map_values(|e: (Seq<char>, nat)| e.0) =~= rv.take(
                        t as int,
                    ).map_values(|e: (Seq<char>, nat)| e.0).push(rv[t as int].0));
                    t = t + 1;
                }
                join_all(&names, ", ")
            },
            None => String::new(),
        }
    } else {
        let mut p: usize = 0;
        while p < ranked.len()
            invariant
                p <= ranked.len(),
                rv == times_view(ranked@),
                rv.len() > 0,
                vargs@.len() == 0,
                tv == times@.map_values(|e: (String, String)| (e.0@, e.1@)),
                rv == ranking(read_times(tv), ignored_nicks(channel@, blacklist@)),
                rank_of(rv, nick@, 0) == rank_of(rv, nick@, p as int),
            decreases ranked.len() - p,
        {
            if same_text(ranked[p].0.as_str(), nick) {
                return decimal_string((p as u64) + 1);
            }
            p = p + 1;
        }
        String::new()
    }
}

} // verus!
