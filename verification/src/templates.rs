//! Command messages are templates: `(name args...)` stands for the value of
//! the variable `name`.  This module finds the variables of a message and
//! puts their values in.
use crate::action::opt_view;
use crate::pattern::{escape, regex_captures, regex_compiles, regex_escape, regex_replace_first, Pattern};
use crate::text::{concat2, concat3, split_words, views, words};
use vstd::prelude::*;

verus! {

/// The pattern of a use of the variable `name`: `(name args...)`, where the
/// arguments are word characters, spaces and `-?._:/&!=`.
pub open spec fn var_pattern(name: Seq<char>) -> Seq<char> {
    "\\("@ + name + " ?((?:[\\w\\-\\?\\._:/&!= ]+)*)\\)"@
}

/// The pattern of a bare use of the variable `name`: `(name)`.
pub open spec fn plain_var_pattern(name: Seq<char>) -> Seq<char> {
    "\\("@ + name + "\\)"@
}

/// The model of a list of matches.
pub open spec fn caps_view(v: Seq<(String, Option<String>)>) -> Seq<(Seq<char>, Option<Seq<char>>)> {
    v.map_values(|c: (String, Option<String>)| (c.0@, opt_view(c.1)))
}

/// The argument lists of the uses in a list of matches: the words of each
/// match's argument group, for the matches where the group took part.
pub open spec fn invocations(caps: Seq<(Seq<char>, Option<Seq<char>>)>) -> Seq<Seq<Seq<char>>>
    decreases caps.len(),
{
    if caps.len() == 0 {
        seq![]
    } else {
        invocations(caps.drop_last()) + (if caps.last().1 is Some {
            seq![words(caps.last().1->0)]
        } else {
            seq![]
        })
    }
}

/// The uses of a list of matches with their argument lists: the matched
/// text and the words of its argument group, where the group took part.
pub open spec fn calls(caps: Seq<(Seq<char>, Option<Seq<char>>)>) -> Seq<(Seq<char>, Seq<Seq<char>>)>
    decreases caps.len(),
{
    if caps.len() == 0 {
        seq![]
    } else {
        calls(caps.drop_last()) + (if caps.last().1 is Some {
            seq![(caps.last().0, words(caps.last().1->0))]
        } else {
            seq![]
        })
    }
}

/// `text` after replacing, one after the other, the leftmost match of the
/// pattern with each of `values`.
pub open spec fn replace_each(pattern: Seq<char>, text: Seq<char>, values: Seq<Seq<char>>) -> Seq<char>
    decreases values.len(),
{
    if values.len() == 0 {
        text
    } else {
        regex_replace_first(pattern, false, replace_each(pattern, text, values.drop_last()), values.last())
    }
}

/// `text` after replacing the leftmost match of the pattern with `value`,
/// `n` times.
pub open spec fn replace_times(pattern: Seq<char>, text: Seq<char>, value: Seq<char>, n: nat) -> Seq<char>
    decreases n,
{
    if n == 0 {
        text
    } else {
        regex_replace_first(pattern, false, replace_times(pattern, text, value, (n - 1) as nat), value)
    }
}

/// `text` after replacing, one after the other, the first literal
/// occurrence of each pair's text with the pair's value.
pub open spec fn replace_literals(text: Seq<char>, pairs: Seq<(Seq<char>, Seq<char>)>) -> Seq<char>
    decreases pairs.len(),
{
    if pairs.len() == 0 {
        text
    } else {
        let p = pairs.last();
        regex_replace_first(regex_escape(p.0), false, replace_literals(text, pairs.drop_last()), p.1)
    }
}

/// The pattern of the uses of `name`.
pub fn var_pattern_of(name: &str) -> (r: String)
    ensures
        r@ == var_pattern(name@),
{
    concat3("\\(", name, " ?((?:[\\w\\-\\?\\._:/&!= ]+)*)\\)")
}

/// The argument lists of the uses of the variable `name` in `message`, in
/// order; `None` when the variable's name does not make a valid pattern.
pub fn var_arguments(name: &str, message: &str) -> (r: Option<Vec<Vec<String>>>)
    ensures
        r is Some <==> regex_compiles(var_pattern(name@)),
        r matches Some(v) ==> v@.map_values(|a: Vec<String>| views(a@)) == invocations(
            regex_captures(var_pattern(name@), false, message@),
        ),
{
    let p = var_pattern_of(name);
    match Pattern::compile(p.as_str()) {
        Some(re) => {
            let caps = re.captures(message);
            let ghost cv = caps_view(caps@);
            let mut out: Vec<Vec<String>> = Vec::new();
            let mut i: usize = 0;
            while i < caps.len()
                invariant
                    i <= caps.len(),
                    cv == caps_view(caps@),
                    out@.map_values(|a: Vec<String>| views(a@)) == invocations(cv.take(i as int)),
                decreases caps.len() - i,
            {
                assert(cv.take(i + 1).drop_last() =~= cv.take(i as int));
                assert(cv.take(i + 1).last() == (caps@[i as int].0@, opt_view(caps@[i as int].1)));
                match &caps[i].1 {
                    Some(g) => {
                        let w = split_words(g.as_str());
                        let ghost before = out@;
                        out.push(w);
                        assert(out@.map_values(|a: Vec<String>| views(a@)) =~= before.map_values(
                            |a: Vec<String>| views(a@),
                        ).push(views(w@)));
                    },
                    None => {
                        assert(invocations(cv.take(i + 1)) =~= invocations(cv.take(i as int)));
                    },
                }
                i = i + 1;
            }
            assert(cv.take(caps.len() as int) =~= cv);
            Some(out)
        },
        None => None,
    }
}

/// `message` with the uses of `name` replaced, in order, by `values`;
/// `None` when the variable's name does not make a valid pattern.
pub fn apply_var(name: &str, message: &str, values: &Vec<String>) -> (r: Option<String>)
    ensures
        r is Some <==> regex_compiles(var_pattern(name@)),
        r matches Some(m) ==> m@ == replace_each(var_pattern(name@), message@, views(values@)),
{
    let p = var_pattern_of(name);
    match Pattern::compile(p.as_str()) {
        Some(re) => {
            let mut msg = message.to_owned();
            let mut i: usize = 0;
            while i < values.len()
                invariant
                    i <= values.len(),
                    re@ == (var_pattern(name@), false),
                    msg@ == replace_each(var_pattern(name@), message@, views(values@).take(i as int)),
                decreases values.len() - i,
            {
                assert(views(values@).take(i + 1).drop_last() =~= views(values@).take(i as int));
                msg = re.replace_first(msg.as_str(), values[i].as_str());
                i = i + 1;
            }
            assert(views(values@).take(values.len() as int) =~= views(values@));
            Some(msg)
        },
        None => None,
    }
}

/// The value of a variable in a message: every bare use `(var)` of it in
/// `msg` becomes `val` (one replacement per use found in `msg`); `None`
/// when the name does not make a valid pattern.
pub fn replace_var(var: &str, val: &str, msg: &str) -> (r: Option<String>)
    ensures
        r is Some <==> regex_compiles(plain_var_pattern(var@)),
        r matches Some(m) ==> m@ == replace_times(
            plain_var_pattern(var@),
            msg@,
            val@,
            regex_captures(plain_var_pattern(var@), false, msg@).len(),
        ),
{
    let p = concat3("\\(", var, "\\)");
    match Pattern::compile(p.as_str()) {
        Some(re) => {
            let caps = re.captures(msg);
            let ghost n = regex_captures(plain_var_pattern(var@), false, msg@).len();
            assert(caps@.len() == n);
            let mut message = msg.to_owned();
            let mut i: usize = 0;
            while i < caps.len()
                invariant
                    i <= caps.len(),
                    re@ == (plain_var_pattern(var@), false),
                    message@ == replace_times(plain_var_pattern(var@), msg@, val@, i as nat),
                decreases caps.len() - i,
            {
                message = re.replace_first(message.as_str(), val);
                i = i + 1;
            }
            Some(message)
        },
        None => None,
    }
}

/// The uses of the web-fetched variable `name` in `message`: each use's
/// text and its argument words; `None` when the name does not make a valid
/// pattern.
pub fn var_calls(name: &str, message: &str) -> (r: Option<Vec<(String, Vec<String>)>>)
    ensures
        r is Some <==> regex_compiles(var_pattern(name@)),
        r matches Some(v) ==> v@.map_values(|c: (String, Vec<String>)| (c.0@, views(c.1@)))
            == calls(regex_captures(var_pattern(name@), false, message@)),
{
    let p = var_pattern_of(name);
    match Pattern::compile(p.as_str()) {
        Some(re) => {
            let caps = re.captures(message);
            let ghost cv = caps_view(caps@);
            let mut out: Vec<(String, Vec<String>)> = Vec::new();
            let mut i: usize = 0;
            while i < caps.len()
                invariant
                    i <= caps.len(),
                    cv == caps_view(caps@),
                    out@.map_values(|c: (String, Vec<String>)| (c.0@, views(c.1@))) == calls(
                        cv.take(i as int),
                    ),
                decreases caps.len() - i,
            {
                assert(cv.take(i + 1).drop_last() =~= cv.take(i as int));
                assert(cv.take(i + 1).last() == (caps@[i as int].0@, opt_view(caps@[i as int].1)));
                match &caps[i].1 {
                    Some(g) => {
                        let w = split_words(g.as_str());
                        let whole = caps[i].0.clone();
                        let ghost before = out@;
                        out.push((whole, w));
                        assert(out@.map_values(|c: (String, Vec<String>)| (c.0@, views(c.1@)))
                            =~= before.map_values(|c: (String, Vec<String>)| (c.0@, views(c.1@))).push(
                            (whole@, views(w@)),
                        ));
                    },
                    None => {
                        assert(calls(cv.take(i + 1)) =~= calls(cv.take(i as int)));
                    },
                }
                i = i + 1;
            }
            assert(cv.take(caps.len() as int) =~= cv);
            Some(out)
        },
        None => None,
    }
}

/// Every pair's text, escaped, compiles as a regular expression.
pub open spec fn literals_compile(pairs: Seq<(Seq<char>, Seq<char>)>) -> bool {
    forall|i: int| 0 <= i < pairs.len() ==> #[trigger] regex_compiles(regex_escape(pairs[i].0))
}

/// `message` after replacing, one after the other, the first occurrence of
/// each fetched use (its text) with its value; `None` when the escaped text
/// of a use does not compile (the regex crate's size limit).
pub fn apply_fetched(message: &str, done: &Vec<(String, String)>) -> (r: Option<String>)
    ensures
        r is Some <==> literals_compile(done@.map_values(|p: (String, String)| (p.0@, p.1@))),
        r matches Some(m) ==> m@ == replace_literals(
            message@,
            done@.map_values(|p: (String, String)| (p.0@, p.1@)),
        ),
{
    let ghost dv = done@.map_values(|p: (String, String)| (p.0@, p.1@));
    let mut msg = message.to_owned();
    let mut i: usize = 0;
    while i < done.len()
        invariant
            i <= done.len(),
            dv == done@.map_values(|p: (String, String)| (p.0@, p.1@)),
            msg@ == replace_literals(message@, dv.take(i as int)),
            forall|j: int| 0 <= j < i ==> #[trigger] regex_compiles(regex_escape(dv[j].0)),
        decreases done.len() - i,
    {
        assert(dv.take(i + 1).drop_last() =~= dv.take(i as int));
        assert(dv.take(i + 1).last() == (done@[i as int].0@, done@[i as int].1@));
        assert(dv[i as int] == (done@[i as int].0@, done@[i as int].1@));
        let lit = escape(done[i].0.as_str());
        let re = match Pattern::compile(lit.as_str()) {
            Some(re) => re,
            None => {
                assert(!regex_compiles(regex_escape(dv[i as int].0)));
                return None;
            },
        };
        msg = re.replace_first(msg.as_str(), done[i].1.as_str());
        i = i + 1;
    }
    assert(dv.take(done.len() as int) =~= dv);
    Some(msg)
}

// ---------------------------------------------------------------------------
/// A reply addressed with `@nick` as its last argument is sent to that
/// user: `@nick -> message`.
pub open spec fn addressed(message: Seq<char>, args: Seq<Seq<char>>) -> Seq<char> {
    if args.len() > 0 && args.last().len() > 0 && args.last()[0] == '@' {
        args.last() + " -> "@ + message
    } else {
        message
    }
}

/// A line in a channel that asks for emotes is sent as `/me line`.
pub open spec fn emoted(me: Seq<char>, line: Seq<char>) -> Seq<char> {
    if me == "true"@ {
        "/me "@ + line
    } else {
        line
    }
}

/// The reply to a command before its variables are filled in: addressed to
/// the user its last argument names, as an emote when the channel asks.
pub fn compose_reply(message: &str, args: &Vec<String>, me: &str) -> (r: String)
    ensures
        r@ == emoted(me@, addressed(message@, views(args@))),
{
    let mut line = message.to_owned();
    if args.len() > 0 {
        let last = &args[args.len() - 1];
        let cs = crate::text::chars_of(last.as_str());
        assert(views(args@).last() == last@);
        if cs.len() > 0 && cs[0] == '@' {
            line = concat3(last.as_str(), " -> ", message);
        }
    }
    if crate::text::same_text(me, "true") {
        line = concat2("/me ", line.as_str());
    }
    line
}

/// A line through the channel's usual path, as the channel's emote setting
/// asks.
pub fn emote_line(me: &str, line: &str) -> (r: String)
    ensures
        r@ == emoted(me@, line@),
{
    if crate::text::same_text(me, "true") {
        concat2("/me ", line)
    } else {
        line.to_owned()
    }
}


/// What a line through the channel's usual path becomes: nothing unless the
/// bot is authorised in the channel (`auth`), and an emote when the channel
/// asks (`me`).
pub fn send_message(auth: &str, me: &str, line: &str) -> (r: Option<String>)
    ensures
        auth@ == "true"@ ==> (r matches Some(l) && l@ == emoted(me@, line@)),
        auth@ != "true"@ ==> r is None,
{
    if crate::text::same_text(auth, "true") {
        Some(emote_line(me, line))
    } else {
        None
    }
}

} // verus!
