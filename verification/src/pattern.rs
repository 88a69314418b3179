//! Regular expressions, through the `regex` crate.
use vstd::prelude::*;

verus! {

/// `regex::Regex`, carried through as it is.
#[verifier::external_type_specification]
#[verifier::external_body]
pub struct ExRegex(regex::Regex);

/// Whether `regex::Regex::new` accepts the pattern.
pub uninterp spec fn regex_compiles(pattern: Seq<char>) -> bool;

/// Whether `regex::RegexBuilder` accepts the pattern with case-insensitive
/// matching turned on.
pub uninterp spec fn regex_compiles_folded(pattern: Seq<char>) -> bool;

/// Whether the compiled pattern (case-insensitive when `folded`) matches
/// somewhere in `text` (`Regex::is_match`).
pub uninterp spec fn regex_is_match(pattern: Seq<char>, folded: bool, text: Seq<char>) -> bool;

/// The successive non-overlapping matches of the pattern in `text`
/// (`Regex::captures_iter`): for each, the matched text and the text of its
/// first group, when the group took part.
pub uninterp spec fn regex_captures(pattern: Seq<char>, folded: bool, text: Seq<char>) -> Seq<
    (Seq<char>, Option<Seq<char>>),
>;

/// `text` with its leftmost match of the pattern replaced by `rep` taken
/// literally (`Regex::replace` with `NoExpand`).
pub uninterp spec fn regex_replace_first(
    pattern: Seq<char>,
    folded: bool,
    text: Seq<char>,
    rep: Seq<char>,
) -> Seq<char>;

/// `regex::escape`: the pattern that matches `text` literally.
pub uninterp spec fn regex_escape(text: Seq<char>) -> Seq<char>;

/// A compiled regular expression with the pattern it was compiled from.
pub struct Pattern {
    re: regex::Regex,
    source: Ghost<Seq<char>>,
    folded: Ghost<bool>,
}

impl View for Pattern {
    /// The pattern and whether it matches case-insensitively.
    type V = (Seq<char>, bool);

    closed spec fn view(&self) -> (Seq<char>, bool) {
        (self.source@, self.folded@)
    }
}

/// `regex::Regex::new`: a regex when the pattern compiles.
#[verifier::external_body]
fn regex_new(pattern: &str) -> (r: Option<regex::Regex>)
    ensures
        r is Some <==> regex_compiles(pattern@),
{
    regex::Regex::new(pattern).ok()
}

/// `regex::RegexBuilder::new(pattern).case_insensitive(true).build()`: a
/// regex when the pattern compiles, else the error's message (whose text is
/// not stated here).
#[verifier::external_body]
fn regex_build_folded(pattern: &str) -> (r: Result<regex::Regex, String>)
    ensures
        r is Ok <==> regex_compiles_folded(pattern@),
{
    match regex::RegexBuilder::new(pattern).case_insensitive(true).build() {
        Ok(re) => Ok(re),
        Err(e) => Err(e.to_string()),
    }
}

/// `Regex::is_match`.
#[verifier::external_body]
fn regex_test(re: &Pattern, text: &str) -> (b: bool)
    ensures
        b == regex_is_match(re@.0, re@.1, text@),
{
    re.re.is_match(text)
}

/// `Regex::captures_iter`, each match given as its text and the text of
/// group 1: the matches are the ones `is_match` finds, so there are none
/// exactly when it finds none.
#[verifier::external_body]
fn regex_captures_of(re: &Pattern, text: &str) -> (r: Vec<(String, Option<String>)>)
    ensures
        r@.map_values(|c: (String, Option<String>)| (c.0@, crate::action::opt_view(c.1)))
            == regex_captures(re@.0, re@.1, text@),
        r@.len() == 0 <==> !regex_is_match(re@.0, re@.1, text@),
{
    re.re.captures_iter(text).map(|c| (c[0].to_string(), c.get(1).map(|m| m.as_str().to_string()))).collect()
}

/// `Regex::replace` with a literal replacement: the text with its leftmost
/// match replaced by `rep`, and unchanged when the pattern does not match.
#[verifier::external_body]
fn regex_replace_once(re: &Pattern, text: &str, rep: &str) -> (r: String)
    ensures
        r@ == regex_replace_first(re@.0, re@.1, text@, rep@),
        !regex_is_match(re@.0, re@.1, text@) ==> r@ == text@,
{
    re.re.replace(text, regex::NoExpand(rep)).into_owned()
}

/// `regex::escape`. Whether its result compiles is left unsaid: a long
/// enough literal exceeds the regex crate's size limit.
#[verifier::external_body]
fn regex_escape_text(text: &str) -> (r: String)
    ensures
        r@ == regex_escape(text@),
{
    regex::escape(text)
}

impl Pattern {
    /// Compiles `pattern`; `None` when it is not a valid regular expression.
    pub fn compile(pattern: &str) -> (r: Option<Pattern>)
        ensures
            r is Some <==> regex_compiles(pattern@),
            r matches Some(p) ==> p@ == (pattern@, false),
    {
        match regex_new(pattern) {
            Some(re) => Some(Pattern { re, source: Ghost(pattern@), folded: Ghost(false) }),
            None => None,
        }
    }

    /// Compiles `pattern` to match case-insensitively; the error's message
    /// when it is not a valid regular expression.
    pub fn compile_folded(pattern: &str) -> (r: Result<Pattern, String>)
        ensures
            r is Ok <==> regex_compiles_folded(pattern@),
            r matches Ok(p) ==> p@ == (pattern@, true),
    {
        match regex_build_folded(pattern) {
            Ok(re) => Ok(Pattern { re, source: Ghost(pattern@), folded: Ghost(true) }),
            Err(e) => Err(e),
        }
    }

    /// The pattern matches somewhere in `text`.
    pub fn is_match(&self, text: &str) -> (b: bool)
        ensures
            b == regex_is_match(self@.0, self@.1, text@),
    {
        regex_test(self, text)
    }

    /// The matches in `text`: the matched text and the text of group 1.
    pub fn captures(&self, text: &str) -> (r: Vec<(String, Option<String>)>)
        ensures
            r@.map_values(|c: (String, Option<String>)| (c.0@, crate::action::opt_view(c.1)))
                == regex_captures(self@.0, self@.1, text@),
            r@.len() == 0 <==> !regex_is_match(self@.0, self@.1, text@),
    {
        regex_captures_of(self, text)
    }

    /// `text` with its leftmost match replaced by `rep`.
    pub fn replace_first(&self, text: &str, rep: &str) -> (r: String)
        ensures
            r@ == regex_replace_first(self@.0, self@.1, text@, rep@),
            !regex_is_match(self@.0, self@.1, text@) ==> r@ == text@,
    {
        regex_replace_once(self, text, rep)
    }
}

/// The pattern that matches `text` literally.
pub fn escape(text: &str) -> (r: String)
    ensures
        r@ == regex_escape(text@),
{
    regex_escape_text(text)
}

} // verus!
