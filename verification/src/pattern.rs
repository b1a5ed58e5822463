//! Regular expressions from configuration, matched with the `regex` crate.

use vstd::prelude::*;
use vstd::string::StringSliceAdditionalSpecFns;

verus! {

/// Whether `regex::Regex::new` accepts `pattern`.
pub uninterp spec fn regex_compiles(pattern: Seq<char>) -> bool;

/// Whether the regex compiled from `pattern` matches somewhere in `text`, as
/// `regex::Regex::is_match` reports it.
pub uninterp spec fn regex_is_match(pattern: Seq<char>, text: Seq<char>) -> bool;

/// Where the first match of the regex compiled from `pattern` in `text`
/// puts capture group `group`, as the byte offsets of its start and end, as
/// `regex::Regex::captures` and `Captures::get` report it; `None` where
/// there is no match or the group took no part in it.
pub uninterp spec fn regex_capture(pattern: Seq<char>, text: Seq<char>, group: nat) -> Option<(nat, nat)>;

/// Calls `regex::Regex::new` and reports whether it succeeded. Trusted: the
/// result is what `regex_compiles` names.
#[verifier::external_body]
fn regex_check(pattern: &str) -> (r: bool)
    ensures
        r == regex_compiles(pattern@),
{
    regex::Regex::new(pattern).is_ok()
}

/// Compiles `pattern` with `regex::Regex::new` and calls `is_match` on
/// `text`. Trusted: the result is present exactly when the pattern compiles,
/// and is then what `regex_is_match` names.
#[verifier::external_body]
fn regex_match(pattern: &str, text: &str) -> (r: Option<bool>)
    ensures
        r is Some <==> regex_compiles(pattern@),
        r matches Some(b) ==> b == regex_is_match(pattern@, text@),
{
    match regex::Regex::new(pattern) {
        Ok(re) => Some(re.is_match(text)),
        Err(_) => None,
    }
}

/// Compiles `pattern` with `regex::Regex::new` and asks `captures` on
/// `text` for the span of group `group`. Trusted: the result is present
/// exactly when the pattern compiles, and then gives the span that
/// `regex_capture` names, whose offsets the regex crate documents as byte
/// offsets into `text`, the start at most the end.
#[verifier::external_body]
fn regex_captures(pattern: &str, text: &str, group: usize) -> (r: Option<Option<(usize, usize)>>)
    ensures
        r is Some <==> regex_compiles(pattern@),
        r matches Some(c) ==> match c {
            Some((a, b)) => regex_capture(pattern@, text@, group as nat) == Some((a as nat, b as nat))
                && a <= b <= text.spec_bytes().len(),
            None => regex_capture(pattern@, text@, group as nat) is None,
        },
{
    match regex::Regex::new(pattern) {
        Ok(re) => match re.captures(text) {
            Some(c) => match c.get(group) {
                Some(m) => Some(Some((m.start(), m.end()))),
                None => Some(None),
            },
            None => Some(None),
        },
        Err(_) => None,
    }
}

/// A regular expression that compiles.
pub struct Pattern {
    source: String,
}

impl View for Pattern {
    type V = Seq<char>;

    closed spec fn view(&self) -> Seq<char> {
        self.source@
    }
}

impl Pattern {
    #[verifier::type_invariant]
    closed spec fn compiles(self) -> bool {
        regex_compiles(self.source@)
    }

    /// The pattern, if the regex crate accepts it.
    pub fn new(source: &str) -> (r: Option<Pattern>)
        ensures
            r is Some <==> regex_compiles(source@),
            r matches Some(p) ==> p@ == source@,
    {
        if regex_check(source) {
            Some(Pattern { source: source.to_owned() })
        } else {
            None
        }
    }

    /// The text of the pattern.
    pub fn as_str(&self) -> (r: &str)
        ensures
            r@ == self@,
    {
        self.source.as_str()
    }

    /// The bytes of `text` that capture group `group` takes in the first
    /// match, if there is a match and the group takes part in it.
    pub fn capture<'a>(&self, text: &'a str, group: usize) -> (r: Option<&'a [u8]>)
        ensures
            match regex_capture(self@, text@, group as nat) {
                Some((a, b)) => r matches Some(t) && a <= b <= text.spec_bytes().len() && t@
                    == text.spec_bytes().subrange(a as int, b as int),
                None => r is None,
            },
    {
        proof {
            use_type_invariant(self);
        }
        match regex_captures(self.source.as_str(), text, group) {
            Some(Some((a, b))) => Some(&text.as_bytes()[a..b]),
            _ => None,
        }
    }

    /// Whether the pattern matches somewhere in `text`.
    pub fn is_match(&self, text: &str) -> (r: bool)
        ensures
            r == regex_is_match(self@, text@),
    {
        proof {
            use_type_invariant(self);
        }
        match regex_match(self.source.as_str(), text) {
            Some(b) => b,
            None => false,
        }
    }
}

} // verus!
