use vstd::prelude::*;

verus! {

#[verifier::external_type_specification]
#[verifier::external_body]
pub struct ExRegex(regex::Regex);

/// Whether the regex crate accepts `source` as a pattern.
pub uninterp spec fn pattern_compiles(source: Seq<char>) -> bool;

/// The groups of the first match of the pattern `source` in `text`, group 0
/// being the whole match, with an empty text for a group that took no part;
/// `None` where the pattern does not match.
pub uninterp spec fn captured_groups(source: Seq<char>, text: Seq<char>) -> Option<Seq<Seq<char>>>;

/// A compiled regular expression, kept together with the text it was compiled from.
pub struct Pattern {
    regex: regex::Regex,
    source: String,
}

impl Pattern {
    /// The text the pattern was compiled from.
    pub closed spec fn source(&self) -> Seq<char> {
        self.source@
    }

    /// Relies on `regex::Regex::new`: it compiles `source`, or reports that it
    /// cannot, and the outcome depends on the text alone.
    #[verifier::external_body]
    pub(crate) fn compile(source: &str) -> (r: Option<Pattern>)
        ensures
            r.is_some() == pattern_compiles(source@),
            r matches Some(p) ==> p.source() == source@,
    {
        match regex::Regex::new(source) {
            Ok(regex) => Some(Pattern { regex, source: source.to_string() }),
            Err(_) => None,
        }
    }

    /// Relies on `regex::Regex::captures`: the groups of the first match of the
    /// compiled pattern in `text`, each as its text.
    #[verifier::external_body]
    pub(crate) fn captures(&self, text: &str) -> (r: Option<Vec<String>>)
        ensures
            match r {
                Some(v) => captured_groups(self.source(), text@) == Some(v.deep_view()),
                None => captured_groups(self.source(), text@) is None,
            },
    {
        self.regex.captures(text).map(
            |caps| caps.iter().map(|m| m.map_or("", |m| m.as_str()).to_string()).collect(),
        )
    }
}

} // verus!
