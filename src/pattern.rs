//! Regular-expression patterns of a descriptor's `commands` table.
use vstd::prelude::*;

verus! {

/// `regex::Regex`, held opaquely: only `compile` makes one and only `find_in`
/// reads one.
#[verifier::external_type_specification]
#[verifier::external_body]
pub struct ExRegex(regex::Regex);

/// Whether `regex::Regex::new` accepts a pattern (syntax and default size limit);
/// this depends on the pattern text alone.
pub uninterp spec fn pattern_compiles(pattern: Seq<char>) -> bool;

/// Whether a compiled pattern finds a match anywhere in a text.
pub uninterp spec fn pattern_finds(pattern: Seq<char>, text: Seq<char>) -> bool;

/// A compiled regular expression together with the text it was compiled from.
/// The only way to build one is `Pattern::new`, so `re` is always the
/// compilation of `source`.
pub struct Pattern {
    source: String,
    re: regex::Regex,
}

/// Relies on `regex::Regex::new`: it returns `Ok` exactly for the patterns it
/// accepts, and the result is the compiled form of the given text.
#[verifier::external_body]
fn compile(source: &str) -> (r: Option<Pattern>)
    ensures
        r.is_some() == pattern_compiles(source@),
        r matches Some(p) ==> p.source@ == source@,
{
    match regex::Regex::new(source) {
        Ok(re) => Some(Pattern { source: source.to_string(), re }),
        Err(_) => None,
    }
}

/// Relies on `regex::Regex::is_match`: true iff the regex matches somewhere in
/// the haystack.
#[verifier::external_body]
fn find_in(p: &Pattern, text: &str) -> (r: bool)
    ensures
        r == pattern_finds(p.source@, text@),
{
    p.re.is_match(text)
}

impl Pattern {
    /// The pattern text this value was compiled from.
    pub closed spec fn source_view(&self) -> Seq<char> {
        self.source@
    }

    /// Compiles `source`; `None` when the regex engine refuses it.
    pub fn new(source: &str) -> (r: Option<Pattern>)
        ensures
            r.is_some() == pattern_compiles(source@),
            r matches Some(p) ==> p.source_view() == source@,
    {
        compile(source)
    }

    /// The pattern text.
    pub fn as_str(&self) -> (r: &str)
        ensures
            r@ == self.source_view(),
    {
        self.source.as_str()
    }

    /// Whether this pattern matches somewhere in `text`.
    pub fn is_match(&self, text: &str) -> (r: bool)
        ensures
            r == pattern_finds(self.source_view(), text@),
    {
        find_in(self, text)
    }
}

} // verus!
