use vstd::prelude::*;

verus! {

#[verifier::external_type_specification]
#[verifier::external_body]
pub struct ExRegex(regex::Regex);

#[verifier::external_type_specification]
#[verifier::external_body]
pub struct ExRegexError(regex::Error);

/// Whether `regex::Regex::new` accepts `pattern`: it is valid syntax and the
/// compiled program stays within the crate's default size limit.
pub uninterp spec fn regex_accepts(pattern: Seq<char>) -> bool;

/// Whether the regex compiled from `pattern` finds a match anywhere in `text`
/// (`regex::Regex::is_match`).
pub uninterp spec fn regex_finds(pattern: Seq<char>, text: Seq<char>) -> bool;

/// A compiled regular expression together with the text it was compiled from.
struct Pattern {
    source: String,
    compiled: regex::Regex,
}

impl View for Pattern {
    type V = Seq<char>;

    closed spec fn view(&self) -> Seq<char> {
        self.source@
    }
}

impl Pattern {
    /// Compiles `source` with `regex::Regex::new`.
    ///
    /// Trusted: the contract claims that the call succeeds exactly on the
    /// patterns that `regex_accepts` names, and that a compiled pattern keeps
    /// `source` as its text; which patterns those are is left unsaid.
    #[verifier::external_body]
    fn compile(source: &str) -> (r: Result<Pattern, regex::Error>)
        ensures
            r is Ok <==> regex_accepts(source@),
            r matches Ok(p) ==> p@ == source@,
    {
        match regex::Regex::new(source) {
            Ok(compiled) => Ok(Pattern { source: source.to_string(), compiled }),
            Err(e) => Err(e),
        }
    }

    /// Searches `text` with `regex::Regex::is_match`.
    ///
    /// Trusted: the contract claims that the answer is `regex_finds` of the
    /// pattern's text and of `text`, a function of the two alone; what it is on
    /// given values is left unsaid.
    #[verifier::external_body]
    fn is_match(&self, text: &str) -> (r: bool)
        ensures
            r == regex_finds(self@, text@),
    {
        self.compiled.is_match(text)
    }
}

/// The outcome of searching `text` for `pattern`: `None` when the pattern does
/// not compile, else whether it is found.
pub open spec fn search_outcome(pattern: Seq<char>, text: Seq<char>) -> Option<bool> {
    if regex_accepts(pattern) {
        Some(regex_finds(pattern, text))
    } else {
        None
    }
}

/// Compiles `pattern` and searches `text` for it.
pub fn search(pattern: &str, text: &str) -> (r: Option<bool>)
    ensures
        r == search_outcome(pattern@, text@),
{
    match Pattern::compile(pattern) {
        Ok(p) => Some(p.is_match(text)),
        Err(_) => None,
    }
}

/// A pattern that compiles is searched for in the whole text, whatever its
/// length; a pattern that does not compile gives no outcome.
pub proof fn lemma_search_whole_text(pattern: Seq<char>, text: Seq<char>)
    ensures
        regex_accepts(pattern) ==> search_outcome(pattern, text) == Some(regex_finds(pattern, text)),
        !regex_accepts(pattern) ==> search_outcome(pattern, text) is None,
{
}

} // verus!
