//! Regular expressions that a user configures (such as the pattern of video
//! file names), compiled and matched by the `regex` crate.
use vstd::prelude::*;

verus! {

/// Whether `regex::Regex::new` accepts the pattern (valid syntax, within the
/// crate's size limits). A function of the pattern alone.
pub uninterp spec fn regex_compiles(pattern: Seq<char>) -> bool;

/// Whether `regex::Regex::is_match` finds a match of the pattern anywhere in
/// the text. A function of the pattern and the text alone.
pub uninterp spec fn regex_is_match(pattern: Seq<char>, text: Seq<char>) -> bool;

/// A compiled regular expression with the text it was compiled from. Only
/// `Pattern::new` makes one, so `re` is always the compilation of `source`.
pub struct Pattern {
    source: String,
    re: regex::Regex,
}

/// `regex::Regex::new`: compiles `source`; an error when the syntax is invalid
/// or the compiled form exceeds the crate's size limit. The contract claims
/// that success depends on the pattern alone and that the result keeps the
/// source it was compiled from.
#[verifier::external_body]
fn compile_regex(source: String) -> (res: Result<Pattern, regex::Error>)
    ensures
        res is Ok <==> regex_compiles(source@),
        res matches Ok(p) ==> p.source@ == source@,
{
    match regex::Regex::new(source.as_str()) {
        Ok(re) => Ok(Pattern { source, re }),
        Err(e) => Err(e),
    }
}

/// `regex::Regex::is_match`: whether the compiled pattern matches somewhere in
/// `text`. The contract claims the answer is a function of the pattern's
/// source and the text.
#[verifier::external_body]
fn regex_find_in(p: &Pattern, text: &str) -> (res: bool)
    ensures
        res == regex_is_match(p.source@, text@),
{
    p.re.is_match(text)
}

impl Pattern {
    /// The text the pattern was compiled from.
    pub closed spec fn source_text(&self) -> Seq<char> {
        self.source@
    }

    /// Compiles `source`; `Err` exactly when the `regex` crate refuses it.
    pub fn new(source: String) -> (res: Result<Pattern, regex::Error>)
        ensures
            res is Ok <==> regex_compiles(source@),
            res matches Ok(p) ==> p.source_text() == source@,
    {
        compile_regex(source)
    }

    /// Whether the pattern matches somewhere in `text`.
    pub fn is_match(&self, text: &str) -> (res: bool)
        ensures
            res == regex_is_match(self.source_text(), text@),
    {
        regex_find_in(self, text)
    }

    pub fn source(&self) -> (res: &str)
        ensures
            res@ == self.source_text(),
    {
        self.source.as_str()
    }
}

} // verus!
