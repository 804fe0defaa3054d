use vstd::prelude::*;

verus! {

#[verifier::external_type_specification]
#[verifier::external_body]
pub struct ExPattern(glob::Pattern);

#[verifier::external_type_specification]
#[verifier::external_body]
pub struct ExPatternError(glob::PatternError);

/// Whether glob accepts `source` as a shell-style pattern.
pub uninterp spec fn glob_valid(source: Seq<char>) -> bool;

/// Whether the glob pattern written `source` matches `text` under glob's
/// default match options.
pub uninterp spec fn glob_matches(source: Seq<char>, text: Seq<char>) -> bool;

/// Relies on glob::Pattern::new: compiles a pattern, or refuses it when its
/// syntax is invalid; it does not panic.
#[verifier::external_body]
fn compile_glob(source: &str) -> (r: Result<glob::Pattern, glob::PatternError>)
    ensures
        r is Ok <==> glob_valid(source@),
{
    glob::Pattern::new(source)
}

/// A pattern whose syntax glob refuses.
#[derive(Debug)]
pub struct InvalidPattern {
    pub pattern: String,
}

/// A compiled glob pattern together with the text it was compiled from.
/// Both fields are private, so every value comes out of `GlobPattern::new`
/// and `compiled` is always what glob made of `source`.
pub struct GlobPattern {
    source: String,
    compiled: glob::Pattern,
}

impl View for GlobPattern {
    type V = Seq<char>;

    closed spec fn view(&self) -> Seq<char> {
        self.source@
    }
}

impl GlobPattern {
    /// Compiles `source`; fails exactly when glob refuses its syntax.
    pub fn new(source: &str) -> (r: Result<GlobPattern, InvalidPattern>)
        ensures
            r is Ok <==> glob_valid(source@),
            r matches Ok(p) ==> p@ == source@,
            r matches Err(e) ==> e.pattern@ == source@,
    {
        match compile_glob(source) {
            Ok(compiled) => Ok(GlobPattern { source: source.to_owned(), compiled }),
            Err(_) => Err(InvalidPattern { pattern: source.to_owned() }),
        }
    }

    /// Relies on glob::Pattern::matches: whether the pattern matches the whole
    /// of `text`, a function of the pattern's text and of `text` alone.
    #[verifier::external_body]
    pub(crate) fn matches(&self, text: &str) -> (r: bool)
        ensures
            r == glob_matches(self@, text@),
    {
        self.compiled.matches(text)
    }
}

} // verus!
