//! Domain globs: shell-style patterns (`*`, `?`, character classes) matched
//! against the whole `Host` header, case-sensitively.

use vstd::prelude::*;

verus! {

/// Whether `glob` accepts `pattern` as a pattern.
pub uninterp spec fn glob_valid(pattern: Seq<char>) -> bool;

/// Whether the pattern `pattern` matches all of `text`, under `glob`'s default
/// match options (case-sensitive; `/` and a leading `.` are ordinary).
pub uninterp spec fn glob_matches(pattern: Seq<char>, text: Seq<char>) -> bool;

#[verifier::external_type_specification]
#[verifier::external_body]
pub struct ExPattern(glob::Pattern);

/// Relies on `glob::Pattern::new`: compiles `pattern`, failing on the texts
/// that `glob` rejects.
#[verifier::external_body]
fn compile_glob(pattern: &str) -> (r: Option<glob::Pattern>)
    ensures
        r is Some <==> glob_valid(pattern@),
{
    glob::Pattern::new(pattern).ok()
}

/// A compiled domain glob together with its text. Only `DomainGlob::new`
/// builds one, so the compiled pattern is always the one of `source`.
#[derive(Debug)]
pub struct DomainGlob {
    source: String,
    pattern: glob::Pattern,
}

impl DomainGlob {
    /// The pattern's text.
    pub closed spec fn source(&self) -> Seq<char> {
        self.source@
    }

    /// Compiles `domain`; an invalid pattern is handed back as the error.
    pub fn new(domain: String) -> (r: Result<DomainGlob, String>)
        ensures
            r is Ok <==> glob_valid(domain@),
            r matches Ok(g) ==> g.source() == domain@,
            r matches Err(d) ==> d == domain,
    {
        match compile_glob(domain.as_str()) {
            Some(pattern) => Ok(DomainGlob { source: domain, pattern }),
            None => Err(domain),
        }
    }

    /// The pattern's text.
    pub fn as_str(&self) -> (r: &str)
        ensures
            r@ == self.source(),
    {
        self.source.as_str()
    }

    /// Relies on `glob::Pattern::matches` (default options) of the pattern
    /// compiled from `source`.
    #[verifier::external_body]
    pub fn matches(&self, host: &str) -> (r: bool)
        ensures
            r == glob_matches(self.source(), host@),
    {
        self.pattern.matches(host)
    }
}

} // verus!
