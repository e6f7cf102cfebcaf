//! Regular expressions, as the assertion tools use them: compiled once from a
//! pattern, then asked whether a text holds a match.

use vstd::prelude::*;

use crate::text::owned;

verus! {

#[verifier::external_type_specification]
#[verifier::external_body]
pub struct ExRegex(regex::Regex);

/// What compiling `pattern` reports: nothing when it compiles, else the
/// compiler's error message.
pub uninterp spec fn regex_compile_error(pattern: Seq<char>) -> Option<Seq<char>>;

/// Whether the regular expression `pattern` matches somewhere in `haystack`.
pub uninterp spec fn regex_finds_match(pattern: Seq<char>, haystack: Seq<char>) -> bool;

/// Compiles `pattern`.
///
/// Trusted: calls `regex::Regex::new`, whose result depends on the pattern
/// alone; a failure is handed back as the error's display text. The contract
/// names both outcomes by `regex_compile_error` and says no more of them.
#[verifier::external_body]
fn regex_new(pattern: &str) -> (r: Result<regex::Regex, String>)
    ensures
        r is Ok <==> regex_compile_error(pattern@) is None,
        r matches Err(message) ==> regex_compile_error(pattern@) == Some(message@),
{
    regex::Regex::new(pattern).map_err(|error| error.to_string())
}

/// A compiled regular expression, with the pattern it was compiled from.
pub struct CompiledRegex {
    pattern: String,
    regex: regex::Regex,
}

impl View for CompiledRegex {
    type V = Seq<char>;

    closed spec fn view(&self) -> Seq<char> {
        self.pattern@
    }
}

/// Whether a compiled regular expression matches somewhere in `haystack`.
///
/// Trusted: calls `regex::Regex::is_match` on the expression compiled from the
/// pattern `re@`; the contract names the result by `regex_finds_match`.
#[verifier::external_body]
fn compiled_is_match(re: &CompiledRegex, haystack: &str) -> (r: bool)
    ensures
        r == regex_finds_match(re@, haystack@),
{
    re.regex.is_match(haystack)
}

impl CompiledRegex {
    /// Compiles `pattern`; on failure, the compiler's message.
    pub fn compile(pattern: &str) -> (r: Result<CompiledRegex, String>)
        ensures
            match regex_compile_error(pattern@) {
                None => r matches Ok(re) && re@ == pattern@,
                Some(message) => r matches Err(m) && m@ == message,
            },
    {
        match regex_new(pattern) {
            Ok(regex) => Ok(CompiledRegex { pattern: owned(pattern), regex }),
            Err(message) => Err(message),
        }
    }

    /// Whether the expression matches somewhere in `haystack`.
    pub fn is_match(&self, haystack: &str) -> (r: bool)
        ensures
            r == regex_finds_match(self@, haystack@),
    {
        compiled_is_match(self, haystack)
    }

    /// The pattern the expression was compiled from.
    pub fn as_str(&self) -> (r: &str)
        ensures
            r@ == self@,
    {
        self.pattern.as_str()
    }
}

} // verus!
