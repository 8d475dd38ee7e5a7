//! Language resolution and the parser boundary.

use crate::ast::CodeNode;
use crate::error::Error;
use vstd::prelude::*;

verus! {

/// The supported source languages.
#[derive(Debug, Clone, Copy, PartialEq, Eq, Structural)]
pub enum Language {
    C,
    Cpp,
    Python,
    Rust,
    CSharp,
}

/// The lower-case form of `s`, as `str::to_lowercase` gives it.
pub uninterp spec fn lower_of(s: Seq<char>) -> Seq<char>;

/// Relies on `str::to_lowercase`: the lower-case mapping of the characters,
/// which depends on the characters alone.
#[verifier::external_body]
fn lowercase(s: &str) -> (r: String)
    ensures
        r@ == lower_of(s@),
{
    s.to_lowercase()
}

/// The language that a lower-case name or alias denotes, if any.
pub open spec fn language_named(name: Seq<char>) -> Option<Language> {
    if name == "c"@ {
        Some(Language::C)
    } else if name == "cpp"@ || name == "c++"@ {
        Some(Language::Cpp)
    } else if name == "python"@ || name == "py"@ {
        Some(Language::Python)
    } else if name == "rust"@ || name == "rs"@ {
        Some(Language::Rust)
    } else if name == "csharp"@ || name == "c#"@ || name == "cs"@ {
        Some(Language::CSharp)
    } else {
        None
    }
}

/// `r` is the outcome of resolving `input`, whose lower-case form is `folded`:
/// the language that `folded` names, or an error that carries `input` verbatim.
pub open spec fn resolves(folded: Seq<char>, input: Seq<char>, r: Result<Language, Error>) -> bool {
    match language_named(folded) {
        Some(l) => r == Ok::<Language, Error>(l),
        None => r matches Err(e) && e.is_unsupported_language(input),
    }
}

/// The file extensions that belong to a language.
pub open spec fn extensions_of(l: Language) -> Seq<Seq<char>> {
    match l {
        Language::C => seq!["c"@, "h"@],
        Language::Cpp => seq!["cpp"@, "cc"@, "cxx"@, "hpp"@, "h"@],
        Language::Python => seq!["py"@],
        Language::Rust => seq!["rs"@],
        Language::CSharp => seq!["cs"@],
    }
}

/// Whether two strings hold the same characters.
fn same_chars(a: &str, b: &str) -> (r: bool)
    ensures
        r == (a@ == b@),
{
    let n = a.unicode_len();
    if n != b.unicode_len() {
        return false;
    }
    let mut i: usize = 0;
    while i < n
        invariant
            n == a@.len(),
            n == b@.len(),
            i <= n,
            a@.subrange(0, i as int) == b@.subrange(0, i as int),
        decreases n - i,
    {
        if a.get_char(i) != b.get_char(i) {
            return false;
        }
        assert(a@.subrange(0, i + 1) == a@.subrange(0, i as int).push(a@[i as int]));
        assert(b@.subrange(0, i + 1) == b@.subrange(0, i as int).push(b@[i as int]));
        i = i + 1;
    }
    assert(a@ == a@.subrange(0, n as int));
    assert(b@ == b@.subrange(0, n as int));
    true
}

impl Language {
    /// Resolves a name that is already in lower case; `input` is the name as
    /// the caller gave it, carried verbatim in the error.
    pub fn from_folded(folded: &str, input: &str) -> (r: Result<Self, Error>)
        ensures
            resolves(folded@, input@, r),
    {
        proof {
            reveal_strlit("c");
            reveal_strlit("cpp");
            reveal_strlit("c++");
            reveal_strlit("python");
            reveal_strlit("py");
            reveal_strlit("rust");
            reveal_strlit("rs");
            reveal_strlit("csharp");
            reveal_strlit("c#");
            reveal_strlit("cs");
        }
        if same_chars(folded, "c") {
            Ok(Language::C)
        } else if same_chars(folded, "cpp") || same_chars(folded, "c++") {
            Ok(Language::Cpp)
        } else if same_chars(folded, "python") || same_chars(folded, "py") {
            Ok(Language::Python)
        } else if same_chars(folded, "rust") || same_chars(folded, "rs") {
            Ok(Language::Rust)
        } else if same_chars(folded, "csharp") || same_chars(folded, "c#") || same_chars(folded, "cs") {
            Ok(Language::CSharp)
        } else {
            Err(Error::UnsupportedLanguage(input.to_string()))
        }
    }

    /// Resolves a language name or alias, ignoring case.
    pub fn from_str(s: &str) -> (r: Result<Self, Error>)
        ensures
            resolves(lower_of(s@), s@, r),
    {
        let folded = lowercase(s);
        Language::from_folded(folded.as_str(), s)
    }

    /// The file extensions of this language.
    pub fn file_extensions(&self) -> (r: &'static [&'static str])
        ensures
            r@.len() == extensions_of(*self).len(),
            forall|i: int| 0 <= i < r@.len() ==> (#[trigger] r@[i])@ == extensions_of(*self)[i],
    {
        proof {
            reveal_strlit("c");
            reveal_strlit("h");
            reveal_strlit("cpp");
            reveal_strlit("cc");
            reveal_strlit("cxx");
            reveal_strlit("hpp");
            reveal_strlit("py");
            reveal_strlit("rs");
            reveal_strlit("cs");
        }
        match self {
            Language::C => &["c", "h"],
            Language::Cpp => &["cpp", "cc", "cxx", "hpp", "h"],
            Language::Python => &["py"],
            Language::Rust => &["rs"],
            Language::CSharp => &["cs"],
        }
    }
}

/// Produces the nodes of a source file for one language.
pub struct Parser {
    language: Language,
}

impl Parser {
    /// Creates a parser for `language`.
    pub fn new(language: Language) -> (r: Self)
        ensures
            r.spec_language() == language,
    {
        Parser { language }
    }

    /// The language this parser reads.
    pub closed spec fn spec_language(self) -> Language {
        self.language
    }

    /// The language this parser reads.
    pub fn language(&self) -> (r: Language)
        ensures
            r == self.spec_language(),
    {
        self.language
    }

    /// Parses `source` into its top-level nodes.
    ///
    /// No grammar engine is attached yet, so every supported language yields
    /// an empty node sequence.
    pub fn parse(&self, _source: &str) -> (r: Result<Vec<CodeNode>, Error>)
        ensures
            r matches Ok(v) && v@.len() == 0,
    {
        match self.language {
            Language::C | Language::Cpp | Language::Python | Language::Rust | Language::CSharp => {
                Ok(Vec::new())
            },
        }
    }
}

} // verus!
