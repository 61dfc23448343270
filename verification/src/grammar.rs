//! The closed set of grammars and the table from file extensions to them.

use vstd::prelude::*;

verus! {

/// One of the grammars that the service can parse with.
#[derive(Clone, Copy, Debug, PartialEq, Eq, Hash, Structural)]
pub enum ParserId {
    C,
    Cpp,
    CSharp,
    Go,
    Java,
    Javascript,
    Jsonnet,
    Kotlin,
    Python,
    Ruby,
    Rust,
    Scala,
    Typescript,
    Tsx,
    Zig,
}

/// The extension table: the grammar that an extension selects, if any.
/// Matching is exact and case-sensitive; several extensions may select the
/// same grammar.
pub open spec fn grammar_for(ext: Seq<char>) -> Option<ParserId> {
    if ext == "c"@ {
        Some(ParserId::C)
    } else if ext == "cpp"@ || ext == "cc"@ || ext == "cxx"@ || ext == "hpp"@ {
        Some(ParserId::Cpp)
    } else if ext == "cs"@ {
        Some(ParserId::CSharp)
    } else if ext == "go"@ {
        Some(ParserId::Go)
    } else if ext == "java"@ {
        Some(ParserId::Java)
    } else if ext == "js"@ {
        Some(ParserId::Javascript)
    } else if ext == "jsonnet"@ {
        Some(ParserId::Jsonnet)
    } else if ext == "kt"@ {
        Some(ParserId::Kotlin)
    } else if ext == "py"@ {
        Some(ParserId::Python)
    } else if ext == "rb"@ {
        Some(ParserId::Ruby)
    } else if ext == "rs"@ {
        Some(ParserId::Rust)
    } else if ext == "scala"@ {
        Some(ParserId::Scala)
    } else if ext == "ts"@ {
        Some(ParserId::Typescript)
    } else if ext == "tsx"@ {
        Some(ParserId::Tsx)
    } else if ext == "zig"@ {
        Some(ParserId::Zig)
    } else {
        None
    }
}

/// Whether two string slices hold the same text.
fn same_text(a: &str, b: &str) -> (r: bool)
    ensures
        r == (a@ == b@),
{
    a.to_owned() == b.to_owned()
}

impl ParserId {
    /// Looks an extension up in the table.
    pub fn from_file_extension(extension: &str) -> (r: Option<ParserId>)
        ensures
            r == grammar_for(extension@),
    {
        if same_text(extension, "c") {
            Some(ParserId::C)
        } else if same_text(extension, "cpp") || same_text(extension, "cc") || same_text(
            extension,
            "cxx",
        ) || same_text(extension, "hpp") {
            Some(ParserId::Cpp)
        } else if same_text(extension, "cs") {
            Some(ParserId::CSharp)
        } else if same_text(extension, "go") {
            Some(ParserId::Go)
        } else if same_text(extension, "java") {
            Some(ParserId::Java)
        } else if same_text(extension, "js") {
            Some(ParserId::Javascript)
        } else if same_text(extension, "jsonnet") {
            Some(ParserId::Jsonnet)
        } else if same_text(extension, "kt") {
            Some(ParserId::Kotlin)
        } else if same_text(extension, "py") {
            Some(ParserId::Python)
        } else if same_text(extension, "rb") {
            Some(ParserId::Ruby)
        } else if same_text(extension, "rs") {
            Some(ParserId::Rust)
        } else if same_text(extension, "scala") {
            Some(ParserId::Scala)
        } else if same_text(extension, "ts") {
            Some(ParserId::Typescript)
        } else if same_text(extension, "tsx") {
            Some(ParserId::Tsx)
        } else if same_text(extension, "zig") {
            Some(ParserId::Zig)
        } else {
            None
        }
    }
}

} // verus!
