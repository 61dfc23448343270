//! From a file name to the grammar that parses it.

use vstd::prelude::*;
use crate::grammar::{grammar_for, ParserId};

verus! {

/// Why no grammar could be chosen for a file name.
#[derive(Clone, Copy, Debug, PartialEq, Eq, Structural)]
pub enum ResolveError {
    /// The file name has no extension.
    ExtensionlessFile,
    /// The extension is not valid text.
    InvalidExtensionEncoding,
    /// No grammar is registered for the extension.
    UnsupportedExtension,
}

impl ResolveError {
    /// The message that a response carries for this error.
    pub open spec fn message_text(self) -> Seq<char> {
        match self {
            ResolveError::ExtensionlessFile => "Extensionless file"@,
            ResolveError::InvalidExtensionEncoding => "Invalid codepoint"@,
            ResolveError::UnsupportedExtension => "Could not infer parser from extension"@,
        }
    }

    /// The message as an owned string.
    pub fn message(&self) -> (r: String)
        ensures
            r@ == self.message_text(),
    {
        match self {
            ResolveError::ExtensionlessFile => "Extensionless file".to_owned(),
            ResolveError::InvalidExtensionEncoding => "Invalid codepoint".to_owned(),
            ResolveError::UnsupportedExtension => "Could not infer parser from extension".to_owned(),
        }
    }
}

/// What looking for the extension of a path found.
#[derive(Clone, Debug, PartialEq, Eq)]
pub enum ExtensionLookup {
    /// The path has no extension.
    Absent,
    /// The path has an extension that is not valid text.
    NotText,
    /// The extension, without its leading dot.
    Text(String),
}

/// Mathematical model of an [`ExtensionLookup`].
pub enum LookupModel {
    Absent,
    NotText,
    Text(Seq<char>),
}

impl View for ExtensionLookup {
    type V = LookupModel;

    open spec fn view(&self) -> LookupModel {
        match *self {
            ExtensionLookup::Absent => LookupModel::Absent,
            ExtensionLookup::NotText => LookupModel::NotText,
            ExtensionLookup::Text(e) => LookupModel::Text(e@),
        }
    }
}

/// The grammar, or the error, that a lookup leads to.
pub open spec fn resolution(lookup: LookupModel) -> Result<ParserId, ResolveError> {
    match lookup {
        LookupModel::Absent => Err(ResolveError::ExtensionlessFile),
        LookupModel::NotText => Err(ResolveError::InvalidExtensionEncoding),
        LookupModel::Text(e) => match grammar_for(e) {
            Some(p) => Ok(p),
            None => Err(ResolveError::UnsupportedExtension),
        },
    }
}

/// `ext` stands in `path` directly behind a dot.
pub open spec fn follows_dot(path: Seq<char>, ext: Seq<char>) -> bool {
    exists|i: int|
        0 <= i && i + 1 + ext.len() <= path.len() && path[i] == '.' && #[trigger] path.subrange(
            i + 1,
            i + 1 + ext.len(),
        ) == ext
}

/// A path that is one plain file name: not empty, not the parent
/// directory, and free of separators and drive marks.
pub open spec fn is_bare_name(path: Seq<char>) -> bool {
    &&& path.len() > 0
    &&& path != seq!['.', '.']
    &&& !path.contains('/')
    &&& !path.contains('\\')
    &&& !path.contains(':')
}

/// A file name without an extension: it has no dot behind its first
/// character.
pub open spec fn is_extensionless(name: Seq<char>) -> bool {
    forall|i: int| 0 < i < name.len() ==> name[i] != '.'
}

/// `ext` is the extension of the file name `name`: what follows its last
/// dot, where that dot is not the first character.
pub open spec fn is_extension_of(name: Seq<char>, ext: Seq<char>) -> bool {
    exists|i: int|
        0 < i < name.len() && name[i] == '.' && !ext.contains('.') && #[trigger] name.subrange(
            i + 1,
            name.len() as int,
        ) == ext
}

/// A lookup that the path `path` can have led to.
///
/// For any path: there is no extension without a dot, and an extension
/// holds no dot and follows one in the path. For a bare file name the
/// lookup is decided: absent where the name is extensionless, else the
/// text behind the last dot.
pub open spec fn lookup_fits(path: Seq<char>, lookup: LookupModel) -> bool {
    &&& !path.contains('.') ==> lookup is Absent
    &&& lookup matches LookupModel::Text(e) ==> !e.contains('.') && follows_dot(path, e)
    &&& is_bare_name(path) ==> if is_extensionless(path) {
        lookup is Absent
    } else {
        lookup matches LookupModel::Text(e) && is_extension_of(path, e)
    }
}

/// Calls `std::path::Path::extension` on the file name and
/// `OsStr::to_str` on what it finds.
///
/// Trusted: the extension is the part of the final component behind its
/// last dot, and there is none where that component has no dot or only a
/// leading one. So a path without any dot has no extension, and an
/// extension that is found holds no dot and stands in the path directly
/// behind one. A path that is a single plain file name is its own final
/// component, and a part of valid text cut at a dot is valid text; which
/// component is the final one in any other path is left to the platform's
/// path rules.
#[verifier::external_body]
fn path_extension(filename: &str) -> (r: ExtensionLookup)
    ensures
        lookup_fits(filename@, r@),
{
    match std::path::Path::new(filename).extension() {
        None => ExtensionLookup::Absent,
        Some(e) => match e.to_str() {
            None => ExtensionLookup::NotText,
            Some(s) => ExtensionLookup::Text(s.to_owned()),
        },
    }
}

/// Chooses the grammar for the outcome of an extension lookup.
pub fn resolve_extension(lookup: &ExtensionLookup) -> (r: Result<ParserId, ResolveError>)
    ensures
        r == resolution(lookup@),
{
    match lookup {
        ExtensionLookup::Absent => Err(ResolveError::ExtensionlessFile),
        ExtensionLookup::NotText => Err(ResolveError::InvalidExtensionEncoding),
        ExtensionLookup::Text(e) => match ParserId::from_file_extension(e.as_str()) {
            Some(p) => Ok(p),
            None => Err(ResolveError::UnsupportedExtension),
        },
    }
}

/// Chooses the grammar for a file name by its extension.
///
/// The result is the resolution of some lookup that fits the name: a
/// name without a dot is always extensionless, and a bare file name is
/// resolved by the text behind its last dot.
pub fn resolve_filename(filename: &str) -> (r: Result<ParserId, ResolveError>)
    ensures
        exists|lookup: LookupModel| #[trigger]
            lookup_fits(filename@, lookup) && r == resolution(lookup),
        !filename@.contains('.') ==> r == Err::<ParserId, ResolveError>(
            ResolveError::ExtensionlessFile,
        ),
{
    let lookup = path_extension(filename);
    resolve_extension(&lookup)
}

/// Every extension in the table resolves to its grammar, and every other
/// text is unsupported.
pub proof fn lemma_table_decides(ext: Seq<char>)
    ensures
        grammar_for(ext) matches Some(p) ==> resolution(LookupModel::Text(ext)) == Ok::<
            ParserId,
            ResolveError,
        >(p),
        grammar_for(ext) is None ==> resolution(LookupModel::Text(ext)) == Err::<
            ParserId,
            ResolveError,
        >(ResolveError::UnsupportedExtension),
{
}

/// A path without any dot has no extension: every lookup that fits it
/// resolves to `ExtensionlessFile`. The same holds of a bare file name
/// whose only dot, if any, is its first character.
pub proof fn lemma_extensionless_is_refused(path: Seq<char>, lookup: LookupModel)
    requires
        !path.contains('.') || (is_bare_name(path) && is_extensionless(path)),
        lookup_fits(path, lookup),
    ensures
        resolution(lookup) == Err::<ParserId, ResolveError>(ResolveError::ExtensionlessFile),
{
}

/// A file name has at most one extension.
pub proof fn lemma_extension_unique(name: Seq<char>, a: Seq<char>, b: Seq<char>)
    requires
        is_extension_of(name, a),
        is_extension_of(name, b),
    ensures
        a == b,
{
    let n = name.len() as int;
    let i = choose|i: int|
        0 < i < n && name[i] == '.' && !a.contains('.') && #[trigger] name.subrange(i + 1, n) == a;
    let j = choose|j: int|
        0 < j < n && name[j] == '.' && !b.contains('.') && #[trigger] name.subrange(j + 1, n) == b;
    if i < j {
        assert(a[j - i - 1] == '.');
    } else if j < i {
        assert(b[i - j - 1] == '.');
    }
}

/// A bare file name that ends in a dot and an extension resolves as the
/// table decides for that extension, whatever lookup fits it.
pub proof fn lemma_bare_name_resolves_by_table(
    name: Seq<char>,
    ext: Seq<char>,
    lookup: LookupModel,
)
    requires
        is_bare_name(name),
        is_extension_of(name, ext),
        lookup_fits(name, lookup),
    ensures
        resolution(lookup) == resolution(LookupModel::Text(ext)),
{
    let i = choose|i: int|
        0 < i < name.len() && name[i] == '.' && !ext.contains('.') && #[trigger] name.subrange(
            i + 1,
            name.len() as int,
        ) == ext;
    assert(!is_extensionless(name));
    match lookup {
        LookupModel::Text(e) => {
            lemma_extension_unique(name, e, ext);
        },
        _ => {},
    }
}

} // verus!
