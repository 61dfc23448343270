use syntax_highlighter::{resolve_extension, resolve_filename, ExtensionLookup, ParserId, ResolveError};

#[test]
fn go_file_resolves_to_go() {
    assert_eq!(resolve_filename("main.go"), Ok(ParserId::Go));
}

#[test]
fn directories_do_not_matter() {
    assert_eq!(resolve_filename("cmd/server/main.go"), Ok(ParserId::Go));
    assert_eq!(resolve_filename("/abs/path/lib.rs"), Ok(ParserId::Rust));
}

#[test]
fn only_the_last_extension_counts() {
    assert_eq!(resolve_filename("bundle.min.js"), Ok(ParserId::Javascript));
    assert_eq!(resolve_filename("main.go.bak"), Err(ResolveError::UnsupportedExtension));
}

#[test]
fn unknown_extension_is_unsupported() {
    assert_eq!(resolve_filename("file.unknownext"), Err(ResolveError::UnsupportedExtension));
}

#[test]
fn lookup_is_case_sensitive() {
    assert_eq!(resolve_filename("main.GO"), Err(ResolveError::UnsupportedExtension));
    assert_eq!(ParserId::from_file_extension("Go"), None);
    assert_eq!(ParserId::from_file_extension("go"), Some(ParserId::Go));
}

#[test]
fn empty_extension_is_unsupported() {
    assert_eq!(resolve_filename("main."), Err(ResolveError::UnsupportedExtension));
    assert_eq!(ParserId::from_file_extension(""), None);
}

#[test]
fn name_without_dot_is_extensionless() {
    assert_eq!(resolve_filename("Makefile"), Err(ResolveError::ExtensionlessFile));
    assert_eq!(resolve_filename("bin/tool"), Err(ResolveError::ExtensionlessFile));
    assert_eq!(resolve_filename(""), Err(ResolveError::ExtensionlessFile));
}

#[test]
fn dot_in_a_directory_is_no_extension() {
    assert_eq!(resolve_filename("pkg.go/README"), Err(ResolveError::ExtensionlessFile));
}

#[test]
fn hidden_file_is_extensionless() {
    assert_eq!(resolve_filename(".go"), Err(ResolveError::ExtensionlessFile));
}

#[test]
fn lookup_outcomes_resolve() {
    assert_eq!(resolve_extension(&ExtensionLookup::Absent), Err(ResolveError::ExtensionlessFile));
    assert_eq!(
        resolve_extension(&ExtensionLookup::NotText),
        Err(ResolveError::InvalidExtensionEncoding)
    );
    assert_eq!(
        resolve_extension(&ExtensionLookup::Text("py".to_string())),
        Ok(ParserId::Python)
    );
    assert_eq!(
        resolve_extension(&ExtensionLookup::Text("nope".to_string())),
        Err(ResolveError::UnsupportedExtension)
    );
}

#[test]
fn every_table_entry() {
    let table = [
        ("c", ParserId::C),
        ("cpp", ParserId::Cpp),
        ("cc", ParserId::Cpp),
        ("cxx", ParserId::Cpp),
        ("hpp", ParserId::Cpp),
        ("cs", ParserId::CSharp),
        ("go", ParserId::Go),
        ("java", ParserId::Java),
        ("js", ParserId::Javascript),
        ("jsonnet", ParserId::Jsonnet),
        ("kt", ParserId::Kotlin),
        ("py", ParserId::Python),
        ("rb", ParserId::Ruby),
        ("rs", ParserId::Rust),
        ("scala", ParserId::Scala),
        ("ts", ParserId::Typescript),
        ("tsx", ParserId::Tsx),
        ("zig", ParserId::Zig),
    ];
    for (ext, id) in table {
        assert_eq!(ParserId::from_file_extension(ext), Some(id));
        assert_eq!(resolve_filename(&format!("x.{}", ext)), Ok(id));
    }
}

#[test]
fn error_messages() {
    assert_eq!(ResolveError::ExtensionlessFile.message(), "Extensionless file");
    assert_eq!(ResolveError::InvalidExtensionEncoding.message(), "Invalid codepoint");
    assert_eq!(
        ResolveError::UnsupportedExtension.message(),
        "Could not infer parser from extension"
    );
}

#[test]
fn dots_alone_are_no_extension() {
    assert_eq!(resolve_filename("."), Err(ResolveError::ExtensionlessFile));
    assert_eq!(resolve_filename(".."), Err(ResolveError::ExtensionlessFile));
}

#[test]
fn name_of_dots_has_an_empty_extension() {
    assert_eq!(resolve_filename("..."), Err(ResolveError::UnsupportedExtension));
    assert_eq!(resolve_filename("a.."), Err(ResolveError::UnsupportedExtension));
}

#[test]
fn hidden_file_with_extension() {
    assert_eq!(resolve_filename(".config.ts"), Ok(ParserId::Typescript));
    assert_eq!(resolve_filename("..go"), Ok(ParserId::Go));
}

#[test]
fn extension_is_matched_whole() {
    assert_eq!(resolve_filename("main.gox"), Err(ResolveError::UnsupportedExtension));
    assert_eq!(resolve_filename("main.g"), Err(ResolveError::UnsupportedExtension));
    assert_eq!(resolve_filename("main.tsx"), Ok(ParserId::Tsx));
    assert_eq!(resolve_filename("main.ts"), Ok(ParserId::Typescript));
}
