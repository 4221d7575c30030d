use just_extension::{Action, Base, Extension, ExtensionError, Location};

fn names(v: &[&str]) -> Vec<String> {
    v.iter().map(|s| s.to_string()).collect()
}

fn loc(l: &Location) -> (Base, Vec<String>) {
    (l.base, l.parts.clone())
}

#[test]
fn listing_on_a_suffixless_platform() {
    let ext = Extension::new("");
    let found = names(&["just-foo", "bar", "just-baz.tmp"]);
    let listed = ext.select_extensions(&found);
    // With an empty suffix every name ends with it: only the prefix filters.
    assert_eq!(listed, names(&["just-foo", "just-baz.tmp"]));
}

#[test]
fn listing_with_exe_suffix() {
    let ext = Extension::new(".exe");
    let found = names(&["just-foo.exe", "just-foo", "bar.exe", "just-baz.tmp", "just-x.exe"]);
    assert_eq!(ext.select_extensions(&found), names(&["just-foo.exe", "just-x.exe"]));
    assert_eq!(ext.select_extensions(&Vec::new()), Vec::<String>::new());
}

#[test]
fn extension_file_names() {
    let ext = Extension::new(".exe");
    assert!(ext.is_extension_file_name("just-a.exe"));
    assert!(!ext.is_extension_file_name("just-a"));
    assert!(!ext.is_extension_file_name("a.exe"));
    assert!(!ext.is_extension_file_name(".exe"));
    assert!(Extension::new("").is_extension_file_name("just-"));
}

#[test]
fn binary_names_and_paths() {
    let ext = Extension::new(".exe");
    assert_eq!(ext.binary_name("foo"), "just-foo.exe");
    assert_eq!(ext.binary_name("just-foo"), "just-foo.exe");
    assert_eq!(loc(&ext.assemble_path("foo")), (Base::BinDir, names(&["just-foo.exe"])));
    assert_eq!(Extension::new("").binary_name("foo"), "just-foo");
    assert_eq!(ext.exe_suffix(), ".exe");
}

#[test]
fn install_runs_every_stage() {
    let ext = Extension::new("");
    let mut s = ext.start_install("https://github.com/owner/tool");
    match s.action() {
        Action::Probe(l) => assert_eq!(loc(&l), (Base::WorkingDir, names(&["tool"]))),
        a => panic!("unexpected {:?}", a),
    }
    s.advance(true);
    match s.action() {
        Action::RemoveDir(l) => assert_eq!(loc(&l), (Base::WorkingDir, names(&["tool"]))),
        a => panic!("unexpected {:?}", a),
    }
    s.advance(true);
    match s.action() {
        Action::Fetch { url, dest } => {
            assert_eq!(url, "https://github.com/owner/tool");
            assert_eq!(loc(&dest), (Base::WorkingDir, names(&["tool"])));
        }
        a => panic!("unexpected {:?}", a),
    }
    s.advance(true);
    match s.action() {
        Action::Build { manifest } => assert_eq!(loc(&manifest), (Base::WorkingDir, names(&["tool", "Cargo.toml"]))),
        a => panic!("unexpected {:?}", a),
    }
    s.advance(true);
    match s.action() {
        Action::Copy { from, to } => {
            assert_eq!(loc(&from), (Base::WorkingDir, names(&["tool", "target", "release", "tool"])));
            assert_eq!(loc(&to), (Base::BinDir, names(&["just-tool"])));
        }
        a => panic!("unexpected {:?}", a),
    }
    assert_eq!(s.result(), None);
    s.advance(true);
    assert!(matches!(s.action(), Action::RemoveDir(_)));
    s.advance(true);
    assert!(matches!(s.action(), Action::Finish(Ok(()))));
    assert_eq!(s.result(), Some(Ok(())));
}

#[test]
fn install_without_stale_copy_fetches_next() {
    let ext = Extension::new(".exe");
    let mut s = ext.start_install("https://github.com/owner/tool");
    s.advance(false);
    assert!(matches!(s.action(), Action::Fetch { .. }));
    s.advance(true);
    s.advance(true);
    match s.action() {
        Action::Copy { from, to } => {
            assert_eq!(loc(&from), (Base::WorkingDir, names(&["tool", "target", "release", "tool.exe"])));
            assert_eq!(loc(&to), (Base::BinDir, names(&["just-tool.exe"])));
        }
        a => panic!("unexpected {:?}", a),
    }
}

#[test]
fn install_failures_end_with_their_error() {
    let ext = Extension::new("");
    let url = "https://github.com/owner/tool";
    let mut s = ext.start_install(url);
    s.advance(true);
    s.advance(false);
    assert_eq!(s.result(), Some(Err(ExtensionError::IoError)));

    let mut s = ext.start_install(url);
    s.advance(false);
    s.advance(false);
    assert_eq!(s.result(), Some(Err(ExtensionError::FetchFailed)));
    s.advance(true);
    assert!(matches!(s.action(), Action::Finish(Err(ExtensionError::FetchFailed))));

    let mut s = ext.start_install(url);
    s.advance(false);
    s.advance(true);
    s.advance(false);
    assert_eq!(s.result(), Some(Err(ExtensionError::BuildFailed)));

    let mut s = ext.start_install(url);
    for _ in 0..3 {
        s.advance(true);
    }
    s.advance(true);
    s.advance(false);
    assert_eq!(s.result(), Some(Err(ExtensionError::IoError)));

    let mut s = ext.start_install(url);
    s.advance(false);
    s.advance(true);
    s.advance(true);
    s.advance(false);
    assert_eq!(s.result(), Some(Err(ExtensionError::IoError)));
}

#[test]
fn install_from_bad_url_ends_at_once() {
    let ext = Extension::new("");
    let s = ext.start_install("https://gitlab.com/owner/tool");
    assert!(matches!(s.action(), Action::Finish(Err(ExtensionError::UnsupportedProvider))));
    let s = ext.start_install("not a url");
    assert_eq!(s.result(), Some(Err(ExtensionError::InvalidUrl)));
    let s = ext.start_install("https://github.com/owner");
    assert_eq!(s.result(), Some(Err(ExtensionError::MissingRepositoryName)));
}

#[test]
fn uninstall_of_absent_binary_succeeds() {
    let ext = Extension::new("");
    let mut s = ext.start_uninstall("foo");
    match s.action() {
        Action::Probe(l) => assert_eq!(loc(&l), (Base::BinDir, names(&["just-foo"]))),
        a => panic!("unexpected {:?}", a),
    }
    s.advance(false);
    assert!(matches!(s.action(), Action::Finish(Ok(()))));
    assert_eq!(s.result(), Some(Ok(())));
}

#[test]
fn uninstall_removes_present_binary() {
    let ext = Extension::new(".exe");
    let mut s = ext.start_uninstall("just-foo");
    assert_eq!(s.result(), None);
    s.advance(true);
    match s.action() {
        Action::RemoveFile(l) => assert_eq!(loc(&l), (Base::BinDir, names(&["just-foo.exe"]))),
        a => panic!("unexpected {:?}", a),
    }
    s.advance(true);
    assert_eq!(s.result(), Some(Ok(())));

    let mut s = ext.start_uninstall("foo");
    s.advance(true);
    s.advance(false);
    assert_eq!(s.result(), Some(Err(ExtensionError::IoError)));
}
