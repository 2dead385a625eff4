//! Crate names, install specs and binary names.
use cargo_lbin::validate::{
    validate_bin_list, validate_bin_name, validate_name, InstallSpec, Invalid,
};
use cargo_lbin::version::Version;

fn owned(list: &[&str]) -> Vec<String> {
    list.iter().map(|x| (*x).to_owned()).collect()
}

#[test]
fn a_spec_reads_back_as_what_was_written() {
    for name in ["bat", "scx_beerland", "a-b_2"] {
        let alone = InstallSpec::parse(name).unwrap();
        assert_eq!((alone.name.as_str(), alone.version), (name, None));
        for version in ["1.1.2", "2.0.0-rc.1", "0.0.0", "1.0.0+build.7", "1.0.0-alpha.1+001"] {
            let exact = InstallSpec::parse(&format!("{name}@{version}")).unwrap();
            assert_eq!(exact.name, name);
            assert_eq!(exact.version.unwrap().as_str(), version);
        }
    }
    assert!(Version::parse("").is_err(), "the empty text is no version");
}

#[test]
fn install_spec_parses_name_and_exact_version() {
    let spec = InstallSpec::parse("scx_beerland@1.1.2").unwrap();
    assert_eq!(spec.name, "scx_beerland");
    assert_eq!(spec.version, Some(Version::parse("1.1.2").unwrap()));
    let spec = InstallSpec::parse("bat").unwrap();
    assert_eq!(spec.version, None);
    // A pre-release is an exact version too.
    assert!(InstallSpec::parse("foo@2.0.0-rc.1").is_ok());
}

#[test]
fn install_specs_refuse_a_crate_named_twice() {
    for dup in [
        &["foo", "foo"][..],
        &["foo", "foo@1.2.3"],
        &["foo@1.2.3", "foo"],
        &["foo@1.2.3", "foo@1.3.0"],
        &["bar", "foo@1.2.3", "baz", "foo"],
    ] {
        let err = InstallSpec::parse_all(&owned(dup)).unwrap_err().chain();
        assert!(err.contains("`foo`"), "{dup:?}: {err}");
    }
    let ok = InstallSpec::parse_all(&owned(&["foo@1.2.3", "bar", "baz@0.1.0"])).unwrap();
    assert_eq!(ok.len(), 3);
}

#[test]
fn install_spec_refuses_requirements_and_junk() {
    for bad in [
        "foo@", "foo@^1", "foo@~1.2", "foo@1", "foo@1.2", "foo@=1.2.3", "foo@ 1.2.3",
        "@1.2.3", "../x@1.2.3", "foo@1.2.3@4",
    ] {
        assert!(InstallSpec::parse(bad).is_err(), "{bad}");
    }
}

#[test]
fn name_validation_matches_crates_io_rules() {
    assert!(validate_name("ripgrep").is_ok());
    assert!(validate_name("scx-tools").is_ok());
    assert!(validate_name("serde_json").is_ok());
    assert!(validate_name("b2").is_ok());
    // First character must be alphabetic.
    assert!(validate_name("1foo").is_err());
    assert!(validate_name("_foo").is_err());
    assert!(validate_name("-foo").is_err());
    // Path-like and non-ASCII names must never reach path joins or byte
    // slicing.
    assert!(validate_name("../../etc").is_err());
    assert!(validate_name("a/b").is_err());
    assert!(validate_name("żółć").is_err());
    assert!(validate_name("").is_err());
}

#[test]
fn bin_names_are_single_filenames() {
    assert!(validate_bin_name("scxtop").is_ok());
    assert!(validate_bin_name("cargo-watch").is_ok());
    assert!(validate_bin_name("foo_bar").is_ok());
    assert!(validate_bin_name("foo.exe").is_ok());

    assert!(validate_bin_name("../foo").is_err());
    assert!(validate_bin_name("foo/bar").is_err());
    assert!(validate_bin_name("/var/tmp/foo").is_err());
    assert!(validate_bin_name("/etc/something").is_err());
    assert!(validate_bin_name(".").is_err());
    assert!(validate_bin_name("..").is_err());
    assert!(validate_bin_name("").is_err());
}

#[test]
fn bin_lists_reject_duplicates() {
    let ok = vec!["foo".to_owned(), "fooctl".to_owned()];
    assert!(validate_bin_list(&ok).is_ok());
    let dup = vec!["foo".to_owned(), "foo".to_owned()];
    let err = validate_bin_list(&dup).unwrap_err().chain();
    assert!(err.contains("listed twice"), "{err}");
    let bad = vec!["../foo".to_owned()];
    assert!(validate_bin_list(&bad).is_err());
    // A crate entry without any binary is a model inconsistency, not a
    // valid degenerate case: cargo install fails on bin-less crates.
    assert!(validate_bin_list(&Vec::new()).is_err());
}

/// Every way a spec or a list is refused has its own answer.
#[test]
fn each_refusal_names_its_own_reason() {
    assert!(matches!(validate_name("1foo"), Err(Invalid::Name { name }) if name == "1foo"));
    assert!(matches!(
        InstallSpec::parse("foo@"),
        Err(Invalid::EmptyVersion { spec }) if spec == "foo@"
    ));
    assert!(matches!(
        InstallSpec::parse("foo@1"),
        Err(Invalid::Version { spec, .. }) if spec == "foo@1"
    ));
    assert!(matches!(
        InstallSpec::parse_all(&owned(&["foo", "foo"])),
        Err(Invalid::GivenTwice { name }) if name == "foo"
    ));
    assert!(matches!(
        validate_bin_name("a/b"),
        Err(Invalid::BinName { name }) if name == "a/b"
    ));
    assert!(matches!(validate_bin_list(&Vec::new()), Err(Invalid::NoBins)));
    assert!(matches!(
        validate_bin_list(&owned(&["a", "b", "a"])),
        Err(Invalid::ListedTwice { bin }) if bin == "a"
    ));
}

/// The version is read by the version parser and shown as that parser shows
/// it; its refusal travels in the error.
#[test]
fn versions_are_exact_and_ordered() {
    assert_eq!(Version::parse("1.2.3-rc.1+build").unwrap().as_str(), "1.2.3-rc.1+build");
    assert!(Version::parse("^1").is_err());
    assert!(Version::parse("01.2.3").is_err());
    let err = InstallSpec::parse("foo@1").unwrap_err().chain();
    let cause = Version::parse("1").unwrap_err();
    assert!(err.ends_with(&cause), "{err} carries {cause}");

    let older = Version::parse("1.9.0").unwrap();
    let newer = Version::parse("1.10.0").unwrap();
    let pre = Version::parse("1.10.0-rc.1").unwrap();
    assert!(newer.exceeds(&older), "numbers, not text");
    assert!(!older.exceeds(&newer));
    assert!(newer.exceeds(&pre), "a release is above its pre-release");
    assert!(!newer.exceeds(&newer));
    assert!(newer.same(&newer.clone()));
    assert!(!newer.same(&pre));
}

/// Every member of a parsed line is a different crate.
#[test]
fn a_parsed_line_names_each_crate_once() {
    let specs = InstallSpec::parse_all(&owned(&["a@1.0.0", "b", "c@2.0.0"])).unwrap();
    let names: Vec<&str> = specs.iter().map(|s| s.name.as_str()).collect();
    assert_eq!(names, vec!["a", "b", "c"]);
    assert!(InstallSpec::parse_all(&Vec::new()).unwrap().is_empty());
    for spec in &specs {
        assert!(validate_bin_name(&spec.name).is_ok(), "a crate name is a filename");
    }
}

#[test]
fn the_order_of_bins_does_not_matter() {
    for good in [["a", "b", "c"], ["c", "a", "b"], ["b", "c", "a"]] {
        assert!(validate_bin_list(&owned(&good)).is_ok());
    }
    for bad in [["a", "b", "a"], ["a", "a", "b"], ["b", "a", "a"], ["..", "a", "b"]] {
        assert!(validate_bin_list(&owned(&bad)).is_err());
    }
}
