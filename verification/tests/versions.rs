use nanuak_dictionary::versions::{
    check_version_name, choose_dictionary_root, is_nanuak_dictionary_name, next_version_number_after,
    extract_next_version_number, extract_version_number, get_nanuak_dictionary_root_dir_using_cwd_if_matches_or_parent_dir,
    get_versions, is_valid_nanuak_dictionary_root_dir, is_valid_version_name, DirEntry,
    IntErrorKind, NextVersionError, RootDirError, VersionNameError, VersionNumberError,
};

fn dir(name: &str) -> DirEntry {
    DirEntry { name: name.to_string(), is_dir: true }
}

fn file(name: &str) -> DirEntry {
    DirEntry { name: name.to_string(), is_dir: false }
}

#[test]
fn valid_version_names_are_accepted() {
    assert_eq!(is_valid_version_name("v1"), Ok(()));
    assert_eq!(is_valid_version_name("v035-dictionary"), Ok(()));
    assert_eq!(is_valid_version_name("v7-create-new-version"), Ok(()));
}

#[test]
fn version_names_need_a_number_right_after_v() {
    assert_eq!(is_valid_version_name("v"), Err(VersionNameError::NoNumberAfterV));
    assert_eq!(is_valid_version_name("v-x"), Err(VersionNameError::NoNumberAfterV));
    assert_eq!(is_valid_version_name("v-"), Err(VersionNameError::NoNumberAfterV));
}

#[test]
fn version_names_with_other_characters_are_refused() {
    assert_eq!(is_valid_version_name("v1_2"), Err(VersionNameError::NotAlphanumericOrHyphen));
    assert_eq!(is_valid_version_name("v1 x"), Err(VersionNameError::NotAlphanumericOrHyphen));
    assert_eq!(is_valid_version_name("v1.0"), Err(VersionNameError::NotAlphanumericOrHyphen));
}

#[test]
fn version_names_must_start_with_v() {
    assert_eq!(is_valid_version_name("x1"), Err(VersionNameError::MissingLeadingV));
    assert_eq!(is_valid_version_name(""), Err(VersionNameError::MissingLeadingV));
    assert_eq!(is_valid_version_name("-v1"), Err(VersionNameError::MissingLeadingV));
    assert_eq!(is_valid_version_name("V1"), Err(VersionNameError::MissingLeadingV));
}

#[test]
fn version_names_need_digits_after_v() {
    assert_eq!(is_valid_version_name("v1a"), Err(VersionNameError::NoNumberAfterV));
    assert_eq!(is_valid_version_name("vx-1"), Err(VersionNameError::NoNumberAfterV));
    // the letters after the first hyphen are free
    assert_eq!(is_valid_version_name("v1-a"), Ok(()));
}

#[test]
fn unicode_digits_count_as_numeric() {
    // U+0663 ARABIC-INDIC DIGIT THREE is numeric and alphanumeric
    assert_eq!(is_valid_version_name("v\u{663}"), Ok(()));
    // U+00E9 is alphabetic, so alphanumeric, but not numeric
    assert_eq!(is_valid_version_name("v\u{e9}"), Err(VersionNameError::NoNumberAfterV));
}

#[test]
fn version_name_messages() {
    assert_eq!(
        VersionNameError::NotAlphanumericOrHyphen.message(),
        "Version name must be alphanumeric or hyphen"
    );
    assert_eq!(VersionNameError::MissingLeadingV.message(), "Version name must start with a 'v'");
    assert_eq!(
        VersionNameError::NoNumberAfterV.message(),
        "Version name must have a number after the 'v'"
    );
}

#[test]
fn version_numbers_are_read() {
    assert_eq!(extract_version_number("v12"), Ok(12));
    assert_eq!(extract_version_number("v035-dictionary"), Ok(35));
    assert_eq!(extract_version_number("v0"), Ok(0));
    assert_eq!(extract_version_number("v+5"), Ok(5));
}

#[test]
fn version_numbers_need_a_leading_v() {
    assert_eq!(extract_version_number("12"), Err(VersionNumberError::MissingPrefix));
    assert_eq!(extract_version_number(""), Err(VersionNumberError::MissingPrefix));
}

#[test]
fn version_number_errors_follow_usize_parsing() {
    assert_eq!(
        extract_version_number("v"),
        Err(VersionNumberError::InvalidNumber(IntErrorKind::Empty))
    );
    assert_eq!(
        extract_version_number("v-dictionary"),
        Err(VersionNumberError::InvalidNumber(IntErrorKind::Empty))
    );
    assert_eq!(
        extract_version_number("vx"),
        Err(VersionNumberError::InvalidNumber(IntErrorKind::InvalidDigit))
    );
    assert_eq!(
        extract_version_number("v+"),
        Err(VersionNumberError::InvalidNumber(IntErrorKind::InvalidDigit))
    );
    assert_eq!(
        extract_version_number("v\u{663}"),
        Err(VersionNumberError::InvalidNumber(IntErrorKind::InvalidDigit))
    );
    assert_eq!(
        extract_version_number("v99999999999999999999999999"),
        Err(VersionNumberError::InvalidNumber(IntErrorKind::PosOverflow))
    );
}

#[test]
fn version_number_parsing_agrees_with_std() {
    for text in ["0", "7", "+7", "+", "++1", "", "12a", "a12", "00042", "18446744073709551615",
        "18446744073709551616", "99999999999999999999x", "x99999999999999999999"]
    {
        let ours = extract_version_number(&format!("v{text}"));
        let theirs = text.parse::<usize>();
        match (ours, theirs) {
            (Ok(a), Ok(b)) => assert_eq!(a, b, "{text:?}"),
            (Err(VersionNumberError::InvalidNumber(kind)), Err(e)) => {
                let expected = match e.kind() {
                    std::num::IntErrorKind::Empty => IntErrorKind::Empty,
                    std::num::IntErrorKind::InvalidDigit => IntErrorKind::InvalidDigit,
                    std::num::IntErrorKind::PosOverflow => IntErrorKind::PosOverflow,
                    other => panic!("unexpected kind {other:?}"),
                };
                assert_eq!(kind, expected, "{text:?}");
            }
            (a, b) => panic!("{text:?}: {a:?} against {b:?}"),
        }
    }
}

#[test]
fn next_version_number_follows_the_last_version() {
    let versions = vec!["/w/v1".to_string(), "/w/v2-dictionary".to_string()];
    assert_eq!(extract_next_version_number(&versions), Ok(3));
    let versions = vec!["/w/v35-dictionary".to_string()];
    assert_eq!(extract_next_version_number(&versions), Ok(36));
}

#[test]
fn next_version_number_errors() {
    assert_eq!(extract_next_version_number(&[]), Err(NextVersionError::NoVersionsFound));
    assert_eq!(
        extract_next_version_number(&["/".to_string()]),
        Err(NextVersionError::NoFileName)
    );
    assert_eq!(
        extract_next_version_number(&["/w/other".to_string()]),
        Err(NextVersionError::VersionNumber(VersionNumberError::MissingPrefix))
    );
    assert_eq!(
        extract_next_version_number(&[format!("/w/v{}", usize::MAX)]),
        Err(NextVersionError::NumberOverflow)
    );
}

#[test]
fn versions_are_version_directories_in_order() {
    let entries = vec![
        dir("v10-b"),
        file("v3"),
        dir("target"),
        dir("v2"),
        dir("v1_x"),
        dir("v10-a"),
        file("Cargo.toml"),
    ];
    let versions = get_versions("/home/me/Nanuak-Dictionary", &entries);
    assert_eq!(
        versions,
        vec![
            "/home/me/Nanuak-Dictionary/v10-a".to_string(),
            "/home/me/Nanuak-Dictionary/v10-b".to_string(),
            "/home/me/Nanuak-Dictionary/v2".to_string(),
        ]
    );
}

#[test]
fn versions_sort_as_paths_do() {
    let names = ["v2", "v10", "v1-b", "v1", "v1-a", "v9", "v\u{663}"];
    let entries: Vec<DirEntry> = names.iter().map(|n| dir(n)).collect();
    let versions = get_versions("/root/w", &entries);
    let mut expected: Vec<std::path::PathBuf> =
        names.iter().map(|n| std::path::Path::new("/root/w").join(n)).collect();
    expected.sort();
    let expected: Vec<String> = expected.iter().map(|p| p.display().to_string()).collect();
    assert_eq!(versions, expected);
}

#[test]
fn no_versions_in_an_empty_listing() {
    assert!(get_versions("/w", &[]).is_empty());
}

#[test]
fn dictionary_root_is_recognised_by_name() {
    assert!(is_valid_nanuak_dictionary_root_dir("/home/me/Nanuak-Dictionary", true));
    assert!(!is_valid_nanuak_dictionary_root_dir("/home/me/Nanuak-Dictionary", false));
    assert!(!is_valid_nanuak_dictionary_root_dir("/home/me/nanuak-dictionary", true));
    assert!(is_valid_nanuak_dictionary_root_dir("/home/me/Nanuak-Dictionary/", true));
    assert!(!is_valid_nanuak_dictionary_root_dir("/", true));
}

#[test]
fn dictionary_root_is_the_current_dir_or_its_parent() {
    assert_eq!(
        get_nanuak_dictionary_root_dir_using_cwd_if_matches_or_parent_dir(
            "/home/me/Nanuak-Dictionary",
            true,
            true
        ),
        Ok("/home/me/Nanuak-Dictionary".to_string())
    );
    assert_eq!(
        get_nanuak_dictionary_root_dir_using_cwd_if_matches_or_parent_dir(
            "/home/me/Nanuak-Dictionary/v35-dictionary",
            true,
            true
        ),
        Ok("/home/me/Nanuak-Dictionary".to_string())
    );
}

#[test]
fn dictionary_root_errors() {
    assert_eq!(
        get_nanuak_dictionary_root_dir_using_cwd_if_matches_or_parent_dir("/home/me/other", true, true),
        Err(RootDirError::NotFound)
    );
    assert_eq!(
        get_nanuak_dictionary_root_dir_using_cwd_if_matches_or_parent_dir(
            "/home/me/Nanuak-Dictionary/v3",
            true,
            false
        ),
        Err(RootDirError::NotFound)
    );
    assert_eq!(
        get_nanuak_dictionary_root_dir_using_cwd_if_matches_or_parent_dir("/", true, false),
        Err(RootDirError::NoParentDirectory)
    );
}

#[test]
fn version_name_rules_on_given_classes() {
    let name = ['v', '1', '-', 'x'];
    assert_eq!(check_version_name(&name, &[true, true, false, true], &[false, true, false, false]), Ok(()));
    assert_eq!(
        check_version_name(&name, &[true, false, false, true], &[false, true, false, false]),
        Err(VersionNameError::NotAlphanumericOrHyphen)
    );
    assert_eq!(
        check_version_name(&name, &[true, true, false, true], &[false, false, false, false]),
        Err(VersionNameError::NoNumberAfterV)
    );
    assert_eq!(check_version_name(&['-', 'v'], &[false, true], &[false, false]), Err(VersionNameError::MissingLeadingV));
    assert_eq!(check_version_name(&['v'], &[true], &[false]), Err(VersionNameError::NoNumberAfterV));
    assert_eq!(
        check_version_name(&['v', '-', '1'], &[true, false, true], &[false, false, true]),
        Err(VersionNameError::NoNumberAfterV)
    );
    assert_eq!(check_version_name(&[], &[], &[]), Err(VersionNameError::MissingLeadingV));
}

#[test]
fn number_after_a_version_name() {
    assert_eq!(next_version_number_after("v41-dictionary"), Ok(42));
    assert_eq!(
        next_version_number_after("dictionary"),
        Err(NextVersionError::VersionNumber(VersionNumberError::MissingPrefix))
    );
    assert_eq!(next_version_number_after(&format!("v{}", usize::MAX)), Err(NextVersionError::NumberOverflow));
    assert_eq!(next_version_number_after(&format!("v{}", usize::MAX - 1)), Ok(usize::MAX));
}

#[test]
fn dictionary_root_name() {
    assert!(is_nanuak_dictionary_name("Nanuak-Dictionary"));
    assert!(!is_nanuak_dictionary_name("Nanuak-Dictionary2"));
    assert!(!is_nanuak_dictionary_name(""));
}

#[test]
fn dictionary_root_choice_on_given_answers() {
    assert_eq!(choose_dictionary_root("/a/b", true, Some("/a".to_string()), true), Ok("/a/b".to_string()));
    assert_eq!(choose_dictionary_root("/a/b", false, Some("/a".to_string()), true), Ok("/a".to_string()));
    assert_eq!(choose_dictionary_root("/a/b", false, Some("/a".to_string()), false), Err(RootDirError::NotFound));
    assert_eq!(choose_dictionary_root("/", false, None, false), Err(RootDirError::NoParentDirectory));
}

#[test]
fn numbered_names_read_back_their_number() {
    for n in [0usize, 1, 9, 10, 36, 1234567, usize::MAX] {
        assert_eq!(extract_version_number(&format!("v{n}")), Ok(n));
        assert_eq!(extract_version_number(&format!("v{n}-dictionary")), Ok(n));
    }
}

#[test]
fn zero_padded_names_read_back_their_number() {
    for n in [0usize, 5, 35, 1234] {
        for width in [0usize, 3, 6] {
            assert_eq!(extract_version_number(&format!("v{:0width$}", n)), Ok(n));
            assert_eq!(extract_version_number(&format!("v{:0width$}-dictionary", n)), Ok(n));
        }
    }
}

#[test]
fn accepted_ascii_version_names_hold_their_number() {
    for name in ["v1", "v035-dictionary", "v007-create-new-version", "v10-a-b"] {
        assert_eq!(is_valid_version_name(name), Ok(()));
        assert!(extract_version_number(name).is_ok(), "{name}");
    }
    // accepted, but no number: a non-ASCII numeral, and a number beyond usize
    assert_eq!(is_valid_version_name("v\u{663}"), Ok(()));
    assert!(extract_version_number("v\u{663}").is_err());
    assert_eq!(is_valid_version_name("v999999999999999999999999"), Ok(()));
    assert!(extract_version_number("v999999999999999999999999").is_err());
}

#[test]
fn error_messages() {
    assert_eq!(NextVersionError::NoVersionsFound.message(), "No versions found");
    assert_eq!(NextVersionError::NoFileName.message(), "No file name on the last version's path");
    assert_eq!(
        NextVersionError::VersionNumber(VersionNumberError::MissingPrefix).message(),
        "Missing 'v' prefix"
    );
    assert_eq!(
        NextVersionError::VersionNumber(VersionNumberError::InvalidNumber(IntErrorKind::Empty)).message(),
        "Failed to parse version number"
    );
    assert_eq!(NextVersionError::NumberOverflow.message(), "The last version number has no successor");
    assert_eq!(RootDirError::NoParentDirectory.message(), "No parent directory");
    assert_eq!(RootDirError::NotFound.message(), "No Nanuak-Dictionary directory found");
}
