use eve_l_preview::classify::{
    classify_title, get_pictformat, is_wine_executable, str_contains, wine_verdict,
    EveWindowType, PictFormatInfo,
};

#[test]
fn title_with_prefix_names_the_entity() {
    match classify_title("EVE - Alice") {
        Some(EveWindowType::LoggedIn(name)) => assert_eq!(name, "Alice"),
        other => panic!("unexpected classification: {:?}", other),
    }
}

#[test]
fn bare_title_is_logged_out() {
    assert!(matches!(classify_title("EVE"), Some(EveWindowType::LoggedOut)));
    let t = classify_title("EVE").unwrap();
    assert_eq!(t.character_name(), "");
}

#[test]
fn other_titles_are_not_targets() {
    assert!(classify_title("Firefox").is_none());
    assert!(classify_title("EVE-Online").is_none());
    assert!(classify_title("EV").is_none());
    assert!(classify_title("").is_none());
    // The prefix must match exactly, including the separator.
    assert!(classify_title("EVE -Alice").is_none());
}

#[test]
fn empty_name_after_prefix_still_logged_in() {
    match classify_title("EVE - ") {
        Some(EveWindowType::LoggedIn(name)) => assert_eq!(name, ""),
        other => panic!("unexpected classification: {:?}", other),
    }
}

#[test]
fn substring_search_agrees_with_std() {
    let cases = [
        ("abcdef", "cde"),
        ("abcdef", "xyz"),
        ("", ""),
        ("a", ""),
        ("", "a"),
        ("aaa", "aa"),
        ("wine64-preloader", "wine-preloader"),
    ];
    for (h, n) in cases {
        assert_eq!(str_contains(h, n), h.contains(n), "haystack {h:?} needle {n:?}");
    }
}

#[test]
fn wine_paths_recognized() {
    assert!(is_wine_executable("/usr/lib/wine/wine64-preloader"));
    assert!(is_wine_executable("/opt/wine-staging/bin/wine-preloader"));
    assert!(!is_wine_executable("/usr/bin/firefox"));
}

#[test]
fn wine_verdict_fails_open() {
    // A readable non-wine path is a definite negative.
    assert!(!wine_verdict(Some(&"/usr/bin/emacs".to_string())));
    // A readable wine path is a positive.
    assert!(wine_verdict(Some(&"/usr/lib/wine/wine64-preloader".to_string())));
    // An unreadable path is assumed to be a target.
    assert!(wine_verdict(None));
}

#[test]
fn pictformat_first_match_wins() {
    let formats = vec![
        PictFormatInfo { id: 1, depth: 24, alpha_mask: 0xFF },
        PictFormatInfo { id: 2, depth: 24, alpha_mask: 0 },
        PictFormatInfo { id: 3, depth: 24, alpha_mask: 0 },
        PictFormatInfo { id: 4, depth: 32, alpha_mask: 0xFF000000 },
    ];
    assert_eq!(get_pictformat(&formats, 24, false), Ok(2));
    assert_eq!(get_pictformat(&formats, 24, true), Ok(1));
    assert_eq!(get_pictformat(&formats, 32, true), Ok(4));
}

#[test]
fn pictformat_missing_is_an_error() {
    let formats = vec![PictFormatInfo { id: 1, depth: 24, alpha_mask: 0 }];
    let r = get_pictformat(&formats, 32, true);
    assert!(r.is_err());
    assert!(!r.unwrap_err().is_empty());
}
