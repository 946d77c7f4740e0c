use infra_cli::text::trim;
use infra_cli::scaffold::{is_known_region, is_yes, known_regions, split_list, with_trailing_slash};

#[test]
fn confirmation_answers() {
    assert!(is_yes(&"yes".to_string()));
    assert!(is_yes(&"y".to_string()));
    assert!(!is_yes(&"no".to_string()));
    assert!(!is_yes(&"Yes".to_string()));
    assert!(!is_yes(&String::new()));
}

#[test]
fn trailing_slash_added_once() {
    assert_eq!(with_trailing_slash("repo".to_string()), "repo/");
    assert_eq!(with_trailing_slash("repo/".to_string()), "repo/");
    assert_eq!(with_trailing_slash(String::new()), "/");
}

#[test]
fn regions_known_and_unknown() {
    assert_eq!(known_regions().len(), 20);
    assert_eq!(known_regions()[0], "us-east-1");
    assert!(is_known_region(&"eu-west-3".to_string()));
    assert!(is_known_region(&"us-gov-west-1".to_string()));
    assert!(!is_known_region(&"eu-west-9".to_string()));
    assert!(!is_known_region(&String::new()));
}

#[test]
fn comma_lists_split_and_trimmed() {
    assert_eq!(split_list("dev, staging ,prod"), vec!["dev", "staging", "prod"]);
    assert_eq!(split_list("solo"), vec!["solo"]);
    assert_eq!(split_list(""), vec![""]);
    assert_eq!(split_list("a,,b"), vec!["a", "", "b"]);
    assert_eq!(split_list("a,"), vec!["a", ""]);
    assert_eq!(split_list("\u{3000}x\t,\u{a0} y z \n"), vec!["x", "y z"]);
    assert_eq!(split_list("  ,   "), vec!["", ""]);
}

#[test]
fn trim_matches_std() {
    for s in ["", "   ", " a ", "\u{2028}b\u{205f}", "c d", "\u{1680}\u{200a}e\u{85}", "\u{200b}f"] {
        assert_eq!(trim(s), s.trim());
    }
}
