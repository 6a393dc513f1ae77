use mbe::lint::{complete_lint, default_lint_completions, LintCompletion};

/// Completes the lint list of the `#[allow(...)]` attribute at `$0` with
/// `what` and checks the edited text.
fn check_edit(what: &str, ra_fixture_before: &str, ra_fixture_after: &str) {
    let cursor = ra_fixture_before.find("$0").unwrap();
    let text = ra_fixture_before.replace("$0", "");
    let open = text[..cursor].rfind('(').unwrap();
    let close = cursor + text[cursor..].find(')').unwrap();
    let existing: Vec<String> = text[open + 1..close]
        .split(',')
        .map(|s| s.trim().to_string())
        .filter(|s| !s.is_empty())
        .collect();
    let items = complete_lint(&existing, &default_lint_completions());
    let item = items.iter().find(|it| it.label == what).unwrap();
    let mut edited = text.clone();
    edited.insert_str(cursor, item.label);
    assert_eq!(edited, ra_fixture_after);
}

#[test]
fn check_empty() {
    check_edit(
        "deprecated",
        r#"#[allow($0)] struct Test;"#,
        r#"#[allow(deprecated)] struct Test;"#,
    )
}

#[test]
fn check_with_existing() {
    check_edit(
        "deprecated",
        r#"#[allow(keyword_idents, $0)] struct Test;"#,
        r#"#[allow(keyword_idents, deprecated)] struct Test;"#,
    )
}

#[test]
fn check_qualified() {
    check_edit(
        "deprecated",
        r#"#[allow(keyword_idents, $0)] struct Test;"#,
        r#"#[allow(keyword_idents, deprecated)] struct Test;"#,
    )
}

#[test]
fn listed_lints_are_not_offered() {
    let lints = vec![
        LintCompletion { label: "a", description: "first" },
        LintCompletion { label: "b", description: "second" },
        LintCompletion { label: "c", description: "third" },
    ];
    let existing = vec!["b".to_string(), "zzz".to_string()];
    let offered = complete_lint(&existing, &lints);
    assert_eq!(offered, vec![lints[0], lints[2]]);
    assert_eq!(complete_lint(&vec![], &lints), lints);
    let all: Vec<String> = lints.iter().map(|l| l.label.to_string()).collect();
    assert!(complete_lint(&all, &lints).is_empty());
}

#[test]
fn default_lints_include_known_names() {
    let lints = default_lint_completions();
    assert!(lints.iter().any(|l| l.label == "deprecated"));
    assert!(lints.iter().any(|l| l.label == "keyword_idents"));
    let offered = complete_lint(&vec!["keyword_idents".to_string()], &lints);
    assert_eq!(offered.len(), lints.len() - 1);
    assert!(!offered.iter().any(|l| l.label == "keyword_idents"));
}
