use worktree_manager::name::{name_from_samples, GENERATED_NAME_LENGTH};
use worktree_manager::{generate_random_name, resolve_worktree_name, validate_worktree_name};

#[test]
fn resolve_worktree_name_trims_explicit_input() {
    assert_eq!(resolve_worktree_name("  feature-a  "), "feature-a");
}

#[test]
fn random_name_has_path_safe_shape_without_fixed_agent_prefix() {
    let name = generate_random_name();

    assert_eq!(name.len(), 10);
    assert!(!name.starts_with("agent-"));
    assert!(name
        .chars()
        .all(|character| character.is_ascii_lowercase() || character.is_ascii_digit()));
}

#[test]
fn validate_worktree_name_accepts_simple_slugs() {
    assert!(validate_worktree_name("feature-a_1").is_ok());
    assert!(validate_worktree_name("release.2026").is_ok());
}

#[test]
fn validate_worktree_name_rejects_unsafe_names() {
    for name in [
        "",
        "-feature",
        "feature/",
        "feature..a",
        "feature.lock",
        "@",
    ] {
        assert!(validate_worktree_name(name).is_err(), "{name} should fail");
    }
}

#[test]
fn every_fault_of_a_name_has_its_message() {
    let faults = [
        ("", "worktree name cannot be empty"),
        (".", "'.' is not a valid worktree name"),
        ("..", "'..' is not a valid worktree name"),
        ("@", "'@' is not a valid worktree name"),
        ("-a", "worktree name must start with an ASCII letter or number"),
        (".a", "worktree name must start with an ASCII letter or number"),
        ("éa", "worktree name must start with an ASCII letter or number"),
        ("a-", "worktree name must end with an ASCII letter or number"),
        ("a.", "worktree name must end with an ASCII letter or number"),
        ("aé", "worktree name must end with an ASCII letter or number"),
        ("a..b", "'a..b' is not a valid Git branch name"),
        ("a@{b", "'a@{b' is not a valid Git branch name"),
        ("a.lock", "'a.lock' is not a valid Git branch name"),
        (
            "a/b",
            "worktree name may only contain ASCII letters, numbers, '-', '_', and '.'",
        ),
        (
            "a b",
            "worktree name may only contain ASCII letters, numbers, '-', '_', and '.'",
        ),
        (
            "a@b",
            "worktree name may only contain ASCII letters, numbers, '-', '_', and '.'",
        ),
    ];
    for (name, message) in faults {
        assert_eq!(validate_worktree_name(name), Err(message.to_string()));
    }
}

#[test]
fn a_single_letter_or_digit_is_a_name() {
    for name in ["a", "Z", "0", "9", "lock", "a.locked", "a-_.b"] {
        assert_eq!(validate_worktree_name(name), Ok(()));
    }
}

#[test]
fn samples_become_a_name_in_lower_case() {
    assert_eq!(name_from_samples(b"AZaz09MmQ1"), "azaz09mmq1");
    assert_eq!(name_from_samples(b""), "");
}

#[test]
fn generated_names_are_valid_and_differ() {
    let names: Vec<String> = (0..20).map(|_| generate_random_name()).collect();
    for name in &names {
        assert_eq!(name.len(), GENERATED_NAME_LENGTH);
        assert_eq!(validate_worktree_name(name), Ok(()));
    }
    assert!(names.iter().any(|name| *name != names[0]));
}

#[test]
fn a_blank_name_is_replaced_by_a_generated_one() {
    for input in ["", "   ", "\t\n"] {
        let name = resolve_worktree_name(input);
        assert_eq!(name.len(), 10);
        assert_eq!(validate_worktree_name(&name), Ok(()));
    }
}
