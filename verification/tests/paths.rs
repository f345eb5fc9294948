use std::path::{Path, PathBuf};
use worktree_manager::derive_worktree_path;
use worktree_manager::path::{is_absolute, join, lies_within, name_in, parent, same_place};

const PATHS: [&str; 24] = [
    "",
    "/",
    "//",
    ".",
    "..",
    "./",
    "a",
    "a/",
    "/a",
    "//a",
    "a/b",
    "/a/b",
    "/a/b/",
    "/a//b",
    "/a/./b",
    "/a/../b",
    "./a",
    "./a/.",
    "../a",
    "a/.",
    "a/./",
    "a/..",
    "/repo/.worktrees/feature-a",
    "caf\u{e9}/\u{1f980}",
];

#[test]
fn derive_worktree_path_uses_hidden_worktree_directory() {
    assert_eq!(
        derive_worktree_path("/tmp/example", "feature-a"),
        "/tmp/example/.worktrees/feature-a"
    );
}

#[test]
fn joins_agree_with_the_standard_library() {
    for base in PATHS {
        for part in PATHS {
            let expected: PathBuf = Path::new(base).join(part);
            assert_eq!(join(base, part), expected.to_str().unwrap());
        }
    }
}

#[test]
fn parents_agree_with_the_standard_library() {
    for path in PATHS {
        assert_eq!(
            parent(path),
            Path::new(path).parent().map(|parent| parent.to_str().unwrap()),
            "{path:?}"
        );
        assert_eq!(is_absolute(path), Path::new(path).is_absolute());
    }
}

#[test]
fn places_agree_with_the_standard_library() {
    for left in PATHS {
        for right in PATHS {
            assert_eq!(
                same_place(left, right),
                Path::new(left) == Path::new(right),
                "{left:?} {right:?}"
            );
            assert_eq!(
                lies_within(left, right),
                Path::new(left).starts_with(right),
                "{left:?} {right:?}"
            );
        }
    }
}

#[test]
fn names_in_directories_agree_with_the_standard_library() {
    for path in PATHS {
        for directory in PATHS {
            let expected = if Path::new(path).parent() == Some(Path::new(directory)) {
                Path::new(path)
                    .file_name()
                    .map(|name| name.to_str().unwrap().to_string())
            } else {
                None
            };
            assert_eq!(name_in(path, directory), expected, "{path:?} {directory:?}");
        }
    }
}

#[test]
fn a_joined_name_is_found_in_its_directory() {
    for directory in ["/repo/.worktrees", "/", "repo", ""] {
        let path = join(directory, "feature-a");
        assert_eq!(name_in(&path, directory), Some("feature-a".to_string()));
        assert_eq!(parent(&path), Some(directory));
        assert!(lies_within(&path, directory));
    }
}
