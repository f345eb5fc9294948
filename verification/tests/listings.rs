use worktree_manager::listing::{
    bases_from_listing, managed_worktree_from_record, managed_worktrees_from_porcelain,
    worktree_record_path,
};
use worktree_manager::{ManagedWorktree, WorktreeBase};

#[test]
fn managed_worktrees_come_from_the_worktree_directory_of_the_main_work_tree() {
    let porcelain_output = "\
worktree /repo
HEAD 1111111111111111111111111111111111111111
branch refs/heads/main

worktree /repo/.worktrees/feature-a
HEAD 2222222222222222222222222222222222222222
branch refs/heads/eq/feat/login

worktree /elsewhere/manual-worktree
HEAD 3333333333333333333333333333333333333333
branch refs/heads/manual";

    assert_eq!(
        managed_worktrees_from_porcelain(porcelain_output),
        vec![ManagedWorktree {
            name: "feature-a".to_string(),
            path: "/repo/.worktrees/feature-a".to_string(),
            branch: Some("eq/feat/login".to_string()),
        }]
    );
}

#[test]
fn managed_worktrees_report_a_detached_head_as_having_no_branch() {
    let porcelain_output = "\
worktree /repo
HEAD 1111111111111111111111111111111111111111
branch refs/heads/main

worktree /repo/.worktrees/feature-a
HEAD 2222222222222222222222222222222222222222
detached";

    assert_eq!(
        managed_worktrees_from_porcelain(porcelain_output),
        vec![ManagedWorktree {
            name: "feature-a".to_string(),
            path: "/repo/.worktrees/feature-a".to_string(),
            branch: None,
        }]
    );
}

#[test]
fn managed_worktrees_are_empty_without_any_records() {
    assert_eq!(managed_worktrees_from_porcelain(""), Vec::new());
}

#[test]
fn worktrees_below_a_worktree_are_not_managed() {
    let porcelain_output = "\
worktree /repo
HEAD 1

worktree /repo/.worktrees/a/deeper
HEAD 2

worktree /repo/.worktrees
HEAD 3

worktree /repo/.worktrees-not/b
HEAD 4

worktree /repo//.worktrees/./c/
HEAD 5
branch refs/heads/c";

    assert_eq!(
        managed_worktrees_from_porcelain(porcelain_output),
        vec![ManagedWorktree {
            name: "c".to_string(),
            path: "/repo//.worktrees/./c/".to_string(),
            branch: Some("c".to_string()),
        }]
    );
}

#[test]
fn managed_worktrees_keep_their_order_and_the_main_work_tree_is_not_one() {
    let porcelain_output = "\
worktree /repo/.worktrees/main
HEAD 1
branch refs/heads/main

worktree /repo/.worktrees/main/.worktrees/b
HEAD 2
branch refs/remotes/origin/b

worktree /repo/.worktrees/main/.worktrees/a
HEAD 3
branch refs/heads/a";

    let worktrees = managed_worktrees_from_porcelain(porcelain_output);
    assert_eq!(worktrees.len(), 2);
    assert_eq!(worktrees[0].name, "b");
    assert_eq!(worktrees[0].branch, Some("refs/remotes/origin/b".to_string()));
    assert_eq!(worktrees[1].name, "a");
}

#[test]
fn a_record_tells_its_path_by_its_first_such_line() {
    assert_eq!(
        worktree_record_path("HEAD 1\nworktree /a\nworktree /b"),
        Some("/a".to_string())
    );
    assert_eq!(worktree_record_path("worktree"), None);
    assert_eq!(worktree_record_path(""), None);
    assert_eq!(managed_worktree_from_record("HEAD 1", "/repo/.worktrees"), None);
}

#[test]
fn every_line_of_a_listing_is_a_branch() {
    assert_eq!(
        bases_from_listing("newest\neq/feat/a"),
        vec![
            WorktreeBase::LocalBranch("newest".to_string()),
            WorktreeBase::LocalBranch("eq/feat/a".to_string()),
        ]
    );
    assert_eq!(bases_from_listing(""), Vec::new());
}

#[test]
fn bases_have_a_reference_and_a_label() {
    assert_eq!(WorktreeBase::OriginMain.reference(), "refs/remotes/origin/main");
    assert_eq!(WorktreeBase::OriginMain.label(), "origin/main");
    let branch = WorktreeBase::LocalBranch("work".to_string());
    assert_eq!(branch.reference(), "refs/heads/work");
    assert_eq!(branch.label(), "work");
    assert!(branch.same(&branch.clone()));
    assert!(!branch.same(&WorktreeBase::OriginMain));
}
