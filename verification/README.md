# worktree-manager

`worktree-manager` is a small command for Git worktrees in which agents work. Run from inside a Git
work tree, it lets you choose a base branch, creates a worktree of a new branch in the repository's
`.worktrees/` directory and sets it up. `worktree-manager clean` removes such worktrees again, with
their branches and what was kept about their setup.

```sh
worktree-manager                          # choose a base, create a worktree under a random name
worktree-manager --name fix-login         # the same under this name
worktree-manager clean                    # choose worktrees and remove them
worktree-manager clean --name fix-login   # remove this one
eval "$(command worktree-manager shell-init)"   # `wt`: create a worktree and enter it
```

`agent-worktree.config.json` at the root of the repository names the commands of a setup:

```json
{
  "setupCommands": ["cp \"$WORKTREE_MANAGER_REPO_ROOT/.env\" ./.env"],
  "backgroundSetupCommands": ["cargo fetch"]
}
```

`setupCommands` run one after the other before the command returns. `backgroundSetupCommands` run
after them in a detached worker, which keeps a log and a status file (`pending`, `running`,
`succeeded`, or `failed` with the error) among Git's own files.

Each command is told the root of the primary checkout in `WORKTREE_MANAGER_REPO_ROOT`, also where the
worktree is created from within another one. Such a worktree stands in the `.worktrees/` of the one
that it was created in; a clean-up lists those in the `.worktrees/` of the primary checkout.

## Layout

- `src/` is the library, verified with Verus. It holds every decision of the program and does
  nothing to the world by itself: each part of it is a function of the replies that it has had so
  far, and comes to a value, to a failure, or to the next request. Its contracts say which, for
  every sequence of replies. `src/laws/` states what holds of the parts together: among other things
  that the checks of a creation only read, that only worktrees in `.worktrees/` are ever removed,
  and that what was decided on earlier replies is decided again on more.
- `app/` is the command itself: it reads the command line, and performs the requests one by one.
- `tests/` runs the library, alone and in a simulated repository.

Paths are text with `/` between their components, the form in which Git prints them. A path that
starts with a drive (`C:/`) is absolute where that of the work tree starts so too.
