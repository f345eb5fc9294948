//! What holds of the creation of a worktree.

use vstd::prelude::*;
use crate::cli;
use crate::create;
use crate::create::SiteView;
use crate::git;
use crate::host;
use crate::host::{HaltView, ReplyView, RequestView};
use crate::laws::stability;
use crate::listing;
use crate::model::{BackgroundView, BaseView, ManagedView, OutcomeView};
use crate::name;
use crate::path;
use crate::setup;
use crate::text;

verus! {

/// A request that leaves the world as it is.
pub open spec fn only_reads(request: RequestView) -> bool {
    match request {
        RequestView::Git { arguments, .. } => arguments.len() > 0 && (arguments[0]
            == "rev-parse"@ || arguments[0] == "rev-list"@ || arguments[0] == "show-ref"@),
        RequestView::Exists { .. }
        | RequestView::Read { .. }
        | RequestView::ParseConfig { .. } => true,
        _ => false,
    }
}

/// Law: the checks before a creation only read.
pub proof fn law_checks_only_read(
    directory: Seq<char>,
    name: Seq<char>,
    base: BaseView,
    replies: Seq<ReplyView>,
)
    ensures
        create::check_flow(directory, name, base, replies).0 matches Err(
            HaltView::Pending(request),
        ) ==> only_reads(request),
{
}

/// Where the checks do not pass, the creation comes to what they come to.
proof fn lemma_check_decides(
    directory: Seq<char>,
    name: Seq<char>,
    base: BaseView,
    replies: Seq<ReplyView>,
    halt: HaltView,
)
    requires
        create::check_flow(directory, name, base, replies).0 == Err::<SiteView, HaltView>(halt),
    ensures
        create::create_flow(directory, name, base, replies).0 == Err::<OutcomeView, HaltView>(
            halt,
        ),
{
}

/// Law: where a check fails, the creation fails with its message whatever replies follow, and
/// at no time before did it ask for more than to read. No worktree was created.
#[verifier::rlimit(40)]
pub proof fn law_failed_check_creates_nothing(
    directory: Seq<char>,
    name: Seq<char>,
    base: BaseView,
    replies: Seq<ReplyView>,
    more: Seq<ReplyView>,
    message: Seq<char>,
    count: int,
)
    requires
        create::check_flow(directory, name, base, replies).0 == Err::<SiteView, HaltView>(
            HaltView::Failed(message),
        ),
        0 <= count <= replies.len(),
    ensures
        create::create_flow(directory, name, base, replies + more).0 matches Err(
            HaltView::Failed(said),
        ) && said == message,
        match create::create_flow(directory, name, base, replies.take(count)).0 {
            Ok(_) => false,
            Err(HaltView::Failed(said)) => said == message,
            Err(HaltView::Pending(request)) => only_reads(request),
        },
{
    let failure = HaltView::Failed(message);
    stability::lemma_check(directory, name, base, replies, more);
    lemma_check_decides(directory, name, base, replies + more, failure);
    let early = replies.take(count);
    let late = replies.skip(count);
    assert(early + late =~= replies);
    stability::lemma_check(directory, name, base, early, late);
    law_checks_only_read(directory, name, base, early);
    if let Err(halt) = create::check_flow(directory, name, base, early).0 {
        lemma_check_decides(directory, name, base, early, halt);
    }
}

/// Law: whatever a creation asks for that is not a mere reading, it asks for after all its
/// checks passed.
pub proof fn law_checks_come_first(
    directory: Seq<char>,
    name: Seq<char>,
    base: BaseView,
    replies: Seq<ReplyView>,
    request: RequestView,
)
    requires
        create::create_flow(directory, name, base, replies).0 matches Err(
            HaltView::Pending(asked),
        ) && asked == request,
        !only_reads(request),
    ensures
        create::check_flow(directory, name, base, replies).0 is Ok,
{
    law_checks_only_read(directory, name, base, replies);
}

/// A reply that tells that a process succeeded.
pub open spec fn success(reply: ReplyView) -> bool {
    reply is Ended && reply->Ended_0.succeeded()
}

/// How many replies there are until the commits of the repository are checked: one more where the
/// head has no commit.
pub open spec fn head_end(replies: Seq<ReplyView>) -> int {
    if success(replies[2]) {
        3
    } else {
        4
    }
}

/// Replies that begin with those of Git in a work tree of a repository with a commit.
pub open spec fn in_work_tree(replies: Seq<ReplyView>) -> bool {
    &&& replies.len() >= 3
    &&& success(replies[0])
    &&& success(replies[1])
    &&& git::trimmed_text(replies[1]->Ended_0.stdout) != "true"@
    &&& replies[2] is Ended
    &&& success(replies[2]) || {
        &&& replies.len() >= 4
        &&& replies[3] is Ended || replies[3] is Failed
        &&& !(success(replies[3]) && replies[3]->Ended_0.stdout.len() == 0)
    }
}

/// Law: the checks pass only for a valid name, in a work tree of a repository with a commit, with
/// a base that has a commit, without a branch of that name and with nothing at the worktree's
/// path, and where the configuration file, if there is one, can be read. The last thing that they
/// learn is the primary checkout.
pub proof fn law_passed_checks(
    directory: Seq<char>,
    name: Seq<char>,
    base: BaseView,
    replies: Seq<ReplyView>,
    site: SiteView,
)
    requires
        create::check_flow(directory, name, base, replies).0 == Ok::<SiteView, HaltView>(site),
    ensures
        name::valid_name(name),
        in_work_tree(replies),
        site.root == root_in(replies),
        ({
            let at = head_end(replies);
            &&& replies.len() >= at + 5
            &&& success(replies[at])
            &&& replies[at + 1] is Ended
            &&& replies[at + 1]->Ended_0.code == Some(1i32)
            &&& replies[at + 2] == ReplyView::Answer(false)
            &&& site.config is None ==> {
                &&& replies[at + 3] is Absent
                &&& git::primary_flow(site.root, replies.skip(at + 4)).0 == Ok::<
                    Seq<char>,
                    HaltView,
                >(site.main_root)
            }
            &&& site.config matches Some(config) ==> {
                &&& replies[at + 3] is Text
                &&& replies[at + 4] == ReplyView::Config(config)
                &&& git::primary_flow(site.root, replies.skip(at + 5)).0 == Ok::<
                    Seq<char>,
                    HaltView,
                >(site.main_root)
            }
        }),
{
    name::law_accepted_names_are_the_valid_names(name);
    lemma_in_order(replies);
}

/// The root of the work tree that the replies tell of.
pub open spec fn root_in(replies: Seq<ReplyView>) -> Seq<char> {
    git::trimmed_text(replies[0]->Ended_0.stdout)
}

/// What a creation that fails comes to.
pub open spec fn creation_fails(
    directory: Seq<char>,
    name: Seq<char>,
    base: BaseView,
    replies: Seq<ReplyView>,
    message: Seq<char>,
) -> bool {
    create::create_flow(directory, name, base, replies).0 matches Err(HaltView::Failed(said))
        && said == message
}

/// The replies one after the other.
pub proof fn lemma_in_order(replies: Seq<ReplyView>)
    ensures
        ({
            let r1 = replies.drop_first();
            let r2 = r1.drop_first();
            let r3 = r2.drop_first();
            let r4 = r3.drop_first();
            let r5 = r4.drop_first();
            let r6 = r5.drop_first();
            let r7 = r6.drop_first();
            let r8 = r7.drop_first();
            let r9 = r8.drop_first();
            &&& replies.len() >= 1 ==> r1 == replies.skip(1)
            &&& replies.len() >= 2 ==> r2 == replies.skip(2)
            &&& replies.len() >= 3 ==> r3 == replies.skip(3)
            &&& replies.len() >= 4 ==> r4 == replies.skip(4)
            &&& replies.len() >= 5 ==> r5 == replies.skip(5)
            &&& replies.len() >= 6 ==> r6 == replies.skip(6)
            &&& replies.len() >= 7 ==> r7 == replies.skip(7)
            &&& replies.len() >= 8 ==> r8 == replies.skip(8)
            &&& replies.len() >= 9 ==> r9 == replies.skip(9)
        }),
{
}

/// Law: a creation fails for an invalid name without a single request.
pub proof fn law_invalid_name_fails(
    directory: Seq<char>,
    name: Seq<char>,
    base: BaseView,
    replies: Seq<ReplyView>,
)
    requires
        !name::valid_name(name),
    ensures
        name::name_error(name) is Some,
        create::create_flow(directory, name, base, replies) == host::failed::<OutcomeView>(
            name::name_error(name)->0,
            replies,
        ),
{
    name::law_accepted_names_are_the_valid_names(name);
}

/// Law: a creation fails outside a work tree.
pub proof fn law_creation_needs_a_work_tree(
    directory: Seq<char>,
    name: Seq<char>,
    base: BaseView,
    replies: Seq<ReplyView>,
)
    requires
        name::valid_name(name),
        replies.len() > 0,
        replies[0] is Failed || (replies[0] is Ended && !success(replies[0])),
    ensures
        creation_fails(
            directory,
            name,
            base,
            replies,
            "current directory is not inside a Git work tree"@,
        ),
{
    name::law_accepted_names_are_the_valid_names(name);
}

/// Law: a creation fails where the repository has no commits: where Git finds none for the head
/// and lists none at all.
pub proof fn law_creation_needs_a_commit(
    directory: Seq<char>,
    name: Seq<char>,
    base: BaseView,
    replies: Seq<ReplyView>,
)
    requires
        name::valid_name(name),
        replies.len() > 3,
        success(replies[0]),
        success(replies[1]),
        git::trimmed_text(replies[1]->Ended_0.stdout) != "true"@,
        replies[2] is Ended,
        !success(replies[2]),
        success(replies[3]),
        replies[3]->Ended_0.stdout.len() == 0,
    ensures
        creation_fails(
            directory,
            name,
            base,
            replies,
            "repository has no commits yet; create an initial commit first"@,
        ),
{
    name::law_accepted_names_are_the_valid_names(name);
    lemma_in_order(replies);
}

/// Law: a head without a commit is no failure where the repository has one.
pub proof fn law_a_head_without_commits_is_no_failure(root: Seq<char>, replies: Seq<ReplyView>)
    requires
        replies.len() > 1,
        replies[0] is Ended,
        !success(replies[0]),
        success(replies[1]),
        replies[1]->Ended_0.stdout.len() > 0,
    ensures
        create::head_flow(root, replies) == (Ok::<(), HaltView>(()), replies.skip(2)),
{
    lemma_in_order(replies);
}

/// Law: a creation fails where the base does not exist or has no commits.
pub proof fn law_creation_needs_its_base(
    directory: Seq<char>,
    name: Seq<char>,
    base: BaseView,
    replies: Seq<ReplyView>,
)
    requires
        name::valid_name(name),
        in_work_tree(replies),
        replies.len() > head_end(replies),
        replies[head_end(replies)] is Ended,
        !success(replies[head_end(replies)]),
    ensures
        creation_fails(
            directory,
            name,
            base,
            replies,
            "base branch '"@ + base.shown() + "' does not exist or has no commits"@,
        ),
{
    name::law_accepted_names_are_the_valid_names(name);
    lemma_in_order(replies);
}

/// Law: a creation fails where the branch already exists.
pub proof fn law_creation_needs_a_free_branch(
    directory: Seq<char>,
    name: Seq<char>,
    base: BaseView,
    replies: Seq<ReplyView>,
)
    requires
        name::valid_name(name),
        in_work_tree(replies),
        replies.len() > head_end(replies) + 1,
        success(replies[head_end(replies)]),
        success(replies[head_end(replies) + 1]),
    ensures
        creation_fails(
            directory,
            name,
            base,
            replies,
            "branch '"@ + name + "' already exists"@,
        ),
{
    name::law_accepted_names_are_the_valid_names(name);
    lemma_in_order(replies);
}

/// Replies that go on with those for a base that is there and a branch that is not.
pub open spec fn with_base_and_free_branch(replies: Seq<ReplyView>) -> bool {
    let at = head_end(replies);
    &&& in_work_tree(replies)
    &&& replies.len() > at + 1
    &&& success(replies[at])
    &&& replies[at + 1] is Ended
    &&& replies[at + 1]->Ended_0.code == Some(1i32)
}

/// Law: a creation fails where something stands at the worktree's path.
pub proof fn law_creation_needs_a_free_path(
    directory: Seq<char>,
    name: Seq<char>,
    base: BaseView,
    replies: Seq<ReplyView>,
)
    requires
        name::valid_name(name),
        with_base_and_free_branch(replies),
        replies.len() > head_end(replies) + 2,
        replies[head_end(replies) + 2] == ReplyView::Answer(true),
    ensures
        creation_fails(
            directory,
            name,
            base,
            replies,
            "target path already exists: "@ + listing::worktree_path_of(root_in(replies), name),
        ),
{
    name::law_accepted_names_are_the_valid_names(name);
    lemma_in_order(replies);
}

/// Law: a creation fails where the configuration file is there and cannot be read, or cannot be
/// read as one.
pub proof fn law_creation_needs_a_readable_config(
    directory: Seq<char>,
    name: Seq<char>,
    base: BaseView,
    replies: Seq<ReplyView>,
)
    requires
        name::valid_name(name),
        with_base_and_free_branch(replies),
        replies.len() > head_end(replies) + 3,
        replies[head_end(replies) + 2] == ReplyView::Answer(false),
        replies[head_end(replies) + 3] is Failed || {
            &&& replies[head_end(replies) + 3] is Text
            &&& replies.len() > head_end(replies) + 4
            &&& replies[head_end(replies) + 4] is Failed
        },
    ensures
        ({
            let at = head_end(replies);
            let file = path::join_of(root_in(replies), create::CONFIG_FILE_NAME@);
            creation_fails(
                directory,
                name,
                base,
                replies,
                if replies[at + 3] is Failed {
                    "failed to read "@ + file + ": "@ + replies[at + 3]->Failed_0
                } else {
                    "failed to parse "@ + file + ": "@ + replies[at + 4]->Failed_0
                },
            )
        }),
{
    name::law_accepted_names_are_the_valid_names(name);
    lemma_in_order(replies);
}

/// The worktree of a record that stands directly in the directory is among those of the records.
proof fn lemma_record_is_kept(records: Seq<Seq<char>>, directory: Seq<char>, at: int)
    requires
        0 <= at < records.len(),
        listing::managed_record(records[at], directory) is Some,
    ensures
        listing::managed_records(records, directory).contains(
            listing::managed_record(records[at], directory)->0,
        ),
    decreases records.len(),
{
    let found = listing::managed_record(records[at], directory)->0;
    let all = listing::managed_records(records, directory);
    if at < records.len() - 1 {
        let before = listing::managed_records(records.drop_last(), directory);
        assert(records.drop_last()[at] == records[at]);
        lemma_record_is_kept(records.drop_last(), directory, at);
        let i = before.index_of(found);
        assert(before[i] == found);
        assert(all[i] == found);
    } else {
        assert(all[all.len() - 1] == found);
    }
}

/// Law: a worktree that was created stands directly in the directory for worktrees of the work
/// tree that it was created in, under its name. So a record of it is that of a managed worktree
/// where that work tree is the main one, and only there: what is created in another work tree
/// stands in that one's own directory.
pub proof fn law_created_record_is_managed(
    root: Seq<char>,
    main: Seq<char>,
    name: Seq<char>,
    record: Seq<char>,
)
    requires
        name::valid_name(name),
        listing::record_path(record) == Some(listing::worktree_path_of(root, name)),
    ensures
        path::components_of(root) == path::components_of(main)
            ==> listing::managed_record(record, listing::directory_of(main)) == Some(
            ManagedView {
                name,
                path: listing::worktree_path_of(root, name),
                branch: listing::record_branch(record),
            },
        ),
        path::components_of(root) != path::components_of(main)
            ==> listing::managed_record(record, listing::directory_of(main)) is None,
{
    let directory = listing::WORKTREE_DIRECTORY_NAME@;
    listing::lemma_directory_name_is_plain();
    name::law_valid_names_are_plain(name);
    path::law_join_appends_a_component(root, directory);
    path::law_join_appends_a_component(main, directory);
    path::law_join_appends_a_component(listing::directory_of(root), name);
    let inner = path::components_of(listing::worktree_path_of(root, name));
    assert(inner.drop_last() =~= path::components_of(listing::directory_of(root)));
    assert(inner.drop_last().drop_last() =~= path::components_of(root));
    assert(path::components_of(listing::directory_of(main)).drop_last()
        =~= path::components_of(main));
}

/// Law: where Git lists a worktree that was created in the main work tree, a clean-up finds it,
/// under its name.
pub proof fn law_created_worktree_is_managed(
    root: Seq<char>,
    main: Seq<char>,
    name: Seq<char>,
    listed: Seq<char>,
    at: int,
)
    requires
        name::valid_name(name),
        path::components_of(root) == path::components_of(main),
        0 < at < text::parts_of(listed, "\n\n"@).len(),
        listing::record_path(text::parts_of(listed, "\n\n"@)[0]) == Some(main),
        listing::record_path(text::parts_of(listed, "\n\n"@)[at]) == Some(
            listing::worktree_path_of(root, name),
        ),
    ensures
        listing::managed_in(listed).contains(
            ManagedView {
                name,
                path: listing::worktree_path_of(root, name),
                branch: listing::record_branch(text::parts_of(listed, "\n\n"@)[at]),
            },
        ),
{
    let records = text::parts_of(listed, "\n\n"@);
    law_created_record_is_managed(root, main, name, records[at]);
    assert(records.drop_first()[at - 1] == records[at]);
    lemma_record_is_kept(records.drop_first(), listing::directory_of(main), at - 1);
}

/// Law: a setup command is reached when all commands before it succeeded.
pub proof fn law_commands_run_in_order(
    root: Seq<char>,
    worktree: Seq<char>,
    commands: Seq<Seq<char>>,
    replies: Seq<ReplyView>,
    count: int,
)
    requires
        0 <= count <= commands.len(),
        count <= replies.len(),
        forall|i: int| 0 <= i < count ==> success(#[trigger] replies[i]),
    ensures
        setup::commands_flow(root, worktree, commands, replies) == setup::commands_flow(
            root,
            worktree,
            commands.skip(count),
            replies.skip(count),
        ),
    decreases count,
{
    if count == 0 {
        assert(commands.skip(0) =~= commands);
        assert(replies.skip(0) =~= replies);
    } else {
        let rest = replies.drop_first();
        assert(success(replies[0]));
        assert forall|i: int| 0 <= i < count - 1 implies success(#[trigger] rest[i]) by {
            assert(rest[i] == replies[i + 1]);
        }
        law_commands_run_in_order(root, worktree, commands.drop_first(), rest, count - 1);
        assert(commands.drop_first().skip(count - 1) =~= commands.skip(count));
        assert(rest.skip(count - 1) =~= replies.skip(count));
    }
}

/// Law: the first setup command that does not succeed ends the setup with a failure that names
/// it, and no command after it runs.
pub proof fn law_setup_stops_at_the_first_failure(
    root: Seq<char>,
    worktree: Seq<char>,
    commands: Seq<Seq<char>>,
    replies: Seq<ReplyView>,
    count: int,
)
    requires
        0 <= count < commands.len(),
        count < replies.len(),
        forall|i: int| 0 <= i < count ==> success(#[trigger] replies[i]),
        replies[count] is Ended,
        !success(replies[count]),
    ensures
        setup::setup_flow(root, worktree, commands, replies) == host::failed::<usize>(
            "setup command '"@ + commands[count] + "' failed with status "@
                + replies[count]->Ended_0.status,
            replies.skip(count + 1),
        ),
{
    law_commands_run_in_order(root, worktree, commands, replies, count);
    assert(commands.skip(count)[0] == commands[count]);
    assert(replies.skip(count)[0] == replies[count]);
    assert(replies.skip(count).drop_first() =~= replies.skip(count + 1));
}

/// Law: the setup succeeds exactly when every command succeeds.
pub proof fn law_setup_succeeds_with_every_command(
    root: Seq<char>,
    worktree: Seq<char>,
    commands: Seq<Seq<char>>,
    replies: Seq<ReplyView>,
)
    ensures
        setup::setup_flow(root, worktree, commands, replies).0 is Ok <==> {
            &&& replies.len() >= commands.len()
            &&& forall|i: int| 0 <= i < commands.len() ==> success(#[trigger] replies[i])
        },
    decreases commands.len(),
{
    if commands.len() > 0 && replies.len() > 0 {
        let rest = replies.drop_first();
        law_setup_succeeds_with_every_command(root, worktree, commands.drop_first(), rest);
        let all = forall|i: int| 0 <= i < commands.len() ==> success(#[trigger] replies[i]);
        let others = forall|i: int|
            0 <= i < commands.len() - 1 ==> success(#[trigger] rest[i]);
        if all && replies.len() >= commands.len() {
            assert forall|i: int| 0 <= i < commands.len() - 1 implies success(
                #[trigger] rest[i],
            ) by {
                assert(rest[i] == replies[i + 1]);
            }
            assert(success(replies[0]));
        }
        if success(replies[0]) && others && rest.len() >= commands.len() - 1 {
            assert forall|i: int| 0 <= i < commands.len() implies success(
                #[trigger] replies[i],
            ) by {
                if i > 0 {
                    assert(rest[i - 1] == replies[i]);
                }
            }
        }
    }
}

/// Law: something is left for the worker only where the configuration asks for it, and only
/// when every setup command succeeded.
pub proof fn law_the_worker_follows_the_setup(
    site: SiteView,
    name: Seq<char>,
    replies: Seq<ReplyView>,
    outcome: OutcomeView,
)
    requires
        create::furnish_flow(site, name, replies).0 == Ok::<OutcomeView, HaltView>(outcome),
    ensures
        outcome.config_missing <==> site.config is None,
        outcome.background_setup is Some ==> {
            &&& site.config matches Some(config)
            &&& config.background_setup_commands.len() > 0
            &&& outcome.background_setup->0.commands == config.background_setup_commands
            &&& replies.len() >= config.setup_commands.len()
            &&& forall|i: int|
                0 <= i < config.setup_commands.len() ==> success(#[trigger] replies[i])
        },
{
    if let Some(config) = site.config {
        law_setup_succeeds_with_every_command(
            site.main_root,
            listing::worktree_path_of(site.root, name),
            config.setup_commands,
            replies,
        );
    }
}

/// Law: the worker's commands are told the primary checkout, and its files stand among Git's own
/// files of the work tree that the worktree is created in.
pub proof fn law_what_the_worker_is_told(
    site: SiteView,
    name: Seq<char>,
    replies: Seq<ReplyView>,
    outcome: OutcomeView,
    background: BackgroundView,
)
    requires
        create::furnish_flow(site, name, replies).0 == Ok::<OutcomeView, HaltView>(outcome),
        outcome.background_setup == Some(background),
    ensures
        background.repository_root == site.main_root,
        background.worktree_path == outcome.path,
        ({
            let answers = setup::setup_flow(
                site.main_root,
                listing::worktree_path_of(site.root, name),
                site.config->0.setup_commands,
                replies,
            ).1;
            git::git_path_flow(
                site.root,
                setup::BACKGROUND_SETUP_DIRECTORY@,
                answers,
            ).0 matches Ok(directory) && {
                &&& background.log_path == setup::artifact_path(directory, name, "log"@)
                &&& background.status_path == setup::artifact_path(directory, name, "status"@)
            }
        }),
{
}

/// Law: where a clean-up is told the same directory for the worker's files as the creation was,
/// the files that it removes are those that the creation named.
pub proof fn law_removal_finds_the_workers_files(
    site: SiteView,
    worktree: Seq<char>,
    name: Seq<char>,
    commands: Seq<Seq<char>>,
    created: Seq<ReplyView>,
    root: Seq<char>,
    removed: Seq<ReplyView>,
    background: BackgroundView,
)
    requires
        setup::background_flow(site.root, worktree, name, commands, created).0 == Ok::<
            Option<BackgroundView>,
            HaltView,
        >(Some(background)),
        git::git_path_flow(root, setup::BACKGROUND_SETUP_DIRECTORY@, removed).0
            == git::git_path_flow(site.root, setup::BACKGROUND_SETUP_DIRECTORY@, created).0,
    ensures
        ({
            let rest = git::git_path_flow(root, setup::BACKGROUND_SETUP_DIRECTORY@, removed).1;
            setup::remove_artifacts_flow(root, name, removed) == (
            match setup::remove_artifact_flow(background.log_path, rest) {
                (Err(halt), rest) => (Err(halt), rest),
                (Ok(_), rest) => setup::remove_artifact_flow(background.status_path, rest),
            })
        }),
{
}

/// A directory that a Git directory `.git` stands in is its holder.
proof fn lemma_holder(main: Seq<char>)
    requires
        path::placed(main).len() > 0,
        path::placed(main).last().1 == main.len(),
    ensures
        git::holder_of(path::join_of(main, ".git"@)) == Some(main),
        path::parent_of(path::join_of(main, ".git"@)) == Some(main),
{
    reveal_strlit(".git");
    let name = ".git"@;
    assert(path::plain(name)) by {
        assert(name.len() == 4);
        assert(name != seq!['.']);
        assert(name != seq!['.', '.']);
        assert(!name.contains('/'));
    }
    path::law_parent_of_join(main, name);
    path::law_joined_name_is_found(main, name);
}

/// Law: the primary checkout of a linked work tree is the checkout that holds the repository's
/// `.git`; a clean-up takes the same directory for the main work tree.
pub proof fn law_the_primary_checkout_of_a_linked_work_tree(
    root: Seq<char>,
    main: Seq<char>,
    replies: Seq<ReplyView>,
)
    requires
        path::placed(main).len() > 0,
        path::placed(main).last().1 == main.len(),
        path::components_of(root) != path::components_of(main),
        replies.len() > 2,
        success(replies[0]),
        git::trimmed_text(replies[0]->Ended_0.stdout) == path::join_of(main, ".git"@),
        success(replies[1]),
        path::components_of(git::trimmed_text(replies[1]->Ended_0.stdout))
            != path::components_of(path::join_of(main, ".git"@)),
        success(replies[2]),
        path::components_of(git::trimmed_text(replies[2]->Ended_0.stdout))
            == path::components_of(main),
    ensures
        git::primary_flow(root, replies) == (Ok::<Seq<char>, HaltView>(main), replies.skip(3)),
        path::parent_of(path::join_of(main, ".git"@)) == Some(main),
{
    lemma_holder(main);
    lemma_in_order(replies);
}

/// Law: a work tree whose Git directory is the one that it shares is the primary checkout itself,
/// wherever that directory stands.
pub proof fn law_the_primary_checkout_of_a_main_work_tree(
    root: Seq<char>,
    replies: Seq<ReplyView>,
)
    requires
        replies.len() > 1,
        success(replies[0]),
        success(replies[1]),
        path::components_of(git::trimmed_text(replies[1]->Ended_0.stdout))
            == path::components_of(git::trimmed_text(replies[0]->Ended_0.stdout)),
    ensures
        git::primary_flow(root, replies).0 == Ok::<Seq<char>, HaltView>(root),
{
    lemma_in_order(replies);
}

/// Law: where the directory that holds the shared Git directory is no checkout, as with a bare
/// repository, the work tree itself stands for the primary checkout.
pub proof fn law_without_a_primary_checkout_the_work_tree_stands_for_it(
    root: Seq<char>,
    replies: Seq<ReplyView>,
)
    requires
        replies.len() > 2,
        success(replies[0]),
        success(replies[1]),
        replies[2] is Ended,
        !success(replies[2]),
    ensures
        git::primary_flow(root, replies).0 == Ok::<Seq<char>, HaltView>(root),
{
    lemma_in_order(replies);
}

/// What setup commands ask of the shell is to run in the worktree and to be told the repository.
pub proof fn lemma_commands_are_told_the_repository(
    root: Seq<char>,
    worktree: Seq<char>,
    commands: Seq<Seq<char>>,
    replies: Seq<ReplyView>,
)
    ensures
        setup::commands_flow(root, worktree, commands, replies).0 matches Err(
            HaltView::Pending(request),
        ) ==> {
            &&& request matches RequestView::Shell { directory, command, variable, value }
            &&& directory == worktree
            &&& commands.contains(command)
            &&& variable == "WORKTREE_MANAGER_REPO_ROOT"@
            &&& value == root
        },
    decreases commands.len(),
{
    if commands.len() > 0 {
        assert(commands[0] == commands.first());
        assert(commands.contains(commands[0]));
        if let (Ok(_), rest) = setup::command_flow(root, worktree, commands[0], replies) {
            let others = commands.drop_first();
            lemma_commands_are_told_the_repository(root, worktree, others, rest);
            assert forall|command: Seq<char>| others.contains(command) implies commands.contains(
                command,
            ) by {
                let i = others.index_of(command);
                assert(commands[i + 1] == others[i]);
            }
        }
    }
}

/// Law: the one thing that a creation has Git do with the streams of this process is to add the
/// worktree, with a branch of its name, at its path in the directory for worktrees and from the
/// base.
pub proof fn law_git_is_asked_to_add_the_worktree(
    working: Seq<char>,
    name: Seq<char>,
    base: BaseView,
    replies: Seq<ReplyView>,
    directory: Seq<char>,
    arguments: Seq<Seq<char>>,
)
    requires
        create::create_flow(working, name, base, replies).0 == Err::<OutcomeView, HaltView>(
            HaltView::Pending(RequestView::GitAttached { directory, arguments }),
        ),
    ensures
        create::check_flow(working, name, base, replies).0 matches Ok(site) && {
            &&& directory == site.root
            &&& arguments == seq![
                "worktree"@,
                "add"@,
                "-b"@,
                name,
                path::join_of(path::join_of(site.root, ".worktrees"@), name),
                match base {
                    BaseView::OriginMain => "refs/remotes/origin/main"@,
                    BaseView::LocalBranch(branch) => "refs/heads/"@ + branch,
                },
            ]
        },
{
    law_checks_only_read(working, name, base, replies);
    if let (Ok(site), rest) = create::check_flow(working, name, base, replies) {
        if let Some(config) = site.config {
            let path = listing::worktree_path_of(site.root, name);
            if let (Ok(_), rest1) = create::ignore_flow(site.root, rest) {
                if let (Ok(_), rest2) = create::add_flow(site.root, name, path, base, rest1) {
                    lemma_commands_are_told_the_repository(
                        site.main_root,
                        path,
                        config.setup_commands,
                        rest2,
                    );
                }
            }
        }
    }
}

/// Law: a creation that succeeds tells the name and the path of the worktree, whether there is a
/// configuration file, and that all of its setup commands ran.
pub proof fn law_the_outcome_of_a_creation(
    directory: Seq<char>,
    name: Seq<char>,
    base: BaseView,
    replies: Seq<ReplyView>,
    outcome: OutcomeView,
)
    requires
        create::create_flow(directory, name, base, replies).0 == Ok::<OutcomeView, HaltView>(
            outcome,
        ),
    ensures
        create::check_flow(directory, name, base, replies).0 matches Ok(site) && {
            &&& outcome.name == name
            &&& outcome.path == listing::worktree_path_of(site.root, name)
            &&& outcome.config_missing <==> site.config is None
            &&& outcome.setup_commands_run == match site.config {
                Some(config) => config.setup_commands.len() as usize,
                None => 0usize,
            }
        },
{
}

/// Law: every setup command that a creation runs is one of the configuration's, runs in the new
/// worktree, and is told the root of the primary checkout.
pub proof fn law_setup_commands_are_told_the_primary_checkout(
    working: Seq<char>,
    name: Seq<char>,
    base: BaseView,
    replies: Seq<ReplyView>,
    directory: Seq<char>,
    command: Seq<char>,
    variable: Seq<char>,
    value: Seq<char>,
)
    requires
        create::create_flow(working, name, base, replies).0 == Err::<OutcomeView, HaltView>(
            HaltView::Pending(RequestView::Shell { directory, command, variable, value }),
        ),
    ensures
        create::check_flow(working, name, base, replies).0 matches Ok(site) && {
            &&& directory == listing::worktree_path_of(site.root, name)
            &&& site.config matches Some(config) && config.setup_commands.contains(command)
            &&& variable == "WORKTREE_MANAGER_REPO_ROOT"@
            &&& value == site.main_root
        },
{
    law_checks_only_read(working, name, base, replies);
    if let (Ok(site), rest) = create::check_flow(working, name, base, replies) {
        if let Some(config) = site.config {
            let path = listing::worktree_path_of(site.root, name);
            if let (Ok(_), rest1) = create::ignore_flow(site.root, rest) {
                if let (Ok(_), rest2) = create::add_flow(site.root, name, path, base, rest1) {
                    lemma_commands_are_told_the_repository(
                        site.main_root,
                        path,
                        config.setup_commands,
                        rest2,
                    );
                }
            }
        }
    }
}

/// Law: without a name that is asked for, a worktree gets a made-up one, which has the shape of a
/// generated name and is valid.
pub proof fn law_made_up_names_are_valid(
    name: Option<Seq<char>>,
    replies: Seq<ReplyView>,
    chosen: Seq<char>,
)
    requires
        name matches Some(input) ==> name::asked_name(input) is None,
        cli::name_flow(name, replies).0 == Ok::<Seq<char>, HaltView>(chosen),
    ensures
        name::generated_shape(chosen),
        name::valid_name(chosen),
{
    name::law_generated_names_are_valid(chosen);
}

} // verus!
