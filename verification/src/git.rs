//! Questions to Git, and what its answers mean.

use vstd::prelude::*;
use vstd::pervasive::unreached;
use crate::host;
use crate::host::{
    Flow, Halt, HaltView, Output, OutputView, Reply, ReplyView, Request, RequestView, Session,
};
use crate::path;
use crate::text;

verus! {

/// What `String::from_utf8_lossy` makes of a sequence of bytes.
pub uninterp spec fn utf8_lossy(bytes: Seq<u8>) -> Seq<char>;

/// `String::from_utf8_lossy` of the standard library: a text that depends on the bytes alone.
/// Where the bytes are valid UTF-8 it is the text that they encode; what stands for the parts
/// that are not is left unsaid.
#[verifier::external_body]
pub(crate) fn decode_lossy(bytes: &[u8]) -> (decoded: String)
    ensures
        decoded@ == utf8_lossy(bytes@),
        vstd::utf8::valid_utf8(bytes@) ==> decoded@ == vstd::utf8::decode_utf8(bytes@),
{
    String::from_utf8_lossy(bytes).into_owned()
}

/// What bytes say, without the white space around it.
pub open spec fn trimmed_text(bytes: Seq<u8>) -> Seq<char> {
    text::trimmed(utf8_lossy(bytes))
}

/// What the bytes say, without the white space around it.
pub fn trimmed_lossy(bytes: &[u8]) -> (said: String)
    ensures
        said@ == trimmed_text(bytes@),
        vstd::utf8::valid_utf8(bytes@) ==> utf8_lossy(bytes@) == vstd::utf8::decode_utf8(bytes@),
{
    let decoded: String = decode_lossy(bytes);
    text::trim(decoded.as_str()).to_owned()
}

/// The message in what Git wrote to its standard error: the first line, without white space
/// around it and without the severity that it starts with.
pub open spec fn message_of(complaint: Seq<char>) -> Seq<char> {
    let lines = text::lines_of(complaint);
    let first = if lines.len() > 0 {
        lines[0]
    } else {
        Seq::empty()
    };
    text::without_leading(
        text::without_leading(text::trimmed(first), "fatal: "@),
        "error: "@,
    )
}

/// The message in what Git wrote to its standard error.
pub fn message_from_text(complaint: &str) -> (message: String)
    ensures
        message@ == message_of(complaint@),
{
    let lines = text::lines(complaint);
    let first: &str = if lines.len() > 0 {
        lines[0].as_str()
    } else {
        ""
    };
    proof {
        reveal_strlit("");
        assert(lines.deep_view().len() == lines.len());
        assert(first@ =~= if lines.deep_view().len() > 0 {
            lines.deep_view()[0]
        } else {
            Seq::empty()
        });
    }
    let severe: &str = text::trim_start_matches(text::trim(first), "fatal: ");
    text::trim_start_matches(severe, "error: ").to_owned()
}

/// The message in the bytes that Git wrote to its standard error.
pub fn git_message(stderr: &[u8]) -> (message: String)
    ensures
        message@ == message_of(utf8_lossy(stderr@)),
        vstd::utf8::valid_utf8(stderr@) ==> utf8_lossy(stderr@) == vstd::utf8::decode_utf8(
            stderr@,
        ),
{
    let complaint: String = decode_lossy(stderr);
    message_from_text(complaint.as_str())
}

/// A list of two texts.
pub fn list2(first: &str, second: &str) -> (list: Vec<String>)
    ensures
        list.deep_view() == seq![first@, second@],
{
    let list: Vec<String> = vec![first.to_owned(), second.to_owned()];
    assert(list.deep_view() =~= seq![first@, second@]);
    list
}

/// A list of three texts.
pub fn list3(first: &str, second: &str, third: &str) -> (list: Vec<String>)
    ensures
        list.deep_view() == seq![first@, second@, third@],
{
    let list: Vec<String> = vec![first.to_owned(), second.to_owned(), third.to_owned()];
    assert(list.deep_view() =~= seq![first@, second@, third@]);
    list
}

/// A list of four texts.
pub fn list4(first: &str, second: &str, third: &str, fourth: &str) -> (list: Vec<String>)
    ensures
        list.deep_view() == seq![first@, second@, third@, fourth@],
{
    let list: Vec<String> = vec![
        first.to_owned(),
        second.to_owned(),
        third.to_owned(),
        fourth.to_owned(),
    ];
    assert(list.deep_view() =~= seq![first@, second@, third@, fourth@]);
    list
}

/// Git's output for the arguments, whatever its exit code.
pub open spec fn git_status_flow(
    directory: Seq<char>,
    arguments: Seq<Seq<char>>,
    replies: Seq<ReplyView>,
) -> Flow<OutputView> {
    match host::ask_flow(RequestView::Git { directory, arguments }, replies) {
        (Err(halt), rest) => (Err(halt), rest),
        (Ok(reply), rest) => if reply is Failed {
            host::failed(
                "failed to start git "@ + text::joined(arguments, " "@) + ": "@
                    + reply->Failed_0,
                rest,
            )
        } else {
            (Ok(reply->Ended_0), rest)
        },
    }
}

/// Runs Git in a directory, and gives its output whatever its exit code.
pub fn git_status<'a>(
    directory: &str,
    arguments: Vec<String>,
    session: &mut Session<'a>,
) -> (result: Result<&'a Output, Halt>)
    ensures
        (host::seen(result), final(session)@) == git_status_flow(
            directory@,
            arguments.deep_view(),
            old(session)@,
        ),
{
    let words: String = text::join(&arguments, " ");
    match session.ask(Request::Git { directory: directory.to_owned(), arguments })? {
        Reply::Ended(output) => Ok(output),
        Reply::Failed(error) => Err(
            Halt::Failed(
                "failed to start git ".to_owned().concat(words.as_str()).concat(": ").concat(
                    error.as_str(),
                ),
            ),
        ),
        _ => unreached(),
    }
}

/// What Git says for the arguments; a failure where its exit code is not zero.
pub open spec fn git_output_flow(
    directory: Seq<char>,
    arguments: Seq<Seq<char>>,
    replies: Seq<ReplyView>,
) -> Flow<Seq<char>> {
    match git_status_flow(directory, arguments, replies) {
        (Err(halt), rest) => (Err(halt), rest),
        (Ok(output), rest) => if output.succeeded() {
            (Ok(trimmed_text(output.stdout)), rest)
        } else {
            host::failed(
                "git "@ + text::joined(arguments, " "@) + " failed: "@ + trimmed_text(
                    output.stderr,
                ),
                rest,
            )
        },
    }
}

/// Runs Git in a directory, and gives what it says.
pub fn git_output(directory: &str, arguments: Vec<String>, session: &mut Session<'_>) -> (result:
    Result<String, Halt>)
    ensures
        (host::seen(result), final(session)@) == git_output_flow(
            directory@,
            arguments.deep_view(),
            old(session)@,
        ),
{
    let words: String = text::join(&arguments, " ");
    let output = git_status(directory, arguments, session)?;
    if output.success() {
        Ok(trimmed_lossy(&output.stdout))
    } else {
        Err(
            Halt::Failed(
                "git ".to_owned().concat(words.as_str()).concat(" failed: ").concat(
                    trimmed_lossy(&output.stderr).as_str(),
                ),
            ),
        )
    }
}

/// The path of a file among Git's own, which Git tells relative to the directory or absolute.
pub open spec fn git_path_flow(
    directory: Seq<char>,
    name: Seq<char>,
    replies: Seq<ReplyView>,
) -> Flow<Seq<char>> {
    match git_output_flow(directory, seq!["rev-parse"@, "--git-path"@, name], replies) {
        (Err(halt), rest) => (Err(halt), rest),
        (Ok(path), rest) => (
            Ok(
                if path::stands_alone(path, directory) {
                    path
                } else {
                    path::join_of(directory, path)
                },
            ),
            rest,
        ),
    }
}

/// The path of a file among Git's own.
pub fn git_path(directory: &str, name: &str, session: &mut Session<'_>) -> (result: Result<
    String,
    Halt,
>)
    ensures
        (host::seen(result), final(session)@) == git_path_flow(directory@, name@, old(session)@),
{
    let path: String = git_output(directory, list3("rev-parse", "--git-path", name), session)?;
    if path::is_independent(path.as_str(), directory) {
        Ok(path)
    } else {
        Ok(path::join(directory, path.as_str()))
    }
}

/// The root of the work tree that a directory lies in.
pub open spec fn discover_flow(directory: Seq<char>, replies: Seq<ReplyView>) -> Flow<Seq<char>> {
    match git_output_flow(directory, seq!["rev-parse"@, "--show-toplevel"@], replies) {
        (Err(HaltView::Failed(_)), rest) => host::failed(
            "current directory is not inside a Git work tree"@,
            rest,
        ),
        (Err(halt), rest) => (Err(halt), rest),
        (Ok(root), rest) => match git_output_flow(
            directory,
            seq!["rev-parse"@, "--is-bare-repository"@],
            rest,
        ) {
            (Err(halt), rest) => (Err(halt), rest),
            (Ok(bare), rest) => if bare == "true"@ {
                host::failed("current directory is inside a bare Git repository"@, rest)
            } else {
                (Ok(root), rest)
            },
        },
    }
}

/// The root of the work tree that the directory lies in.
pub fn discover_git_context(directory: &str, session: &mut Session<'_>) -> (result: Result<
    String,
    Halt,
>)
    ensures
        (host::seen(result), final(session)@) == discover_flow(directory@, old(session)@),
{
    let root: String = match git_output(
        directory,
        list2("rev-parse", "--show-toplevel"),
        session,
    ) {
        Ok(root) => root,
        Err(Halt::Failed(_)) => {
            return Err(
                Halt::Failed("current directory is not inside a Git work tree".to_owned()),
            );
        },
        Err(halt) => {
            return Err(halt);
        },
    };
    let bare: String = git_output(
        directory,
        list2("rev-parse", "--is-bare-repository"),
        session,
    )?;
    if text::same(bare.as_str(), "true") {
        Err(Halt::Failed("current directory is inside a bare Git repository".to_owned()))
    } else {
        Ok(root)
    }
}

/// The root of the repository's main work tree: the directory that holds the Git directory which
/// all its work trees share.
pub open spec fn main_root_flow(directory: Seq<char>, replies: Seq<ReplyView>) -> Flow<Seq<char>> {
    match discover_flow(directory, replies) {
        (Err(halt), rest) => (Err(halt), rest),
        (Ok(root), rest) => match git_output_flow(
            root,
            seq!["rev-parse"@, "--path-format=absolute"@, "--git-common-dir"@],
            rest,
        ) {
            (Err(halt), rest) => (Err(halt), rest),
            (Ok(shared), rest) => match path::parent_of(shared) {
                Some(parent) => (Ok(parent), rest),
                None => host::failed(
                    "Git directory '"@ + shared + "' has no parent work tree"@,
                    rest,
                ),
            },
        },
    }
}

/// The root of the repository's main work tree.
pub fn main_worktree_root(cwd: &str, session: &mut Session<'_>) -> (result: Result<String, Halt>)
    ensures
        (host::seen(result), final(session)@) == main_root_flow(cwd@, old(session)@),
{
    let root: String = discover_git_context(cwd, session)?;
    let shared: String = git_output(
        root.as_str(),
        list3("rev-parse", "--path-format=absolute", "--git-common-dir"),
        session,
    )?;
    match path::parent(shared.as_str()) {
        Some(parent) => Ok(parent.to_owned()),
        None => Err(
            Halt::Failed(
                "Git directory '".to_owned().concat(shared.as_str()).concat(
                    "' has no parent work tree",
                ),
            ),
        ),
    }
}

/// What Git says for the arguments, if it says anything: nothing where it fails.
pub open spec fn said_flow(
    directory: Seq<char>,
    arguments: Seq<Seq<char>>,
    replies: Seq<ReplyView>,
) -> Flow<Option<Seq<char>>> {
    match git_output_flow(directory, arguments, replies) {
        (Err(HaltView::Failed(_)), rest) => (Ok(None), rest),
        (Err(halt), rest) => (Err(halt), rest),
        (Ok(said), rest) => (Ok(Some(said)), rest),
    }
}

/// Runs Git in a directory, and gives what it says unless it fails.
fn git_said(directory: &str, arguments: Vec<String>, session: &mut Session<'_>) -> (result: Result<
    Option<String>,
    Halt,
>)
    ensures
        (host::seen(result), final(session)@) == said_flow(
            directory@,
            arguments.deep_view(),
            old(session)@,
        ),
{
    match git_output(directory, arguments, session) {
        Ok(said) => Ok(Some(said)),
        Err(Halt::Failed(_)) => Ok(None),
        Err(halt) => Err(halt),
    }
}

/// The directory that holds a repository's Git directory `.git`. A Git directory of another name
/// is kept apart from a checkout.
pub open spec fn holder_of(shared: Seq<char>) -> Option<Seq<char>> {
    match path::parent_of(shared) {
        Some(parent) => if path::child_name(shared, parent) == Some(".git"@) {
            Some(parent)
        } else {
            None
        },
        None => None,
    }
}

/// The directory that holds a repository's Git directory `.git`.
pub fn git_directory_holder(shared: &str) -> (holder: Option<&str>)
    ensures
        holder.deep_view() == holder_of(shared@),
{
    if let Some(parent) = path::parent(shared) {
        if let Some(name) = path::name_in(shared, parent) {
            if text::same(name.as_str(), ".git") {
                return Some(parent);
            }
        }
    }
    None
}

/// The root of the primary checkout, for a work tree apart from the directory that holds the Git
/// directory which it shares: that directory, if the work tree has a Git directory of its own and
/// the other one is a checkout, and the work tree itself otherwise.
pub open spec fn linked_flow(
    root: Seq<char>,
    shared: Seq<char>,
    holder: Seq<char>,
    replies: Seq<ReplyView>,
) -> Flow<Seq<char>> {
    match said_flow(
        root,
        seq!["rev-parse"@, "--path-format=absolute"@, "--git-dir"@],
        replies,
    ) {
        (Err(halt), rest) => (Err(halt), rest),
        (Ok(None), rest) => (Ok(root), rest),
        (Ok(Some(own)), rest) => if path::components_of(own) == path::components_of(shared) {
            (Ok(root), rest)
        } else {
            match said_flow(holder, seq!["rev-parse"@, "--show-toplevel"@], rest) {
                (Err(halt), rest) => (Err(halt), rest),
                (Ok(None), rest) => (Ok(root), rest),
                (Ok(Some(top)), rest) => (
                    Ok(
                        if path::components_of(top) == path::components_of(holder) {
                            holder
                        } else {
                            root
                        },
                    ),
                    rest,
                ),
            }
        },
    }
}

/// The root of the primary checkout, for a work tree apart from the directory that holds the Git
/// directory which it shares.
fn linked_worktree_root(root: &str, shared: &str, holder: &str, session: &mut Session<'_>) -> (
result: Result<String, Halt>)
    ensures
        (host::seen(result), final(session)@) == linked_flow(
            root@,
            shared@,
            holder@,
            old(session)@,
        ),
{
    let own: String = match git_said(
        root,
        list3("rev-parse", "--path-format=absolute", "--git-dir"),
        session,
    )? {
        Some(own) => own,
        None => {
            return Ok(root.to_owned());
        },
    };
    if path::same_place(own.as_str(), shared) {
        return Ok(root.to_owned());
    }
    match git_said(holder, list2("rev-parse", "--show-toplevel"), session)? {
        Some(top) => if path::same_place(top.as_str(), holder) {
            Ok(holder.to_owned())
        } else {
            Ok(root.to_owned())
        },
        None => Ok(root.to_owned()),
    }
}

/// The root of the primary checkout of the repository that a work tree belongs to. Where Git does
/// not tell of one, the work tree itself stands for it.
pub open spec fn primary_flow(root: Seq<char>, replies: Seq<ReplyView>) -> Flow<Seq<char>> {
    match said_flow(
        root,
        seq!["rev-parse"@, "--path-format=absolute"@, "--git-common-dir"@],
        replies,
    ) {
        (Err(halt), rest) => (Err(halt), rest),
        (Ok(None), rest) => (Ok(root), rest),
        (Ok(Some(shared)), rest) => match holder_of(shared) {
            None => (Ok(root), rest),
            Some(holder) => if path::components_of(holder) == path::components_of(root) {
                (Ok(root), rest)
            } else {
                linked_flow(root, shared, holder, rest)
            },
        },
    }
}

/// The root of the primary checkout of the repository that the work tree belongs to.
pub fn primary_worktree_root(root: &str, session: &mut Session<'_>) -> (result: Result<
    String,
    Halt,
>)
    ensures
        (host::seen(result), final(session)@) == primary_flow(root@, old(session)@),
{
    let shared: String = match git_said(
        root,
        list3("rev-parse", "--path-format=absolute", "--git-common-dir"),
        session,
    )? {
        Some(shared) => shared,
        None => {
            return Ok(root.to_owned());
        },
    };
    match git_directory_holder(shared.as_str()) {
        Some(holder) => if path::same_place(holder, root) {
            Ok(root.to_owned())
        } else {
            linked_worktree_root(root, shared.as_str(), holder, session)
        },
        None => Ok(root.to_owned()),
    }
}

} // verus!
