//! Selections with `fzf`, and the choice of a base.

use vstd::prelude::*;
use vstd::pervasive::unreached;
use crate::git;
use crate::host;
use crate::host::{Flow, Halt, Output, Reply, ReplyView, Request, RequestView, Session};
use crate::listing;
use crate::model::{BaseView, WorktreeBase};
use crate::search;
use crate::text;

verus! {

/// How the failures of a selection are worded.
pub struct Wording {
    /// What the selection is for, in short.
    pub kind: &'static str,
    /// What the selection is for.
    pub subject: &'static str,
    /// What is sent to `fzf`.
    pub items: &'static str,
}

/// The view of a [`Wording`].
pub struct WordingView {
    pub kind: Seq<char>,
    pub subject: Seq<char>,
    pub items: Seq<char>,
}

impl DeepView for Wording {
    type V = WordingView;

    open spec fn deep_view(&self) -> WordingView {
        WordingView { kind: self.kind@, subject: self.subject@, items: self.items@ }
    }
}

/// A selection with `fzf` from rows: what it wrote, or nothing where it was cancelled, which it
/// tells by ending with 130. That it could not read all rows counts only where it succeeded.
pub open spec fn selector_flow(
    wording: WordingView,
    arguments: Seq<Seq<char>>,
    rows: Seq<char>,
    replies: Seq<ReplyView>,
) -> Flow<Option<Seq<char>>> {
    match host::ask_flow(RequestView::StartSelector { arguments }, replies) {
        (Err(halt), rest) => (Err(halt), rest),
        (Ok(reply), rest) => if reply is Absent {
            host::failed(
                "fzf is required for interactive "@ + wording.kind
                    + " selection; install fzf and try again"@,
                rest,
            )
        } else if reply is Failed {
            host::failed(
                "failed to start fzf for "@ + wording.subject + " selection: "@
                    + reply->Failed_0,
                rest,
            )
        } else {
            match host::ask_flow(RequestView::FeedSelector { rows }, rest) {
                (Err(halt), rest) => (Err(halt), rest),
                (Ok(fed), rest) => match host::ask_flow(RequestView::AwaitSelector, rest) {
                    (Err(halt), rest) => (Err(halt), rest),
                    (Ok(reply), rest) => if reply is Failed {
                        host::failed(
                            "failed to wait for fzf "@ + wording.subject + " selection: "@
                                + reply->Failed_0,
                            rest,
                        )
                    } else if reply->Ended_0.code == Some(130i32) {
                        (Ok(None), rest)
                    } else if !reply->Ended_0.succeeded() {
                        host::failed(
                            "fzf "@ + wording.subject + " selection failed with status "@
                                + reply->Ended_0.status,
                            rest,
                        )
                    } else if fed is Absent {
                        host::failed("failed to open fzf input"@, rest)
                    } else if fed is Failed {
                        host::failed(
                            "failed to send "@ + wording.items + " to fzf: "@ + fed->Failed_0,
                            rest,
                        )
                    } else {
                        (Ok(Some(git::utf8_lossy(reply->Ended_0.stdout))), rest)
                    },
                },
            }
        },
    }
}

/// Lets the user select rows with `fzf`, and gives what it wrote unless they cancelled.
pub fn run_selector(
    wording: &Wording,
    arguments: Vec<String>,
    rows: String,
    session: &mut Session<'_>,
) -> (result: Result<Option<String>, Halt>)
    ensures
        (host::seen(result), final(session)@) == selector_flow(
            wording.deep_view(),
            arguments.deep_view(),
            rows@,
            old(session)@,
        ),
{
    match session.ask(Request::StartSelector { arguments })? {
        Reply::Absent => {
            return Err(
                Halt::Failed(
                    "fzf is required for interactive ".to_owned().concat(wording.kind).concat(
                        " selection; install fzf and try again",
                    ),
                ),
            );
        },
        Reply::Failed(error) => {
            return Err(
                Halt::Failed(
                    "failed to start fzf for ".to_owned().concat(wording.subject).concat(
                        " selection: ",
                    ).concat(error.as_str()),
                ),
            );
        },
        _ => {},
    }
    let fed = session.ask(Request::FeedSelector { rows })?;
    let output: &Output = match session.ask(Request::AwaitSelector)? {
        Reply::Ended(output) => output,
        Reply::Failed(error) => {
            return Err(
                Halt::Failed(
                    "failed to wait for fzf ".to_owned().concat(wording.subject).concat(
                        " selection: ",
                    ).concat(error.as_str()),
                ),
            );
        },
        _ => {
            return unreached();
        },
    };
    if output.exited_with(130) {
        return Ok(None);
    }
    if !output.success() {
        return Err(
            Halt::Failed(
                "fzf ".to_owned().concat(wording.subject).concat(
                    " selection failed with status ",
                ).concat(output.status.as_str()),
            ),
        );
    }
    match fed {
        Reply::Absent => Err(Halt::Failed("failed to open fzf input".to_owned())),
        Reply::Failed(error) => Err(
            Halt::Failed(
                "failed to send ".to_owned().concat(wording.items).concat(" to fzf: ").concat(
                    error.as_str(),
                ),
            ),
        ),
        _ => Ok(Some(git::decode_lossy(&output.stdout))),
    }
}

/// The argument that puts the cursor of `fzf` on a row.
pub open spec fn cursor_arguments(position: Option<int>) -> Seq<Seq<char>> {
    match position {
        Some(at) => seq!["--bind=load:pos("@ + text::decimal((at + 1) as nat) + ")"@],
        None => Seq::empty(),
    }
}

/// Adds the argument that puts the cursor of `fzf` on the row.
pub fn add_cursor(arguments: &mut Vec<String>, position: Option<usize>)
    requires
        position matches Some(at) ==> at < usize::MAX,
    ensures
        final(arguments).deep_view() == old(arguments).deep_view() + cursor_arguments(
            match position {
                Some(at) => Some(at as int),
                None => None,
            },
        ),
{
    let ghost before = arguments.deep_view();
    if let Some(at) = position {
        arguments.push(
            "--bind=load:pos(".to_owned().concat(
                text::decimal_text((at + 1) as u64).as_str(),
            ).concat(")"),
        );
    }
    assert(arguments.deep_view() =~= before + cursor_arguments(
        match position {
            Some(at) => Some(at as int),
            None => None,
        },
    ));
}

/// The names under which bases are shown.
pub open spec fn labels_of(bases: Seq<BaseView>) -> Seq<Seq<char>> {
    bases.map_values(|base: BaseView| base.shown())
}

/// The names under which the bases are shown.
fn labels(bases: &[WorktreeBase]) -> (list: Vec<String>)
    ensures
        list.deep_view() == labels_of(bases.deep_view()),
{
    let mut list: Vec<String> = Vec::new();
    let mut index: usize = 0;
    while index < bases.len()
        invariant
            index <= bases.len(),
            list.deep_view() == labels_of(bases.deep_view()).take(index as int),
        decreases bases.len() - index,
    {
        let ghost before = list.deep_view();
        let label: String = bases[index].label();
        list.push(label);
        assert(list.deep_view() =~= before.push(label@));
        assert(labels_of(bases.deep_view()).take(index + 1) =~= before.push(label@));
        index += 1;
    }
    assert(labels_of(bases.deep_view()).take(index as int) =~= labels_of(bases.deep_view()));
    list
}

/// The test for one base.
pub open spec fn is_base(wanted: BaseView) -> spec_fn(BaseView) -> bool {
    |base: BaseView| base == wanted
}

/// The test for a base that is shown under a name.
pub open spec fn is_labelled(label: Seq<char>) -> spec_fn(BaseView) -> bool {
    |base: BaseView| base.shown() == label
}

/// The position of a base in a list.
pub open spec fn base_position(bases: Seq<BaseView>, wanted: Option<BaseView>) -> Option<int> {
    match wanted {
        Some(wanted) => search::first_where(bases, is_base(wanted)),
        None => None,
    }
}

/// The position of the base in the list.
fn position_of_base(bases: &[WorktreeBase], sought: Option<&WorktreeBase>) -> (position: Option<
    usize,
>)
    ensures
        base_position(bases.deep_view(), sought.deep_view()) == (match position {
            Some(at) => Some(at as int),
            None => None,
        }),
        position matches Some(at) ==> at < bases.len(),
{
    let wanted: &WorktreeBase = match sought {
        Some(wanted) => wanted,
        None => {
            return None;
        },
    };
    let ghost all = bases.deep_view();
    let ghost test = is_base(wanted.deep_view());
    let mut index: usize = 0;
    while index < bases.len()
        invariant
            index <= bases.len(),
            all == bases.deep_view(),
            sought.deep_view() == Some(wanted.deep_view()),
            test == is_base(wanted.deep_view()),
            forall|i: int| 0 <= i < index ==> !test(#[trigger] all[i]),
        decreases bases.len() - index,
    {
        assert(all[index as int] == bases@[index as int].deep_view());
        if bases[index].same(wanted) {
            proof {
                search::lemma_first_where(all, test, index as int);
            }
            return Some(index);
        }
        index += 1;
    }
    proof {
        search::lemma_nowhere(all, test);
    }
    None
}

/// The base that is shown under a name.
pub open spec fn base_labelled(bases: Seq<BaseView>, label: Seq<char>) -> Option<BaseView> {
    match search::first_where(bases, is_labelled(label)) {
        Some(at) => Some(bases[at]),
        None => None,
    }
}

/// The base that is shown under the name.
pub fn find_base(bases: &[WorktreeBase], label: &str) -> (found: Option<WorktreeBase>)
    ensures
        found.deep_view() == base_labelled(bases.deep_view(), label@),
{
    let ghost all = bases.deep_view();
    let ghost test = is_labelled(label@);
    let mut index: usize = 0;
    while index < bases.len()
        invariant
            index <= bases.len(),
            all == bases.deep_view(),
            test == is_labelled(label@),
            forall|i: int| 0 <= i < index ==> !test(#[trigger] all[i]),
        decreases bases.len() - index,
    {
        assert(all[index as int] == bases@[index as int].deep_view());
        if text::same(bases[index].label().as_str(), label) {
            proof {
                search::lemma_first_where(all, test, index as int);
            }
            return Some(bases[index].clone());
        }
        index += 1;
    }
    proof {
        search::lemma_nowhere(all, test);
    }
    None
}

/// The wording of the selection of a base.
pub open spec fn base_wording() -> WordingView {
    WordingView { kind: "branch"@, subject: "base branch"@, items: "branches"@ }
}

/// The arguments for the selection of a base.
pub open spec fn base_selector_arguments(position: Option<int>) -> Seq<Seq<char>> {
    seq![
        "--height=40%"@,
        "--layout=reverse"@,
        "--border"@,
        "--no-multi"@,
        "--prompt=Base branch: "@,
        "--bind=change:first"@,
    ] + cursor_arguments(position)
}

/// What the selection of a base means.
pub open spec fn chosen_base(bases: Seq<BaseView>, written: Seq<char>) -> Result<
    BaseView,
    Seq<char>,
> {
    match base_labelled(bases, text::trimmed(written)) {
        Some(base) => Ok(base),
        None => Err(
            "fzf returned unknown base branch '"@ + text::trimmed(written) + "'"@,
        ),
    }
}

/// What the selection of a base means.
pub fn choose_base(bases: &[WorktreeBase], written: &str) -> (choice: Result<WorktreeBase, String>)
    ensures
        match choice {
            Ok(base) => chosen_base(bases.deep_view(), written@) == Ok::<BaseView, Seq<char>>(
                base.deep_view(),
            ),
            Err(message) => chosen_base(bases.deep_view(), written@) == Err::<
                BaseView,
                Seq<char>,
            >(message@),
        },
{
    let label: &str = text::trim(written);
    match find_base(bases, label) {
        Some(base) => Ok(base),
        None => Err(
            "fzf returned unknown base branch '".to_owned().concat(label).concat("'"),
        ),
    }
}

/// The selection of a base with `fzf`, with the cursor on the default.
pub open spec fn select_base_flow(
    bases: Seq<BaseView>,
    default_base: Option<BaseView>,
    replies: Seq<ReplyView>,
) -> Flow<Option<BaseView>> {
    if bases.len() == 0 {
        host::failed(
            "cannot select a base branch because the repository has no local branches"@,
            replies,
        )
    } else {
        match selector_flow(
            base_wording(),
            base_selector_arguments(base_position(bases, default_base)),
            text::each_ended(labels_of(bases), "\n"@),
            replies,
        ) {
            (Err(halt), rest) => (Err(halt), rest),
            (Ok(None), rest) => (Ok(None), rest),
            (Ok(Some(written)), rest) => match chosen_base(bases, written) {
                Ok(base) => (Ok(Some(base)), rest),
                Err(message) => host::failed(message, rest),
            },
        }
    }
}

/// Lets the user select a base with `fzf`.
pub fn select_worktree_base_with_fzf(
    bases: &[WorktreeBase],
    default_base: Option<&WorktreeBase>,
    session: &mut Session<'_>,
) -> (result: Result<Option<WorktreeBase>, Halt>)
    ensures
        (host::seen(result), final(session)@) == select_base_flow(
            bases.deep_view(),
            default_base.deep_view(),
            old(session)@,
        ),
{
    if bases.len() == 0 {
        return Err(
            Halt::Failed(
                "cannot select a base branch because the repository has no local branches"
                    .to_owned(),
            ),
        );
    }
    let mut arguments: Vec<String> = vec![
        "--height=40%".to_owned(),
        "--layout=reverse".to_owned(),
        "--border".to_owned(),
        "--no-multi".to_owned(),
        "--prompt=Base branch: ".to_owned(),
        "--bind=change:first".to_owned(),
    ];
    let ghost position = base_position(bases.deep_view(), default_base.deep_view());
    assert(arguments.deep_view() + cursor_arguments(position) =~= base_selector_arguments(
        position,
    ));
    add_cursor(&mut arguments, position_of_base(bases, default_base));
    let wording = Wording { kind: "branch", subject: "base branch", items: "branches" };
    match run_selector(&wording, arguments, text::line_block(&labels(bases)), session)? {
        None => Ok(None),
        Some(written) => match choose_base(bases, written.as_str()) {
            Ok(base) => Ok(Some(base)),
            Err(message) => Err(Halt::Failed(message)),
        },
    }
}

/// An answer to whether the standard input is a terminal.
pub open spec fn terminal_flow(replies: Seq<ReplyView>) -> Flow<bool> {
    match host::ask_flow(RequestView::InputIsTerminal, replies) {
        (Err(halt), rest) => (Err(halt), rest),
        (Ok(reply), rest) => (Ok(reply->Answer_0), rest),
    }
}

/// Whether the standard input is a terminal.
pub fn input_is_terminal(session: &mut Session<'_>) -> (result: Result<bool, Halt>)
    ensures
        (host::seen(result), final(session)@) == terminal_flow(old(session)@),
{
    match session.ask(Request::InputIsTerminal)? {
        Reply::Answer(answer) => Ok(*answer),
        _ => unreached(),
    }
}

/// The base of a new worktree: the user's choice, or `origin/main` where there is no terminal.
pub open spec fn prompt_base_flow(directory: Seq<char>, replies: Seq<ReplyView>) -> Flow<
    Option<BaseView>,
> {
    match terminal_flow(replies) {
        (Err(halt), rest) => (Err(halt), rest),
        (Ok(terminal), rest) => if !terminal {
            (Ok(Some(BaseView::OriginMain)), rest)
        } else {
            match listing::bases_flow(directory, rest) {
                (Err(halt), rest) => (Err(halt), rest),
                (Ok(bases), rest) => match listing::current_base_flow(directory, rest) {
                    (Err(halt), rest) => (Err(halt), rest),
                    (Ok(current), rest) => select_base_flow(bases, current, rest),
                },
            }
        },
    }
}

/// Asks the user for the base of the new worktree.
pub fn prompt_worktree_base(cwd: &str, session: &mut Session<'_>) -> (result: Result<
    Option<WorktreeBase>,
    Halt,
>)
    ensures
        (host::seen(result), final(session)@) == prompt_base_flow(cwd@, old(session)@),
{
    if !input_is_terminal(session)? {
        return Ok(Some(WorktreeBase::OriginMain));
    }
    let bases = listing::list_worktree_bases(cwd, session)?;
    let current = listing::current_worktree_base(cwd, session)?;
    select_worktree_base_with_fzf(&bases, current.as_ref(), session)
}

} // verus!
