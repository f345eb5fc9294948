//! Which worktrees and which base are chosen, and which answers confirm a removal.

use vstd::prelude::*;
use crate::clean;
use crate::host::{HaltView, ReplyView, RequestView};
use crate::git;
use crate::laws::questions as q;
use crate::laws::texts;
use crate::listing;
use crate::model::{BaseView, ManagedView};
use crate::path;
use crate::remove;
use crate::search;
use crate::select;
use crate::select::WordingView;
use crate::text;

verus! {

broadcast use q::lemma_after;

/// The first item that passes a test passes it and none before it does; where there is none, none
/// passes.
proof fn lemma_first<T>(list: Seq<T>, test: spec_fn(T) -> bool)
    ensures
        match search::first_where(list, test) {
            Some(at) => 0 <= at < list.len() && test(list[at]) && forall|i: int|
                0 <= i < at ==> !test(#[trigger] list[i]),
            None => forall|i: int| 0 <= i < list.len() ==> !test(#[trigger] list[i]),
        },
    decreases list.len(),
{
    if list.len() > 0 && !test(list[0]) {
        let rest = list.drop_first();
        lemma_first(rest, test);
        assert forall|i: int| 0 < i < list.len() implies list[i] == #[trigger] rest[i - 1] by {}
        let end = match search::first_where(rest, test) {
            Some(at) => at + 1,
            None => list.len() as int,
        };
        assert forall|i: int| 0 <= i < end implies !test(#[trigger] list[i]) by {
            if i > 0 {
                assert(list[i] == rest[i - 1]);
            }
        }
    }
}

/// The first worktree of a name in a list.
pub open spec fn first_of_name(
    worktrees: Seq<ManagedView>,
    name: Seq<char>,
    worktree: ManagedView,
) -> bool {
    worktree.name == name && exists|at: int|
        0 <= at < worktrees.len() && #[trigger] worktrees[at] == worktree && forall|i: int|
            0 <= i < at ==> (#[trigger] worktrees[i]).name != name
}

/// No worktree of a list has the name.
pub open spec fn nowhere(worktrees: Seq<ManagedView>, name: Seq<char>) -> bool {
    forall|i: int| 0 <= i < worktrees.len() ==> (#[trigger] worktrees[i]).name != name
}

/// Law: the search for a name finds the first worktree whose name is that name, letter for letter,
/// and fails exactly where no worktree has it.
pub proof fn law_a_name_finds_its_worktree(worktrees: Seq<ManagedView>, name: Seq<char>)
    ensures
        clean::named(worktrees, name) matches Ok(worktree) ==> first_of_name(
            worktrees,
            name,
            worktree,
        ),
        clean::named(worktrees, name) is Err <==> nowhere(worktrees, name),
        clean::named(worktrees, name) matches Err(message) ==> message == "no worktree named '"@
            + name + "' in .worktrees/"@,
{
    let test = clean::is_named(name);
    lemma_first(worktrees, test);
    match search::first_where(worktrees, test) {
        Some(at) => {
            assert forall|i: int| 0 <= i < at implies (#[trigger] worktrees[i]).name != name by {
                assert(!test(worktrees[i]));
            }
            assert(test(worktrees[at]));
        },
        None => {
            assert forall|i: int| 0 <= i < worktrees.len() implies (
            #[trigger] worktrees[i]).name != name by {
                assert(!test(worktrees[i]));
            }
        },
    }
}

/// Law: names give as many worktrees, the one at each position being the first of the name there;
/// they fail exactly where one of them is the name of no worktree, and the first such is told.
pub proof fn law_names_find_their_worktrees(worktrees: Seq<ManagedView>, names: Seq<Seq<char>>)
    ensures
        clean::all_named(worktrees, names) matches Ok(list) ==> {
            &&& list.len() == names.len()
            &&& forall|i: int|
                0 <= i < names.len() ==> (#[trigger] list[i]).name == names[i] && first_of_name(
                    worktrees,
                    names[i],
                    list[i],
                )
            &&& forall|i: int| 0 <= i < names.len() ==> !nowhere(worktrees, #[trigger] names[i])
        },
        clean::all_named(worktrees, names) matches Err(message) ==> exists|at: int|
            0 <= at < names.len() && nowhere(worktrees, #[trigger] names[at]) && (forall|i: int|
                0 <= i < at ==> !nowhere(worktrees, #[trigger] names[i])) && message
                == "no worktree named '"@ + names[at] + "' in .worktrees/"@,
    decreases names.len(),
{
    if names.len() > 0 {
        let before = names.drop_last();
        let last = names.len() - 1;
        law_names_find_their_worktrees(worktrees, before);
        law_a_name_finds_its_worktree(worktrees, names.last());
        assert forall|i: int| 0 <= i < last implies names[i] == #[trigger] before[i] by {}
        match clean::all_named(worktrees, before) {
            Ok(list) => {
                assert forall|i: int| 0 <= i < last implies !nowhere(
                    worktrees,
                    #[trigger] names[i],
                ) by {
                    assert(names[i] == before[i]);
                }
                if let Ok(worktree) = clean::named(worktrees, names.last()) {
                    let all = list.push(worktree);
                    assert(!nowhere(worktrees, names[last]));
                    assert forall|i: int| 0 <= i < names.len() implies (
                    #[trigger] all[i]).name == names[i] && first_of_name(
                        worktrees,
                        names[i],
                        all[i],
                    ) by {
                        if i < last {
                            assert(all[i] == list[i]);
                            assert(names[i] == before[i]);
                        }
                    }
                } else {
                    assert(nowhere(worktrees, names[last]));
                }
            },
            Err(message) => {
                let at = choose|at: int|
                    0 <= at < before.len() && nowhere(worktrees, #[trigger] before[at]) && (
                    forall|i: int| 0 <= i < at ==> !nowhere(worktrees, #[trigger] before[i]))
                        && message == "no worktree named '"@ + before[at] + "' in .worktrees/"@;
                assert(names[at] == before[at]);
                assert forall|i: int| 0 <= i < at implies !nowhere(
                    worktrees,
                    #[trigger] names[i],
                ) by {
                    assert(names[i] == before[i]);
                }
            },
        }
    }
}

/// Law: an answer confirms exactly where it is the one character `y` or the one character `Y`, with
/// nothing but white space around it.
pub proof fn law_which_answers_confirm(left: Seq<char>, core: Seq<char>, right: Seq<char>)
    requires
        texts::blank(left),
        texts::blank(right),
        core.len() > 0 ==> !text::white_space(core[0]) && !text::white_space(
            core[core.len() - 1],
        ),
    ensures
        clean::affirmative(left + core + right) <==> core.len() == 1 && (core[0] == 'y' || core[0]
            == 'Y'),
        text::trimmed(left + core + right) == core,
{
    reveal_strlit("y");
    reveal_strlit("Y");
    texts::law_trimming_leaves_the_core(left, core, right);
    if core.len() == 1 && core[0] == 'y' {
        assert(core =~= "y"@);
    }
    if core.len() == 1 && core[0] == 'Y' {
        assert(core =~= "Y"@);
    }
}

/// Law: whatever the text, it confirms exactly where the white space around it leaves `y` or `Y`.
pub proof fn law_every_answer_is_decided(answer: Seq<char>)
    ensures
        clean::affirmative(answer) <==> text::trimmed(answer) == seq!['y'] || text::trimmed(answer)
            == seq!['Y'],
{
    reveal_strlit("y");
    reveal_strlit("Y");
    assert("y"@ =~= seq!['y']);
    assert("Y"@ =~= seq!['Y']);
}

/// Law: the question names how many worktrees are to be removed, and whether that is forced.
pub proof fn law_the_question(count: nat)
    ensures
        clean::removal_question(count, false) == "Remove "@ + text::decimal(count)
            + " worktree(s)? [y/N] "@,
        clean::removal_question(count, true) == "Remove "@ + text::decimal(count)
            + " worktree(s) (force)? [y/N] "@,
{
    reveal_strlit("");
    reveal_strlit(" worktree(s)");
    reveal_strlit("? [y/N] ");
    reveal_strlit(" (force)");
    reveal_strlit(" worktree(s)? [y/N] ");
    reveal_strlit(" worktree(s) (force)? [y/N] ");
    let start = "Remove "@ + text::decimal(count);
    assert(start + " worktree(s)"@ + ""@ + "? [y/N] "@ =~= start + " worktree(s)? [y/N] "@);
    assert(start + " worktree(s)"@ + " (force)"@ + "? [y/N] "@ =~= start
        + " worktree(s) (force)? [y/N] "@);
}

/// Law: the paths of worktrees are written one after the other, each once those before it are.
pub proof fn law_paths_are_told(worktrees: Seq<ManagedView>, replies: Seq<ReplyView>, at: int)
    requires
        0 <= at <= worktrees.len(),
        at <= replies.len(),
        forall|i: int| 0 <= i < at ==> #[trigger] replies[i] is Done,
    ensures
        ({
            let flow = clean::paths_flow(worktrees, replies);
            let rest = replies.skip(at);
            if at == worktrees.len() {
                q::gives(flow, (), rest)
            } else {
                let request = RequestView::Print { line: worktrees[at].path };
                q::unanswered(request, rest) ==> q::waits(flow, request, rest)
            }
        }),
    decreases at,
{
    assert(replies.skip(0) =~= replies);
    if at > 0 {
        let left = worktrees.drop_first();
        let rest = replies.drop_first();
        assert(replies[0] is Done);
        assert forall|i: int| 0 <= i < at - 1 implies #[trigger] rest[i] is Done by {
            assert(rest[i] == replies[i + 1]);
        }
        law_paths_are_told(left, rest, at - 1);
        assert(rest.skip(at - 1) =~= replies.skip(at));
    }
}

/// Law: whether there is a terminal is asked.
pub proof fn law_the_terminal_is_asked_for(replies: Seq<ReplyView>)
    ensures
        q::unanswered(RequestView::InputIsTerminal, replies) ==> q::waits(
            select::terminal_flow(replies),
            RequestView::InputIsTerminal,
            replies,
        ),
        replies.len() > 0 && replies[0] is Answer ==> q::gives(
            select::terminal_flow(replies),
            replies[0]->Answer_0,
            q::after(replies),
        ),
{
}

/// Law: without a terminal a removal goes on unasked. At a terminal the paths are told, the
/// question is put and a line is read, and the removal goes on exactly where the line, without
/// the white space around it, is the one character `y` or the one character `Y`.
pub proof fn law_how_a_removal_is_confirmed(
    worktrees: Seq<ManagedView>,
    force: bool,
    replies: Seq<ReplyView>,
)
    ensures
        ({
            let flow = clean::confirm_flow(worktrees, force, replies);
            let (told, r1) = clean::paths_flow(worktrees, q::after(replies));
            let r2 = q::after(r1);
            let prompt = RequestView::Prompt {
                question: if force {
                    "Remove "@ + text::decimal(worktrees.len()) + " worktree(s) (force)? [y/N] "@
                } else {
                    "Remove "@ + text::decimal(worktrees.len()) + " worktree(s)? [y/N] "@
                },
            };
            &&& q::unanswered(RequestView::InputIsTerminal, replies) ==> q::waits(
                flow,
                RequestView::InputIsTerminal,
                replies,
            )
            &&& replies.len() > 0 && replies[0] == ReplyView::Answer(false) ==> q::gives(
                flow,
                true,
                q::after(replies),
            )
            &&& replies.len() > 0 && replies[0] == ReplyView::Answer(true) ==> {
                &&& told matches Err(halt) ==> flow.0 == Err::<bool, HaltView>(halt) && flow.1
                    == r1
                &&& told is Ok ==> {
                    &&& q::unanswered(prompt, r1) ==> q::waits(flow, prompt, r1)
                    &&& q::unable(r1) ==> q::fails(
                        flow,
                        "failed to write confirmation prompt: "@ + r1[0]->Failed_0,
                        r2,
                    )
                    &&& r1.len() > 0 && r1[0] is Done ==> {
                        &&& q::unanswered(RequestView::ReadLine, r2) ==> q::waits(
                            flow,
                            RequestView::ReadLine,
                            r2,
                        )
                        &&& q::unable(r2) ==> q::fails(
                            flow,
                            "failed to read confirmation: "@ + r2[0]->Failed_0,
                            q::after(r2),
                        )
                        &&& r2.len() > 0 && r2[0] is Text ==> {
                            let word = text::trimmed(r2[0]->Text_0);
                            q::gives(
                                flow,
                                word.len() == 1 && (word[0] == 'y' || word[0] == 'Y'),
                                q::after(r2),
                            )
                        }
                    }
                }
            }
        }),
{
    law_the_question(worktrees.len());
    let r1 = clean::paths_flow(worktrees, q::after(replies)).1;
    let r2 = q::after(r1);
    let prompt = "failed to write confirmation prompt"@;
    reveal_strlit("failed to write confirmation prompt");
    reveal_strlit(": ");
    reveal_strlit("failed to write confirmation prompt: ");
    assert(prompt + ": "@ =~= "failed to write confirmation prompt: "@);
    if r2.len() > 0 && r2[0] is Text {
        let word = text::trimmed(r2[0]->Text_0);
        law_every_answer_is_decided(r2[0]->Text_0);
        if word.len() == 1 {
            assert(word =~= seq![word[0]]);
        }
    }
}

/// Law: the answer that confirms at a terminal, put together from its parts: white space, then
/// something without white space at its ends, then white space.
pub proof fn law_only_yes_confirms(
    worktrees: Seq<ManagedView>,
    force: bool,
    replies: Seq<ReplyView>,
    left: Seq<char>,
    core: Seq<char>,
    right: Seq<char>,
)
    requires
        texts::blank(left),
        texts::blank(right),
        core.len() > 0 ==> !text::white_space(core[0]) && !text::white_space(
            core[core.len() - 1],
        ),
        replies.len() == worktrees.len() + 3,
        replies[0] == ReplyView::Answer(true),
        forall|i: int| 1 <= i <= worktrees.len() + 1 ==> #[trigger] replies[i] is Done,
        replies[worktrees.len() as int + 2] == ReplyView::Text(left + core + right),
    ensures
        clean::confirm_flow(worktrees, force, replies).0 == Ok::<bool, HaltView>(
            core == seq!['y'] || core == seq!['Y'],
        ),
{
    let asked = q::after(replies);
    let count = worktrees.len() as int;
    assert forall|i: int| 0 <= i < count implies #[trigger] asked[i] is Done by {
        assert(asked[i] == replies[i + 1]);
    }
    law_paths_are_told(worktrees, asked, count);
    let r1 = asked.skip(count);
    assert(r1[0] == replies[count + 1]);
    assert(q::after(r1)[0] == replies[count + 2]);
    law_how_a_removal_is_confirmed(worktrees, force, replies);
    law_which_answers_confirm(left, core, right);
    if core.len() == 1 {
        assert(core =~= seq![core[0]]);
    }
}

/// Law: the column of names is as wide as the longest of them, in bytes.
pub proof fn law_the_width_of_the_names(worktrees: Seq<ManagedView>)
    ensures
        forall|i: int|
            0 <= i < worktrees.len() ==> vstd::utf8::encode_utf8(
                (#[trigger] worktrees[i]).name,
            ).len() <= clean::widest(worktrees),
        worktrees.len() > 0 ==> exists|i: int|
            0 <= i < worktrees.len() && vstd::utf8::encode_utf8(
                (#[trigger] worktrees[i]).name,
            ).len() == clean::widest(worktrees),
    decreases worktrees.len(),
{
    if worktrees.len() > 0 {
        let before = worktrees.drop_last();
        law_the_width_of_the_names(before);
        assert forall|i: int| 0 <= i < worktrees.len() implies vstd::utf8::encode_utf8(
            (#[trigger] worktrees[i]).name,
        ).len() <= clean::widest(worktrees) by {
            if i < before.len() {
                assert(worktrees[i] == before[i]);
            }
        }
        let length = vstd::utf8::encode_utf8(worktrees.last().name).len();
        if clean::widest(before) < length || before.len() == 0 {
            assert(worktrees[worktrees.len() - 1] == worktrees.last());
        } else {
            let i = choose|i: int|
                0 <= i < before.len() && vstd::utf8::encode_utf8(
                    (#[trigger] before[i]).name,
                ).len() == clean::widest(before);
            assert(worktrees[i] == before[i]);
        }
    }
}

/// Law: the row of a worktree is its name, spaces up to the width of the names, two spaces more,
/// and its branch, or `(detached)` where it has none.
pub proof fn law_the_rows_of_worktrees(worktrees: Seq<ManagedView>, at: int)
    requires
        0 <= at < worktrees.len(),
    ensures
        clean::rows_of(worktrees).len() == worktrees.len(),
        clean::rows_of(worktrees)[at] == text::padded(
            worktrees[at].name,
            clean::widest(worktrees),
        ) + "  "@ + match worktrees[at].branch {
            Some(branch) => branch,
            None => "(detached)"@,
        },
{
}

/// Law: lines that are rows give their worktrees: one more line gives one more worktree, the first
/// that has the line for its row, and fails where none has.
pub proof fn law_one_more_row(worktrees: Seq<ManagedView>, lines: Seq<Seq<char>>, line: Seq<char>)
    ensures
        clean::picked(worktrees, Seq::empty()) == Ok::<Seq<ManagedView>, Seq<char>>(Seq::empty()),
        ({
            let rows = clean::rows_of(worktrees);
            let known = exists|at: int| 0 <= at < rows.len() && #[trigger] rows[at] == line;
            match (clean::picked(worktrees, lines), clean::picked(worktrees, lines.push(line))) {
                (Err(early), late) => late == Err::<Seq<ManagedView>, Seq<char>>(early),
                (Ok(_), Err(message)) => !known && message == "fzf returned unknown worktree '"@
                    + line + "'"@,
                (Ok(early), Ok(late)) => late.len() == early.len() + 1 && late.drop_last() == early
                    && exists|at: int|
                    0 <= at < rows.len() && #[trigger] rows[at] == line && late.last()
                        == worktrees[at] && forall|i: int|
                        0 <= i < at ==> #[trigger] rows[i] != line,
            }
        }),
{
    let rows = clean::rows_of(worktrees);
    let test = clean::is_row(line);
    assert(lines.push(line).drop_last() =~= lines);
    assert(lines.push(line).last() == line);
    lemma_first(rows, test);
    if let Ok(early) = clean::picked(worktrees, lines) {
        match search::first_where(rows, test) {
            Some(at) => {
                assert(test(rows[at]));
                assert(early.push(worktrees[at]).drop_last() =~= early);
                assert forall|i: int| 0 <= i < at implies #[trigger] rows[i] != line by {
                    assert(!test(rows[i]));
                }
            },
            None => {
                assert forall|i: int| 0 <= i < rows.len() implies #[trigger] rows[i] != line by {
                    assert(!test(rows[i]));
                }
            },
        }
    }
}

/// Law: the worktree around a directory is the first that the directory lies in, and there is none
/// where it lies in none.
pub proof fn law_the_worktree_around(worktrees: Seq<ManagedView>, directory: Seq<char>)
    ensures
        match clean::around(worktrees, directory) {
            Some(worktree) => exists|at: int|
                0 <= at < worktrees.len() && #[trigger] worktrees[at] == worktree && path::within(
                    directory,
                    worktree.path,
                ) && forall|i: int|
                    0 <= i < at ==> !path::within(directory, (#[trigger] worktrees[i]).path),
            None => forall|i: int|
                0 <= i < worktrees.len() ==> !path::within(
                    directory,
                    (#[trigger] worktrees[i]).path,
                ),
        },
{
    let test = clean::is_around(directory);
    lemma_first(worktrees, test);
    let end = match search::first_where(worktrees, test) {
        Some(at) => at,
        None => worktrees.len() as int,
    };
    assert forall|i: int| 0 <= i < end implies !path::within(
        directory,
        (#[trigger] worktrees[i]).path,
    ) by {
        assert(!test(worktrees[i]));
    }
    if end < worktrees.len() {
        assert(test(worktrees[end]));
    }
}

/// Law: the position of a worktree or a base in its list: there is one exactly where it is in the
/// list, and it is the first.
pub proof fn law_positions(
    worktrees: Seq<ManagedView>,
    worktree: ManagedView,
    bases: Seq<BaseView>,
    base: BaseView,
)
    ensures
        clean::worktree_position(worktrees, None) is None,
        select::base_position(bases, None) is None,
        match clean::worktree_position(worktrees, Some(worktree)) {
            Some(at) => 0 <= at < worktrees.len() && worktrees[at].alike(worktree) && forall|i: int|
                0 <= i < at ==> !(#[trigger] worktrees[i]).alike(worktree),
            None => forall|i: int|
                0 <= i < worktrees.len() ==> !(#[trigger] worktrees[i]).alike(worktree),
        },
        match select::base_position(bases, Some(base)) {
            Some(at) => 0 <= at < bases.len() && bases[at] == base && forall|i: int|
                0 <= i < at ==> #[trigger] bases[i] != base,
            None => forall|i: int| 0 <= i < bases.len() ==> #[trigger] bases[i] != base,
        },
{
    let alike = clean::is_alike(worktree);
    lemma_first(worktrees, alike);
    let end = match search::first_where(worktrees, alike) {
        Some(at) => at,
        None => worktrees.len() as int,
    };
    assert forall|i: int| 0 <= i < end implies !(#[trigger] worktrees[i]).alike(worktree) by {
        assert(!alike(worktrees[i]));
    }
    let same = select::is_base(base);
    lemma_first(bases, same);
    let until = match search::first_where(bases, same) {
        Some(at) => at,
        None => bases.len() as int,
    };
    assert forall|i: int| 0 <= i < until implies #[trigger] bases[i] != base by {
        assert(!same(bases[i]));
    }
}

/// The name under which a base is shown, letter for letter.
pub open spec fn label(base: BaseView) -> Seq<char> {
    match base {
        BaseView::OriginMain => "origin/main"@,
        BaseView::LocalBranch(branch) => branch,
    }
}

/// Law: what is written, without the white space around it, chooses the first base that is shown
/// under that name, and none where there is no such base.
pub proof fn law_what_is_written_chooses_a_base(bases: Seq<BaseView>, written: Seq<char>)
    ensures
        ({
            let word = text::trimmed(written);
            match select::chosen_base(bases, written) {
                Ok(base) => label(base) == word && exists|at: int|
                    0 <= at < bases.len() && #[trigger] bases[at] == base && forall|i: int|
                        0 <= i < at ==> label(#[trigger] bases[i]) != word,
                Err(message) => message == "fzf returned unknown base branch '"@ + word + "'"@ && (
                forall|i: int| 0 <= i < bases.len() ==> label(#[trigger] bases[i]) != word),
            }
        }),
{
    law_a_label_finds_its_base(bases, text::trimmed(written));
}

/// Law: a name gives the first base that is shown under it, and none where there is no such base.
pub proof fn law_a_label_finds_its_base(bases: Seq<BaseView>, name: Seq<char>)
    ensures
        match select::base_labelled(bases, name) {
            Some(base) => label(base) == name && exists|at: int|
                0 <= at < bases.len() && #[trigger] bases[at] == base && forall|i: int|
                    0 <= i < at ==> label(#[trigger] bases[i]) != name,
            None => forall|i: int| 0 <= i < bases.len() ==> label(#[trigger] bases[i]) != name,
        },
{
    let test = select::is_labelled(name);
    lemma_first(bases, test);
    let end = match search::first_where(bases, test) {
        Some(at) => at,
        None => bases.len() as int,
    };
    assert forall|i: int| 0 <= i < end implies label(#[trigger] bases[i]) != name by {
        assert(!test(bases[i]));
        assert(bases[i].shown() == label(bases[i]));
    }
    if end < bases.len() {
        assert(test(bases[end]));
        assert(bases[end].shown() == label(bases[end]));
    }
}

/// Law: the bases are shown under their names, in their order.
pub proof fn law_bases_are_shown_in_order(bases: Seq<BaseView>)
    ensures
        select::labels_of(bases).len() == bases.len(),
        forall|i: int|
            0 <= i < bases.len() ==> #[trigger] select::labels_of(bases)[i] == label(bases[i]),
{
    assert forall|i: int| 0 <= i < bases.len() implies #[trigger] select::labels_of(bases)[i]
        == label(bases[i]) by {
        assert(bases[i].shown() == label(bases[i]));
    }
}

/// Law: a selection starts `fzf`, writes the rows to it, and waits for it. It comes to what `fzf`
/// wrote where that ended with zero and had all the rows, and to nothing where it ended with 130.
pub proof fn law_how_rows_are_selected(
    wording: WordingView,
    arguments: Seq<Seq<char>>,
    rows: Seq<char>,
    replies: Seq<ReplyView>,
)
    ensures
        ({
            let flow = select::selector_flow(wording, arguments, rows, replies);
            let start = RequestView::StartSelector { arguments };
            let feed = RequestView::FeedSelector { rows };
            let r1 = q::after(replies);
            let r2 = q::after(r1);
            let r3 = q::after(r2);
            &&& q::unanswered(start, replies) ==> q::waits(flow, start, replies)
            &&& replies.len() > 0 && replies[0] is Absent ==> q::fails(
                flow,
                "fzf is required for interactive "@ + wording.kind
                    + " selection; install fzf and try again"@,
                r1,
            )
            &&& q::unable(replies) ==> q::fails(
                flow,
                "failed to start fzf for "@ + wording.subject + " selection: "@
                    + replies[0]->Failed_0,
                r1,
            )
            &&& replies.len() > 0 && replies[0] is Done ==> {
                &&& q::unanswered(feed, r1) ==> q::waits(flow, feed, r1)
                &&& !q::unanswered(feed, r1) ==> {
                    &&& q::unanswered(RequestView::AwaitSelector, r2) ==> q::waits(
                        flow,
                        RequestView::AwaitSelector,
                        r2,
                    )
                    &&& q::unable(r2) ==> q::fails(
                        flow,
                        "failed to wait for fzf "@ + wording.subject + " selection: "@
                            + r2[0]->Failed_0,
                        r3,
                    )
                    &&& q::badly(r2) && r2[0]->Ended_0.code == Some(130i32) ==> q::gives(
                        flow,
                        None,
                        r3,
                    )
                    &&& q::badly(r2) && r2[0]->Ended_0.code != Some(130i32) ==> q::fails(
                        flow,
                        "fzf "@ + wording.subject + " selection failed with status "@
                            + r2[0]->Ended_0.status,
                        r3,
                    )
                    &&& q::well(r2) && r1[0] is Absent ==> q::fails(
                        flow,
                        "failed to open fzf input"@,
                        r3,
                    )
                    &&& q::well(r2) && r1[0] is Failed ==> q::fails(
                        flow,
                        "failed to send "@ + wording.items + " to fzf: "@ + r1[0]->Failed_0,
                        r3,
                    )
                    &&& q::well(r2) && r1[0] is Done ==> q::gives(
                        flow,
                        Some(git::utf8_lossy(r2[0]->Ended_0.stdout)),
                        r3,
                    )
                }
            }
        }),
{
}

/// Law: the cursor of `fzf` is put on a row by its number, counted from one.
pub proof fn law_the_cursor_is_put_on_a_row(at: nat)
    ensures
        select::cursor_arguments(Some(at as int)) == seq![
            "--bind=load:pos("@ + text::decimal(at + 1) + ")"@,
        ],
        select::cursor_arguments(None) == Seq::<Seq<char>>::empty(),
{
}

/// Law: worktrees are selected from their rows, several at once, with the cursor on the current
/// one; nothing is selected where the selection is cancelled.
pub proof fn law_how_worktrees_are_selected(
    worktrees: Seq<ManagedView>,
    current: Option<ManagedView>,
    replies: Seq<ReplyView>,
)
    ensures
        ({
            let flow = clean::select_rows_flow(worktrees, current, replies);
            let (written, rest) = select::selector_flow(
                WordingView { kind: "worktree"@, subject: "worktree"@, items: "worktrees"@ },
                seq![
                    "--height=40%"@,
                    "--layout=reverse"@,
                    "--border"@,
                    "--multi"@,
                    "--prompt=Remove worktrees: "@,
                    "--header=Tab selects multiple"@,
                    "--bind=change:first"@,
                ] + match clean::worktree_position(worktrees, current) {
                    Some(at) => seq!["--bind=load:pos("@ + text::decimal((at + 1) as nat) + ")"@],
                    None => Seq::empty(),
                },
                text::each_ended(clean::rows_of(worktrees), "\n"@),
                replies,
            );
            &&& written matches Err(halt) ==> flow.0 == Err::<Seq<ManagedView>, HaltView>(halt)
                && flow.1 == rest
            &&& written matches Ok(None) ==> q::gives(flow, Seq::empty(), rest)
            &&& written matches Ok(Some(lines)) ==> match clean::picked(
                worktrees,
                text::lines_of(lines),
            ) {
                Ok(list) => q::gives(flow, list, rest),
                Err(message) => q::fails(flow, message, rest),
            }
        }),
{
}

/// Law: a base is selected from the names of all bases, one only, with the cursor on the default;
/// without bases there is none to select.
pub proof fn law_how_a_base_is_selected(
    bases: Seq<BaseView>,
    default_base: Option<BaseView>,
    replies: Seq<ReplyView>,
)
    ensures
        ({
            let flow = select::select_base_flow(bases, default_base, replies);
            let (written, rest) = select::selector_flow(
                WordingView { kind: "branch"@, subject: "base branch"@, items: "branches"@ },
                seq![
                    "--height=40%"@,
                    "--layout=reverse"@,
                    "--border"@,
                    "--no-multi"@,
                    "--prompt=Base branch: "@,
                    "--bind=change:first"@,
                ] + match select::base_position(bases, default_base) {
                    Some(at) => seq!["--bind=load:pos("@ + text::decimal((at + 1) as nat) + ")"@],
                    None => Seq::empty(),
                },
                text::each_ended(select::labels_of(bases), "\n"@),
                replies,
            );
            &&& bases.len() == 0 ==> q::fails(
                flow,
                "cannot select a base branch because the repository has no local branches"@,
                replies,
            )
            &&& bases.len() > 0 ==> {
                &&& written matches Err(halt) ==> flow.0 == Err::<Option<BaseView>, HaltView>(halt)
                    && flow.1 == rest
                &&& written matches Ok(None) ==> q::gives(flow, None, rest)
                &&& written matches Ok(Some(line)) ==> match select::chosen_base(bases, line) {
                    Ok(base) => q::gives(flow, Some(base), rest),
                    Err(message) => q::fails(flow, message, rest),
                }
            }
        }),
{
}

/// Law: without a terminal the base is `origin/main`; at a terminal it is selected from the
/// branches, the current one being the default.
pub proof fn law_how_a_base_is_found(directory: Seq<char>, replies: Seq<ReplyView>)
    ensures
        ({
            let flow = select::prompt_base_flow(directory, replies);
            let (found, r1) = listing::bases_flow(directory, q::after(replies));
            let (current, r2) = listing::current_base_flow(directory, r1);
            &&& q::unanswered(RequestView::InputIsTerminal, replies) ==> q::waits(
                flow,
                RequestView::InputIsTerminal,
                replies,
            )
            &&& replies.len() > 0 && replies[0] == ReplyView::Answer(false) ==> q::gives(
                flow,
                Some(BaseView::OriginMain),
                q::after(replies),
            )
            &&& replies.len() > 0 && replies[0] == ReplyView::Answer(true) ==> {
                &&& found matches Err(halt) ==> flow.0 == Err::<Option<BaseView>, HaltView>(halt)
                    && flow.1 == r1
                &&& found matches Ok(bases) ==> {
                    &&& current matches Err(halt) ==> flow.0 == Err::<Option<BaseView>, HaltView>(
                        halt,
                    ) && flow.1 == r2
                    &&& current matches Ok(base) ==> flow == select::select_base_flow(
                        bases,
                        base,
                        r2,
                    )
                }
            }
        }),
{
}

/// Law: names choose the worktrees to remove, and nobody is asked. Without names a terminal is
/// needed, where they are selected, the one that the current directory lies in being the current.
pub proof fn law_how_worktrees_are_chosen(
    directory: Seq<char>,
    worktrees: Seq<ManagedView>,
    names: Seq<Seq<char>>,
    replies: Seq<ReplyView>,
)
    ensures
        ({
            let flow = clean::select_flow(directory, worktrees, names, replies);
            let place = RequestView::Canonicalize { path: directory };
            let r1 = q::after(replies);
            &&& names.len() > 0 ==> match clean::all_named(worktrees, names) {
                Ok(list) => q::gives(flow, list, replies),
                Err(message) => q::fails(flow, message, replies),
            }
            &&& names.len() == 0 ==> {
                &&& q::unanswered(RequestView::InputIsTerminal, replies) ==> q::waits(
                    flow,
                    RequestView::InputIsTerminal,
                    replies,
                )
                &&& replies.len() > 0 && replies[0] == ReplyView::Answer(false) ==> q::fails(
                    flow,
                    "cannot select worktrees without a terminal; pass --name to choose one"@,
                    r1,
                )
                &&& replies.len() > 0 && replies[0] == ReplyView::Answer(true) ==> {
                    &&& q::unanswered(place, r1) ==> q::waits(flow, place, r1)
                    &&& r1.len() > 0 && r1[0] is Text ==> flow == clean::select_rows_flow(
                        worktrees,
                        clean::around(worktrees, r1[0]->Text_0),
                        q::after(r1),
                    )
                    &&& q::unable(r1) ==> flow == clean::select_rows_flow(
                        worktrees,
                        clean::around(worktrees, directory),
                        q::after(r1),
                    )
                }
            }
        }),
{
}

/// Law: what is chosen is approved where it is confirmed; otherwise nothing is. Nothing needs no
/// confirmation.
pub proof fn law_what_is_confirmed_is_approved(
    directory: Seq<char>,
    worktrees: Seq<ManagedView>,
    names: Seq<Seq<char>>,
    force: bool,
    replies: Seq<ReplyView>,
)
    ensures
        ({
            let flow = clean::approve_flow(directory, worktrees, names, force, replies);
            let (chosen, r1) = clean::select_flow(directory, worktrees, names, replies);
            let (confirmed, r2) = clean::confirm_flow(chosen->Ok_0, force, r1);
            &&& chosen matches Err(halt) ==> flow.0 == Err::<Seq<ManagedView>, HaltView>(halt)
                && flow.1 == r1
            &&& chosen matches Ok(list) ==> {
                &&& list.len() == 0 ==> q::gives(flow, list, r1)
                &&& list.len() > 0 ==> {
                    &&& confirmed matches Err(halt) ==> flow.0 == Err::<
                        Seq<ManagedView>,
                        HaltView,
                    >(halt) && flow.1 == r2
                    &&& confirmed == Ok::<bool, HaltView>(true) ==> q::gives(flow, list, r2)
                    &&& confirmed == Ok::<bool, HaltView>(false) ==> q::gives(
                        flow,
                        Seq::empty(),
                        r2,
                    )
                }
            }
        }),
{
}

/// Law: a clean-up finds the main work tree, prunes, lists the worktrees, and removes those that
/// are approved. Where there are none, and none is named, it says so.
pub proof fn law_the_order_of_a_clean_up(
    directory: Seq<char>,
    names: Seq<Seq<char>>,
    force: bool,
    replies: Seq<ReplyView>,
)
    ensures
        ({
            let flow = clean::clean_flow(directory, names, force, replies);
            let (main, r1) = git::main_root_flow(directory, replies);
            let root = main->Ok_0;
            let (pruned, r2) = listing::prune_flow(root, r1);
            let (found, r3) = listing::managed_flow(root, r2);
            let worktrees = found->Ok_0;
            let (approved, r4) = clean::approve_flow(directory, worktrees, names, force, r3);
            let none = RequestView::Print { line: "no worktrees to clean up"@ };
            let halted = |halt: HaltView, rest: Seq<ReplyView>|
                flow.0 == Err::<(), HaltView>(halt) && flow.1 == rest;
            &&& main matches Err(halt) ==> halted(halt, r1)
            &&& main is Ok ==> {
                &&& pruned matches Err(halt) ==> halted(halt, r2)
                &&& pruned is Ok ==> {
                    &&& found matches Err(halt) ==> halted(halt, r3)
                    &&& found is Ok && worktrees.len() == 0 && names.len() == 0 ==> {
                        &&& q::unanswered(none, r3) ==> q::waits(flow, none, r3)
                        &&& r3.len() > 0 && r3[0] is Done ==> q::gives(flow, (), q::after(r3))
                    }
                    &&& found is Ok && (worktrees.len() > 0 || names.len() > 0) ==> {
                        &&& approved matches Err(halt) ==> halted(halt, r4)
                        &&& approved matches Ok(list) ==> flow == remove::removals_flow(
                            root,
                            list,
                            force,
                            r4,
                        )
                    }
                }
            }
        }),
{
}

} // verus!
