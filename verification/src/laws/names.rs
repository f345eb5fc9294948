//! What names of worktrees are made of.

use vstd::prelude::*;
use crate::name;
use crate::text;

verus! {

/// A letter or digit of ASCII.
pub open spec fn letter_or_digit(character: char) -> bool {
    'a' <= character <= 'z' || 'A' <= character <= 'Z' || '0' <= character <= '9'
}

/// Law: a name is accepted exactly where it is not empty, holds nothing but ASCII letters, digits,
/// `-`, `_` and `.`, starts and ends with a letter or digit, has no two `.` in a row, and does not
/// end with `.lock`.
pub proof fn law_which_names_are_accepted(name: Seq<char>)
    ensures
        name::name_error(name) is None <==> {
            &&& name.len() > 0
            &&& forall|i: int|
                0 <= i < name.len() ==> letter_or_digit(#[trigger] name[i]) || name[i] == '-'
                    || name[i] == '_' || name[i] == '.'
            &&& letter_or_digit(name[0])
            &&& letter_or_digit(name[name.len() - 1])
            &&& forall|i: int, j: int|
                0 <= i && j == i + 1 && j < name.len() ==> !(#[trigger] name[i] == '.'
                    && #[trigger] name[j] == '.')
            &&& !(name.len() >= 5 && name.skip(name.len() - 5) == seq!['.', 'l', 'o', 'c', 'k'])
        },
        name::valid_name(name) <==> name::name_error(name) is None,
{
    name::law_accepted_names_are_the_valid_names(name);
    lemma_double_dots(name);
    lemma_lock(name);
    if name.len() > 0 {
        assert(name.last() == name[name.len() - 1]);
    }
    assert(forall|c: char| #[trigger] letter_or_digit(c) == text::alphanumeric(c));
    if name::valid_name(name) {
        assert forall|i: int| 0 <= i < name.len() implies letter_or_digit(#[trigger] name[i])
            || name[i] == '-' || name[i] == '_' || name[i] == '.' by {
            assert(name::allowed(name[i]));
        }
    } else if forall|i: int|
        0 <= i < name.len() ==> letter_or_digit(#[trigger] name[i]) || name[i] == '-' || name[i]
            == '_' || name[i] == '.' {
        assert forall|i: int| 0 <= i < name.len() implies name::allowed(#[trigger] name[i]) by {
            assert(letter_or_digit(name[i]) || name[i] == '-' || name[i] == '_' || name[i] == '.');
        }
    }
}

/// Two dots in a row.
proof fn lemma_double_dots(name: Seq<char>)
    ensures
        text::occurs(name, ".."@) <==> exists|i: int, j: int|
            0 <= i && j == i + 1 && j < name.len() && #[trigger] name[i] == '.'
                && #[trigger] name[j] == '.',
{
    reveal_strlit("..");
    if text::occurs(name, ".."@) {
        let at = choose|at: int| text::matches_at(name, ".."@, at);
        assert(name.subrange(at, at + 2)[0] == name[at]);
        assert(name.subrange(at, at + 2)[1] == name[at + 1]);
    }
    if exists|i: int, j: int|
        0 <= i && j == i + 1 && j < name.len() && #[trigger] name[i] == '.' && #[trigger] name[j]
            == '.' {
        let (i, j) = choose|i: int, j: int|
            0 <= i && j == i + 1 && j < name.len() && #[trigger] name[i] == '.'
                && #[trigger] name[j] == '.';
        assert(name.subrange(i, i + 2) =~= ".."@);
        assert(text::matches_at(name, ".."@, i));
    }
}

/// `.lock` at the end.
proof fn lemma_lock(name: Seq<char>)
    ensures
        text::ends(name, ".lock"@) <==> name.len() >= 5 && name.skip(name.len() - 5) == seq![
            '.',
            'l',
            'o',
            'c',
            'k',
        ],
{
    reveal_strlit(".lock");
    assert(".lock"@ =~= seq!['.', 'l', 'o', 'c', 'k']);
    if name.len() >= 5 {
        assert(name.skip(name.len() - 5) =~= name.subrange(name.len() - 5, name.len() as int));
    }
}

/// Law: what is said of a name that is not accepted is the first that is wrong with it: that it is
/// empty; that it is `.`, `..` or `@`; how it starts; how it ends; that it is no branch name; what
/// it holds.
pub proof fn law_what_is_wrong_with_a_name(name: Seq<char>)
    ensures
        name.len() == 0 ==> name::name_error(name) == Some("worktree name cannot be empty"@),
        name == "."@ || name == ".."@ || name == "@"@ ==> name::name_error(name) == Some(
            "'"@ + name + "' is not a valid worktree name"@,
        ),
        name.len() > 0 && name != "."@ && name != ".."@ && name != "@"@ ==> {
            &&& !letter_or_digit(name[0]) ==> name::name_error(name) == Some(
                "worktree name must start with an ASCII letter or number"@,
            )
            &&& letter_or_digit(name[0]) && !letter_or_digit(name[name.len() - 1])
                ==> name::name_error(name) == Some(
                "worktree name must end with an ASCII letter or number"@,
            )
            &&& letter_or_digit(name[0]) && letter_or_digit(name[name.len() - 1]) ==> {
                let unfit = text::occurs(name, ".."@) || text::occurs(name, "@{"@) || text::ends(
                    name,
                    ".lock"@,
                );
                &&& unfit ==> name::name_error(name) == Some(
                    "'"@ + name + "' is not a valid Git branch name"@,
                )
                &&& !unfit && (exists|i: int|
                    0 <= i < name.len() && !letter_or_digit(#[trigger] name[i]) && name[i] != '-'
                        && name[i] != '_' && name[i] != '.') ==> name::name_error(name) == Some(
                    "worktree name may only contain ASCII letters, numbers, '-', '_', and '.'"@,
                )
            }
        },
{
    reveal_strlit(".");
    reveal_strlit("..");
    reveal_strlit("@");
    assert(forall|c: char| #[trigger] letter_or_digit(c) == text::alphanumeric(c));
    if name.len() > 0 {
        assert(name.last() == name[name.len() - 1]);
    }
    if exists|i: int|
        0 <= i < name.len() && !letter_or_digit(#[trigger] name[i]) && name[i] != '-' && name[i]
            != '_' && name[i] != '.' {
        let i = choose|i: int|
            0 <= i < name.len() && !letter_or_digit(#[trigger] name[i]) && name[i] != '-'
                && name[i] != '_' && name[i] != '.';
        assert(!name::allowed(name[i]));
    }
}

/// Law: a generated name has ten characters, each a lower case letter or a digit; samples become a
/// name of as many characters, each sample in its place and in lower case.
pub proof fn law_what_generated_names_are_made_of(name: Seq<char>, samples: Seq<u8>, at: int)
    ensures
        name::generated_shape(name) <==> name.len() == 10 && forall|i: int|
            0 <= i < name.len() ==> 'a' <= #[trigger] name[i] <= 'z' || '0' <= name[i] <= '9',
        name::sampled_name(samples).len() == samples.len(),
        0 <= at < samples.len() && 'A' as u8 <= samples[at] <= 'Z' as u8 ==> name::sampled_name(
            samples,
        )[at] as int == samples[at] as int - 'A' as int + 'a' as int,
        0 <= at < samples.len() && !('A' as u8 <= samples[at] <= 'Z' as u8)
            ==> name::sampled_name(samples)[at] as int == samples[at] as int,
{
}

/// Law: a name is asked for where there is more than white space, and it is what stands between
/// the white space.
pub proof fn law_which_name_is_asked_for(input: Seq<char>)
    ensures
        name::asked_name(input) == if text::trimmed(input).len() == 0 {
            None::<Seq<char>>
        } else {
            Some(text::trimmed(input))
        },
{
}

} // verus!
