//! The names of worktrees, which are the names of their branches too.

use rand::distr::Alphanumeric;
use rand::Rng;
use vstd::prelude::*;
use crate::path;
use crate::text;

verus! {

/// How many characters a generated name has.
pub const GENERATED_NAME_LENGTH: usize = 10;

/// The characters that a name may hold.
pub open spec fn allowed(character: char) -> bool {
    text::alphanumeric(character) || character == '-' || character == '_' || character == '.'
}

/// A name that stands for a directory and for a Git branch alike: ASCII letters, digits, `-`,
/// `_` and `.`, with a letter or digit at both ends, no `..` and no `.lock` at the end.
pub open spec fn valid_name(name: Seq<char>) -> bool {
    &&& name.len() > 0
    &&& forall|i: int| 0 <= i < name.len() ==> allowed(#[trigger] name[i])
    &&& text::alphanumeric(name[0])
    &&& text::alphanumeric(name.last())
    &&& !text::occurs(name, ".."@)
    &&& !text::ends(name, ".lock"@)
}

/// What is wrong with a name, if anything.
pub open spec fn name_error(name: Seq<char>) -> Option<Seq<char>> {
    if name.len() == 0 {
        Some("worktree name cannot be empty"@)
    } else if name == "."@ || name == ".."@ || name == "@"@ {
        Some("'"@ + name + "' is not a valid worktree name"@)
    } else if !text::alphanumeric(name[0]) {
        Some("worktree name must start with an ASCII letter or number"@)
    } else if !text::alphanumeric(name.last()) {
        Some("worktree name must end with an ASCII letter or number"@)
    } else if text::occurs(name, ".."@) || text::occurs(name, "@{"@) || text::ends(
        name,
        ".lock"@,
    ) {
        Some("'"@ + name + "' is not a valid Git branch name"@)
    } else if exists|i: int| 0 <= i < name.len() && !allowed(#[trigger] name[i]) {
        Some("worktree name may only contain ASCII letters, numbers, '-', '_', and '.'"@)
    } else {
        None
    }
}

/// Whether a name may hold every one of its characters.
fn holds_only_allowed(all: &Vec<char>) -> (answer: bool)
    ensures
        answer == (forall|i: int| 0 <= i < all@.len() ==> allowed(#[trigger] all@[i])),
{
    let mut index: usize = 0;
    while index < all.len()
        invariant
            index <= all.len(),
            forall|i: int| 0 <= i < index ==> allowed(#[trigger] all@[i]),
        decreases all.len() - index,
    {
        let character: char = all[index];
        if !(text::is_alphanumeric(character) || character == '-' || character == '_' || character
            == '.') {
            assert(!allowed(all@[index as int]));
            return false;
        }
        index += 1;
    }
    true
}

/// Checks that a worktree can have the name, and says what is wrong with it otherwise.
pub fn validate_worktree_name(name: &str) -> (result: Result<(), String>)
    ensures
        result is Ok <==> name_error(name@) is None,
        result matches Err(message) ==> name_error(name@) == Some(message@),
{
    let all = text::characters(name);
    if all.len() == 0 {
        return Err("worktree name cannot be empty".to_owned());
    }
    if text::same(name, ".") || text::same(name, "..") || text::same(name, "@") {
        return Err("'".to_owned().concat(name).concat("' is not a valid worktree name"));
    }
    if !text::is_alphanumeric(all[0]) {
        return Err("worktree name must start with an ASCII letter or number".to_owned());
    }
    if !text::is_alphanumeric(all[all.len() - 1]) {
        return Err("worktree name must end with an ASCII letter or number".to_owned());
    }
    if text::contains(name, "..") || text::contains(name, "@{") || text::ends_with(name, ".lock") {
        return Err("'".to_owned().concat(name).concat("' is not a valid Git branch name"));
    }
    if !holds_only_allowed(&all) {
        return Err(
            "worktree name may only contain ASCII letters, numbers, '-', '_', and '.'".to_owned(),
        );
    }
    Ok(())
}

/// Law: the names in which nothing is wrong are the valid names.
pub proof fn law_accepted_names_are_the_valid_names(name: Seq<char>)
    ensures
        name_error(name) is None <==> valid_name(name),
{
    reveal_strlit(".");
    reveal_strlit("..");
    reveal_strlit("@");
    reveal_strlit("@{");
    if text::occurs(name, "@{"@) {
        let at = choose|at: int| text::matches_at(name, "@{"@, at);
        assert(name.subrange(at, at + 2)[0] == '@');
        assert(!allowed(name[at]));
    }
}

/// Law: a valid name is one component of a path, so a worktree of that name stands directly in
/// the directory that it is joined to.
pub proof fn law_valid_names_are_plain(name: Seq<char>)
    requires
        valid_name(name),
    ensures
        path::plain(name),
{
    assert forall|i: int| 0 <= i < name.len() implies name[i] != '/' by {
        assert(allowed(name[i]));
    }
    assert(name != seq!['.']);
    assert(name != seq!['.', '.']);
}

/// The lower case form of an ASCII character.
pub open spec fn lowered(sample: u8) -> char {
    if 0x41 <= sample <= 0x5a {
        (sample + 0x20) as char
    } else {
        sample as char
    }
}

/// The name that a sequence of samples stands for.
pub open spec fn sampled_name(samples: Seq<u8>) -> Seq<char> {
    Seq::new(samples.len(), |i: int| lowered(samples[i]))
}

/// The shape of a generated name: ten lower case letters and digits.
pub open spec fn generated_shape(name: Seq<char>) -> bool {
    &&& name.len() == GENERATED_NAME_LENGTH
    &&& forall|i: int|
        0 <= i < name.len() ==> 'a' <= #[trigger] name[i] <= 'z' || '0' <= name[i] <= '9'
}

/// Whether a name has the shape of a generated one.
pub fn is_generated(name: &str) -> (answer: bool)
    ensures
        answer == generated_shape(name@),
{
    let all = text::characters(name);
    if all.len() != GENERATED_NAME_LENGTH {
        return false;
    }
    let mut index: usize = 0;
    while index < all.len()
        invariant
            index <= all.len(),
            all@ == name@,
            forall|i: int|
                0 <= i < index ==> 'a' <= #[trigger] all@[i] <= 'z' || '0' <= all@[i] <= '9',
        decreases all.len() - index,
    {
        let character: char = all[index];
        if !(('a' <= character && character <= 'z') || ('0' <= character && character <= '9')) {
            assert(!('a' <= name@[index as int] <= 'z' || '0' <= name@[index as int] <= '9'));
            return false;
        }
        index += 1;
    }
    true
}

/// `Rng::sample_iter` of the crate `rand`, with its thread-local generator and the distribution
/// `Alphanumeric`: as many bytes as asked for, each an ASCII letter or digit. Which of them come
/// is left to chance. The generator panics where the system gives it no seed.
#[verifier::external_body]
fn sample_alphanumeric(count: usize) -> (samples: Vec<u8>)
    ensures
        samples@.len() == count,
        forall|i: int| 0 <= i < count ==> text::alphanumeric(#[trigger] samples@[i] as char),
{
    rand::rng().sample_iter(&Alphanumeric).take(count).collect()
}

/// The name that a sequence of samples stands for: each in lower case.
pub fn name_from_samples(samples: &[u8]) -> (name: String)
    ensures
        name@ == sampled_name(samples@),
{
    let mut name: String = String::new();
    let mut index: usize = 0;
    while index < samples.len()
        invariant
            index <= samples.len(),
            name@ == sampled_name(samples@.take(index as int)),
        decreases samples.len() - index,
    {
        let sample: u8 = samples[index];
        let character: char = if 0x41 <= sample && sample <= 0x5a {
            (sample + 0x20) as char
        } else {
            sample as char
        };
        name.push(character);
        assert(name@ =~= sampled_name(samples@.take(index + 1)));
        index += 1;
    }
    assert(samples@.take(index as int) =~= samples@);
    name
}

/// A random name for a worktree.
pub fn generate_random_name() -> (name: String)
    ensures
        generated_shape(name@),
{
    let samples = sample_alphanumeric(GENERATED_NAME_LENGTH);
    assert forall|i: int| 0 <= i < samples@.len() implies ({
        let character = #[trigger] sampled_name(samples@)[i];
        'a' <= character <= 'z' || '0' <= character <= '9'
    }) by {
        assert(text::alphanumeric(samples@[i] as char));
    }
    name_from_samples(&samples)
}

/// Law: every generated name is a valid name.
pub proof fn law_generated_names_are_valid(name: Seq<char>)
    requires
        generated_shape(name),
    ensures
        valid_name(name),
{
    reveal_strlit("..");
    reveal_strlit(".lock");
    assert forall|i: int| 0 <= i < name.len() implies name[i] != '.' && allowed(name[i]) by {}
    if text::occurs(name, ".."@) {
        let at = choose|at: int| text::matches_at(name, ".."@, at);
        assert(name.subrange(at, at + 2)[0] == name[at]);
    }
    if text::ends(name, ".lock"@) {
        assert(name.subrange(name.len() - 5, name.len() as int)[0] == name[name.len() - 5]);
    }
}

/// The name that an input asks for: what it holds between white space, unless that is nothing.
pub open spec fn asked_name(input: Seq<char>) -> Option<Seq<char>> {
    if text::trimmed(input).len() > 0 {
        Some(text::trimmed(input))
    } else {
        None
    }
}

/// The name that the input asks for, if any.
pub fn explicit_name(input: &str) -> (name: Option<&str>)
    ensures
        name.deep_view() == asked_name(input@),
{
    let explicit: &str = text::trim(input);
    if explicit.is_empty() {
        None
    } else {
        Some(explicit)
    }
}

/// The name that the input asks for, or a random name where it asks for none.
pub fn resolve_worktree_name(input: &str) -> (name: String)
    ensures
        match asked_name(input@) {
            Some(asked) => name@ == asked,
            None => generated_shape(name@),
        },
{
    match explicit_name(input) {
        Some(explicit) => explicit.to_owned(),
        None => generate_random_name(),
    }
}

} // verus!
