//! Paths as text, with `/` between their components: the form in which Git prints them.

use vstd::prelude::*;
use crate::text;

verus! {

/// A component of a path.
#[derive(Debug, PartialEq, Eq)]
pub enum Component {
    /// The `/` that an absolute path starts with.
    Root,
    /// A `.` at the start of a relative path.
    Current,
    /// A `..`.
    Parent,
    /// A name.
    Normal(String),
}

/// The view of a [`Component`].
pub enum ComponentView {
    Root,
    Current,
    Parent,
    Normal(Seq<char>),
}

impl DeepView for Component {
    type V = ComponentView;

    open spec fn deep_view(&self) -> ComponentView {
        match self {
            Component::Root => ComponentView::Root,
            Component::Current => ComponentView::Current,
            Component::Parent => ComponentView::Parent,
            Component::Normal(name) => ComponentView::Normal(name@),
        }
    }
}

/// Whether a path starts at the root.
pub open spec fn absolute(path: Seq<char>) -> bool {
    path.len() > 0 && path[0] == '/'
}

/// Whether a path starts at the root of a drive: a letter, a colon and a separator.
pub open spec fn drive_rooted(path: Seq<char>) -> bool {
    &&& path.len() >= 3
    &&& 'a' <= path[0] <= 'z' || 'A' <= path[0] <= 'Z'
    &&& path[1] == ':'
    &&& path[2] == '/' || path[2] == '\\'
}

/// Whether a path names the same file from whatever directory it is read, here from `directory`.
/// One that starts at the root of a drive does where the directory's path starts so too: that
/// tells a platform on which paths are written like this.
pub open spec fn stands_alone(path: Seq<char>, directory: Seq<char>) -> bool {
    absolute(path) || (drive_rooted(path) && drive_rooted(directory))
}

/// The component that a piece of a path between two separators stands for. An empty piece and a
/// `.` stand for none, except that a `.` counts at the start of a path.
pub open spec fn component_of(piece: Seq<char>, leading: bool) -> Option<ComponentView> {
    if piece.len() == 0 {
        None
    } else if piece == seq!['.'] {
        if leading {
            Some(ComponentView::Current)
        } else {
            None
        }
    } else if piece == seq!['.', '.'] {
        Some(ComponentView::Parent)
    } else {
        Some(ComponentView::Normal(piece))
    }
}

/// The components of the rest of a path that begins at the position `at`, each with the
/// position of its end.
pub open spec fn located(rest: Seq<char>, at: int, leading: bool) -> Seq<(ComponentView, int)>
    decreases rest.len(),
{
    let end = text::first_mark(rest, '/');
    let here = match component_of(rest.take(end), leading) {
        Some(component) => seq![(component, at + end)],
        None => Seq::empty(),
    };
    if 0 <= end < rest.len() {
        here + located(rest.skip(end + 1), at + end + 1, false)
    } else {
        here
    }
}

/// The components of a path, each with the position of its end.
pub open spec fn placed(path: Seq<char>) -> Seq<(ComponentView, int)> {
    if absolute(path) {
        seq![(ComponentView::Root, 1int)] + located(path, 0, true)
    } else {
        located(path, 0, true)
    }
}

/// The components of a path. Paths with the same components name the same file.
pub open spec fn components_of(path: Seq<char>) -> Seq<ComponentView> {
    placed(path).map_values(|entry: (ComponentView, int)| entry.0)
}

/// A path without its last component: the text up to the end of the component before it.
pub open spec fn parent_of(path: Seq<char>) -> Option<Seq<char>> {
    let entries = placed(path);
    if entries.len() == 0 || entries.last().0 is Root {
        None
    } else if entries.len() == 1 {
        Some(Seq::empty())
    } else {
        Some(path.take(entries[entries.len() - 2].1))
    }
}

/// The path of `part`, read from the directory `base`.
pub open spec fn join_of(base: Seq<char>, part: Seq<char>) -> Seq<char> {
    if absolute(part) {
        part
    } else if base.len() == 0 || base.last() == '/' {
        base + part
    } else {
        base.push('/') + part
    }
}

/// The name under which `path` stands directly in `directory`.
pub open spec fn child_name(path: Seq<char>, directory: Seq<char>) -> Option<Seq<char>> {
    let components = components_of(path);
    if components.len() > 0 && components.drop_last() == components_of(directory) {
        match components.last() {
            ComponentView::Normal(name) => Some(name),
            _ => None,
        }
    } else {
        None
    }
}

/// Whether `path` is `ancestor` or lies below it.
pub open spec fn within(path: Seq<char>, ancestor: Seq<char>) -> bool {
    components_of(ancestor).is_prefix_of(components_of(path))
}

/// A name that is one component of a path by itself.
pub open spec fn plain(name: Seq<char>) -> bool {
    &&& !name.contains('/')
    &&& component_of(name, false) == Some(ComponentView::Normal(name))
}

/// Whether a path starts at the root.
pub fn is_absolute(path: &str) -> (answer: bool)
    ensures
        answer == absolute(path@),
{
    path.unicode_len() > 0 && path.get_char(0) == '/'
}

/// Whether a path starts at the root of a drive.
pub fn is_drive_rooted(path: &str) -> (answer: bool)
    ensures
        answer == drive_rooted(path@),
{
    if path.unicode_len() < 3 {
        return false;
    }
    let letter: char = path.get_char(0);
    let separator: char = path.get_char(2);
    (('a' <= letter && letter <= 'z') || ('A' <= letter && letter <= 'Z')) && path.get_char(1)
        == ':' && (separator == '/' || separator == '\\')
}

/// Whether the path names the same file from whatever directory it is read, here from the
/// directory.
pub fn is_independent(path: &str, directory: &str) -> (answer: bool)
    ensures
        answer == stands_alone(path@, directory@),
{
    is_absolute(path) || (is_drive_rooted(path) && is_drive_rooted(directory))
}

/// The path of `part`, read from the directory `base`.
pub fn join(base: &str, part: &str) -> (path: String)
    ensures
        path@ == join_of(base@, part@),
{
    if is_absolute(part) {
        return part.to_owned();
    }
    let length: usize = base.unicode_len();
    let mut path: String = base.to_owned();
    if length > 0 && base.get_char(length - 1) != '/' {
        path.push('/');
    }
    path.concat(part)
}

/// The component that a piece of a path stands for.
fn component(piece: &str, leading: bool) -> (found: Option<Component>)
    ensures
        found.deep_view() == component_of(piece@, leading),
{
    proof {
        reveal_strlit(".");
        reveal_strlit("..");
        assert("."@ =~= seq!['.']);
        assert(".."@ =~= seq!['.', '.']);
    }
    if piece.is_empty() {
        None
    } else if text::same(piece, ".") {
        if leading {
            Some(Component::Current)
        } else {
            None
        }
    } else if text::same(piece, "..") {
        Some(Component::Parent)
    } else {
        Some(Component::Normal(piece.to_owned()))
    }
}

/// Whether a list of components with their ends is `entries`.
pub open spec fn lists(list: Seq<(Component, usize)>, entries: Seq<(ComponentView, int)>) -> bool {
    &&& list.len() == entries.len()
    &&& forall|i: int|
        0 <= i < list.len() ==> (#[trigger] list[i]).0.deep_view() == entries[i].0 && list[i].1
            == entries[i].1
}

/// The components of a path, each with the position of its end.
fn place(path: &str) -> (list: Vec<(Component, usize)>)
    ensures
        lists(list@, placed(path@)),
{
    let all = text::characters(path);
    let mut list: Vec<(Component, usize)> = Vec::new();
    if is_absolute(path) {
        list.push((Component::Root, 1));
    }
    let ghost mut entries: Seq<(ComponentView, int)> = if absolute(path@) {
        seq![(ComponentView::Root, 1int)]
    } else {
        Seq::empty()
    };
    let mut from: usize = 0;
    let mut leading: bool = true;
    assert(all@.skip(0) == all@);
    assert(placed(path@) =~= entries + located(all@.skip(0), 0, true));
    loop
        invariant
            from <= all.len(),
            all@ == path@,
            lists(list@, entries),
            placed(path@) == entries + located(all@.skip(from as int), from as int, leading),
        decreases all.len() - from,
    {
        let ghost rest = all@.skip(from as int);
        let ghost before = entries;
        proof {
            text::lemma_first_mark(rest, '/');
        }
        let at: usize = text::find_mark(&all, '/', from);
        assert(rest.take(at - from) =~= path@.subrange(from as int, at as int));
        let found = component(path.substring_char(from, at), leading);
        let ghost here: Seq<(ComponentView, int)> = match found.deep_view() {
            Some(component) => seq![(component, at as int)],
            None => Seq::empty(),
        };
        proof {
            entries = before + here;
        }
        if let Some(component) = found {
            list.push((component, at));
        }
        assert(lists(list@, entries));
        if at == all.len() {
            assert(placed(path@) =~= entries);
            return list;
        }
        proof {
            assert(rest.skip(at - from + 1) =~= all@.skip(at + 1));
            assert(placed(path@) =~= entries + located(all@.skip(at + 1), at + 1, false));
        }
        from = at + 1;
        leading = false;
    }
}

/// The ends of the components lie in the path.
pub proof fn lemma_located_ends(rest: Seq<char>, at: int, leading: bool)
    ensures
        forall|i: int|
            0 <= i < located(rest, at, leading).len() ==> at <= (#[trigger] located(
                rest,
                at,
                leading,
            )[i]).1 <= at + rest.len(),
    decreases rest.len(),
{
    text::lemma_first_mark(rest, '/');
    let end = text::first_mark(rest, '/');
    if end < rest.len() {
        let tail = located(rest.skip(end + 1), at + end + 1, false);
        lemma_located_ends(rest.skip(end + 1), at + end + 1, false);
        let entries = located(rest, at, leading);
        let here = entries.len() - tail.len();
        assert forall|i: int| 0 <= i < entries.len() implies at <= (#[trigger] entries[i]).1 <= at
            + rest.len() by {
            if i >= here {
                assert(entries[i] == tail[i - here]);
            }
        }
    }
}

/// The path without its last component.
pub fn parent(path: &str) -> (directory: Option<&str>)
    ensures
        directory.deep_view() == parent_of(path@),
{
    let list = place(path);
    let count: usize = list.len();
    if count == 0 || matches!(list[count - 1].0, Component::Root) {
        return None;
    }
    if count == 1 {
        let directory: &str = path.substring_char(0, 0);
        assert(directory@ =~= Seq::<char>::empty());
        return Some(directory);
    }
    proof {
        lemma_located_ends(path@, 0, true);
    }
    assert(list@[count - 2].1 == placed(path@)[count - 2].1);
    Some(path.substring_char(0, list[count - 2].1))
}

/// Whether two components are the same.
fn same_component(left: &Component, right: &Component) -> (answer: bool)
    ensures
        answer == (left.deep_view() == right.deep_view()),
{
    match (left, right) {
        (Component::Root, Component::Root) => true,
        (Component::Current, Component::Current) => true,
        (Component::Parent, Component::Parent) => true,
        (Component::Normal(a), Component::Normal(b)) => text::same(a.as_str(), b.as_str()),
        _ => false,
    }
}

/// Whether the first `count` components of two paths are the same.
fn same_start(
    left: &Vec<(Component, usize)>,
    right: &Vec<(Component, usize)>,
    count: usize,
) -> (answer: bool)
    requires
        count <= left.len(),
        count <= right.len(),
    ensures
        answer == (forall|i: int|
            0 <= i < count ==> (#[trigger] left@[i]).0.deep_view() == right@[i].0.deep_view()),
{
    let mut index: usize = 0;
    while index < count
        invariant
            index <= count,
            count <= left.len(),
            count <= right.len(),
            forall|i: int|
                0 <= i < index ==> (#[trigger] left@[i]).0.deep_view() == right@[i].0.deep_view(),
        decreases count - index,
    {
        if !same_component(&left[index].0, &right[index].0) {
            return false;
        }
        index += 1;
    }
    true
}

/// The name under which the path stands directly in the directory.
pub fn name_in(path: &str, directory: &str) -> (name: Option<String>)
    ensures
        name.deep_view() == child_name(path@, directory@),
{
    let inner = place(path);
    let outer = place(directory);
    let ghost components = components_of(path@);
    let ghost directory_components = components_of(directory@);
    if inner.len() == 0 || inner.len() - 1 != outer.len() {
        assert(components.len() > 0 ==> components.drop_last().len()
            != directory_components.len());
        return None;
    }
    let count: usize = outer.len();
    let answer: bool = same_start(&inner, &outer, count);
    proof {
        assert forall|i: int| 0 <= i < count implies inner@[i].0.deep_view()
            == components.drop_last()[i] && outer@[i].0.deep_view()
            == directory_components[i] by {}
        if answer {
            assert(components.drop_last() =~= directory_components);
        } else {
            let i = choose|i: int|
                0 <= i < count && (#[trigger] inner@[i]).0.deep_view()
                    != outer@[i].0.deep_view();
            assert(components.drop_last()[i] != directory_components[i]);
        }
        assert(inner@[count as int].0.deep_view() == components.last());
    }
    if !answer {
        return None;
    }
    match &inner[count].0 {
        Component::Normal(name) => Some(name.clone()),
        _ => None,
    }
}

/// Whether the path is the ancestor or lies below it.
pub fn lies_within(path: &str, ancestor: &str) -> (answer: bool)
    ensures
        answer == within(path@, ancestor@),
{
    let inner = place(path);
    let outer = place(ancestor);
    let ghost components = components_of(path@);
    let ghost ancestor_components = components_of(ancestor@);
    if inner.len() < outer.len() {
        return false;
    }
    let answer: bool = same_start(&inner, &outer, outer.len());
    proof {
        assert forall|i: int| 0 <= i < outer.len() implies inner@[i].0.deep_view()
            == components[i] && outer@[i].0.deep_view() == ancestor_components[i] by {}
        if answer {
            assert(components.take(ancestor_components.len() as int) =~= ancestor_components);
        } else {
            let i = choose|i: int|
                0 <= i < outer.len() && (#[trigger] inner@[i]).0.deep_view()
                    != outer@[i].0.deep_view();
            assert(components[i] != ancestor_components[i]);
        }
    }
    answer
}

/// Whether two paths have the same components.
pub fn same_place(left: &str, right: &str) -> (answer: bool)
    ensures
        answer == (components_of(left@) == components_of(right@)),
{
    let answer: bool = place(left).len() == place(right).len() && lies_within(left, right);
    proof {
        let ghost left_components = components_of(left@);
        let ghost right_components = components_of(right@);
        if answer {
            assert(left_components.take(right_components.len() as int) =~= left_components);
        } else if left_components == right_components {
            assert(right_components.is_prefix_of(left_components));
        }
    }
    answer
}

/// The components of two texts with a separator between them are those of the one and the other.
pub proof fn lemma_located_of_sum(left: Seq<char>, right: Seq<char>, at: int, leading: bool)
    ensures
        located(left.push('/') + right, at, leading) == located(left, at, leading) + located(
            right,
            at + left.len() + 1,
            false,
        ),
    decreases left.len(),
{
    let whole = left.push('/') + right;
    let end = text::first_mark(left, '/');
    text::lemma_first_mark(left, '/');
    assert(whole =~= left + seq!['/'].add(right));
    text::lemma_first_mark_of_sum(left, seq!['/'].add(right), '/');
    if end < left.len() {
        let rest = left.skip(end + 1);
        lemma_located_of_sum(rest, right, at + end + 1, false);
        assert(whole.take(end) =~= left.take(end));
        assert(whole.skip(end + 1) =~= rest.push('/') + right);
    } else {
        assert(whole.take(end) =~= left.take(end));
        assert(whole.skip(end + 1) =~= right);
    }
    assert(located(whole, at, leading) =~= located(left, at, leading) + located(
        right,
        at + left.len() + 1,
        false,
    ));
}

/// The components of a plain name are that name.
proof fn lemma_located_plain(name: Seq<char>, at: int, leading: bool)
    requires
        plain(name),
    ensures
        located(name, at, leading) == seq![(ComponentView::Normal(name), at + name.len())],
{
    text::lemma_first_mark(name, '/');
    assert(name.take(name.len() as int) =~= name);
}

/// What is joined to a directory under a plain name has the directory's components, where they
/// were, and then that name, which ends where the path ends.
proof fn lemma_placed_of_join(directory: Seq<char>, name: Seq<char>)
    requires
        plain(name),
    ensures
        placed(join_of(directory, name)) == placed(directory).push(
            (ComponentView::Normal(name), join_of(directory, name).len() as int),
        ),
{
    let path = join_of(directory, name);
    if name.len() > 0 && name[0] == '/' {
        assert(name.contains(name[0]));
    }
    let added = (ComponentView::Normal(name), path.len() as int);
    if directory.len() == 0 {
        assert(path =~= name);
        lemma_located_plain(name, 0, true);
        assert(directory.take(0) =~= Seq::<char>::empty());
        assert(placed(directory) =~= Seq::empty());
    } else if directory.last() == '/' {
        let left = directory.drop_last();
        assert(left.push('/') =~= directory);
        assert(directory =~= left.push('/') + Seq::<char>::empty());
        lemma_located_of_sum(left, name, 0, true);
        lemma_located_of_sum(left, Seq::empty(), 0, true);
        lemma_located_plain(name, left.len() as int + 1, false);
        assert(Seq::<char>::empty().take(0) =~= Seq::<char>::empty());
        assert(located(Seq::empty(), left.len() as int + 1, false) =~= Seq::empty());
        assert(located(directory, 0, true) =~= located(left, 0, true));
    } else {
        lemma_located_of_sum(directory, name, 0, true);
        lemma_located_plain(name, directory.len() as int + 1, false);
    }
    assert(placed(path) =~= placed(directory).push(added));
}

/// Law: what is joined to a directory under a plain name has the directory's components and
/// then that name.
pub proof fn law_join_appends_a_component(directory: Seq<char>, name: Seq<char>)
    requires
        plain(name),
    ensures
        components_of(join_of(directory, name)) == components_of(directory).push(
            ComponentView::Normal(name),
        ),
{
    lemma_placed_of_join(directory, name);
    assert(components_of(join_of(directory, name)) =~= components_of(directory).push(
        ComponentView::Normal(name),
    ));
}

/// Law: what is joined to a directory under a plain name stands directly in that directory,
/// under that name.
pub proof fn law_joined_name_is_found(directory: Seq<char>, name: Seq<char>)
    requires
        plain(name),
    ensures
        child_name(join_of(directory, name), directory) == Some(name),
{
    law_join_appends_a_component(directory, name);
    assert(components_of(directory).push(ComponentView::Normal(name)).drop_last()
        =~= components_of(directory));
}

/// Law: the parent of what is joined to a directory under a plain name is that directory, where
/// the directory's text ends with a component of it.
pub proof fn law_parent_of_join(directory: Seq<char>, name: Seq<char>)
    requires
        plain(name),
        placed(directory).len() > 0,
        placed(directory).last().1 == directory.len(),
    ensures
        parent_of(join_of(directory, name)) == Some(directory),
{
    lemma_placed_of_join(directory, name);
    if name.len() > 0 && name[0] == '/' {
        assert(name.contains(name[0]));
    }
    assert(join_of(directory, name).take(directory.len() as int) =~= directory);
}

} // verus!
