//! What paths mean, said of paths by how they are put together.

use vstd::prelude::*;
use crate::path;
use crate::path::ComponentView;
use crate::text;

verus! {

/// The components that a piece of a path without `/` stands for, where it is not the first.
pub open spec fn later_piece(piece: Seq<char>) -> Seq<ComponentView> {
    if piece.len() == 0 || (piece.len() == 1 && piece[0] == '.') {
        Seq::empty()
    } else if piece.len() == 2 && piece[0] == '.' && piece[1] == '.' {
        seq![ComponentView::Parent]
    } else {
        seq![ComponentView::Normal(piece)]
    }
}

/// A piece without `/` is at most one component.
proof fn lemma_located_piece(piece: Seq<char>, at: int, leading: bool)
    requires
        !piece.contains('/'),
    ensures
        path::located(piece, at, leading) == match path::component_of(piece, leading) {
            Some(component) => seq![(component, at + piece.len())],
            None => Seq::empty(),
        },
{
    text::lemma_first_mark(piece, '/');
    if text::first_mark(piece, '/') < piece.len() {
        assert(piece.contains(piece[text::first_mark(piece, '/')]));
    }
    assert(piece.take(piece.len() as int) =~= piece);
}

/// The two special pieces.
proof fn lemma_dots(piece: Seq<char>)
    ensures
        piece == seq!['.'] <==> piece.len() == 1 && piece[0] == '.',
        piece == seq!['.', '.'] <==> piece.len() == 2 && piece[0] == '.' && piece[1] == '.',
{
    if piece.len() == 1 && piece[0] == '.' {
        assert(piece =~= seq!['.']);
    }
    if piece.len() == 2 && piece[0] == '.' && piece[1] == '.' {
        assert(piece =~= seq!['.', '.']);
    }
}

/// Law: a path without `/` is one component: `.`, `..` or a name; the empty path has none.
pub proof fn law_a_single_piece(piece: Seq<char>)
    requires
        !piece.contains('/'),
    ensures
        path::components_of(piece) == if piece.len() == 1 && piece[0] == '.' {
            seq![ComponentView::Current]
        } else {
            later_piece(piece)
        },
        !path::absolute(piece),
{
    lemma_located_piece(piece, 0, true);
    lemma_dots(piece);
    if piece.len() > 0 && piece[0] == '/' {
        assert(piece.contains(piece[0]));
    }
    assert(path::components_of(piece) =~= if piece.len() == 1 && piece[0] == '.' {
        seq![ComponentView::Current]
    } else {
        later_piece(piece)
    });
}

/// Law: a `/` and a piece after a path add the piece's component to those of the path; a `/` at the
/// start is the root.
pub proof fn law_one_more_piece(path: Seq<char>, piece: Seq<char>)
    requires
        !piece.contains('/'),
    ensures
        path.len() > 0 ==> path::components_of(path.push('/') + piece) == path::components_of(path)
            + later_piece(piece),
        path::components_of(seq!['/'] + piece) == seq![ComponentView::Root] + later_piece(piece),
        path::absolute(seq!['/'] + piece),
{
    lemma_dots(piece);
    lemma_located_piece(piece, path.len() as int + 1, false);
    path::lemma_located_of_sum(path, piece, 0, true);
    let whole = path.push('/') + piece;
    if path.len() > 0 {
        assert(whole[0] == path[0]);
        assert(path::components_of(whole) =~= path::components_of(path) + later_piece(piece));
    }
    let rooted = seq!['/'] + piece;
    let none = Seq::<char>::empty();
    assert(none.push('/') + piece =~= rooted);
    path::lemma_located_of_sum(none, piece, 0, true);
    lemma_located_piece(none, 0, true);
    lemma_located_piece(piece, 1, false);
    assert(path::located(none, 0, true) =~= Seq::empty());
    assert(path::components_of(rooted) =~= seq![ComponentView::Root] + later_piece(piece));
}

/// Law: a part is read from a directory by putting it behind the directory's path, with one `/`
/// between them; a part that starts with `/` is read from nowhere.
pub proof fn law_joining_paths(base: Seq<char>, part: Seq<char>)
    ensures
        part.len() > 0 && part[0] == '/' ==> path::join_of(base, part) == part,
        part.len() == 0 || part[0] != '/' ==> path::join_of(base, part) == if base.len() == 0
            || base[base.len() - 1] == '/' {
            base + part
        } else {
            base + seq!['/'] + part
        },
{
    if base.len() > 0 {
        assert(base.last() == base[base.len() - 1]);
        assert(base.push('/') + part =~= base + seq!['/'] + part);
    }
}

/// Law: a path stands directly in a directory, under a name, exactly where its components are
/// those of the directory and that name; it lies in a directory exactly where its components start
/// with the directory's.
pub proof fn law_places(
    path: Seq<char>,
    directory: Seq<char>,
    name: Seq<char>,
    rest: Seq<ComponentView>,
)
    ensures
        path::child_name(path, directory) == Some(name) <==> path::components_of(path)
            == path::components_of(directory).push(ComponentView::Normal(name)),
        path::components_of(path) == path::components_of(directory) + rest ==> path::within(
            path,
            directory,
        ),
        path::within(path, directory) ==> path::components_of(path) == path::components_of(
            directory,
        ) + path::components_of(path).skip(path::components_of(directory).len() as int),
        path::plain(name) <==> !name.contains('/') && name.len() > 0 && !(name.len() == 1
            && name[0] == '.') && !(name.len() == 2 && name[0] == '.' && name[1] == '.'),
{
    lemma_dots(name);
    let inner = path::components_of(path);
    let outer = path::components_of(directory);
    if inner == outer.push(ComponentView::Normal(name)) {
        assert(inner.drop_last() =~= outer);
    }
    if path::child_name(path, directory) == Some(name) {
        assert(inner =~= outer.push(ComponentView::Normal(name)));
    }
    if inner == outer + rest {
        assert(outer.is_prefix_of(inner));
    }
    if path::within(path, directory) {
        assert(inner =~= outer + inner.skip(outer.len() as int));
    }
}

/// How a component is written.
pub open spec fn written(component: ComponentView) -> Seq<char> {
    match component {
        ComponentView::Root => seq!['/'],
        ComponentView::Current => seq!['.'],
        ComponentView::Parent => seq!['.', '.'],
        ComponentView::Normal(name) => name,
    }
}

/// What stands up to the end of a component has the components up to it, and ends with it.
proof fn lemma_located_prefix(rest: Seq<char>, at: int, leading: bool, i: int)
    requires
        0 <= i < path::located(rest, at, leading).len(),
    ensures
        ({
            let entries = path::located(rest, at, leading);
            let length = entries[i].1 - at;
            &&& 0 < length <= rest.len()
            &&& path::located(rest.take(length), at, leading) == entries.take(i + 1)
            &&& written(entries[i].0).len() <= length
            &&& rest.subrange(length - written(entries[i].0).len(), length) == written(
                entries[i].0,
            )
            &&& !(entries[i].0 is Root)
        }),
    decreases rest.len(),
{
    let entries = path::located(rest, at, leading);
    let end = text::first_mark(rest, '/');
    text::lemma_first_mark(rest, '/');
    let piece = rest.take(end);
    let here = match path::component_of(piece, leading) {
        Some(component) => seq![(component, at + end)],
        None => Seq::empty(),
    };
    if i < here.len() {
        assert(entries[0] == here[0]);
        let start = rest.take(end);
        assert(!start.contains('/')) by {
            if start.contains('/') {
                let j = choose|j: int| 0 <= j < start.len() && start[j] == '/';
                assert(rest[j] == '/');
            }
        }
        lemma_located_piece(start, at, leading);
        assert(entries.take(1) =~= here);
        assert(rest.subrange(0, end) =~= piece);
        assert(entries[0].0 == path::component_of(piece, leading)->0);
        lemma_dots(piece);
        assert(written(entries[0].0) == piece);
    } else {
        let tail = rest.skip(end + 1);
        let later = path::located(tail, at + end + 1, false);
        assert(entries =~= here + later);
        let k = i - here.len();
        assert(entries[i] == later[k]);
        lemma_located_prefix(tail, at + end + 1, false, k);
        let length = entries[i].1 - at;
        let start = rest.take(length);
        let size = written(entries[i].0).len();
        assert(tail.subrange(length - end - 1 - size, length - end - 1) =~= rest.subrange(
            length - size,
            length,
        ));
        assert(start =~= piece + seq!['/'] + tail.take(length - end - 1));
        assert(start =~= piece + (seq!['/'] + tail.take(length - end - 1)));
        assert(!piece.contains('/')) by {
            if piece.contains('/') {
                let j = choose|j: int| 0 <= j < piece.len() && piece[j] == '/';
                assert(rest[j] == '/');
            }
        }
        assert(piece.push('/') + tail.take(length - end - 1) =~= start);
        path::lemma_located_of_sum(piece, tail.take(length - end - 1), at, leading);
        lemma_located_piece(piece, at, leading);
        assert(path::located(start, at, leading) =~= entries.take(i + 1));
    }
}

/// Law: a path that is empty, or ends at the root, has no parent. The parent of another path is the
/// start of its text that has all of its components but the last, and that ends with the last of
/// those.
pub proof fn law_the_parent_of_a_path(path: Seq<char>)
    ensures
        path::parent_of(path) is None <==> path::components_of(path).len() == 0
            || path::components_of(path)[path::components_of(path).len() - 1] is Root,
        path::parent_of(path) matches Some(parent) ==> {
            let above = path::components_of(path).take(path::components_of(path).len() - 1);
            &&& parent.is_prefix_of(path)
            &&& path::components_of(parent) == above
            &&& above.len() == 0 ==> parent.len() == 0
            &&& above.len() > 0 ==> {
                let last = written(above[above.len() - 1]);
                last.len() <= parent.len() && parent.skip(parent.len() - last.len()) == last
            }
        },
{
    let entries = path::placed(path);
    let count = entries.len();
    let components = path::components_of(path);
    if count > 0 {
        assert(entries.last() == entries[count - 1]);
        assert(components[count - 1] == entries[count - 1].0);
    }
    if let Some(parent) = path::parent_of(path) {
        let above = components.take(count - 1);
        if count == 1 {
            assert(parent =~= Seq::<char>::empty());
            assert(parent.is_prefix_of(path));
            lemma_located_piece(parent, 0, true);
            assert(path::components_of(parent) =~= above);
        } else {
            let offset: int = if path::absolute(path) {
                1
            } else {
                0
            };
            let located = path::located(path, 0, true);
            assert(entries[count - 2].0 == above[count - 2]);
            if count - 2 < offset {
                assert(entries[0] == (ComponentView::Root, 1int));
                assert(parent =~= seq!['/']);
                assert(parent =~= seq!['/'] + Seq::<char>::empty());
                law_one_more_piece(Seq::empty(), Seq::empty());
                assert(path::components_of(parent) =~= above);
                assert(parent.skip(0) =~= seq!['/']);
                assert(parent.is_prefix_of(path));
            } else {
                let i = count - 2 - offset;
                assert(entries[count - 2] == located[i]);
                lemma_located_prefix(path, 0, true, i);
                assert(parent[0] == path[0]);
                assert(path::placed(parent) =~= entries.take(count - 1));
                assert(path::components_of(parent) =~= above);
                assert(parent.is_prefix_of(path));
                let last = written(above[count - 2]);
                assert(parent.skip(parent.len() - last.len()) =~= path.subrange(
                    parent.len() - last.len(),
                    parent.len() as int,
                ));
            }
        }
    }
}

/// Law: a path starts at the root of a drive where it starts with a letter, a colon and a slash of
/// either kind; such a path is read from nowhere in a directory whose path starts so too.
pub proof fn law_drives(path: Seq<char>, directory: Seq<char>)
    ensures
        path::absolute(path) <==> path.len() > 0 && path[0] == '/',
        path::drive_rooted(path) <==> path.len() >= 3 && ('a' <= path[0] <= 'z' || 'A' <= path[0]
            <= 'Z') && path[1] == ':' && (path[2] == '/' || path[2] == '\\'),
        path::stands_alone(path, directory) <==> path::absolute(path) || (path::drive_rooted(path)
            && path::drive_rooted(directory)),
{
}

} // verus!
