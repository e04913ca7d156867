//! Unix paths as text. Two paths are the same when their components are, so a
//! repeated slash or a `.` in the middle changes nothing.

use vstd::prelude::*;
use crate::text::{
    chars_eq, chars_of, copy_range, find_char, list_has_prefix, lists_eq, pieces, rfind_char, split,
    string_of, views,
};

verus! {

/// The component that stands for the root directory.
pub open spec fn root_component() -> Seq<char> {
    seq!['/']
}

/// The component that stands for the current directory.
pub open spec fn current_component() -> Seq<char> {
    seq!['.']
}

/// The component that stands for the parent directory.
pub open spec fn parent_component() -> Seq<char> {
    seq!['.', '.']
}

/// A path that starts at the root.
pub open spec fn absolute(path: Seq<char>) -> bool {
    path.len() > 0 && path[0] == '/'
}

/// The components among the first pieces of a path: empty pieces do not count,
/// nor does `.` unless it opens a relative path.
pub open spec fn counted(parts: Seq<Seq<char>>, rooted: bool) -> Seq<Seq<char>>
    decreases parts.len(),
{
    if parts.len() == 0 {
        if rooted {
            seq![root_component()]
        } else {
            Seq::empty()
        }
    } else {
        let shorter = counted(parts.drop_last(), rooted);
        let part = parts.last();
        if part.len() == 0 || (part == current_component() && (rooted || parts.len() > 1)) {
            shorter
        } else {
            shorter.push(part)
        }
    }
}

/// The components of a path.
pub open spec fn components(path: Seq<char>) -> Seq<Seq<char>> {
    counted(pieces(path, '/'), absolute(path))
}

/// A component that names an entry, neither the root nor a step.
pub open spec fn normal(component: Seq<char>) -> bool {
    component != root_component() && component != current_component() && component
        != parent_component()
}

/// Whether a path starts at the root.
pub fn is_absolute(path: &str) -> (holds: bool)
    ensures
        holds == absolute(path@),
{
    let characters = chars_of(path);
    characters.len() > 0 && characters[0] == '/'
}

fn is_dots(part: &Vec<char>, count: usize) -> (holds: bool)
    requires
        count == 1 || count == 2,
    ensures
        holds == (part@ == if count == 1 {
            current_component()
        } else {
            parent_component()
        }),
{
    if part.len() == count && part[0] == '.' && part[count - 1] == '.' {
        assert(part@ =~= if count == 1 {
            current_component()
        } else {
            parent_component()
        });
        true
    } else {
        false
    }
}

/// Splits a path into its components.
pub fn components_of(path: &str) -> (list: Vec<Vec<char>>)
    ensures
        views(list@) == components(path@),
{
    let characters = chars_of(path);
    let rooted = characters.len() > 0 && characters[0] == '/';
    let parts = split(&characters, '/');
    let ghost all = views(parts@);
    let mut list: Vec<Vec<char>> = Vec::new();
    if rooted {
        list.push(root_chars());
    }
    let mut next: usize = 0;
    proof {
        assert(all.take(0) =~= Seq::empty());
        assert(views(list@) =~= counted(all.take(0), rooted));
    }
    while next < parts.len()
        invariant
            next <= parts@.len(),
            all == views(parts@),
            views(list@) == counted(all.take(next as int), rooted),
        decreases parts@.len() - next,
    {
        let ghost longer = all.take(next + 1);
        let ghost before = views(list@);
        proof {
            assert(longer.drop_last() =~= all.take(next as int));
            assert(longer.last() == parts@[next as int]@);
        }
        let part = &parts[next];
        let step = is_dots(part, 1);
        if !(part.len() == 0 || (step && (rooted || next > 0))) {
            let copy = copy_range(part, 0, part.len());
            assert(part@.subrange(0, part@.len() as int) =~= part@);
            list.push(copy);
            assert(views(list@) =~= before.push(part@));
        }
        next = next + 1;
    }
    assert(all.take(parts@.len() as int) =~= all);
    list
}

fn root_chars() -> (component: Vec<char>)
    ensures
        component@ == root_component(),
{
    let mut component: Vec<char> = Vec::new();
    component.push('/');
    assert(component@ =~= root_component());
    component
}

/// Whether two paths have the same components.
pub fn same_path(left: &str, right: &str) -> (same: bool)
    ensures
        same == (components(left@) == components(right@)),
{
    let a = components_of(left);
    let b = components_of(right);
    lists_eq(&a, &b)
}

/// Whether a path is another or lies below it.
pub fn starts_with(path: &str, base: &str) -> (holds: bool)
    ensures
        holds == components(base@).is_prefix_of(components(path@)),
{
    let a = components_of(path);
    let b = components_of(base);
    list_has_prefix(&a, &b)
}

/// A path with another put behind it: an absolute one takes its place, and a
/// slash goes between the two unless one is there or the first is empty.
pub open spec fn joined(base: Seq<char>, tail: Seq<char>) -> Seq<char> {
    if absolute(tail) {
        tail
    } else if base.len() == 0 || base.last() == '/' {
        base + tail
    } else {
        base.push('/') + tail
    }
}

/// Puts one path behind another.
pub fn join(base: &str, tail: &str) -> (path: String)
    ensures
        path@ == joined(base@, tail@),
{
    if is_absolute(tail) {
        return tail.to_owned();
    }
    let characters = chars_of(base);
    let mut path = base.to_owned();
    if characters.len() > 0 && characters[characters.len() - 1] != '/' {
        path.push('/');
    }
    path.append(tail);
    path
}

/// Whether every component of a path is the root, a name or `.`, and the path
/// is not empty.
pub open spec fn free_of_parents(path: Seq<char>) -> bool {
    path.len() > 0 && forall|i: int|
        0 <= i < components(path).len() ==> #[trigger] components(path)[i] != parent_component()
}

/// Whether a path is not empty and has no `..` component.
pub fn has_no_parent_step(path: &str) -> (holds: bool)
    ensures
        holds == free_of_parents(path@),
{
    let characters = chars_of(path);
    if characters.len() == 0 {
        return false;
    }
    let list = components_of(path);
    let mut next: usize = 0;
    while next < list.len()
        invariant
            next <= list@.len(),
            views(list@) == components(path@),
            forall|i: int| 0 <= i < next ==> #[trigger] components(path@)[i] != parent_component(),
        decreases list@.len() - next,
    {
        assert(views(list@)[next as int] == list@[next as int]@);
        if is_dots(&list[next], 2) {
            return false;
        }
        next = next + 1;
    }
    true
}

/// The last component of a path, where it names an entry.
pub open spec fn file_name(path: Seq<char>) -> Option<Seq<char>> {
    let list = components(path);
    if list.len() > 0 && normal(list.last()) {
        Some(list.last())
    } else {
        None
    }
}

/// Whether a path lies directly below a directory under a name.
pub open spec fn directly_below(path: Seq<char>, directory: Seq<char>) -> bool {
    let list = components(path);
    list.len() > 0 && list.last() != root_component() && list.drop_last() == components(directory)
}

/// Whether a path lies directly below a directory.
pub fn is_directly_below(path: &str, directory: &str) -> (holds: bool)
    ensures
        holds == directly_below(path@, directory@),
{
    let list = components_of(path);
    let base = components_of(directory);
    if list.len() == 0 || list.len() - 1 != base.len() {
        assert(components(path@).len() == 0 || components(path@).drop_last().len() != components(directory@).len());
        return false;
    }
    let root = root_chars();
    assert(views(list@).last() == list@.last()@);
    let below = list_has_prefix(&list, &base);
    proof {
        assert(views(list@).drop_last() =~= views(list@).subrange(0, base@.len() as int));
    }
    below && !chars_eq(&list[list.len() - 1], &root)
}

/// The last component of a path, where it names an entry.
pub fn file_name_of(path: &str) -> (name: Option<String>)
    ensures
        name is Some <==> file_name(path@) is Some,
        name matches Some(n) ==> file_name(path@) == Some(n@),
{
    let mut list = components_of(path);
    if list.len() == 0 {
        return None;
    }
    assert(views(list@).last() == list@.last()@);
    let last = &list[list.len() - 1];
    let root = root_chars();
    if chars_eq(last, &root) || is_dots(last, 1) || is_dots(last, 2) {
        None
    } else {
        Some(string_of(last))
    }
}

/// A path without what stands behind its last component: slashes, and `.` behind a
/// slash.
pub open spec fn without_trailing(path: Seq<char>) -> Seq<char>
    decreases path.len(),
{
    if path.len() > 1 && (path.last() == '/' || (path.last() == '.' && path[path.len() - 2]
        == '/')) {
        without_trailing(path.drop_last())
    } else {
        path
    }
}

/// The text of a path up to the end of its last component but one. The text inside
/// is kept as it is written.
pub open spec fn parent_text(path: Seq<char>) -> Seq<char> {
    let text = without_trailing(path);
    match text.index_of_last('/') {
        Some(slash) => without_trailing(text.take(slash + 1)),
        None => Seq::empty(),
    }
}

/// A text without what stands ahead of its first component: slashes, and `.` ahead
/// of a slash or of the end.
pub open spec fn without_leading(text: Seq<char>) -> Seq<char>
    decreases text.len(),
{
    if text.len() > 0 && (text[0] == '/' || (text[0] == '.' && (text.len() == 1 || text[1]
        == '/'))) {
        without_leading(text.skip(1))
    } else {
        text
    }
}

/// Where the component that a text starts with ends.
pub open spec fn component_end(text: Seq<char>) -> int {
    match text.index_of_first('/') {
        Some(slash) => slash,
        None => text.len() as int,
    }
}

/// The text of a path from the component on that stands behind a number of names.
/// The text inside is kept as it is written.
pub open spec fn behind(text: Seq<char>, names: nat) -> Seq<char>
    decreases names,
{
    let rest = without_leading(text);
    if names == 0 {
        rest
    } else {
        behind(rest.skip(component_end(rest)), (names - 1) as nat)
    }
}

fn trim_end(characters: &[char]) -> (end: usize)
    ensures
        end <= characters@.len(),
        characters@.take(end as int) == without_trailing(characters@),
{
    let mut end: usize = characters.len();
    assert(characters@.take(end as int) =~= characters@);
    while end > 1 && (characters[end - 1] == '/' || (characters[end - 1] == '.' && characters[end
        - 2] == '/'))
        invariant
            end <= characters@.len(),
            without_trailing(characters@.take(end as int)) == without_trailing(characters@),
        decreases end,
    {
        assert(characters@.take(end as int).drop_last() =~= characters@.take(end - 1));
        end = end - 1;
    }
    end
}

/// The text of a path up to the end of its last component but one.
pub fn parent_text_of(path: &str) -> (parent: String)
    ensures
        parent@ == parent_text(path@),
{
    let characters = chars_of(path);
    let end = trim_end(&characters);
    let text = copy_range(&characters, 0, end);
    assert(text@ =~= characters@.take(end as int));
    match rfind_char(&text, '/') {
        Some(slash) => {
            let upper = copy_range(&text, 0, slash + 1);
            assert(upper@ =~= text@.take(slash + 1));
            let end = trim_end(&upper);
            let parent = copy_range(&upper, 0, end);
            assert(parent@ =~= upper@.take(end as int));
            string_of(&parent)
        },
        None => String::new(),
    }
}

fn trim_start(characters: &[char]) -> (start: usize)
    ensures
        start <= characters@.len(),
        characters@.skip(start as int) == without_leading(characters@),
{
    let mut start: usize = 0;
    assert(characters@.skip(0) =~= characters@);
    while start < characters.len() && (characters[start] == '/' || (characters[start] == '.' && (
    start + 1 == characters.len() || characters[start + 1] == '/')))
        invariant
            start <= characters@.len(),
            without_leading(characters@.skip(start as int)) == without_leading(characters@),
        decreases characters@.len() - start,
    {
        assert(characters@.skip(start as int).skip(1) =~= characters@.skip(start + 1));
        start = start + 1;
    }
    start
}

/// The text of a path from the component on that stands behind a number of names.
pub fn text_behind(path: &str, names: usize) -> (text: String)
    ensures
        text@ == behind(path@, names as nat),
{
    let mut rest = chars_of(path);
    let mut left: usize = names;
    while left > 0
        invariant
            left <= names,
            behind(rest@, left as nat) == behind(path@, names as nat),
        decreases left,
    {
        let start = trim_start(&rest);
        let trimmed = copy_range(&rest, start, rest.len());
        assert(trimmed@ =~= without_leading(rest@));
        let end = match find_char(&trimmed, '/') {
            Some(slash) => slash,
            None => trimmed.len(),
        };
        let next = copy_range(&trimmed, end, trimmed.len());
        assert(next@ =~= trimmed@.skip(component_end(trimmed@)));
        rest = next;
        left = left - 1;
    }
    let start = trim_start(&rest);
    let text = copy_range(&rest, start, rest.len());
    assert(text@ =~= without_leading(rest@));
    string_of(&text)
}

proof fn pieces_are_there(text: Seq<char>)
    ensures
        pieces(text, '/').len() > 0,
    decreases text.len(),
{
    if text.len() > 0 {
        pieces_are_there(text.drop_last());
    }
}

proof fn trailing_adds_nothing(path: Seq<char>)
    requires
        absolute(path),
    ensures
        absolute(without_trailing(path)),
        without_trailing(path).is_prefix_of(path),
        components(without_trailing(path)) == components(path),
    decreases path.len(),
{
    assert(path.take(path.len() as int) =~= path);
    if without_trailing(path) != path {
        let shorter = path.drop_last();
        trailing_adds_nothing(shorter);
        assert(without_trailing(shorter).is_prefix_of(path)) by {
            assert(path.take(without_trailing(shorter).len() as int) =~= shorter.take(
                without_trailing(shorter).len() as int,
            ));
        }
        let parts = pieces(path, '/');
        let before = pieces(shorter, '/');
        pieces_are_there(shorter);
        if path.last() == '/' {
            assert(parts.drop_last() =~= before);
        } else {
            assert(shorter.last() == '/');
            assert(before.last() =~= Seq::empty());
            assert(parts.last() =~= current_component());
            assert(parts.drop_last() =~= before.drop_last());
            assert(counted(before, true) == counted(before.drop_last(), true));
        }
    }
}

proof fn pieces_end_with_the_tail(text: Seq<char>, start: int)
    requires
        0 < start <= text.len(),
        text[start - 1] == '/',
        forall|i: int| start <= i < text.len() ==> text[i] != '/',
    ensures
        pieces(text, '/') == pieces(text.take(start), '/').drop_last().push(text.skip(start)),
    decreases text.len() - start,
{
    let upper = text.take(start);
    pieces_are_there(upper.drop_last());
    if start == text.len() {
        assert(upper =~= text);
        assert(text.skip(start) =~= Seq::empty());
        let parts = pieces(text, '/');
        assert(parts.last() == Seq::<char>::empty());
        assert(parts =~= parts.drop_last().push(parts.last()));
    } else {
        let shorter = text.drop_last();
        pieces_end_with_the_tail(shorter, start);
        assert(shorter.take(start) =~= upper);
        let before = pieces(shorter, '/');
        assert(before.drop_last() =~= pieces(upper, '/').drop_last());
        assert(text.skip(start) =~= shorter.skip(start).push(text.last()));
    }
}

/// The parent of an absolute path has all its components but the last, and is
/// written as the path is.
pub proof fn parents_lack_the_last_component(path: Seq<char>)
    requires
        absolute(path),
        components(path).last() != root_component(),
    ensures
        absolute(parent_text(path)),
        parent_text(path).is_prefix_of(path),
        components(parent_text(path)) == components(path).drop_last(),
{
    broadcast use vstd::seq_lib::group_seq_properties;

    let text = without_trailing(path);
    trailing_adds_nothing(path);
    settled(path);
    assert(text[0] == '/');
    assert(text.contains('/'));
    text.index_of_last_ensures('/');
    let slash = text.index_of_last('/')->0;
    let upper = text.take(slash + 1);
    let tail = text.skip(slash + 1);
    if text.len() == 1 {
        reveal_with_fuel(pieces, 2);
        assert(text =~= seq!['/']);
        assert(text.drop_last() =~= Seq::empty());
        let parts = pieces(text, '/');
        assert(parts =~= seq![Seq::<char>::empty(), Seq::<char>::empty()]);
        reveal_with_fuel(counted, 3);
        assert(parts.drop_last().drop_last() =~= Seq::empty());
        assert(components(text) =~= seq![root_component()]);
        assert(false);
    }
    pieces_end_with_the_tail(text, slash + 1);
    let parts = pieces(text, '/');
    pieces_are_there(upper);
    assert(parts.drop_last() =~= pieces(upper, '/').drop_last());
    assert(parts.last() == tail);
    assert(tail.len() > 0);
    assert(tail != current_component()) by {
        if tail == current_component() {
            assert(text.last() == tail.last());
            assert(text[text.len() - 2] == '/');
        }
    }
    assert(upper.last() == '/');
    let above = pieces(upper, '/');
    assert(above.last() == Seq::<char>::empty());
    assert(counted(above, true) == counted(above.drop_last(), true));
    assert(components(text).drop_last() =~= components(upper));
    trailing_adds_nothing(upper);
    assert(path.take(parent_text(path).len() as int) =~= upper.take(
        parent_text(path).len() as int,
    ));
}

/// Nothing more is taken from the end of a path that lost what stands behind its
/// last component.
proof fn settled(path: Seq<char>)
    ensures
        ({
            let text = without_trailing(path);
            text.len() > 1 ==> text.last() != '/' && !(text.last() == '.' && text[text.len() - 2]
                == '/')
        }),
    decreases path.len(),
{
    if path.len() > 1 && (path.last() == '/' || (path.last() == '.' && path[path.len() - 2]
        == '/')) {
        settled(path.drop_last());
    }
}

/// The names of a text that stands behind a root.
spec fn names(text: Seq<char>) -> Seq<Seq<char>> {
    counted(pieces(text, '/'), true).skip(1)
}

proof fn root_is_counted(parts: Seq<Seq<char>>)
    ensures
        counted(parts, true).len() > 0,
        counted(parts, true)[0] == root_component(),
    decreases parts.len(),
{
    if parts.len() > 0 {
        root_is_counted(parts.drop_last());
    }
}

/// An absolute path has the root as its first component.
pub proof fn roots_come_first(path: Seq<char>)
    requires
        absolute(path),
    ensures
        components(path).len() > 0,
        components(path)[0] == root_component(),
{
    root_is_counted(pieces(path, '/'));
}

proof fn counted_splits(first: Seq<Seq<char>>, second: Seq<Seq<char>>)
    ensures
        counted(first + second, true) == counted(first, true) + counted(second, true).skip(1),
    decreases second.len(),
{
    root_is_counted(second);
    if second.len() == 0 {
        assert(first + second =~= first);
        assert(counted(first, true) + counted(second, true).skip(1) =~= counted(first, true));
    } else {
        let shorter = second.drop_last();
        root_is_counted(shorter);
        counted_splits(first, shorter);
        assert((first + second).drop_last() =~= first + shorter);
        assert(counted(first + second, true) =~= counted(first, true) + counted(
            second,
            true,
        ).skip(1));
    }
}

proof fn pieces_split(first: Seq<char>, second: Seq<char>)
    ensures
        pieces(first.push('/') + second, '/') == pieces(first, '/') + pieces(second, '/'),
    decreases second.len(),
{
    let whole = first.push('/') + second;
    if second.len() == 0 {
        assert(whole =~= first.push('/'));
        assert(whole.drop_last() =~= first);
        assert(pieces(whole, '/') =~= pieces(first, '/') + pieces(second, '/'));
    } else {
        let shorter = second.drop_last();
        pieces_split(first, shorter);
        pieces_are_there(shorter);
        assert(whole.drop_last() =~= first.push('/') + shorter);
        assert(pieces(whole, '/') =~= pieces(first, '/') + pieces(second, '/'));
    }
}

proof fn names_split(first: Seq<char>, second: Seq<char>)
    ensures
        names(first.push('/') + second) == names(first) + names(second),
{
    pieces_split(first, second);
    counted_splits(pieces(first, '/'), pieces(second, '/'));
    root_is_counted(pieces(first, '/'));
    assert(names(first.push('/') + second) =~= names(first) + names(second));
}

proof fn one_piece(text: Seq<char>)
    requires
        !text.contains('/'),
    ensures
        pieces(text, '/') == seq![text],
    decreases text.len(),
{
    if text.len() > 0 {
        let shorter = text.drop_last();
        assert(!shorter.contains('/')) by {
            if shorter.contains('/') {
                let i = shorter.index_of('/');
                assert(text[i] == '/');
            }
        }
        one_piece(shorter);
        assert(text.last() != '/') by {
            if text.last() == '/' {
                assert(text[text.len() - 1] == '/');
            }
        }
        assert(shorter.push(text.last()) =~= text);
        assert(pieces(text, '/') =~= seq![text]);
    } else {
        assert(text =~= Seq::empty());
    }
}

proof fn one_name(text: Seq<char>)
    requires
        !text.contains('/'),
    ensures
        names(text) == if text.len() == 0 || text == current_component() {
            Seq::<Seq<char>>::empty()
        } else {
            seq![text]
        },
{
    one_piece(text);
    reveal_with_fuel(counted, 2);
    assert(seq![text].drop_last() =~= Seq::<Seq<char>>::empty());
    assert(names(text) =~= if text.len() == 0 || text == current_component() {
        Seq::<Seq<char>>::empty()
    } else {
        seq![text]
    });
}

proof fn leading_adds_nothing(text: Seq<char>)
    ensures
        names(without_leading(text)) == names(text),
        without_leading(text).len() > 0 ==> without_leading(text)[0] != '/',
        without_leading(text).len() > 0 ==> !(without_leading(text)[0] == '.' && (without_leading(
            text,
        ).len() == 1 || without_leading(text)[1] == '/')),
    decreases text.len(),
{
    if text.len() > 0 && (text[0] == '/' || (text[0] == '.' && (text.len() == 1 || text[1]
        == '/'))) {
        let rest = text.skip(1);
        leading_adds_nothing(rest);
        let none = Seq::<char>::empty();
        one_name(none);
        if text[0] == '/' {
            names_split(none, rest);
            assert(none.push('/') + rest =~= text);
            assert(names(text) =~= names(rest));
        } else if text.len() == 1 {
            assert(text =~= current_component());
            one_name(text);
            assert(rest =~= none);
        } else {
            let tail = text.skip(2);
            one_name(current_component());
            names_split(current_component(), tail);
            assert(current_component().push('/') + tail =~= text);
            names_split(none, tail);
            assert(none.push('/') + tail =~= rest);
            assert(names(text) =~= names(rest));
        }
    }
}

proof fn behind_skips_names(text: Seq<char>, count: nat)
    requires
        count <= names(text).len(),
    ensures
        names(behind(text, count)) == names(text).skip(count as int),
        behind(text, count).len() > 0 ==> behind(text, count)[0] != '/',
    decreases count,
{
    leading_adds_nothing(text);
    let rest = without_leading(text);
    if count == 0 {
        assert(names(text).skip(0) =~= names(text));
    } else {
        let end = component_end(rest);
        rest.index_of_first_ensures('/');
        let next = rest.skip(end);
        let none = Seq::<char>::empty();
        one_name(none);
        if rest.contains('/') {
            let name = rest.take(end);
            let tail = rest.skip(end + 1);
            assert(!name.contains('/')) by {
                if name.contains('/') {
                    let i = name.index_of('/');
                    assert(rest[i] == '/');
                }
            }
            assert(name.len() > 0);
            assert(name != current_component()) by {
                if name == current_component() {
                    assert(name.len() == 1);
                    assert(rest[0] == name[0]);
                    assert(rest[1] == '/');
                }
            }
            one_name(name);
            names_split(name, tail);
            assert(name.push('/') + tail =~= rest);
            names_split(none, tail);
            assert(none.push('/') + tail =~= next);
            assert(names(rest).skip(1) =~= names(next));
        } else {
            if rest.len() == 0 {
                assert(rest =~= none);
                assert(names(rest).len() == 0);
            } else {
                assert(rest != current_component());
                one_name(rest);
                assert(next =~= none);
                assert(names(rest).skip(1) =~= names(next));
            }
        }
        behind_skips_names(next, (count - 1) as nat);
        assert(names(rest).skip(1).skip(count - 1) =~= names(rest).skip(count as int));
    }
}

/// What stands behind some names of an absolute path has the components that follow
/// these names.
pub proof fn behind_has_the_later_components(path: Seq<char>, count: nat)
    requires
        absolute(path),
        count < components(path).len(),
    ensures
        !absolute(behind(path, count)),
        components(seq!['/'] + behind(path, count)) == seq![root_component()] + components(
            path,
        ).skip(count as int + 1),
{
    root_is_counted(pieces(path, '/'));
    behind_skips_names(path, count);
    let rest = behind(path, count);
    let whole = seq!['/'] + rest;
    let none = Seq::<char>::empty();
    one_name(none);
    names_split(none, rest);
    assert(none.push('/') + rest =~= whole);
    root_is_counted(pieces(whole, '/'));
    assert(names(whole) =~= names(rest));
    assert(components(whole) =~= seq![root_component()] + names(whole));
    assert(names(path).skip(count as int) =~= components(path).skip(count as int + 1));
}

/// A path put behind another lies below it where it is relative, and takes its place where
/// it is absolute; either way what is put behind stands at the end.
pub proof fn joined_paths_end_with_the_tail(base: Seq<char>, tail: Seq<char>)
    ensures
        absolute(tail) ==> joined(base, tail) == tail,
        !absolute(tail) ==> base.is_prefix_of(joined(base, tail)),
        tail == joined(base, tail).skip(joined(base, tail).len() - tail.len()),
        !absolute(tail) && base.len() > 0 ==> joined(base, tail)[joined(base, tail).len()
            - tail.len() - 1] == '/',
        absolute(base) ==> absolute(joined(base, tail)),
{
    let path = joined(base, tail);
    assert(tail =~= path.skip(path.len() - tail.len()));
}

/// Two names below one directory are two paths.
pub proof fn names_below_a_directory_are_told_apart(
    base: Seq<char>,
    first: Seq<char>,
    second: Seq<char>,
)
    requires
        !absolute(first),
        !absolute(second),
        joined(base, first) == joined(base, second),
    ensures
        first == second,
{
    joined_paths_end_with_the_tail(base, first);
    joined_paths_end_with_the_tail(base, second);
}

/// A path climbs nowhere only where it is not empty and none of its components is a step
/// to a parent.
pub proof fn paths_free_of_parents_climb_nowhere(path: Seq<char>, place: int)
    ensures
        free_of_parents(path) && 0 <= place < components(path).len() ==> components(path)[place]
            != seq!['.', '.'],
        free_of_parents(path) ==> path.len() > 0,
        0 <= place < components(path).len() && components(path)[place] == seq!['.', '.']
            ==> !free_of_parents(path),
{
}

/// The name of a file is the last component of its path, and is neither the root nor a
/// step.
pub proof fn file_names_are_names(path: Seq<char>)
    ensures
        file_name(path) matches Some(name) ==> components(path).len() > 0 && name
            == components(path).last() && name != seq!['/'] && name != seq!['.'] && name
            != seq!['.', '.'],
        file_name(path) is None ==> components(path).len() == 0 || components(path).last()
            == seq!['/'] || components(path).last() == seq!['.'] || components(path).last()
            == seq!['.', '.'],
{
}

/// A path lies directly below a directory only one component deeper.
pub proof fn entries_are_one_component_deeper(path: Seq<char>, directory: Seq<char>)
    requires
        directly_below(path, directory),
    ensures
        components(path).len() == components(directory).len() + 1,
        components(directory).is_prefix_of(components(path)),
        !directly_below(directory, path),
{
    let list = components(path);
    assert(list.drop_last() =~= components(directory));
}

/// A name that is put behind an absolute path makes a path of one component more: the
/// name. It lies directly below the path, and the name can be read off it.
pub proof fn names_add_one_component(base: Seq<char>, name: Seq<char>)
    requires
        absolute(base),
        name.len() > 0,
        !name.contains('/'),
        name != current_component(),
    ensures
        components(joined(base, name)) == components(base).push(name),
        directly_below(joined(base, name), base),
        name != parent_component() ==> file_name(joined(base, name)) == Some(name),
{
    assert(name[0] != '/') by {
        if name[0] == '/' {
            assert(name.contains('/'));
        }
    }
    assert(name != root_component()) by {
        if name == root_component() {
            assert(name[0] == '/');
        }
    }
    let path = joined(base, name);
    one_piece(name);
    let upper = if base.last() == '/' {
        base.drop_last()
    } else {
        base
    };
    assert(path =~= upper.push('/') + name);
    pieces_split(upper, name);
    let parts = pieces(upper, '/') + seq![name];
    assert(parts.drop_last() =~= pieces(upper, '/'));
    assert(parts.last() == name);
    assert(absolute(path));
    assert(components(path) == counted(pieces(upper, '/'), true).push(name));
    if base.last() == '/' {
        let all = pieces(base, '/');
        assert(all.drop_last() =~= pieces(upper, '/'));
        assert(all.last().len() == 0);
        assert(counted(all, true) == counted(pieces(upper, '/'), true));
    }
    assert(components(path).drop_last() =~= components(base));
}

} // verus!
