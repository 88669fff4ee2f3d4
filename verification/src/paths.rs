//! Paths as text: components, file names and extensions, joining and
//! containment. A path is a sequence of characters with `/` as separator.

use vstd::prelude::*;

verus! {

/// The position of the last `c` in `s`, or -1 where `s` holds none.
pub open spec fn last_index_of(s: Seq<char>, c: char) -> int
    decreases s.len(),
{
    if s.len() == 0 {
        -1
    } else if s.last() == c {
        s.len() - 1
    } else {
        last_index_of(s.drop_last(), c)
    }
}

/// A name that stands for no step of its own: the empty name, which a
/// doubled or trailing separator leaves, and `.`.
pub open spec fn is_blank(name: Seq<char>) -> bool {
    name.len() == 0 || (name.len() == 1 && name[0] == '.')
}

/// The name `..`.
pub open spec fn is_parent(name: Seq<char>) -> bool {
    name.len() == 2 && name[0] == '.' && name[1] == '.'
}

/// The names between the separators of `path`, in order, the blank ones left out.
pub open spec fn components(path: Seq<char>) -> Seq<Seq<char>>
    decreases path.len(),
{
    if path.len() == 0 {
        Seq::empty()
    } else {
        let cut = last_index_of(path, '/');
        let name = path.skip(cut + 1);
        let before = if 0 <= cut < path.len() {
            components(path.take(cut))
        } else {
            Seq::empty()
        };
        if is_blank(name) {
            before
        } else {
            before.push(name)
        }
    }
}

/// The last component of `path`, unless there is none or it is `..`.
pub open spec fn file_name(path: Seq<char>) -> Option<Seq<char>> {
    let names = components(path);
    if names.len() == 0 || is_parent(names.last()) {
        None
    } else {
        Some(names.last())
    }
}

/// What follows the last dot of the file name. A file name without a dot, or
/// whose only dot is its first character, has no extension.
pub open spec fn extension(path: Seq<char>) -> Option<Seq<char>> {
    match file_name(path) {
        None => None,
        Some(name) => {
            let dot = last_index_of(name, '.');
            if dot <= 0 {
                None
            } else {
                Some(name.skip(dot + 1))
            }
        },
    }
}

/// `name` resolved against `base`: an absolute `name` stands alone, any other
/// is appended, after a separator where `base` does not end in one.
pub open spec fn joined(base: Seq<char>, name: Seq<char>) -> Seq<char> {
    if name.len() > 0 && name[0] == '/' {
        name
    } else if base.len() == 0 || base.last() == '/' {
        base + name
    } else {
        base + seq!['/'] + name
    }
}

/// `path` is `root` itself or lies below it: it begins with `root`, and
/// what follows begins a new component. The empty root is the directory
/// that relative paths start from, and holds every path.
pub open spec fn within(root: Seq<char>, path: Seq<char>) -> bool {
    &&& root.is_prefix_of(path)
    &&& (path.len() == root.len() || root.len() == 0 || root.last() == '/' || path[root.len() as int]
        == '/')
}

/// A name as a directory lists it: without a separator, and neither empty
/// nor `.` nor `..`. Resolved against a directory, such a name leads into
/// that directory and no further.
pub open spec fn is_plain_name(name: Seq<char>) -> bool {
    &&& !is_blank(name)
    &&& !is_parent(name)
    &&& forall|i: int| 0 <= i < name.len() ==> name[i] != '/'
}

/// The directory that holds `path`: what stands before its last separator.
/// The root directory holds what stands directly below it, and the empty
/// directory what has no separator.
pub open spec fn directory_of(path: Seq<char>) -> Seq<char> {
    let cut = last_index_of(path, '/');
    if cut > 0 {
        path.take(cut)
    } else if cut == 0 {
        seq!['/']
    } else {
        Seq::empty()
    }
}

/// `name` is relative: it does not begin with a separator.
pub open spec fn is_relative(name: Seq<char>) -> bool {
    name.len() == 0 || name[0] != '/'
}

/// A relative name resolved against a directory lies within it.
pub proof fn lemma_joined_within(base: Seq<char>, name: Seq<char>)
    requires
        is_relative(name),
    ensures
        within(base, joined(base, name)),
{
    let path = joined(base, name);
    assert(path.subrange(0, base.len() as int) =~= base);
    if !(base.len() == 0 || base.last() == '/') {
        assert(path[base.len() as int] == '/');
    }
}

/// A plain name resolved against a directory is held by that directory,
/// written with or without a separator at its end.
pub proof fn lemma_directory_of_joined(base: Seq<char>, name: Seq<char>)
    requires
        is_plain_name(name),
    ensures
        is_relative(name),
        within(directory_of(joined(base, name)), base),
{
    let path = joined(base, name);
    lemma_last_index_of(name, '/');
    assert(last_index_of(name, '/') == -1) by {
        if last_index_of(name, '/') >= 0 {
            assert(name[last_index_of(name, '/')] == '/');
        }
    }
    if base.len() == 0 || base.last() == '/' {
        lemma_last_index_of_concat(base, name, '/');
        lemma_last_index_of(base, '/');
        if base.len() > 0 {
            assert(last_index_of(base, '/') == base.len() - 1);
            let cut = base.len() - 1;
            if cut > 0 {
                assert(path.take(cut) =~= base.take(cut));
                assert(base.take(cut).is_prefix_of(base));
            } else {
                assert(base =~= seq!['/']);
            }
        }
    } else {
        lemma_last_index_of_concat(base + seq!['/'], name, '/');
        lemma_last_index_of_concat(base, seq!['/'], '/');
        assert(last_index_of(seq!['/'], '/') == 0) by {
            assert(seq!['/'].last() == '/');
        }
        assert(path.take(base.len() as int) =~= base);
    }
}

/// What lies within a directory lies within every directory around it.
pub proof fn lemma_within_transitive(outer: Seq<char>, inner: Seq<char>, path: Seq<char>)
    requires
        within(outer, inner),
        within(inner, path),
    ensures
        within(outer, path),
{
    assert(outer.is_prefix_of(path));
}

/// Two different directories with names of one length hold nothing in
/// common.
pub proof fn lemma_within_apart(first: Seq<char>, second: Seq<char>, path: Seq<char>)
    requires
        first.len() == second.len(),
        first != second,
    ensures
        !(within(first, path) && within(second, path)),
{
    if within(first, path) && within(second, path) {
        assert(first =~= second);
    }
}

/// `last_index_of` is a position of `c`, or -1, and no `c` follows it.
pub proof fn lemma_last_index_of(s: Seq<char>, c: char)
    ensures
        -1 <= last_index_of(s, c) < s.len(),
        last_index_of(s, c) >= 0 ==> s[last_index_of(s, c)] == c,
        forall|i: int| last_index_of(s, c) < i < s.len() ==> s[i] != c,
    decreases s.len(),
{
    if s.len() > 0 && s.last() != c {
        let front = s.drop_last();
        lemma_last_index_of(front, c);
        assert forall|i: int| last_index_of(s, c) < i < s.len() implies s[i] != c by {
            if i < front.len() {
                assert(front[i] == s[i]);
            }
        }
    }
}

/// The last `c` of `front + back` is the last one of `back`, and where `back`
/// has none, that of `front`.
pub proof fn lemma_last_index_of_concat(front: Seq<char>, back: Seq<char>, c: char)
    ensures
        last_index_of(front + back, c) == if last_index_of(back, c) >= 0 {
            front.len() + last_index_of(back, c)
        } else {
            last_index_of(front, c)
        },
    decreases back.len(),
{
    let whole = front + back;
    if back.len() == 0 {
        assert(whole == front);
    } else {
        assert(whole.last() == back.last());
        assert(whole.drop_last() == front + back.drop_last());
        if back.last() != c {
            lemma_last_index_of_concat(front, back.drop_last(), c);
        }
    }
}

/// A path that ends in a separator and a blank name has the components of
/// what stands before them: `a/` and `a/.` are `a`.
pub proof fn lemma_blank_tail(path: Seq<char>, blank: Seq<char>)
    requires
        is_blank(blank),
    ensures
        components(path + seq!['/'] + blank) == components(path),
{
    let whole = path + seq!['/'] + blank;
    lemma_last_index_of(blank, '/');
    lemma_last_index_of_concat(path + seq!['/'], blank, '/');
    lemma_last_index_of_concat(path, seq!['/'], '/');
    assert(last_index_of(seq!['/'], '/') == 0) by {
        assert(seq!['/'].last() == '/');
    }
    assert(last_index_of(blank, '/') == -1) by {
        if blank.len() == 1 {
            assert(blank.last() == '.');
            assert(blank.drop_last().len() == 0);
        }
    }
    let cut = last_index_of(whole, '/');
    assert(cut == path.len());
    assert(whole.skip(cut + 1) == blank);
    assert(whole.take(cut) == path);
}

/// A path that begins with a blank name and a separator has the components
/// of what follows them: `/a` and `./a` are `a`.
pub proof fn lemma_blank_head(blank: Seq<char>, path: Seq<char>)
    requires
        is_blank(blank),
    ensures
        components(blank + seq!['/'] + path) == components(path),
    decreases path.len(),
{
    let sep = seq!['/'];
    let head = blank + sep;
    let whole = head + path;
    lemma_last_index_of(path, '/');
    lemma_last_index_of_concat(head, path, '/');
    lemma_last_index_of_concat(blank, sep, '/');
    assert(last_index_of(sep, '/') == 0) by {
        assert(sep.last() == '/');
    }
    let inner = last_index_of(path, '/');
    if inner >= 0 {
        let rest = path.take(inner);
        assert(whole.skip(head.len() + inner + 1) == path.skip(inner + 1));
        assert(whole.take(head.len() + inner) == head + rest);
        lemma_blank_head(blank, rest);
    } else {
        assert(whole.skip(head.len() as int) == path);
        assert(whole.take(head.len() - 1) == blank);
        assert(path.skip(0) == path);
        assert(components(blank) == Seq::<Seq<char>>::empty()) by {
            lemma_last_index_of(blank, '/');
            if blank.len() == 1 {
                assert(blank.last() == '.');
                assert(blank.drop_last().len() == 0);
                assert(last_index_of(blank, '/') == -1);
                assert(blank.skip(0) == blank);
            }
        }
    }
}

/// A blank name between two separators adds no component: `a//b` and
/// `a/./b` are `a/b`.
pub proof fn lemma_blank_step(front: Seq<char>, blank: Seq<char>, back: Seq<char>)
    requires
        is_blank(blank),
    ensures
        components(front + seq!['/'] + blank + seq!['/'] + back) == components(
            front + seq!['/'] + back,
        ),
    decreases back.len(),
{
    let sep = seq!['/'];
    let long_front = front + sep + blank + sep;
    let short_front = front + sep;
    let long = long_front + back;
    let short = short_front + back;
    lemma_last_index_of(back, '/');
    lemma_last_index_of_concat(long_front, back, '/');
    lemma_last_index_of_concat(short_front, back, '/');
    lemma_last_index_of_concat(front + sep + blank, sep, '/');
    lemma_last_index_of_concat(front, sep, '/');
    assert(last_index_of(sep, '/') == 0) by {
        assert(sep.last() == '/');
    }
    let inner = last_index_of(back, '/');
    if inner >= 0 {
        let rest = back.take(inner);
        assert(long.skip(long_front.len() + inner + 1) == back.skip(inner + 1));
        assert(short.skip(short_front.len() + inner + 1) == back.skip(inner + 1));
        assert(long.take(long_front.len() + inner) == long_front + rest);
        assert(short.take(short_front.len() + inner) == short_front + rest);
        lemma_blank_step(front, blank, rest);
    } else {
        assert(long.skip(long_front.len() as int) == back);
        assert(short.skip(short_front.len() as int) == back);
        assert(long.take(long_front.len() - 1) == front + sep + blank);
        assert(short.take(short_front.len() - 1) == front);
        lemma_blank_tail(front, blank);
    }
}

/// The characters of `s`, one by one.
pub fn chars_of(s: &str) -> (v: Vec<char>)
    ensures
        v@ == s@,
{
    let mut v: Vec<char> = Vec::new();
    for c in it: s.chars()
        invariant
            v@ == it.seq().take(it.index()),
    {
        v.push(c);
    }
    v
}

/// One past the last `c` among `chars[start..end]`, or `start` where there is none.
fn after_last(chars: &Vec<char>, start: usize, end: usize, c: char) -> (at: usize)
    requires
        start <= end <= chars.len(),
    ensures
        start <= at <= end,
        at - start - 1 == last_index_of(chars@.subrange(start as int, end as int), c),
{
    let ghost part = chars@.subrange(start as int, end as int);
    let mut at = end;
    proof {
        assert(part.take(end - start) == part);
    }
    while at > start && chars[at - 1] != c
        invariant
            start <= at <= end <= chars.len(),
            part == chars@.subrange(start as int, end as int),
            last_index_of(part, c) == last_index_of(part.take(at - start), c),
        decreases at,
    {
        proof {
            let shown = part.take(at - start);
            assert(shown.last() == chars@[at - 1]);
            assert(shown.drop_last() == part.take(at - 1 - start));
        }
        at -= 1;
    }
    proof {
        let shown = part.take(at - start);
        if at > start {
            assert(shown.last() == chars@[at - 1]);
        }
    }
    at
}

/// Where the file name of the path `chars` starts and ends.
fn file_name_span(chars: &Vec<char>) -> (span: Option<(usize, usize)>)
    ensures
        match span {
            Some((start, end)) => start < end <= chars.len() && file_name(chars@) == Some(
                chars@.subrange(start as int, end as int),
            ),
            None => file_name(chars@) is None,
        },
{
    let mut end = chars.len();
    proof {
        assert(chars@.take(end as int) == chars@);
    }
    while end > 0
        invariant
            end <= chars.len(),
            components(chars@) == components(chars@.take(end as int)),
        decreases end,
    {
        let ghost path = chars@.take(end as int);
        let start = after_last(chars, 0, end, '/');
        proof {
            assert(chars@.subrange(0, end as int) == path);
            assert(path.skip(start as int) == chars@.subrange(start as int, end as int));
        }
        let len = end - start;
        if len == 0 || (len == 1 && chars[start] == '.') {
            if start == 0 {
                return None;
            }
            proof {
                assert(path.take(start - 1) == chars@.take(start - 1));
            }
            end = start - 1;
        } else if len == 2 && chars[start] == '.' && chars[start + 1] == '.' {
            return None;
        } else {
            return Some((start, end));
        }
    }
    proof {
        assert(chars@.take(0).len() == 0);
    }
    None
}

/// The extension of `path`.
pub fn extension_of(path: &str) -> (found: Option<String>)
    ensures
        match found {
            Some(e) => extension(path@) == Some(e@),
            None => extension(path@) is None,
        },
{
    let chars = chars_of(path);
    match file_name_span(&chars) {
        None => None,
        Some((start, end)) => {
            let after = after_last(&chars, start, end, '.');
            if after <= start + 1 {
                None
            } else {
                proof {
                    let name = chars@.subrange(start as int, end as int);
                    assert(name.skip(after - start) == path@.subrange(after as int, end as int));
                }
                Some(path.substring_char(after, end).to_owned())
            }
        },
    }
}

/// `name` resolved against `base`.
pub fn join(base: &str, name: &str) -> (path: String)
    ensures
        path@ == joined(base@, name@),
{
    let base_len = base.unicode_len();
    if name.unicode_len() > 0 && name.get_char(0) == '/' {
        name.to_owned()
    } else if base_len == 0 || base.get_char(base_len - 1) == '/' {
        base.to_owned().concat(name)
    } else {
        proof {
            reveal_strlit("/");
            assert("/"@ == seq!['/']);
        }
        base.to_owned().concat("/").concat(name)
    }
}

} // verus!
