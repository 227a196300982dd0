//! The name of the XML sidecar that goes with a content file.
//!
//! A file name may come with directories in front. Components are separated
//! by `/`; empty components and `.` components count for nothing. The sidecar
//! is named after the last component that is left: its stem, which is the
//! component without its final extension, followed by `.xml`.

use vstd::prelude::*;
use vstd::string::*;
use crate::text::chars_of;

verus! {

/// The extension that every sidecar carries, with its dot.
pub open spec fn sidecar_suffix() -> Seq<char> {
    seq!['.', 'x', 'm', 'l']
}

/// Position `i` of `path` holds a separator, or a `.` that is a component of
/// its own when nothing but such positions follows.
pub open spec fn is_filler(path: Seq<char>, i: int) -> bool {
    path[i] == '/' || (path[i] == '.' && (i == 0 || path[i - 1] == '/'))
}

/// Where the last component that counts ends: the length of `path` without
/// its trailing separators and `.` components.
pub open spec fn name_end(path: Seq<char>) -> int
    decreases path.len(),
{
    if path.len() == 0 {
        0
    } else if is_filler(path, path.len() - 1) {
        name_end(path.drop_last())
    } else {
        path.len() as int
    }
}

/// Where the component that ends before `end` starts: just behind the last
/// separator before `end`, or at 0.
pub open spec fn name_start(path: Seq<char>, end: int) -> int
    decreases end,
{
    if end <= 0 {
        0
    } else if path[end - 1] == '/' {
        end
    } else {
        name_start(path, end - 1)
    }
}

/// The file name in `path`: its last component, not counting empty and `.`
/// components. There is none where nothing else is left, nor where that
/// component is `..`.
pub open spec fn file_name(path: Seq<char>) -> Option<Seq<char>> {
    let end = name_end(path);
    let name = path.subrange(name_start(path, end), end);
    if end == 0 || name == seq!['.', '.'] {
        None
    } else {
        Some(name)
    }
}

/// The index of the last `.` in `name`, or -1.
pub open spec fn last_dot(name: Seq<char>) -> int
    decreases name.len(),
{
    if name.len() == 0 {
        -1
    } else if name.last() == '.' {
        name.len() - 1
    } else {
        last_dot(name.drop_last())
    }
}

/// `name` without its final extension. A name without a dot, or whose only
/// dot is its first character, has no extension and is its own stem.
pub open spec fn file_stem(name: Seq<char>) -> Seq<char> {
    let dot = last_dot(name);
    if dot <= 0 {
        name
    } else {
        name.subrange(0, dot)
    }
}

/// The sidecar's name for the content file at `path`, if `path` has a file
/// name.
pub open spec fn sidecar_name(path: Seq<char>) -> Option<Seq<char>> {
    match file_name(path) {
        Some(name) => Some(file_stem(name) + sidecar_suffix()),
        None => None,
    }
}

proof fn lemma_name_end_bounds(path: Seq<char>)
    ensures
        0 <= name_end(path) <= path.len(),
        name_end(path) > 0 ==> !is_filler(path, name_end(path) - 1),
        forall|i: int| name_end(path) <= i < path.len() ==> is_filler(path, i),
    decreases path.len(),
{
    if path.len() > 0 && is_filler(path, path.len() - 1) {
        let shorter = path.drop_last();
        lemma_name_end_bounds(shorter);
        assert forall|i: int| name_end(path) <= i < path.len() implies is_filler(path, i) by {
            if i < shorter.len() {
                assert(is_filler(shorter, i));
            }
        }
    }
}

proof fn lemma_name_end_prefix(path: Seq<char>, k: int)
    requires
        0 <= k <= path.len(),
        forall|i: int| k <= i < path.len() ==> is_filler(path, i),
    ensures
        name_end(path) == name_end(path.take(k)),
    decreases path.len() - k,
{
    if k < path.len() {
        let shorter = path.drop_last();
        assert forall|i: int| k <= i < shorter.len() implies is_filler(shorter, i) by {
            assert(is_filler(path, i));
        }
        lemma_name_end_prefix(shorter, k);
        assert(shorter.take(k) == path.take(k));
    } else {
        assert(path.take(k) == path);
    }
}

proof fn lemma_name_start_bounds(path: Seq<char>, end: int)
    requires
        0 <= end <= path.len(),
    ensures
        0 <= name_start(path, end) <= end,
        name_start(path, end) > 0 ==> path[name_start(path, end) - 1] == '/',
        forall|i: int| name_start(path, end) <= i < end ==> path[i] != '/',
    decreases end,
{
    if end > 0 && path[end - 1] != '/' {
        lemma_name_start_bounds(path, end - 1);
    }
}

proof fn lemma_name_start_found(path: Seq<char>, start: int, end: int)
    requires
        0 <= start <= end <= path.len(),
        start == 0 || path[start - 1] == '/',
        forall|i: int| start <= i < end ==> path[i] != '/',
    ensures
        name_start(path, end) == start,
    decreases end - start,
{
    if start < end {
        lemma_name_start_found(path, start, end - 1);
    }
}

proof fn lemma_last_dot_bounds(name: Seq<char>)
    ensures
        -1 <= last_dot(name) < name.len(),
        last_dot(name) >= 0 ==> name[last_dot(name)] == '.',
        forall|i: int| last_dot(name) < i < name.len() ==> name[i] != '.',
    decreases name.len(),
{
    if name.len() > 0 && name.last() != '.' {
        let shorter = name.drop_last();
        lemma_last_dot_bounds(shorter);
        assert forall|i: int| last_dot(name) < i < name.len() implies name[i] != '.' by {
            if i < shorter.len() {
                assert(shorter[i] != '.');
            }
        }
    }
}

proof fn lemma_last_dot_found(name: Seq<char>, dot: int)
    requires
        -1 <= dot < name.len(),
        dot >= 0 ==> name[dot] == '.',
        forall|i: int| dot < i < name.len() ==> name[i] != '.',
    ensures
        last_dot(name) == dot,
    decreases name.len(),
{
    if name.len() > 0 && dot < name.len() - 1 {
        let shorter = name.drop_last();
        assert forall|i: int| dot < i < shorter.len() implies shorter[i] != '.' by {
            assert(name[i] != '.');
        }
        lemma_last_dot_found(shorter, dot);
    }
}

/// The name of the XML sidecar for the content file `file_path`: the stem of
/// its file name, followed by `.xml`. There is none for the empty string, nor
/// for a path without a file name.
pub fn filename_ext_to_xml(file_path: &str) -> (sidecar: Option<String>)
    ensures
        file_path@.len() == 0 ==> sidecar is None,
        match sidecar {
            Some(name) => sidecar_name(file_path@) == Some(name@),
            None => sidecar_name(file_path@) is None,
        },
{
    let path = chars_of(file_path);
    let n = path.len();
    let mut end: usize = n;
    while end > 0 && (path[end - 1] == '/' || (path[end - 1] == '.' && (end == 1 || path[end - 2]
        == '/')))
        invariant
            end <= n,
            n == path@.len(),
            forall|i: int| end <= i < n ==> is_filler(path@, i),
        decreases end,
    {
        end = end - 1;
    }
    proof {
        lemma_name_end_prefix(path@, end as int);
        let kept = path@.take(end as int);
        if end > 0 {
            assert(!is_filler(kept, end - 1));
        }
        assert(name_end(path@) == end);
    }
    if end == 0 {
        return None;
    }
    let mut start: usize = end;
    while start > 0 && path[start - 1] != '/'
        invariant
            start <= end <= n,
            n == path@.len(),
            forall|i: int| start <= i < end ==> path@[i] != '/',
        decreases start,
    {
        start = start - 1;
    }
    proof {
        lemma_name_start_found(path@, start as int, end as int);
    }
    let ghost name = path@.subrange(start as int, end as int);
    if end - start == 2 && path[start] == '.' && path[start + 1] == '.' {
        assert(name == seq!['.', '.']);
        return None;
    }
    assert(name != seq!['.', '.']) by {
        if name == seq!['.', '.'] {
            assert(name.len() == 2);
            assert(name[0] == '.' && name[1] == '.');
        }
    }
    let mut dot: usize = end;
    while dot > start && path[dot - 1] != '.'
        invariant
            start <= dot <= end <= n,
            n == path@.len(),
            forall|i: int| dot <= i < end ==> path@[i] != '.',
        decreases dot,
    {
        dot = dot - 1;
    }
    // `dot` is one past the last dot of the name, or `start` where it has none.
    let stem_end = if dot > start + 1 {
        dot - 1
    } else {
        end
    };
    proof {
        lemma_last_dot_found(name, dot - start - 1);
        if dot > start + 1 {
            assert(file_stem(name) == path@.subrange(start as int, stem_end as int));
        }
    }
    let mut sidecar = String::from_str(file_path.substring_char(start, stem_end));
    sidecar.append(".xml");
    proof {
        reveal_strlit(".xml");
        assert(".xml"@ == sidecar_suffix());
    }
    Some(sidecar)
}

/// A file name that ends in an extension gives the sidecar of its stem: where
/// `path` is a directory part, a stem, a dot and an extension, the sidecar is
/// the stem with `.xml`. Dots inside the stem stay.
pub proof fn lemma_sidecar_replaces_extension(dir: Seq<char>, stem: Seq<char>, ext: Seq<char>)
    requires
        dir.len() == 0 || dir.last() == '/',
        stem.len() > 0,
        forall|i: int| 0 <= i < stem.len() ==> stem[i] != '/',
        ext.len() > 0,
        forall|i: int| 0 <= i < ext.len() ==> ext[i] != '/' && ext[i] != '.',
    ensures
        sidecar_name(dir + stem + seq!['.'] + ext) == Some(stem + sidecar_suffix()),
{
    let path = dir + stem + seq!['.'] + ext;
    let name = stem + seq!['.'] + ext;
    let start = dir.len() as int;
    let end = path.len() as int;
    assert(path[end - 1] == ext.last());
    assert(name_end(path) == end);
    assert forall|i: int| start <= i < end implies path[i] != '/' by {
        if i < start + stem.len() {
            assert(path[i] == stem[i - start]);
        } else if i > start + stem.len() {
            assert(path[i] == ext[i - start - stem.len() - 1]);
        }
    }
    if start > 0 {
        assert(path[start - 1] == dir.last());
    }
    lemma_name_start_found(path, start, end);
    assert(path.subrange(start, end) == name);
    assert(name[name.len() - 1] == ext.last());
    assert(name != seq!['.', '.']) by {
        if name == seq!['.', '.'] {
            assert(name[name.len() - 1] == '.');
        }
    }
    assert forall|i: int| stem.len() < i < name.len() implies name[i] != '.' by {
        assert(name[i] == ext[i - stem.len() - 1]);
    }
    lemma_last_dot_found(name, stem.len() as int);
    assert(name.subrange(0, stem.len() as int) == stem);
}

/// A file name without any dot is its own stem: where `path` is a directory
/// part and such a name, the sidecar is the name with `.xml`.
pub proof fn lemma_sidecar_without_extension(dir: Seq<char>, name: Seq<char>)
    requires
        dir.len() == 0 || dir.last() == '/',
        name.len() > 0,
        forall|i: int| 0 <= i < name.len() ==> name[i] != '/' && name[i] != '.',
    ensures
        sidecar_name(dir + name) == Some(name + sidecar_suffix()),
{
    let path = dir + name;
    let start = dir.len() as int;
    let end = path.len() as int;
    assert(path[end - 1] == name.last());
    assert(name_end(path) == end);
    assert forall|i: int| start <= i < end implies path[i] != '/' by {
        assert(path[i] == name[i - start]);
    }
    if start > 0 {
        assert(path[start - 1] == dir.last());
    }
    lemma_name_start_found(path, start, end);
    assert(path.subrange(start, end) == name);
    assert(name != seq!['.', '.']) by {
        if name == seq!['.', '.'] {
            assert(name[0] == '.');
        }
    }
    lemma_last_dot_found(name, -1);
}

/// The file name is the last component of the path that counts: it lies
/// between separators or the ends of the path, holds no separator, is
/// neither `.` nor `..`, and nothing but separators and `.` components
/// follows it.
pub proof fn lemma_file_name_is_last_component(path: Seq<char>)
    requires
        file_name(path) is Some,
    ensures
        ({
            let end = name_end(path);
            let start = name_start(path, end);
            let name = file_name(path)->0;
            &&& 0 <= start < end <= path.len()
            &&& name == path.subrange(start, end)
            &&& forall|i: int| start <= i < end ==> path[i] != '/'
            &&& start == 0 || path[start - 1] == '/'
            &&& end == path.len() || path[end] == '/'
            &&& name != seq!['.']
            &&& name != seq!['.', '.']
            &&& forall|i: int| end <= i < path.len() ==> is_filler(path, i)
        }),
{
    lemma_name_end_bounds(path);
    let end = name_end(path);
    lemma_name_start_bounds(path, end);
    let start = name_start(path, end);
    let name = path.subrange(start, end);
    if start == end {
        assert(path[end - 1] == '/');
    }
    if end < path.len() {
        assert(is_filler(path, end));
    }
    if name == seq!['.'] {
        assert(name.len() == 1);
        assert(name[0] == '.');
        assert(is_filler(path, end - 1));
    }
}

/// The stem is the name without exactly its final extension: either the
/// whole name, or the name up to a dot that has a character before it and no
/// further dot behind it.
pub proof fn lemma_stem_drops_final_extension(name: Seq<char>)
    ensures
        file_stem(name).is_prefix_of(name),
        file_stem(name) != name ==> {
            let cut = file_stem(name).len() as int;
            &&& 0 < cut < name.len()
            &&& name[cut] == '.'
            &&& forall|i: int| cut < i < name.len() ==> name[i] != '.'
        },
        file_stem(name) == name ==> forall|i: int| 0 < i < name.len() ==> name[i] != '.',
{
    lemma_last_dot_bounds(name);
    let dot = last_dot(name);
    if dot > 0 {
        assert(file_stem(name).len() == dot);
        assert(file_stem(name) != name);
    }
}

/// Whenever there is a sidecar name, it is a part of the path that holds no
/// separator, followed by `.xml`; and there is one exactly for the paths
/// that have a file name. The empty path has none.
pub proof fn lemma_sidecar_shape(path: Seq<char>)
    ensures
        path.len() == 0 ==> sidecar_name(path) is None,
        sidecar_name(path) is Some <==> file_name(path) is Some,
        sidecar_name(path) matches Some(sidecar) ==> exists|from: int, to: int|
            0 <= from < to <= path.len() && #[trigger] path.subrange(from, to) + sidecar_suffix()
                == sidecar && (forall|i: int| from <= i < to ==> path[i] != '/') && (from == 0
                || path[from - 1] == '/'),
{
    lemma_name_end_bounds(path);
    let end = name_end(path);
    lemma_name_start_bounds(path, end);
    let start = name_start(path, end);
    if file_name(path) is Some {
        let name = path.subrange(start, end);
        lemma_last_dot_bounds(name);
        let dot = last_dot(name);
        let to = if dot <= 0 {
            end
        } else {
            start + dot
        };
        assert(start < end) by {
            if start == end {
                assert(path[end - 1] == '/');
            }
        }
        assert(path.subrange(start, to) == file_stem(name));
        assert(path.subrange(start, to) + sidecar_suffix() == sidecar_name(path)->0);
    }
}

} // verus!
