//! Paths as text, with `/` between their components.
use vstd::prelude::*;
use vstd::string::*;

verus! {

/// `name` below `base`. An absolute name stands for itself.
pub open spec fn joined(base: Seq<char>, name: Seq<char>) -> Seq<char> {
    if name.len() > 0 && name[0] == '/' {
        name
    } else if base.len() == 0 || base.last() == '/' {
        base + name
    } else {
        base.push('/') + name
    }
}

/// `name` below `base`.
pub fn join_path(base: &str, name: &str) -> (path: String)
    ensures
        path@ == joined(base@, name@),
{
    if name.unicode_len() > 0 && name.get_char(0) == '/' {
        return name.to_owned();
    }
    let mut path = base.to_owned();
    let base_len: usize = base.unicode_len();
    if base_len > 0 && base.get_char(base_len - 1) != '/' {
        path.append("/");
        proof {
            reveal_strlit("/");
            assert(path@ =~= base@.push('/'));
        }
    }
    path.append(name);
    path
}

/// Where the component that ends at `end` begins.
pub open spec fn component_start(path: Seq<char>, end: int) -> int
    decreases end,
{
    if end <= 0 || path[end - 1] == '/' {
        end
    } else {
        component_start(path, end - 1)
    }
}

/// Where the file name within the first `end` characters of `path` ends, if they hold one.
/// Trailing separators and `.` components are passed over; a path that ends in `..`, or that is
/// `.` or a root, names no file.
pub open spec fn file_name_end(path: Seq<char>, end: int) -> Option<int>
    decreases end,
    when end <= path.len()
    via file_name_end_decreases
{
    if end <= 0 {
        None
    } else if path[end - 1] == '/' {
        file_name_end(path, end - 1)
    } else {
        let start = component_start(path, end);
        let component = path.subrange(start, end);
        if component == seq!['.'] {
            if start == 0 {
                None
            } else {
                file_name_end(path, start)
            }
        } else if component == seq!['.', '.'] {
            None
        } else {
            Some(end)
        }
    }
}

#[via_fn]
proof fn file_name_end_decreases(path: Seq<char>, end: int) {
    if end > 0 && path[end - 1] != '/' {
        lemma_component_start(path, end);
    }
}

proof fn lemma_component_start(path: Seq<char>, end: int)
    requires
        0 <= end <= path.len(),
    ensures
        0 <= component_start(path, end) <= end,
        end > 0 && path[end - 1] != '/' ==> component_start(path, end) < end,
    decreases end,
{
    if end > 0 && path[end - 1] != '/' {
        lemma_component_start(path, end - 1);
    }
}

/// `path` with a dot and `extension` behind its file name, and nothing after that. A path that
/// names no file is left as it is, and so is any path where there is nothing to add.
pub open spec fn extended(path: Seq<char>, extension: Seq<char>) -> Seq<char> {
    match file_name_end(path, path.len() as int) {
        Some(end) if extension.len() > 0 => path.take(end).push('.') + extension,
        _ => path,
    }
}

/// `path` with a dot and `extension` behind its file name.
pub fn add_extension(path: &str, extension: &str) -> (res: String)
    requires
        !extension@.contains('/'),
    ensures
        res@ == extended(path@, extension@),
{
    if extension.unicode_len() == 0 {
        return path.to_owned();
    }
    let mut end: usize = path.unicode_len();
    while end > 0
        invariant
            end <= path@.len(),
            extension@.len() > 0,
            file_name_end(path@, path@.len() as int) == file_name_end(path@, end as int),
        decreases end,
    {
        if path.get_char(end - 1) == '/' {
            end = end - 1;
        } else {
            let mut start: usize = end;
            while start > 0 && path.get_char(start - 1) != '/'
                invariant
                    start <= end <= path@.len(),
                    component_start(path@, end as int) == component_start(path@, start as int),
                decreases start,
            {
                start = start - 1;
            }
            proof {
                lemma_component_start(path@, end as int);
            }
            let ghost component = path@.subrange(start as int, end as int);
            if end - start == 1 && path.get_char(start) == '.' {
                assert(component =~= seq!['.']);
                if start == 0 {
                    return path.to_owned();
                }
                end = start;
            } else if end - start == 2 && path.get_char(start) == '.' && path.get_char(start + 1)
                == '.' {
                assert(component =~= seq!['.', '.']);
                return path.to_owned();
            } else {
                proof {
                    let dot = seq!['.'];
                    let dots = seq!['.', '.'];
                    if component == dot {
                        assert(component.len() == dot.len() && component[0] == dot[0]);
                    }
                    if component == dots {
                        assert(component.len() == dots.len() && component[0] == dots[0]
                            && component[1] == dots[1]);
                    }
                }
                let mut res = path.substring_char(0, end).to_owned();
                res.append(".");
                proof {
                    reveal_strlit(".");
                    assert(res@ =~= path@.take(end as int).push('.'));
                }
                res.append(extension);
                return res;
            }
        }
    }
    path.to_owned()
}

/// A relative name is put behind the whole of the base, with exactly one separator where the base is
/// not empty and does not end in one. An absolute name is left alone.
pub proof fn lemma_join_keeps_both_parts(base: Seq<char>, name: Seq<char>)
    ensures
        ({
            let path = joined(base, name);
            let absolute = name.len() > 0 && name[0] == '/';
            let separated = base.len() == 0 || base[base.len() - 1] == '/';
            &&& absolute ==> path == name
            &&& !absolute && separated ==> path == base + name
            &&& !absolute && !separated ==> path == base + "/"@ + name
            &&& name.len() <= path.len()
            &&& path.skip(path.len() - name.len()) == name
        }),
{
    reveal_strlit("/");
    assert("/"@ =~= seq!['/']);
    assert(base.push('/') + name =~= base + "/"@ + name);
    let path = joined(base, name);
    assert(path.skip(path.len() - name.len()) =~= name);
}

/// Whether the character at `i` is passed over in the search for a file name: a separator, or a dot
/// that is a component of its own.
pub open spec fn is_passed_over(path: Seq<char>, i: int) -> bool {
    path[i] == '/' || {
        &&& path[i] == '.'
        &&& i == 0 || path[i - 1] == '/'
        &&& i + 1 == path.len() || path[i + 1] == '/'
    }
}

/// Whether the component from `start` up to `end` is the last that counts: whole, not empty, and
/// followed by nothing but what is passed over.
pub open spec fn is_last_component(path: Seq<char>, start: int, end: int) -> bool {
    &&& 0 <= start < end <= path.len()
    &&& start == 0 || path[start - 1] == '/'
    &&& end == path.len() || path[end] == '/'
    &&& forall|i: int| start <= i < end ==> #[trigger] path[i] != '/'
    &&& forall|i: int| end <= i < path.len() ==> is_passed_over(path, i)
}

proof fn lemma_component_starts_at(path: Seq<char>, start: int, end: int)
    requires
        0 <= start < end <= path.len(),
        start == 0 || path[start - 1] == '/',
        forall|i: int| start <= i < end ==> #[trigger] path[i] != '/',
    ensures
        component_start(path, end) == start,
    decreases end,
{
    assert(path[end - 1] != '/');
    if start < end - 1 {
        lemma_component_starts_at(path, start, end - 1);
    } else {
        reveal_with_fuel(component_start, 2);
    }
}

proof fn lemma_search_passes_over(path: Seq<char>, end: int, from: int)
    requires
        0 <= end <= from <= path.len(),
        forall|i: int| end <= i < path.len() ==> is_passed_over(path, i),
        end > 0 ==> end == path.len() || path[end] == '/',
    ensures
        file_name_end(path, from) == file_name_end(path, end),
    decreases from,
{
    if end < from {
        assert(is_passed_over(path, from - 1));
        if path[from - 1] != '/' {
            lemma_component_starts_at(path, from - 1, from);
            assert(path.subrange(from - 1, from) =~= seq!['.']);
            if from == 1 {
                assert(end == 0);
            }
        }
        lemma_search_passes_over(path, end, from - 1);
    }
}

/// An extension goes behind the file name, which is the last component that is more than a dot.
/// What follows the file name is dropped, and what stands before it is kept.
pub proof fn lemma_extension_follows_the_file_name(
    path: Seq<char>,
    extension: Seq<char>,
    start: int,
    end: int,
)
    requires
        is_last_component(path, start, end),
        !(end - start == 1 && path[start] == '.'),
        !(end - start == 2 && path[start] == '.' && path[start + 1] == '.'),
        extension.len() > 0,
    ensures
        extended(path, extension) == path.take(end) + "."@ + extension,
{
    reveal_strlit(".");
    assert("."@ =~= seq!['.']);
    lemma_search_passes_over(path, end, path.len() as int);
    assert(path[end - 1] != '/');
    lemma_component_starts_at(path, start, end);
    let component = path.subrange(start, end);
    let dot = seq!['.'];
    let dots = seq!['.', '.'];
    assert(component[0] == path[start]);
    if component == dot {
        assert(component.len() == dot.len() && component[0] == dot[0]);
    }
    if component == dots {
        assert(component.len() == dots.len() && component[0] == dots[0] && component[1]
            == dots[1]);
        assert(component[1] == path[start + 1]);
    }
    assert(path.take(end).push('.') + extension =~= path.take(end) + "."@ + extension);
}

/// A path whose last part is a name gets a dot and the extension at its end, and nothing of it is
/// lost.
pub proof fn lemma_extension_of_a_plain_path(
    path: Seq<char>,
    extension: Seq<char>,
    start: int,
)
    requires
        is_last_component(path, start, path.len() as int),
        !(path.len() - start == 1 && path[start] == '.'),
        !(path.len() - start == 2 && path[start] == '.' && path[start + 1] == '.'),
        extension.len() > 0,
    ensures
        extended(path, extension) == path + "."@ + extension,
{
    lemma_extension_follows_the_file_name(path, extension, start, path.len() as int);
    assert(path.take(path.len() as int) =~= path);
}

/// A path that names no file gets no extension: one that ends in `..`, or that has no component but
/// single dots. Neither does any path get an empty one.
pub proof fn lemma_no_extension_without_a_file_name(
    path: Seq<char>,
    extension: Seq<char>,
    start: int,
    end: int,
)
    requires
        ({
            ||| extension.len() == 0
            ||| forall|i: int| 0 <= i < path.len() ==> is_passed_over(path, i)
            ||| is_last_component(path, start, end) && end - start == 2 && path[start] == '.'
                && path[start + 1] == '.'
        }),
    ensures
        extended(path, extension) == path,
{
    if extension.len() > 0 {
        if forall|i: int| 0 <= i < path.len() ==> is_passed_over(path, i) {
            lemma_search_stops_at_the_front(path, path.len() as int);
        } else {
            lemma_search_passes_over(path, end, path.len() as int);
            assert(path[end - 1] != '/');
            lemma_component_starts_at(path, start, end);
            assert(path.subrange(start, end) =~= seq!['.', '.']);
            let dot = seq!['.'];
            if path.subrange(start, end) == dot {
                assert(path.subrange(start, end).len() == dot.len());
            }
        }
    }
}

proof fn lemma_search_stops_at_the_front(path: Seq<char>, from: int)
    requires
        0 <= from <= path.len(),
        forall|i: int| 0 <= i < path.len() ==> is_passed_over(path, i),
    ensures
        file_name_end(path, from) is None,
    decreases from,
{
    if from > 0 {
        assert(is_passed_over(path, from - 1));
        if path[from - 1] != '/' {
            lemma_component_starts_at(path, from - 1, from);
            assert(path.subrange(from - 1, from) =~= seq!['.']);
        }
        lemma_search_stops_at_the_front(path, from - 1);
    }
}

} // verus!
