//! Paths inside the sandbox, as lists of names.
//!
//! A path is the list of the names on the way to it: the host's base
//! directory first, then one name for each level below it. Whether one path
//! lies inside another is then a question of prefixes, and what joining a
//! string onto a directory leads to can be said name by name.

use crate::ident::{
    cache_key_rejection, config_name_rejection, has_separator, is_config_char, is_dot_name,
    is_separator, law_cache_key_outcome, law_config_name_outcome, law_plugin_id_is_file_name,
    law_plugin_id_outcome, plugin_id_rejection,
};
use vstd::prelude::*;

verus! {

/// The names of a path, each as its sequence of characters.
pub open spec fn names(path: Seq<String>) -> Seq<Seq<char>> {
    Seq::new(path.len(), |i: int| path[i]@)
}

/// `path` is `dir` itself or lies somewhere below it.
pub open spec fn is_within(path: Seq<Seq<char>>, dir: Seq<Seq<char>>) -> bool {
    dir.len() <= path.len() && path.subrange(0, dir.len() as int) =~= dir
}

/// A string that names one entry of a directory and nothing else: it is not
/// empty, holds no separator and no `:`, and is neither `.` nor `..`.
pub open spec fn is_single_name(s: Seq<char>) -> bool {
    &&& s.len() > 0
    &&& !s.contains(':')
    &&& !has_separator(s)
    &&& !is_dot_name(s)
}

/// The pieces of `s` between its separators, empty pieces included.
pub open spec fn segments(s: Seq<char>) -> Seq<Seq<char>>
    decreases s.len(),
{
    if s.len() == 0 {
        seq![Seq::<char>::empty()]
    } else {
        let before = segments(s.drop_last());
        if is_separator(s.last()) {
            before.push(Seq::<char>::empty())
        } else {
            before.drop_last().push(before.last().push(s.last()))
        }
    }
}

/// Where one gets by following `steps` from `at`: an empty step and `.`
/// stay, `..` goes up one level where there is one, any other step goes
/// down into the entry of that name.
pub open spec fn walk(at: Seq<Seq<char>>, steps: Seq<Seq<char>>) -> Seq<Seq<char>>
    decreases steps.len(),
{
    if steps.len() == 0 {
        at
    } else {
        let step = steps[0];
        let next = if step.len() == 0 || step =~= seq!['.'] {
            at
        } else if step =~= seq!['.', '.'] {
            if at.len() > 0 {
                at.drop_last()
            } else {
                at
            }
        } else {
            at.push(step)
        };
        walk(next, steps.drop_first())
    }
}

/// What joining the string `name` onto `dir` leads to once `.` and `..`
/// are followed: a name that begins with a separator or holds a `:` starts
/// over from the top, any other is followed from `dir`.
pub open spec fn resolve(dir: Seq<Seq<char>>, name: Seq<char>) -> Seq<Seq<char>> {
    if name.contains(':') || (name.len() > 0 && is_separator(name[0])) {
        walk(Seq::empty(), segments(name))
    } else {
        walk(dir, segments(name))
    }
}

/// A string without separators is its own single piece.
pub proof fn lemma_segments_of_plain(s: Seq<char>)
    requires
        !has_separator(s),
    ensures
        segments(s) =~= seq![s],
    decreases s.len(),
{
    if s.len() > 0 {
        let front = s.drop_last();
        assert forall|i: int| 0 <= i < front.len() implies !is_separator(#[trigger] front[i]) by {
            assert(front[i] == s[i]);
        }
        lemma_segments_of_plain(front);
        assert(!is_separator(s[s.len() - 1]));
        assert(front.push(s.last()) =~= s);
        let before = segments(front);
        assert(before.drop_last() =~= Seq::<Seq<char>>::empty());
        assert(before.last() == front);
        assert(before.drop_last().push(before.last().push(s.last())) =~= seq![s]);
    } else {
        assert(s =~= Seq::<char>::empty());
    }
}

/// Joining a single name onto a directory leads to the entry of that name
/// directly below it, and so never outside the directory.
pub proof fn law_single_name_stays_inside(dir: Seq<Seq<char>>, name: Seq<char>)
    requires
        is_single_name(name),
    ensures
        resolve(dir, name) == dir.push(name),
        is_within(resolve(dir, name), dir),
{
    lemma_segments_of_plain(name);
    assert(!is_separator(name[0]));
    let steps = seq![name];
    assert(steps.drop_first() =~= Seq::<Seq<char>>::empty());
    assert(walk(dir.push(name), steps.drop_first()) == dir.push(name));
    assert(walk(dir, steps) == dir.push(name));
    assert(dir.push(name).subrange(0, dir.len() as int) =~= dir);
}

/// Joining a string that passes as a cache key onto a directory leads to
/// an entry of that directory, never to a place outside it.
pub proof fn law_cache_key_stays_inside(dir: Seq<Seq<char>>, key: Seq<char>)
    requires
        cache_key_rejection(key) is None,
    ensures
        is_single_name(key),
        resolve(dir, key) == dir.push(key),
        is_within(resolve(dir, key), dir),
{
    law_cache_key_outcome(key);
    law_single_name_stays_inside(dir, key);
}

/// Joining a string that passes as a plugin id onto a directory leads to
/// an entry of that directory.
pub proof fn law_plugin_id_stays_inside(dir: Seq<Seq<char>>, id: Seq<char>)
    requires
        plugin_id_rejection(id) is None,
    ensures
        is_single_name(id),
        resolve(dir, id) == dir.push(id),
        is_within(resolve(dir, id), dir),
{
    law_plugin_id_outcome(id);
    law_plugin_id_is_file_name(id);
    law_cache_key_outcome(id);
    law_single_name_stays_inside(dir, id);
}

/// The file of a configuration, `<name>.json`, is an entry of the
/// directory that it is joined onto, for every string that passes as a
/// configuration name.
pub proof fn law_config_file_stays_inside(dir: Seq<Seq<char>>, name: Seq<char>)
    requires
        config_name_rejection(name) is None,
    ensures
        is_single_name(name + ".json"@),
        resolve(dir, name + ".json"@) == dir.push(name + ".json"@),
        is_within(resolve(dir, name + ".json"@), dir),
{
    reveal_strlit(".json");
    law_config_name_outcome(name);
    let file = name + ".json"@;
    assert(file.len() == name.len() + 5);
    assert forall|i: int| 0 <= i < file.len() implies !is_separator(#[trigger] file[i]) && file[i]
        != ':' by {
        if i < name.len() {
            assert(file[i] == name[i]);
            assert(is_config_char(name[i]));
        } else {
            assert(file[i] == ".json"@[i - name.len()]);
        }
    }
    law_single_name_stays_inside(dir, file);
}

/// Whatever lies within a directory lies within every directory above it.
pub proof fn law_within_is_transitive(
    path: Seq<Seq<char>>,
    inner: Seq<Seq<char>>,
    outer: Seq<Seq<char>>,
)
    requires
        is_within(path, inner),
        is_within(inner, outer),
    ensures
        is_within(path, outer),
{
    assert(path.subrange(0, outer.len() as int) =~= inner.subrange(0, outer.len() as int)) by {
        assert forall|i: int| 0 <= i < outer.len() implies path[i] == inner[i] by {
            assert(path.subrange(0, inner.len() as int)[i] == inner[i]);
        }
    }
}

/// Tells whether `path` is `dir` itself or lies below it, comparing whole
/// names only.
pub fn path_is_within(path: &Vec<String>, dir: &Vec<String>) -> (b: bool)
    ensures
        b == is_within(names(path@), names(dir@)),
{
    if dir.len() > path.len() {
        return false;
    }
    let mut i: usize = 0;
    while i < dir.len()
        invariant
            i <= dir@.len() <= path@.len(),
            forall|j: int| 0 <= j < i ==> path@[j]@ == dir@[j]@,
        decreases dir@.len() - i,
    {
        if path[i] != dir[i] {
            assert(names(path@).subrange(0, dir@.len() as int)[i as int] != names(dir@)[i as int]);
            return false;
        }
        i = i + 1;
    }
    true
}

} // verus!
