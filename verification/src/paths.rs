//! Paths in the form that Linux gives them.
use vstd::prelude::*;
use vstd::string::*;
use crate::text::{
    chars_of, has_prefix, join2, join3, lemma_split_on_not_empty, lemma_split_whole, same_text,
    split_on, text_split,
    text_starts_with,
};
use crate::values::{
    append, empty_list, lemma_filter_ends, lemma_filter_step, list_holds, Agree,
};

verus! {

/// An absolute path starts at the root.
pub open spec fn is_absolute(path: Seq<char>) -> bool {
    path.len() > 0 && path[0] == '/'
}

/// A part of a path that names something: neither empty nor the current directory.
pub open spec fn is_name(part: Seq<char>) -> bool {
    part.len() > 0 && part != "."@
}

/// The names along a path.
pub open spec fn path_names(path: Seq<char>) -> Seq<Seq<char>> {
    split_on(path, '/').filter(|part: Seq<char>| is_name(part))
}

/// The last name of a path, where it does not lead up again.
pub open spec fn file_name(path: Seq<char>) -> Option<Seq<char>> {
    let names = path_names(path);
    if names.len() == 0 || names.last() == ".."@ {
        None
    } else {
        Some(names.last())
    }
}

/// A path that leads up somewhere.
pub open spec fn has_parent_step(path: Seq<char>) -> bool {
    path_names(path).contains(".."@)
}

/// A relative path that starts with the current directory.
pub open spec fn starts_here(path: Seq<char>) -> bool {
    split_on(path, '/')[0] == "."@
}

/// Two spellings of one path: the same start and the same names.
pub open spec fn same_path(a: Seq<char>, b: Seq<char>) -> bool {
    is_absolute(a) == is_absolute(b) && starts_here(a) == starts_here(b) && path_names(a)
        == path_names(b)
}

/// `part` as seen from `base`.
pub open spec fn joined_path(base: Seq<char>, part: Seq<char>) -> Seq<char> {
    if is_absolute(part) {
        part
    } else if base.len() == 0 || base.last() == '/' {
        base + part
    } else {
        base + "/"@ + part
    }
}

/// A path that is to be read from the home directory.
pub open spec fn is_home_relative(path: Seq<char>) -> bool {
    path == "~"@ || has_prefix(path, "~/"@) || path == "$HOME"@ || has_prefix(path, "$HOME/"@)
}

pub fn path_is_absolute(path: &str) -> (r: bool)
    ensures
        r == is_absolute(path@),
{
    let chars = chars_of(path);
    chars.len() > 0 && chars[0] == '/'
}

fn names_of(path: &str) -> (r: Vec<String>)
    ensures
        r.deep_view() == path_names(path@),
{
    let parts = text_split(path, '/');
    let ghost all = parts.deep_view();
    let ghost keep = |part: Seq<char>| is_name(part);
    let mut r: Vec<String> = empty_list();
    let mut i: usize = 0;
    proof {
        lemma_filter_ends(all, keep);
    }
    while i < parts.len()
        invariant
            i <= parts@.len(),
            all == parts.deep_view(),
            keep == (|part: Seq<char>| is_name(part)),
            r.deep_view() == all.take(i as int).filter(keep),
        decreases parts@.len() - i,
    {
        proof {
            lemma_filter_step(all, i as int, keep);
        }
        if !parts[i].as_str().is_empty() && !same_text(parts[i].as_str(), ".") {
            append(&mut r, parts[i].clone());
        }
        i = i + 1;
    }
    r
}

/// The last name of a path, where it does not lead up again.
pub fn path_file_name(path: &str) -> (r: Option<String>)
    ensures
        r.deep_view() == file_name(path@),
{
    let names = names_of(path);
    if names.len() == 0 {
        return None;
    }
    let last = names[names.len() - 1].clone();
    assert(names.deep_view().last() == last@);
    if same_text(last.as_str(), "..") {
        None
    } else {
        Some(last)
    }
}

pub fn path_has_parent_step(path: &str) -> (r: bool)
    ensures
        r == has_parent_step(path@),
{
    list_holds(&names_of(path), &"..".to_owned())
}

/// Whether two paths are spellings of one path.
pub fn paths_agree(a: &str, b: &str) -> (r: bool)
    ensures
        r == same_path(a@, b@),
{
    let first = text_split(a, '/');
    let second = text_split(b, '/');
    assert(first.deep_view()[0] == first@[0]@);
    assert(second.deep_view()[0] == second@[0]@);
    path_is_absolute(a) == path_is_absolute(b) && same_text(first[0].as_str(), ".") == same_text(
        second[0].as_str(),
        ".",
    ) && names_of(a).agrees(&names_of(b))
}

/// `part` as seen from `base`.
pub fn path_join(base: &str, part: &str) -> (r: String)
    ensures
        r@ == joined_path(base@, part@),
{
    if path_is_absolute(part) {
        return part.to_owned();
    }
    let chars = chars_of(base);
    if chars.len() == 0 || chars[chars.len() - 1] == '/' {
        join2(base, part)
    } else {
        join3(base, "/", part)
    }
}

/// Whether the path is to be read from the home directory.
pub fn path_is_home_relative(path: &str) -> (r: bool)
    ensures
        r == is_home_relative(path@),
{
    same_text(path, "~") || text_starts_with(path, "~/") || same_text(path, "$HOME")
        || text_starts_with(path, "$HOME/")
}

// ---------------------------------------------------------------------------------------------
// Laws
// ---------------------------------------------------------------------------------------------
proof fn lemma_split_parts(a: Seq<char>, c: char, b: Seq<char>)
    ensures
        split_on(a + seq![c] + b, c) == split_on(a, c) + split_on(b, c),
    decreases b.len(),
{
    let all = a + seq![c] + b;
    lemma_split_on_not_empty(b, c);
    if b.len() == 0 {
        assert(all.drop_last() =~= a);
        assert(split_on(all, c) =~= split_on(a, c) + split_on(b, c));
    } else {
        let front = b.drop_last();
        lemma_split_parts(a, c, front);
        lemma_split_on_not_empty(front, c);
        assert(all.drop_last() =~= a + seq![c] + front);
        assert(all.last() == b.last());
        let before = split_on(a, c) + split_on(front, c);
        assert(before.last() == split_on(front, c).last());
        assert(before.drop_last() =~= split_on(a, c) + split_on(front, c).drop_last());
        assert(split_on(all, c) =~= split_on(a, c) + split_on(b, c));
    }
}

proof fn lemma_filter_parts(a: Seq<Seq<char>>, b: Seq<Seq<char>>, keep: spec_fn(Seq<char>) -> bool)
    ensures
        (a + b).filter(keep) == a.filter(keep) + b.filter(keep),
    decreases b.len(),
{
    reveal(Seq::filter);
    if b.len() == 0 {
        assert(a + b =~= a);
        assert(a.filter(keep) + b.filter(keep) =~= a.filter(keep));
    } else {
        lemma_filter_parts(a, b.drop_last(), keep);
        assert((a + b).drop_last() =~= a + b.drop_last());
        assert((a + b).last() == b.last());
        assert((a + b).filter(keep) =~= a.filter(keep) + b.filter(keep));
    }
}

/// A path that is seen from a directory leads through the names of the directory and then through its
/// own, and starts where the directory starts; an absolute path stays what it is.
pub proof fn law_path_goes_on_from_its_directory(base: Seq<char>, part: Seq<char>)
    ensures
        part.len() > 0 && part[0] == '/' ==> joined_path(base, part) == part,
        !(part.len() > 0 && part[0] == '/') && base.len() > 0 ==> path_names(
            joined_path(base, part),
        ) == path_names(base) + path_names(part) && joined_path(base, part)[0] == base[0],
{
    reveal_strlit("/");
    assert("/"@ =~= seq!['/']);
    let keep = |name: Seq<char>| is_name(name);
    if !is_absolute(part) && base.len() > 0 {
        if base.last() == '/' {
            let front = base.drop_last();
            let nothing = Seq::<char>::empty();
            assert(base =~= front + seq!['/'] + nothing);
            assert(joined_path(base, part) =~= front + seq!['/'] + part);
            lemma_split_parts(front, '/', nothing);
            lemma_split_parts(front, '/', part);
            lemma_filter_parts(split_on(front, '/'), split_on(nothing, '/'), keep);
            lemma_filter_parts(split_on(front, '/'), split_on(part, '/'), keep);
            assert(split_on(nothing, '/').filter(keep) =~= Seq::empty()) by {
                reveal_with_fuel(Seq::filter, 2);
                assert(split_on(nothing, '/') == seq![nothing]);
                assert(split_on(nothing, '/').drop_last() =~= Seq::empty());
                assert(split_on(nothing, '/').last() == nothing);
                assert(!keep(nothing));
            }
            assert(path_names(base) =~= split_on(front, '/').filter(keep));
        } else {
            assert(joined_path(base, part) =~= base + seq!['/'] + part);
            lemma_split_parts(base, '/', part);
            lemma_filter_parts(split_on(base, '/'), split_on(part, '/'), keep);
        }
    }
}

/// A name in a directory is the file name of its path.
pub proof fn law_name_in_a_directory_is_the_file_name(directory: Seq<char>, name: Seq<char>)
    requires
        directory.len() > 0,
        name.len() > 0,
        !name.contains('/'),
        name != "."@,
        name != ".."@,
    ensures
        file_name(joined_path(directory, name)) == Some(name),
{
    if is_absolute(name) {
        assert(name.contains(name[0]));
    }
    law_path_goes_on_from_its_directory(directory, name);
    lemma_split_whole(name, '/');
    let keep = |part: Seq<char>| is_name(part);
    assert(path_names(name) =~= seq![name]) by {
        reveal_with_fuel(Seq::filter, 2);
        assert(seq![name].drop_last() =~= Seq::empty());
        assert(seq![name].last() == name);
        assert(seq![name].filter(keep) =~= seq![name]);
    }
}

} // verus!
