use vstd::prelude::*;
use vstd::string::*;

verus! {

/// Whether `name` holds no separator, so that it is a single component.
pub open spec fn is_component(name: Seq<char>) -> bool {
    forall|i: int| 0 <= i < name.len() ==> name[i] != '/'
}

/// `name` appended to `base` as a further component. An absolute `name`
/// (one that starts with a separator) replaces `base`; a separator is put
/// between the two unless `base` is empty or already ends with one.
pub open spec fn join_spec(base: Seq<char>, name: Seq<char>) -> Seq<char> {
    if name.len() > 0 && name[0] == '/' {
        name
    } else if base.len() == 0 || base.last() == '/' {
        base + name
    } else {
        base + seq!['/'] + name
    }
}

/// The length of the directory part of `path`: the position just behind
/// its last separator, or 0 where it has none.
pub open spec fn dir_len(path: Seq<char>) -> int
    decreases path.len(),
{
    if path.len() == 0 {
        0
    } else if path.last() == '/' {
        path.len() as int
    } else {
        dir_len(path.drop_last())
    }
}

/// The last component of `path`: what follows its last separator. A path
/// that is empty or ends with a separator names no file.
pub open spec fn file_name_spec(path: Seq<char>) -> Option<Seq<char>> {
    if dir_len(path) == path.len() {
        None
    } else {
        Some(path.subrange(dir_len(path), path.len() as int))
    }
}

/// The directory that holds the file `path` names: what stands before the
/// last separator, the root where that separator is the first character,
/// and the empty path where there is no separator. A path that names no
/// file has no parent.
pub open spec fn parent_spec(path: Seq<char>) -> Option<Seq<char>> {
    let d = dir_len(path);
    if d == path.len() {
        None
    } else if d <= 1 {
        Some(path.subrange(0, d))
    } else {
        Some(path.subrange(0, d - 1))
    }
}

/// `dir_len` lies within the path, and a separator stands just before it.
pub proof fn lemma_dir_len_bounds(path: Seq<char>)
    ensures
        0 <= dir_len(path) <= path.len(),
        dir_len(path) > 0 ==> path[dir_len(path) - 1] == '/',
        forall|i: int| dir_len(path) <= i < path.len() ==> path[i] != '/',
    decreases path.len(),
{
    if path.len() > 0 && path.last() != '/' {
        let front = path.drop_last();
        lemma_dir_len_bounds(front);
        assert forall|i: int| dir_len(path) <= i < path.len() implies path[i] != '/' by {
            if i < front.len() {
                assert(front[i] == path[i]);
            }
        }
    }
}

/// Behind a directory part that ends with a separator, a single component
/// does not move the last separator.
pub proof fn lemma_dir_len_append(dir: Seq<char>, name: Seq<char>)
    requires
        dir.len() > 0,
        dir.last() == '/',
        is_component(name),
    ensures
        dir_len(dir + name) == dir.len(),
    decreases name.len(),
{
    if name.len() == 0 {
        assert(dir + name =~= dir);
    } else {
        assert((dir + name).drop_last() =~= dir + name.drop_last());
        assert((dir + name).last() == name[name.len() - 1]);
        lemma_dir_len_append(dir, name.drop_last());
    }
}

/// A component is its own file name and has the empty parent.
pub proof fn lemma_dir_len_component(name: Seq<char>)
    requires
        is_component(name),
    ensures
        dir_len(name) == 0,
    decreases name.len(),
{
    if name.len() > 0 {
        lemma_dir_len_component(name.drop_last());
    }
}

/// Whether `dir` is written without a trailing separator, the root alone
/// excepted. The empty path, which stands for the current directory, is
/// clean too.
pub open spec fn is_clean_dir(dir: Seq<char>) -> bool {
    dir.len() <= 1 || dir.last() != '/'
}

/// Joining a component onto a cleanly written directory and taking the
/// parent gives the directory back, and the file name is the component.
pub proof fn lemma_parent_of_join(dir: Seq<char>, name: Seq<char>)
    requires
        is_clean_dir(dir),
        is_component(name),
        name.len() > 0,
    ensures
        parent_spec(join_spec(dir, name)) == Some(dir),
        file_name_spec(join_spec(dir, name)) == Some(name),
{
    let joined = join_spec(dir, name);
    if dir.len() == 0 {
        assert(joined =~= name);
        lemma_dir_len_component(name);
        assert(joined.subrange(0, 0) =~= dir);
        assert(joined.subrange(0, joined.len() as int) =~= name);
    } else if dir.last() == '/' {
        lemma_dir_len_append(dir, name);
        assert(joined.subrange(0, 1) =~= dir);
        assert(joined.subrange(1, joined.len() as int) =~= name);
    } else {
        let head = dir + seq!['/'];
        lemma_dir_len_append(head, name);
        assert(joined.subrange(0, dir.len() as int) =~= dir);
        assert(joined.subrange(head.len() as int, joined.len() as int) =~= name);
    }
}

/// `dir` without the one separator that it ends with, the root alone
/// excepted: the cleanly written form of a directory that was written with
/// a trailing separator.
pub open spec fn without_trailing_separator(dir: Seq<char>) -> Seq<char> {
    if is_clean_dir(dir) {
        dir
    } else {
        dir.drop_last()
    }
}

/// Joining a component onto any directory and taking the parent gives the
/// directory back without its trailing separator, and the file name is the
/// component.
pub proof fn lemma_parent_of_join_any(dir: Seq<char>, name: Seq<char>)
    requires
        is_component(name),
        name.len() > 0,
    ensures
        parent_spec(join_spec(dir, name)) == Some(without_trailing_separator(dir)),
        file_name_spec(join_spec(dir, name)) == Some(name),
{
    if is_clean_dir(dir) {
        lemma_parent_of_join(dir, name);
    } else {
        let joined = join_spec(dir, name);
        lemma_dir_len_append(dir, name);
        assert(joined.subrange(0, dir.len() - 1) =~= dir.drop_last());
        assert(joined.subrange(dir.len() as int, joined.len() as int) =~= name);
    }
}

/// Appends `name` to `base` as a further path component.
pub fn join_path(base: &str, name: &str) -> (joined: String)
    ensures
        joined@ == join_spec(base@, name@),
{
    let name_len: usize = name.unicode_len();
    if name_len > 0 && name.get_char(0) == '/' {
        return String::from_str(name);
    }
    let base_len: usize = base.unicode_len();
    let mut joined = String::from_str(base);
    if base_len > 0 && base.get_char(base_len - 1) != '/' {
        proof {
            reveal_strlit("/");
            assert("/"@ =~= seq!['/']);
        }
        joined.append("/");
    }
    joined.append(name);
    joined
}

/// Finds where the last component of `path` starts.
pub fn directory_length(path: &str) -> (d: usize)
    ensures
        d == dir_len(path@),
        d <= path@.len(),
{
    let mut i: usize = path.unicode_len();
    proof {
        assert(path@.subrange(0, i as int) =~= path@);
    }
    while i > 0 && path.get_char(i - 1) != '/'
        invariant
            i <= path@.len(),
            dir_len(path@) == dir_len(path@.subrange(0, i as int)),
        decreases i,
    {
        proof {
            assert(path@.subrange(0, i as int).drop_last() =~= path@.subrange(0, i - 1));
        }
        i = i - 1;
    }
    proof {
        lemma_dir_len_bounds(path@);
    }
    i
}

/// The last component of `path`, if it names a file.
pub fn file_name(path: &str) -> (name: Option<String>)
    ensures
        name.is_some() == file_name_spec(path@).is_some(),
        name.is_some() ==> name.unwrap()@ == file_name_spec(path@).unwrap(),
{
    let len: usize = path.unicode_len();
    let d: usize = directory_length(path);
    if d == len {
        None
    } else {
        Some(String::from_str(path.substring_char(d, len)))
    }
}

/// The directory that holds the file which `path` names, if it names one.
pub fn parent_dir(path: &str) -> (dir: Option<String>)
    ensures
        dir.is_some() == parent_spec(path@).is_some(),
        dir.is_some() ==> dir.unwrap()@ == parent_spec(path@).unwrap(),
{
    let len: usize = path.unicode_len();
    let d: usize = directory_length(path);
    if d == len {
        None
    } else if d <= 1 {
        Some(String::from_str(path.substring_char(0, d)))
    } else {
        Some(String::from_str(path.substring_char(0, d - 1)))
    }
}

} // verus!
