use vstd::prelude::*;

use crate::text::push_char;

verus! {

/// Where projects are built, relative to the server's working directory.
pub const BUILD_DIR: &'static str = "../build";

/// A path that starts at the root.
pub open spec fn is_absolute(p: Seq<char>) -> bool {
    p.len() > 0 && p[0] == '/'
}

/// What `Path::new(base).join(part)` gives on Unix: an absolute `part` replaces
/// `base`; otherwise `part` follows `base`, with a `/` between them unless
/// `base` is empty or already ends with one.
pub open spec fn spec_join_path(base: Seq<char>, part: Seq<char>) -> Seq<char> {
    if is_absolute(part) {
        part
    } else if base.len() == 0 || base.last() == '/' {
        base + part
    } else {
        base + seq!['/'] + part
    }
}

/// Joins two paths, as `Path::join` does on Unix.
pub fn join_path(base: &str, part: &str) -> (r: String)
    ensures
        r@ == spec_join_path(base@, part@),
{
    let part_len = part.unicode_len();
    if part_len > 0 && part.get_char(0) == '/' {
        return String::from_str(part);
    }
    let base_len = base.unicode_len();
    let mut r = String::from_str(base);
    if base_len > 0 && base.get_char(base_len - 1) != '/' {
        push_char(&mut r, '/');
    }
    r.append(part);
    r
}

/// The directory of the project called `name` (already normalized).
pub open spec fn spec_project_dir(name: Seq<char>) -> Seq<char> {
    spec_join_path(BUILD_DIR@, name)
}

/// The directory of the project called `name`, under the build directory.
pub fn project_dir(name: &str) -> (r: String)
    ensures
        r@ == spec_project_dir(name@),
{
    join_path(BUILD_DIR, name)
}


/// A joined path ends with the part that was joined.
pub proof fn lemma_join_path_ends_with_part(base: Seq<char>, part: Seq<char>)
    ensures
        ({
            let r = spec_join_path(base, part);
            r.len() >= part.len() && r.subrange(r.len() - part.len(), r.len() as int) == part
        }),
{
    let r = spec_join_path(base, part);
    assert(r.subrange(r.len() - part.len(), r.len() as int) =~= part);
}

/// A project whose name is not absolute lies in the build directory: its
/// path is the build directory, a `/`, and the name.
pub proof fn lemma_project_dir_in_build(name: Seq<char>)
    requires
        !is_absolute(name),
    ensures
        spec_project_dir(name) == BUILD_DIR@ + seq!['/'] + name,
{
    reveal_strlit("../build");
    assert(BUILD_DIR@.len() == 8);
    assert(BUILD_DIR@.last() == 'd') by {
        assert(BUILD_DIR@[7] == 'd');
    }
}


/// Joining: an absolute part replaces the base; a relative part follows the
/// base, with exactly one `/` added where the base is not empty and does not
/// end with one.
pub proof fn lemma_join_path_cases(base: Seq<char>, part: Seq<char>)
    ensures
        (part.len() > 0 && part[0] == '/') ==> spec_join_path(base, part) == part,
        !(part.len() > 0 && part[0] == '/') && (base.len() == 0 || base[base.len() - 1] == '/')
            ==> spec_join_path(base, part) == base + part,
        !(part.len() > 0 && part[0] == '/') && base.len() > 0 && base[base.len() - 1] != '/'
            ==> spec_join_path(base, part) == base + seq!['/'] + part,
{
}

} // verus!
