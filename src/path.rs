use vstd::prelude::*;
use crate::text::{append_str, push_char};

verus! {

/// What precedes a file name joined onto a directory: nothing for an empty
/// directory, the directory itself when it ends with a separator, else the
/// directory and a separator.
pub open spec fn dir_prefix(dir: Seq<char>) -> Seq<char> {
    if dir.len() == 0 {
        Seq::empty()
    } else if dir.last() == '/' {
        dir
    } else {
        dir.push('/')
    }
}

/// A file name placed in a directory.
pub open spec fn join_path(dir: Seq<char>, name: Seq<char>) -> Seq<char> {
    dir_prefix(dir) + name
}

/// Places the file name `name` in the directory `dir`.
pub fn join(dir: &str, name: &str) -> (r: String)
    ensures
        r@ == join_path(dir@, name@),
{
    let mut out = String::from_str(dir);
    let n = dir.unicode_len();
    if n > 0 && dir.get_char(n - 1) != '/' {
        push_char(&mut out, '/');
    }
    append_str(&mut out, name);
    assert(out@ =~= join_path(dir@, name@));
    out
}

/// Joining onto one directory keeps distinct names distinct.
pub proof fn lemma_join_injective(dir: Seq<char>, a: Seq<char>, b: Seq<char>)
    requires
        join_path(dir, a) == join_path(dir, b),
    ensures
        a == b,
{
    let p = dir_prefix(dir);
    assert(a =~= join_path(dir, a).subrange(p.len() as int, join_path(dir, a).len() as int));
    assert(b =~= join_path(dir, b).subrange(p.len() as int, join_path(dir, b).len() as int));
}

} // verus!
