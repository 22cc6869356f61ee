//! Splitting absolute paths into parent directory and file name, and
//! joining them back.
//!
//! Paths are plain strings with `/` as the separator, as canonicalization
//! yields them: absolute, without a trailing separator and without repeated
//! separators.

use vstd::prelude::*;
use crate::errors::RenameError;

verus! {

/// The index of the last `/` in `s`, or -1 when `s` has none.
pub open spec fn last_slash(s: Seq<char>) -> int
    decreases s.len(),
{
    if s.len() == 0 {
        -1
    } else if s.last() == '/' {
        s.len() - 1
    } else {
        last_slash(s.drop_last())
    }
}

/// Whether a path splits into a parent directory and a non-empty file name.
pub open spec fn splittable(s: Seq<char>) -> bool {
    last_slash(s) >= 0 && last_slash(s) + 1 < s.len()
}

/// The parent-directory part of a path: everything before the last `/`, or
/// `/` itself when the last `/` is the leading one.
pub open spec fn dir_of(s: Seq<char>) -> Seq<char> {
    if last_slash(s) == 0 {
        s.subrange(0, 1)
    } else {
        s.subrange(0, last_slash(s))
    }
}

/// The file-name part of a path: everything after the last `/`.
pub open spec fn name_of(s: Seq<char>) -> Seq<char> {
    s.subrange(last_slash(s) + 1, s.len() as int)
}

/// Whether `s` splits cleanly: it has a file name, and no repeated
/// separator stands right before its last one — as holds of every
/// canonical path.
pub open spec fn splits_cleanly(s: Seq<char>) -> bool {
    splittable(s) && (last_slash(s) == 0 || s[last_slash(s) - 1] != '/')
}

/// The path that naming `name` inside directory `dir` yields.
pub open spec fn join_spec(dir: Seq<char>, name: Seq<char>) -> Seq<char> {
    if dir.len() > 0 && dir.last() == '/' {
        dir + name
    } else {
        dir + seq!['/'] + name
    }
}

/// The last slash is a `/`, and no `/` follows it.
pub proof fn lemma_last_slash(s: Seq<char>)
    ensures
        last_slash(s) >= 0 ==> last_slash(s) < s.len() && s[last_slash(s)] == '/',
        forall|j: int| last_slash(s) < j < s.len() ==> s[j] != '/',
        last_slash(s) >= -1,
    decreases s.len(),
{
    if s.len() == 0 {
    } else if s.last() == '/' {
    } else {
        lemma_last_slash(s.drop_last());
        assert forall|j: int| last_slash(s) < j < s.len() implies s[j] != '/' by {
            if j < s.len() - 1 {
                assert(s.drop_last()[j] == s[j]);
            }
        }
    }
}

/// A `/` with no `/` after it is the last slash.
pub proof fn lemma_last_slash_at(s: Seq<char>, i: int)
    requires
        0 <= i < s.len(),
        s[i] == '/',
        forall|j: int| i < j < s.len() ==> s[j] != '/',
    ensures
        last_slash(s) == i,
    decreases s.len(),
{
    if i == s.len() - 1 {
    } else {
        assert(s.last() != '/');
        assert forall|j: int| i < j < s.drop_last().len() implies s.drop_last()[j] != '/' by {
            assert(s.drop_last()[j] == s[j]);
        }
        assert(s.drop_last()[i] == s[i]);
        lemma_last_slash_at(s.drop_last(), i);
    }
}

/// Splitting a cleanly splitting path and joining the parts restores it;
/// the file-name part is non-empty and holds no separator.
pub proof fn lemma_join_of_split(s: Seq<char>)
    requires
        splits_cleanly(s),
    ensures
        join_spec(dir_of(s), name_of(s)) == s,
        name_of(s).len() > 0,
        forall|j: int| 0 <= j < name_of(s).len() ==> name_of(s)[j] != '/',
{
    lemma_last_slash(s);
    let i = last_slash(s);
    assert forall|j: int| 0 <= j < name_of(s).len() implies name_of(s)[j] != '/' by {
        assert(name_of(s)[j] == s[i + 1 + j]);
    }
    if i == 0 {
        assert(dir_of(s).last() == s[0]);
        assert(join_spec(dir_of(s), name_of(s)) =~= s);
    } else {
        assert(dir_of(s).last() == s[i - 1]);
        assert(join_spec(dir_of(s), name_of(s)) =~= s);
    }
}

/// Joining a file name onto a directory and splitting the result gives the
/// parts back: the joined path lies in `dir` and carries `name`.
pub proof fn lemma_split_of_join(dir: Seq<char>, name: Seq<char>)
    requires
        dir.len() > 0,
        (dir.len() == 1 && dir[0] == '/') || dir.last() != '/',
        name.len() > 0,
        forall|j: int| 0 <= j < name.len() ==> name[j] != '/',
    ensures
        splittable(join_spec(dir, name)),
        dir_of(join_spec(dir, name)) == dir,
        name_of(join_spec(dir, name)) == name,
{
    let s = join_spec(dir, name);
    if dir.len() == 1 && dir[0] == '/' {
        assert(s =~= dir + name);
        assert(s[0] == '/');
        assert forall|j: int| 0 < j < s.len() implies s[j] != '/' by {
            assert(s[j] == name[j - 1]);
        }
        lemma_last_slash_at(s, 0);
        assert(dir_of(s) =~= dir);
        assert(name_of(s) =~= name);
    } else {
        assert(s =~= dir + seq!['/'] + name);
        let i = dir.len() as int;
        assert(s[i] == '/');
        assert forall|j: int| i < j < s.len() implies s[j] != '/' by {
            assert(s[j] == name[j - i - 1]);
        }
        lemma_last_slash_at(s, i);
        assert(dir_of(s) =~= dir);
        assert(name_of(s) =~= name);
    }
}

/// Split a path into its parent directory and its file name. Fails with a
/// `PathError` on a path without a separator, and on one that ends in its
/// last separator and so has no file-name component (such as the root).
pub fn split_path(path: &str) -> (r: Result<(String, String), RenameError>)
    ensures
        r is Ok <==> splittable(path@),
        r matches Ok(p) ==> p.0@ == dir_of(path@) && p.1@ == name_of(path@),
        r matches Err(e) ==> (e matches RenameError::PathError { path: q } && q@ == path@),
{
    let n = path.unicode_len();
    let mut end = n;
    proof {
        assert(path@.subrange(0, n as int) =~= path@);
    }
    loop
        invariant
            end <= n,
            n == path@.len(),
            last_slash(path@) == last_slash(path@.subrange(0, end as int)),
        ensures
            end <= n,
            n == path@.len(),
            last_slash(path@) == end - 1,
            end > 0 ==> path@[end - 1] == '/',
        decreases end,
    {
        if end == 0 {
            break;
        }
        let c = path.get_char(end - 1);
        proof {
            let cur = path@.subrange(0, end as int);
            assert(cur.last() == c);
            assert(cur.drop_last() =~= path@.subrange(0, end - 1));
        }
        if c == '/' {
            break;
        }
        end = end - 1;
    }
    if end == 0 || end == n {
        return Err(RenameError::PathError { path: path.to_owned() });
    }
    let name = path.substring_char(end, n).to_owned();
    let dir = if end - 1 == 0 {
        path.substring_char(0, 1).to_owned()
    } else {
        path.substring_char(0, end - 1).to_owned()
    };
    Ok((dir, name))
}

/// Join a file name onto a directory, inserting a separator unless the
/// directory already ends in one.
pub fn join_path(dir: &str, name: &str) -> (r: String)
    ensures
        r@ == join_spec(dir@, name@),
{
    let n = dir.unicode_len();
    let mut r = dir.to_owned();
    let add_sep = if n == 0 {
        true
    } else {
        dir.get_char(n - 1) != '/'
    };
    if add_sep {
        r.append("/");
        proof {
            reveal_strlit("/");
            assert("/"@ =~= seq!['/']);
        }
    }
    r.append(name);
    proof {
        if dir@.len() > 0 && dir@.last() == '/' {
            assert(r@ =~= join_spec(dir@, name@));
        } else {
            assert(r@ =~= join_spec(dir@, name@));
        }
    }
    r
}

} // verus!
