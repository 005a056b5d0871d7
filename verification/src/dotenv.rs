//! Where `.env` is looked for: in the start directory, then in each of its
//! ancestors in turn, nearest first. Which of the candidates exists is a
//! question for the file system, asked by the caller in this order.

use vstd::prelude::*;
use crate::io::{joined, path_parent, IoRuntime};

verus! {

/// The name of the file that is looked for.
pub open spec fn dotenv_name() -> Seq<char> {
    seq!['.', 'e', 'n', 'v']
}

/// `dirs` is `start` followed by its parent, that one's parent and so on,
/// ending with the first directory that has no parent.
pub open spec fn is_ancestor_chain(start: Seq<char>, dirs: Seq<Seq<char>>) -> bool {
    &&& dirs.len() >= 1
    &&& dirs[0] == start
    &&& forall|i: int| 0 <= i < dirs.len() - 1 ==> path_parent(#[trigger] dirs[i]) == Some(dirs[i + 1])
    &&& path_parent(dirs.last()) is None
}

/// The `.env` paths to try, nearest first: `.env` joined onto `start` and
/// onto each of its ancestors.
pub fn dotenv_candidates(start: &str) -> (r: Vec<String>)
    ensures
        exists|dirs: Seq<Seq<char>>|
            is_ancestor_chain(start@, dirs) && r@.len() == dirs.len() && (forall|i: int|
                0 <= i < dirs.len() ==> (#[trigger] r@[i])@ == joined(dirs[i], dotenv_name())),
{
    let io = IoRuntime;
    let name = ".env";
    proof {
        reveal_strlit(".env");
        assert(name@ =~= dotenv_name());
    }
    let mut out: Vec<String> = Vec::new();
    let ghost mut dirs: Seq<Seq<char>> = seq![start@];
    let mut dir: String = start.to_string();
    loop
        invariant_except_break
            out@.len() == dirs.len() - 1,
        invariant
            dirs.len() >= 1,
            dirs[0] == start@,
            dirs.last() == dir@,
            forall|i: int| 0 <= i < dirs.len() - 1 ==> path_parent(#[trigger] dirs[i]) == Some(dirs[i + 1]),
            forall|i: int| 0 <= i < out@.len() ==> (#[trigger] out@[i])@ == joined(dirs[i], dotenv_name()),
            name@ == dotenv_name(),
        ensures
            is_ancestor_chain(start@, dirs),
            out@.len() == dirs.len(),
            forall|i: int| 0 <= i < out@.len() ==> (#[trigger] out@[i])@ == joined(dirs[i], dotenv_name()),
        decreases dir@.len(),
    {
        let candidate = io.join_path(&dir, name);
        out.push(candidate);
        match io.parent_path(&dir) {
            None => {
                break;
            },
            Some(parent) => {
                proof {
                    dirs = dirs.push(parent@);
                }
                dir = parent;
            },
        }
    }
    out
}

} // verus!
