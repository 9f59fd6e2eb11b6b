//! The name pattern under which a full log file is put away.

use vstd::prelude::*;

verus! {

/// The last dot of `path` stands at `dot`.
pub open spec fn last_dot(path: Seq<char>, dot: int) -> bool {
    &&& 0 <= dot < path.len()
    &&& path[dot] == '.'
    &&& forall|i: int| dot < i < path.len() ==> path[i] != '.'
}

/// The archive pattern of a log path. The index marker `{}` is a part of its own before the last
/// dot-separated part of the path; a path without dots has it at its end.
pub open spec fn archive_pattern(path: Seq<char>) -> Seq<char> {
    if path.contains('.') {
        let dot = choose|dot: int| last_dot(path, dot);
        path.take(dot) + ".{}."@ + path.skip(dot + 1)
    } else {
        path + "{}"@
    }
}

/// The pattern of archive names for the log file at `path`.
pub fn pattern_for(path: &str) -> (pattern: String)
    ensures
        pattern@ == archive_pattern(path@),
{
    let len: usize = path.unicode_len();
    let mut start: usize = len;
    while start > 0 && path.get_char(start - 1) != '.'
        invariant
            start <= len,
            len == path@.len(),
            forall|i: int| start <= i < len ==> path@[i] != '.',
        decreases start,
    {
        start = start - 1;
    }
    let mut pattern: String;
    if start == 0 {
        pattern = path.to_owned();
        pattern.append("{}");
    } else {
        proof {
            assert(last_dot(path@, start - 1));
            assert(path@[start - 1] == '.');
            lemma_last_dot_unique(path@, start - 1, choose|dot: int| last_dot(path@, dot));
        }
        pattern = path.substring_char(0, start - 1).to_owned();
        pattern.append(".{}.");
        pattern.append(path.substring_char(start, len));
    }
    pattern
}

/// A text has one last dot at most.
pub proof fn lemma_last_dot_unique(path: Seq<char>, a: int, b: int)
    requires
        last_dot(path, a),
        last_dot(path, b),
    ensures
        a == b,
{
}

/// A text with a dot has a last dot.
pub proof fn lemma_has_last_dot(path: Seq<char>)
    requires
        path.contains('.'),
    ensures
        exists|dot: int| last_dot(path, dot),
    decreases path.len(),
{
    let last = path.len() - 1;
    if path[last] == '.' {
        assert(last_dot(path, last));
    } else {
        let shorter = path.drop_last();
        let i = choose|i: int| 0 <= i < path.len() && path[i] == '.';
        assert(shorter[i] == '.');
        lemma_has_last_dot(shorter);
        let dot = choose|dot: int| last_dot(shorter, dot);
        assert forall|i: int| dot < i < path.len() implies path[i] != '.' by {
            if i < last {
                assert(shorter[i] == path[i]);
            }
        }
        assert(last_dot(path, dot));
    }
}

} // verus!
