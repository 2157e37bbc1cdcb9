//! Checks on the file names a user configures.

use vstd::prelude::*;

verus! {

/// The byte that separates the components of a path.
pub const SEPARATOR: u8 = 47;

/// ASCII `.`.
pub const DOT: u8 = 46;

/// Why a configuration was rejected.
#[derive(Debug)]
pub enum ArgumentsError {
    /// The path is not a single file name; it is carried along for the report.
    InvalidFilename(Vec<u8>),
}

/// A file name proper: not empty, free of separators, and neither `.` nor `..`.
pub open spec fn is_plain_name(name: Seq<u8>) -> bool {
    &&& name.len() > 0
    &&& forall|i: int| 0 <= i < name.len() ==> name[i] != SEPARATOR
    &&& name != seq![DOT]
    &&& name != seq![DOT, DOT]
}

/// From `from` on, the path holds nothing that names anything: only
/// separators, and dots that stand alone between separators (or before the end).
pub open spec fn is_redundant_tail(path: Seq<u8>, from: int) -> bool {
    forall|j: int|
        from <= j < path.len() ==> #[trigger] path[j] == SEPARATOR || (path[j] == DOT && j > 0
            && path[j - 1] == SEPARATOR && (j + 1 == path.len() || path[j + 1] == SEPARATOR))
}

/// `path` consists of the one component `name`: it starts with `name`, and
/// what follows is redundant.
pub open spec fn single_component(path: Seq<u8>, name: Seq<u8>) -> bool {
    &&& is_plain_name(name)
    &&& name.len() <= path.len()
    &&& path.subrange(0, name.len() as int) == name
    &&& is_redundant_tail(path, name.len() as int)
}

/// `path` names a file in the directory it is resolved in, and nothing else.
pub open spec fn is_filename_only(path: Seq<u8>) -> bool {
    exists|name: Seq<u8>| single_component(path, name)
}

/// A path has at most one reading as a single component.
pub proof fn lemma_single_component_unique(path: Seq<u8>, first: Seq<u8>, second: Seq<u8>)
    requires
        single_component(path, first),
        single_component(path, second),
    ensures
        first == second,
{
    if first.len() < second.len() {
        let j = first.len() as int;
        assert(path[j] == second[j]);
        assert(path[j - 1] == second[j - 1]);
    } else if second.len() < first.len() {
        let j = second.len() as int;
        assert(path[j] == first[j]);
        assert(path[j - 1] == first[j - 1]);
    } else {
        assert(first =~= second);
    }
}

/// Accepts a path that is a single file name and returns that name, with
/// redundant trailing separators and dots removed; rejects every other path:
/// the empty one, an absolute one, `.` and `..`, and one of several components.
pub fn assert_filename_only(path: &[u8]) -> (r: Result<Vec<u8>, ArgumentsError>)
    ensures
        match r {
            Ok(name) => single_component(path@, name@),
            Err(ArgumentsError::InvalidFilename(rejected)) => {
                &&& rejected@ == path@
                &&& !is_filename_only(path@)
            },
        },
{
    let len: usize = path.len();
    let mut end: usize = 0;
    while end < len && path[end] != SEPARATOR
        invariant
            len == path@.len(),
            end <= len,
            forall|i: int| 0 <= i < end ==> path@[i] != SEPARATOR,
        decreases len - end,
    {
        end += 1;
    }
    let dot_only = end == 1 && path[0] == DOT;
    let dot_dot = end == 2 && path[0] == DOT && path[1] == DOT;
    let mut tail_ok = true;
    let mut j: usize = end;
    while j < len && tail_ok
        invariant
            len == path@.len(),
            end <= j <= len,
            tail_ok ==> forall|k: int|
                end <= k < j ==> #[trigger] path@[k] == SEPARATOR || (path@[k] == DOT && k > 0
                    && path@[k - 1] == SEPARATOR && (k + 1 == len || path@[k + 1] == SEPARATOR)),
            !tail_ok ==> !is_redundant_tail(path@, end as int),
        decreases len - j + (if tail_ok { 1int } else { 0int }),
    {
        let here = path[j];
        if here == SEPARATOR {
            j += 1;
        } else if here == DOT && j > 0 && path[j - 1] == SEPARATOR && (j + 1 == len || path[j + 1]
            == SEPARATOR) {
            j += 1;
        } else {
            tail_ok = false;
        }
    }
    if end == 0 || dot_only || dot_dot || !tail_ok {
        proof {
            assert forall|name: Seq<u8>| !single_component(path@, name) by {
                if single_component(path@, name) {
                    let n = name.len() as int;
                    if n < end {
                        assert(path@[n] != SEPARATOR);
                        assert(path@[n - 1] == name[n - 1]);
                    } else if n > end {
                        assert(path@[end as int] == name[end as int]);
                    } else {
                        assert(name =~= path@.subrange(0, end as int));
                        if dot_only {
                            assert(name =~= seq![DOT]);
                        }
                        if dot_dot {
                            assert(name =~= seq![DOT, DOT]);
                        }
                    }
                }
            }
        }
        Err(ArgumentsError::InvalidFilename(vstd::slice::slice_to_vec(path)))
    } else {
        let mut name: Vec<u8> = Vec::new();
        let mut i: usize = 0;
        while i < end
            invariant
                len == path@.len(),
                i <= end <= len,
                name@ == path@.subrange(0, i as int),
            decreases end - i,
        {
            name.push(path[i]);
            i += 1;
            proof {
                assert(name@ =~= path@.subrange(0, i as int));
            }
        }
        proof {
            assert(name@.len() == end);
            if name@ == seq![DOT] {
                assert(name@[0] == DOT);
            }
            if name@ == seq![DOT, DOT] {
                assert(seq![DOT, DOT].len() == 2);
                assert(name@[0] == DOT && name@[1] == DOT);
            }
            assert(path@.subrange(0, name@.len() as int) =~= name@);
        }
        Ok(name)
    }
}

} // verus!
