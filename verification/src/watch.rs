//! Change notifications as both state machines read them: which watch fired,
//! which kinds of event occurred, and the name the event carries, if any.

use vstd::prelude::*;

verus! {

/// The watched file was read.
pub const ACCESS: u32 = 0x0000_0001;

/// The watched file, not opened for writing, was closed.
pub const CLOSE_NOWRITE: u32 = 0x0000_0010;

/// The watched file was opened.
pub const OPEN: u32 = 0x0000_0020;

/// An entry was moved into the watched directory.
pub const MOVED_TO: u32 = 0x0000_0080;

/// One notification: the identifier of the watch that fired, the event kinds
/// as a bit mask, and the name of the directory entry concerned, if any.
#[derive(Debug, Clone)]
pub struct WatchEvent {
    pub wd: i32,
    pub mask: u32,
    pub name: Option<Vec<u8>>,
}

/// Whether `mask` holds at least one of the kinds in `kinds`.
pub open spec fn has_any(mask: u32, kinds: u32) -> bool {
    mask & kinds != 0
}

/// Whether `mask` holds at least one of the kinds in `kinds`.
pub fn intersects(mask: u32, kinds: u32) -> (r: bool)
    ensures
        r == has_any(mask, kinds),
{
    mask & kinds != 0
}

/// The kinds a producer asks for on its working file.
pub fn consumption_mask() -> (r: u32)
    ensures
        r == ACCESS | CLOSE_NOWRITE | OPEN,
        r == 0x31,
{
    let r: u32 = ACCESS | CLOSE_NOWRITE | OPEN;
    assert(0x01u32 | 0x10u32 | 0x20u32 == 0x31u32) by (bit_vector);
    r
}

/// Whether two byte strings are equal.
pub fn same_bytes(left: &[u8], right: &[u8]) -> (r: bool)
    ensures
        r == (left@ == right@),
{
    if left.len() != right.len() {
        return false;
    }
    let mut i: usize = 0;
    while i < left.len()
        invariant
            left@.len() == right@.len(),
            i <= left@.len(),
            forall|k: int| 0 <= k < i ==> left@[k] == right@[k],
        decreases left@.len() - i,
    {
        if left[i] != right[i] {
            return false;
        }
        i += 1;
    }
    proof {
        assert(left@ =~= right@);
    }
    true
}

} // verus!
