//! Text shown in the tree view.
use crate::text::push_char;
use vstd::prelude::*;

verus! {

/// The letter of permission column `i` (read, write, execute, repeated
/// for owner, group and others).
pub open spec fn permission_letter(i: int) -> char {
    if i % 3 == 0 {
        'r'
    } else if i % 3 == 1 {
        'w'
    } else {
        'x'
    }
}

/// Column `i` of the permissions text: its letter when the matching mode
/// bit (bit 8 for column 0, down to bit 0 for column 8) is set, else `-`.
pub open spec fn permission_char(mode: u32, i: int) -> char {
    if mode & (1u32 << ((8 - i) as u32)) != 0 {
        permission_letter(i)
    } else {
        '-'
    }
}

/// The nine-character `rwxrwxrwx` text of a Unix file mode.
pub fn mode_text(mode: u32) -> (r: String)
    ensures
        r@.len() == 9,
        forall|i: int| 0 <= i < 9 ==> #[trigger] r@[i] == permission_char(mode, i),
{
    let mut r = String::new();
    let mut i: u32 = 0;
    while i < 9
        invariant
            i <= 9,
            r@.len() == i,
            forall|j: int| 0 <= j < i ==> #[trigger] r@[j] == permission_char(mode, j),
        decreases 9 - i,
    {
        let letter = if i % 3 == 0 {
            'r'
        } else if i % 3 == 1 {
            'w'
        } else {
            'x'
        };
        let c = if mode & (1u32 << (8 - i)) != 0 {
            letter
        } else {
            '-'
        };
        push_char(&mut r, c);
        i = i + 1;
    }
    r
}

} // verus!
