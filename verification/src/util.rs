//! Helpers on vectors.

use vstd::prelude::*;

verus! {

/// Brings `list` to exactly `new_len` items: cuts it off at the end where it
/// is longer, and fills it up with items made by `f` where it is shorter.
/// The items that stay keep their places.
pub fn set_len<T, F: Fn() -> T>(list: &mut Vec<T>, new_len: usize, f: F)
    requires
        old(list)@.len() < new_len ==> call_requires(f, ()),
    ensures
        final(list)@.len() == new_len,
        new_len <= old(list)@.len() ==> final(list)@ == old(list)@.take(new_len as int),
        old(list)@.len() <= new_len ==> final(list)@.take(old(list)@.len() as int) == old(list)@,
        forall|i: int|
            old(list)@.len() <= i < new_len ==> call_ensures(f, (), #[trigger] final(list)@[i]),
{
    if list.len() > new_len {
        list.truncate(new_len);
    } else {
        let ghost before = list@;
        while list.len() < new_len
            invariant
                before.len() <= list@.len() <= new_len,
                before.len() < new_len ==> call_requires(f, ()),
                list@.take(before.len() as int) == before,
                forall|i: int| before.len() <= i < list@.len() ==> call_ensures(f, (), #[trigger] list@[i]),
            decreases new_len - list@.len(),
        {
            list.push(f());
        }
    }
}

} // verus!
