//! Lists, turned round.

use vstd::prelude::*;

verus! {

/// The list in the opposite order.
pub fn reversed<T>(list: Vec<T>) -> (reversed: Vec<T>)
    ensures
        reversed@ == list@.reverse(),
{
    let mut list = list;
    let ghost all = list@;
    let mut reversed: Vec<T> = Vec::new();
    while list.len() > 0
        invariant
            list@.len() + reversed@.len() == all.len(),
            list@ == all.subrange(0, list@.len() as int),
            forall|j: int| 0 <= j < reversed@.len() ==> reversed@[j] == all[all.len() - 1 - j],
        decreases list@.len(),
    {
        let last = list.pop().unwrap();
        reversed.push(last);
    }
    assert(reversed@ =~= all.reverse());
    reversed
}

} // verus!
