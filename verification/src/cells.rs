//! Small operations on lists of positions.

use vstd::prelude::*;

verus! {

/// Appends `pos` to `found`.
pub(crate) fn record(found: &mut Vec<(i32, i32)>, pos: (i32, i32))
    ensures
        final(found)@ == old(found)@.push(pos),
        forall|c: (i32, i32)|
            #[trigger] final(found)@.contains(c) <==> old(found)@.contains(c) || c == pos,
        old(found)@.no_duplicates() && !old(found)@.contains(pos) ==> final(found)@.no_duplicates(),
{
    found.push(pos);
    proof {
        let before = old(found)@;
        let after = found@;
        assert forall|c: (i32, i32)| #[trigger] after.contains(c) <==> before.contains(c) || c
            == pos by {
            if before.contains(c) {
                let i = choose|i: int| 0 <= i < before.len() && before[i] == c;
                assert(after[i] == c);
            }
            if c == pos {
                assert(after[before.len() as int] == c);
            }
        }
    }
}

/// Tells whether `pos` is one of `list`.
pub(crate) fn listed(list: &Vec<(i32, i32)>, pos: (i32, i32)) -> (found: bool)
    ensures
        found == list@.contains(pos),
{
    let mut i: usize = 0;
    while i < list.len()
        invariant
            i <= list@.len(),
            forall|j: int| 0 <= j < i ==> list@[j] != pos,
        decreases list@.len() - i,
    {
        let held = list[i];
        if held.0 == pos.0 && held.1 == pos.1 {
            return true;
        }
        i = i + 1;
    }
    false
}

/// The first `i + 1` items of a list are its first `i` items and the item
/// at `i`.
pub(crate) proof fn lemma_take_next(list: Seq<(i32, i32)>, i: int)
    requires
        0 <= i < list.len(),
    ensures
        list.take(i + 1) == list.take(i).push(list[i]),
        forall|c: (i32, i32)|
            #[trigger] list.take(i + 1).contains(c) <==> list.take(i).contains(c) || c == list[i],
{
    let seen = list.take(i);
    let next = list.take(i + 1);
    assert(next =~= seen.push(list[i]));
    assert forall|c: (i32, i32)| #[trigger] next.contains(c) <==> seen.contains(c) || c
        == list[i] by {
        if seen.contains(c) {
            let j = choose|j: int| 0 <= j < seen.len() && seen[j] == c;
            assert(next[j] == c);
        }
        if c == list[i] {
            assert(next[i] == c);
        }
    }
}

} // verus!
