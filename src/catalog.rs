use vstd::prelude::*;

verus! {

/// An author of the library, as the catalog lists it.
#[derive(Clone, Debug)]
pub struct AuthorDetail {
    pub id: i32,
    pub avatar: String,
    pub name: String,
    pub description: String,
}

/// Newest first, then by position in the listing.
pub open spec fn orders_recent(t1: i64, i1: int, t2: i64, i2: int) -> bool {
    t1 > t2 || (t1 == t2 && i1 < i2)
}

/// Whether some entry of `keyed` comes from position `x`.
spec fn lists_position(keyed: Seq<(i64, usize)>, x: int) -> bool {
    exists|j: int| 0 <= j < keyed.len() && #[trigger] keyed[j].1 == x
}

/// The order in which progress records with update times `updates` are
/// listed: every position once, the most recently updated first, and among
/// equal times by position.
pub fn recent_first(updates: &Vec<i64>) -> (r: Vec<usize>)
    ensures
        r@.len() == updates@.len(),
        forall|j: int| 0 <= j < r@.len() ==> #[trigger] r@[j] < updates@.len(),
        forall|i: int| 0 <= i < updates@.len() ==> #[trigger] r@.contains(i as usize),
        forall|a: int, b: int|
            0 <= a < b < r@.len() ==> orders_recent(
                updates@[r@[a] as int],
                r@[a] as int,
                updates@[r@[b] as int],
                r@[b] as int,
            ),
{
    let mut keyed: Vec<(i64, usize)> = Vec::new();
    let mut i: usize = 0;
    while i < updates.len()
        invariant
            i <= updates@.len(),
            keyed@.len() == i,
            forall|j: int|
                0 <= j < keyed@.len() ==> (#[trigger] keyed@[j]).1 < i && updates@[keyed@[j].1 as int]
                    == keyed@[j].0,
            forall|x: int| 0 <= x < i ==> #[trigger] lists_position(keyed@, x),
            forall|a: int, b: int|
                0 <= a < b < keyed@.len() ==> orders_recent(
                    keyed@[a].0,
                    keyed@[a].1 as int,
                    keyed@[b].0,
                    keyed@[b].1 as int,
                ),
        decreases updates@.len() - i,
    {
        let t = updates[i];
        let mut pos: usize = 0;
        while pos < keyed.len() && keyed[pos].0 >= t
            invariant
                pos <= keyed@.len(),
                forall|q: int| 0 <= q < pos ==> (#[trigger] keyed@[q]).0 >= t,
            decreases keyed@.len() - pos,
        {
            pos += 1;
        }
        let ghost before = keyed@;
        keyed.insert(pos, (t, i));
        assert forall|a: int, b: int|
            0 <= a < b < keyed@.len() implies orders_recent(
            keyed@[a].0,
            keyed@[a].1 as int,
            keyed@[b].0,
            keyed@[b].1 as int,
        ) by {
            if b == pos {
                assert(keyed@[a] == before[a]);
            } else if a == pos {
                assert(keyed@[b] == before[b - 1]);
                assert(before[pos as int].0 < t);
                if pos < b - 1 {
                    assert(orders_recent(
                        before[pos as int].0,
                        before[pos as int].1 as int,
                        before[b - 1].0,
                        before[b - 1].1 as int,
                    ));
                }
            } else if b < pos {
                assert(keyed@[a] == before[a] && keyed@[b] == before[b]);
            } else if a < pos {
                assert(keyed@[a] == before[a] && keyed@[b] == before[b - 1]);
            } else {
                assert(keyed@[a] == before[a - 1] && keyed@[b] == before[b - 1]);
            }
        }
        assert forall|x: int| 0 <= x < i + 1 implies #[trigger] lists_position(keyed@, x) by {
            if x == i {
                assert(keyed@[pos as int].1 == x);
            } else {
                assert(lists_position(before, x));
                let j = choose|j: int| 0 <= j < before.len() && #[trigger] before[j].1 == x;
                if j < pos {
                    assert(keyed@[j].1 == x);
                } else {
                    assert(keyed@[j + 1].1 == x);
                }
            }
        }
        assert forall|j: int| 0 <= j < keyed@.len() implies (#[trigger] keyed@[j]).1 < i + 1
            && updates@[keyed@[j].1 as int] == keyed@[j].0 by {
            if j < pos {
                assert(keyed@[j] == before[j]);
            } else if j > pos {
                assert(keyed@[j] == before[j - 1]);
            }
        }
        i += 1;
    }
    let mut order: Vec<usize> = Vec::new();
    let mut j: usize = 0;
    while j < keyed.len()
        invariant
            j <= keyed@.len(),
            order@.len() == j,
            forall|q: int| 0 <= q < j ==> #[trigger] order@[q] == keyed@[q].1,
        decreases keyed@.len() - j,
    {
        order.push(keyed[j].1);
        j += 1;
    }
    assert forall|x: int| 0 <= x < updates@.len() implies #[trigger] order@.contains(x as usize) by {
        assert(lists_position(keyed@, x));
        let q = choose|q: int| 0 <= q < keyed@.len() && #[trigger] keyed@[q].1 == x;
        assert(order@[q] == x as usize);
    }
    order
}

} // verus!
