//! Ordering by position: the columns of a board, the cards of a column, the
//! items of a checklist.
//!
//! Positions count from 0. A list is *dense* when its `n` members hold exactly
//! the positions `0, 1, .., n - 1`.
use crate::context::Id;
use vstd::prelude::*;

verus! {

/// Where one member of an ordered list stands.
#[derive(Clone, Debug)]
pub struct Slot {
    pub id: Id,
    pub position: i32,
}

/// The positions held, in the order in which the slots are listed.
pub open spec fn positions(slots: Seq<Slot>) -> Seq<int> {
    slots.map_values(|s: Slot| s.position as int)
}

/// `after` lists the members of `before`, in the same order.
pub open spec fn same_members(before: Seq<Slot>, after: Seq<Slot>) -> bool {
    &&& after.len() == before.len()
    &&& forall|i: int| 0 <= i < before.len() ==> (#[trigger] after[i]).id == before[i].id
}

/// The member `id` stands at index `k` of the list, and nowhere before it.
pub open spec fn listed_at(slots: Seq<Slot>, id: Seq<char>, k: int) -> bool {
    &&& 0 <= k < slots.len()
    &&& slots[k].id@ == id
    &&& forall|j: int| 0 <= j < k ==> (#[trigger] slots[j]).id@ != id
}

/// The member `id` is in the list.
pub open spec fn lists(slots: Seq<Slot>, id: Seq<char>) -> bool {
    exists|k: int| 0 <= k < slots.len() && (#[trigger] slots[k]).id@ == id
}

/// No two members share a position and every position lies in `0..n`.
pub open spec fn dense(p: Seq<int>) -> bool {
    &&& forall|i: int| 0 <= i < p.len() ==> 0 <= #[trigger] p[i] < p.len()
    &&& forall|i: int, j: int|
        0 <= i < p.len() && 0 <= j < p.len() && i != j ==> #[trigger] p[i] != #[trigger] p[j]
}

/// The position behind all others.
pub open spec fn end_position(p: Seq<int>) -> int {
    if p.len() == 0 {
        0
    } else {
        p.max() + 1
    }
}

/// The positions with room made at `at`: from `at` up, each moves up by one.
pub open spec fn opened(p: Seq<int>, at: int) -> Seq<int> {
    p.map_values(
        |x: int|
            if x >= at {
                x + 1
            } else {
                x
            },
    )
}

/// The positions with the gap at `gap` closed: behind it, each moves down by
/// one.
pub open spec fn closed_up(p: Seq<int>, gap: int) -> Seq<int> {
    p.map_values(
        |x: int|
            if x > gap {
                x - 1
            } else {
                x
            },
    )
}

/// Where position `x` goes when the member at `from` moves to `to`: those that
/// it passes move one place towards where it came from.
pub open spec fn displaced(x: int, from: int, to: int) -> int {
    if from < x <= to {
        x - 1
    } else if to <= x < from {
        x + 1
    } else {
        x
    }
}

/// Where all positions go when the member at `from` moves to `to`, but for that
/// member's own.
pub open spec fn displaced_all(p: Seq<int>, from: int, to: int) -> Seq<int> {
    p.map_values(|x: int| displaced(x, from, to))
}

/// The positions after the member at index `k` has moved to position `to`.
pub open spec fn moved(p: Seq<int>, k: int, to: int) -> Seq<int> {
    Seq::new(
        p.len(),
        |i: int|
            if i == k {
                to
            } else {
                displaced(p[i], p[k], to)
            },
    )
}

/// Member `j` comes before member `i`: by position, and by the order of the
/// list where two share one.
pub open spec fn comes_before(p: Seq<int>, j: int, i: int) -> bool {
    p[j] < p[i] || (p[j] == p[i] && j < i)
}

/// How many of the first `n` members come before member `i`.
pub open spec fn count_before(p: Seq<int>, i: int, n: int) -> int
    decreases n,
{
    if n <= 0 {
        0
    } else {
        count_before(p, i, n - 1) + if comes_before(p, n - 1, i) {
            1int
        } else {
            0int
        }
    }
}

/// The members numbered 0, 1, 2, .. in their current order.
pub open spec fn renumbered(p: Seq<int>) -> Seq<int> {
    Seq::new(p.len(), |i: int| count_before(p, i, p.len() as int))
}

/// The position behind all others, or `None` where it is out of range.
pub fn next_position(slots: &Vec<Slot>) -> (r: Option<i32>)
    ensures
        match r {
            Some(x) => x == end_position(positions(slots@)),
            None => end_position(positions(slots@)) > i32::MAX,
        },
{
    let ghost p = positions(slots@);
    if slots.len() == 0 {
        return Some(0);
    }
    let mut highest: i32 = slots[0].position;
    let mut i: usize = 1;
    assert(p[0] == highest);
    while i < slots.len()
        invariant
            1 <= i <= slots.len(),
            p == positions(slots@),
            exists|k: int| 0 <= k < i && #[trigger] p[k] == highest,
            forall|k: int| 0 <= k < i ==> #[trigger] p[k] <= highest,
        decreases slots.len() - i,
    {
        assert(p[i as int] == slots[i as int].position);
        if slots[i].position > highest {
            highest = slots[i].position;
        }
        i += 1;
    }
    proof {
        p.max_ensures();
        let k = choose|k: int| 0 <= k < slots.len() && #[trigger] p[k] == highest;
        assert(p.contains(p[k]));
    }
    highest.checked_add(1)
}

/// The highest position there is is taken, so that it cannot move up.
pub open spec fn full(slots: Seq<Slot>) -> bool {
    exists|i: int| 0 <= i < slots.len() && (#[trigger] slots[i]).position == i32::MAX
}

/// The slots with room made at `at`, or `None` where the last one would go out
/// of range.
pub fn open_slot(slots: &Vec<Slot>, at: i32) -> (r: Option<Vec<Slot>>)
    ensures
        match r {
            Some(after) => !full(slots@) && same_members(slots@, after@) && positions(after@)
                == opened(positions(slots@), at as int),
            None => full(slots@),
        },
{
    let mut after: Vec<Slot> = Vec::new();
    let mut i: usize = 0;
    while i < slots.len()
        invariant
            i <= slots.len(),
            after.len() == i,
            forall|j: int| 0 <= j < i ==> (#[trigger] slots[j]).position != i32::MAX,
            forall|j: int|
                0 <= j < i ==> (#[trigger] after[j]).id == slots[j].id && after[j].position
                    == opened(positions(slots@), at as int)[j],
        decreases slots.len() - i,
    {
        let mut position: i32 = slots[i].position;
        if position >= at {
            if position == i32::MAX {
                return None;
            }
            position = position + 1;
        }
        after.push(Slot { id: slots[i].id.clone(), position });
        i += 1;
    }
    assert(positions(after@) =~= opened(positions(slots@), at as int));
    Some(after)
}

/// The slots with the gap at `gap` closed.
pub fn close_gap(slots: &Vec<Slot>, gap: i32) -> (after: Vec<Slot>)
    ensures
        same_members(slots@, after@),
        positions(after@) == closed_up(positions(slots@), gap as int),
{
    let mut after: Vec<Slot> = Vec::new();
    let mut i: usize = 0;
    while i < slots.len()
        invariant
            i <= slots.len(),
            after.len() == i,
            forall|j: int|
                0 <= j < i ==> (#[trigger] after[j]).id == slots[j].id && after[j].position
                    == closed_up(positions(slots@), gap as int)[j],
        decreases slots.len() - i,
    {
        let mut position: i32 = slots[i].position;
        if position > gap {
            position = position - 1;
        }
        after.push(Slot { id: slots[i].id.clone(), position });
        i += 1;
    }
    assert(positions(after@) =~= closed_up(positions(slots@), gap as int));
    after
}

/// The index at which member `id` is listed.
pub fn find_slot(slots: &Vec<Slot>, id: &Id) -> (r: Option<usize>)
    ensures
        match r {
            Some(k) => listed_at(slots@, id@, k as int),
            None => !lists(slots@, id@),
        },
{
    let mut i: usize = 0;
    while i < slots.len()
        invariant
            i <= slots.len(),
            forall|j: int| 0 <= j < i ==> (#[trigger] slots[j]).id@ != id@,
        decreases slots.len() - i,
    {
        if slots[i].id == *id {
            return Some(i);
        }
        i += 1;
    }
    None
}

/// The slots after member `k` of the list has moved to position `to`.
pub fn move_slot(slots: &Vec<Slot>, k: usize, to: i32) -> (after: Vec<Slot>)
    requires
        k < slots.len(),
    ensures
        same_members(slots@, after@),
        positions(after@) == moved(positions(slots@), k as int, to as int),
{
    let from: i32 = slots[k].position;
    let mut after: Vec<Slot> = Vec::new();
    let mut i: usize = 0;
    while i < slots.len()
        invariant
            i <= slots.len(),
            k < slots.len(),
            from == slots[k as int].position,
            after.len() == i,
            forall|j: int|
                0 <= j < i ==> (#[trigger] after[j]).id == slots[j].id && after[j].position
                    == moved(positions(slots@), k as int, to as int)[j],
        decreases slots.len() - i,
    {
        let mut position: i32 = slots[i].position;
        if i == k {
            position = to;
        } else if from < position && position <= to {
            position = position - 1;
        } else if to <= position && position < from {
            position = position + 1;
        }
        after.push(Slot { id: slots[i].id.clone(), position });
        i += 1;
    }
    assert(positions(after@) =~= moved(positions(slots@), k as int, to as int));
    after
}

/// The slots with those moved that a member passes on its way from position
/// `from` to position `to`. The member itself is left where it was.
pub fn displace(slots: &Vec<Slot>, from: i32, to: i32) -> (after: Vec<Slot>)
    ensures
        same_members(slots@, after@),
        positions(after@) == displaced_all(positions(slots@), from as int, to as int),
{
    let mut after: Vec<Slot> = Vec::new();
    let mut i: usize = 0;
    while i < slots.len()
        invariant
            i <= slots.len(),
            after.len() == i,
            forall|j: int|
                0 <= j < i ==> (#[trigger] after[j]).id == slots[j].id && after[j].position
                    == displaced_all(positions(slots@), from as int, to as int)[j],
        decreases slots.len() - i,
    {
        let mut position: i32 = slots[i].position;
        if from < position && position <= to {
            position = position - 1;
        } else if to <= position && position < from {
            position = position + 1;
        }
        after.push(Slot { id: slots[i].id.clone(), position });
        i += 1;
    }
    assert(positions(after@) =~= displaced_all(positions(slots@), from as int, to as int));
    after
}

/// Displacing the others and then placing the member is moving it.
pub proof fn law_displace_and_place_is_move(p: Seq<int>, k: int, to: int)
    requires
        0 <= k < p.len(),
    ensures
        displaced_all(p, p[k], to).update(k, to) == moved(p, k, to),
{
    assert(displaced_all(p, p[k], to).update(k, to) =~= moved(p, k, to));
}

/// The slots renumbered 0, 1, 2, .. in their current order.
pub fn renumber(slots: &Vec<Slot>) -> (after: Vec<Slot>)
    requires
        slots.len() <= i32::MAX,
    ensures
        same_members(slots@, after@),
        positions(after@) == renumbered(positions(slots@)),
{
    let ghost p = positions(slots@);
    let mut after: Vec<Slot> = Vec::new();
    let mut i: usize = 0;
    while i < slots.len()
        invariant
            i <= slots.len() <= i32::MAX,
            p == positions(slots@),
            after.len() == i,
            forall|j: int|
                0 <= j < i ==> (#[trigger] after[j]).id == slots[j].id && after[j].position
                    == renumbered(p)[j],
        decreases slots.len() - i,
    {
        let mut rank: i32 = 0;
        let mut j: usize = 0;
        while j < slots.len()
            invariant
                i < slots.len() <= i32::MAX,
                j <= slots.len(),
                p == positions(slots@),
                0 <= rank <= j,
                rank == count_before(p, i as int, j as int),
            decreases slots.len() - j,
        {
            assert(p[j as int] == slots[j as int].position);
            assert(p[i as int] == slots[i as int].position);
            if slots[j].position < slots[i].position || (slots[j].position == slots[i].position && j
                < i) {
                rank = rank + 1;
            }
            j += 1;
        }
        after.push(Slot { id: slots[i].id.clone(), position: rank });
        i += 1;
    }
    assert(positions(after@) =~= renumbered(p));
    after
}

/// A dense list leaves no position out: each of `0..n` is held by a member.
pub proof fn law_dense_leaves_no_gap(p: Seq<int>, k: int)
    requires
        dense(p),
        0 <= k < p.len(),
    ensures
        exists|i: int| 0 <= i < p.len() && #[trigger] p[i] == k,
{
    let n = p.len() as int;
    assert(p.no_duplicates());
    p.unique_seq_to_set();
    vstd::set_lib::lemma_int_range(0, n);
    let all = vstd::set_lib::set_int_range(0, n);
    assert(p.to_set().subset_of(all));
    vstd::set_lib::lemma_subset_equality(p.to_set(), all);
    assert(p.to_set().contains(k));
}

/// Appending behind the last member keeps a list dense.
pub proof fn law_append_keeps_dense(p: Seq<int>)
    requires
        dense(p),
    ensures
        end_position(p) == p.len(),
        dense(p.push(end_position(p))),
{
    p.max_ensures();
    if p.len() > 0 {
        law_dense_leaves_no_gap(p, p.len() - 1);
    }
}

/// Making room at a place of a dense list, or right behind it, and inserting
/// there keeps it dense.
pub proof fn law_insert_keeps_dense(p: Seq<int>, at: int)
    requires
        dense(p),
        0 <= at <= p.len(),
    ensures
        dense(opened(p, at).push(at)),
{
}

/// Inserting keeps the members that were there in their order.
pub proof fn law_insert_keeps_order(p: Seq<int>, at: int, i: int, j: int)
    requires
        0 <= i < p.len(),
        0 <= j < p.len(),
    ensures
        p[i] < p[j] <==> opened(p, at)[i] < opened(p, at)[j],
{
}

/// Taking a member out of a dense list and closing its gap keeps it dense.
pub proof fn law_take_out_keeps_dense(p: Seq<int>, k: int)
    requires
        dense(p),
        0 <= k < p.len(),
    ensures
        dense(closed_up(p.remove(k), p[k])),
{
    let q = p.remove(k);
    assert forall|i: int| 0 <= i < q.len() implies 0 <= #[trigger] closed_up(q, p[k])[i]
        < q.len() by {
        assert(q[i] == p[if i < k { i } else { i + 1 }]);
    }
    assert forall|i: int, j: int|
        0 <= i < q.len() && 0 <= j < q.len() && i != j implies #[trigger] closed_up(q, p[k])[i]
        != #[trigger] closed_up(q, p[k])[j] by {
        assert(q[i] == p[if i < k { i } else { i + 1 }]);
        assert(q[j] == p[if j < k { j } else { j + 1 }]);
    }
}

/// Closing the gap of a member keeps all others in their order, where no two
/// share a position.
pub proof fn law_close_keeps_order(p: Seq<int>, k: int, i: int, j: int)
    requires
        forall|a: int, b: int|
            0 <= a < p.len() && 0 <= b < p.len() && a != b ==> #[trigger] p[a] != #[trigger] p[b],
        0 <= k < p.len(),
        0 <= i < p.len(),
        0 <= j < p.len(),
        i != k,
        j != k,
    ensures
        p[i] < p[j] <==> closed_up(p, p[k])[i] < closed_up(p, p[k])[j],
{
    assert(p[i] != p[k]);
    assert(p[j] != p[k]);
}

/// Moving a member to a place inside a dense list keeps it dense.
pub proof fn law_move_keeps_dense(p: Seq<int>, k: int, to: int)
    requires
        dense(p),
        0 <= k < p.len(),
        0 <= to < p.len(),
    ensures
        dense(moved(p, k, to)),
{
}

/// Moving a member keeps all others in their order, where no two share a
/// position.
pub proof fn law_move_keeps_order(p: Seq<int>, k: int, to: int, i: int, j: int)
    requires
        forall|a: int, b: int|
            0 <= a < p.len() && 0 <= b < p.len() && a != b ==> #[trigger] p[a] != #[trigger] p[b],
        0 <= k < p.len(),
        0 <= i < p.len(),
        0 <= j < p.len(),
        i != k,
        j != k,
    ensures
        p[i] < p[j] <==> moved(p, k, to)[i] < moved(p, k, to)[j],
{
}

/// Moving a member back to where it came from restores every position, where
/// no two share one.
pub proof fn law_move_back_restores(p: Seq<int>, k: int, to: int)
    requires
        forall|a: int, b: int|
            0 <= a < p.len() && 0 <= b < p.len() && a != b ==> #[trigger] p[a] != #[trigger] p[b],
        0 <= k < p.len(),
    ensures
        moved(moved(p, k, to), k, p[k]) == p,
{
    assert(moved(moved(p, k, to), k, p[k]) =~= p);
}

/// Moving a member to where it stands changes nothing.
pub proof fn law_move_in_place_changes_nothing(p: Seq<int>, k: int)
    requires
        0 <= k < p.len(),
    ensures
        moved(p, k, p[k]) == p,
{
    assert(moved(p, k, p[k]) =~= p);
}

proof fn lemma_count_before_order(p: Seq<int>, i: int, j: int, n: int)
    requires
        0 <= n,
        comes_before(p, i, j),
    ensures
        0 <= count_before(p, i, n) <= count_before(p, j, n) <= n,
        0 <= i < n ==> count_before(p, i, n) < count_before(p, j, n),
        0 <= i < n ==> count_before(p, i, n) < n,
        0 <= j < n ==> count_before(p, j, n) < n,
    decreases n,
{
    if n > 0 {
        lemma_count_before_order(p, i, j, n - 1);
    }
}

proof fn lemma_count_before_bound(p: Seq<int>, i: int, n: int)
    requires
        0 <= n,
    ensures
        0 <= count_before(p, i, n) <= n,
        0 <= i < n ==> count_before(p, i, n) < n,
    decreases n,
{
    if n > 0 {
        lemma_count_before_bound(p, i, n - 1);
    }
}

/// Renumbering makes any list dense.
pub proof fn law_renumber_makes_dense(p: Seq<int>)
    ensures
        dense(renumbered(p)),
{
    let n = p.len() as int;
    assert forall|i: int| 0 <= i < n implies 0 <= #[trigger] renumbered(p)[i] < n by {
        lemma_count_before_bound(p, i, n);
    }
    assert forall|i: int, j: int| 0 <= i < n && 0 <= j < n && i != j implies #[trigger] renumbered(
        p,
    )[i] != #[trigger] renumbered(p)[j] by {
        if comes_before(p, i, j) {
            lemma_count_before_order(p, i, j, n);
        } else {
            lemma_count_before_order(p, j, i, n);
        }
    }
}

/// How many of the first `n` positions are below `v`.
spec fn count_below(p: Seq<int>, v: int, n: int) -> int
    decreases n,
{
    if n <= 0 {
        0
    } else {
        count_below(p, v, n - 1) + if p[n - 1] < v {
            1int
        } else {
            0int
        }
    }
}

/// How many of the first `n` positions are `v`.
spec fn count_at(p: Seq<int>, v: int, n: int) -> int
    decreases n,
{
    if n <= 0 {
        0
    } else {
        count_at(p, v, n - 1) + if p[n - 1] == v {
            1int
        } else {
            0int
        }
    }
}

proof fn lemma_count_below_next(p: Seq<int>, v: int, n: int)
    requires
        0 <= n,
    ensures
        count_below(p, v + 1, n) == count_below(p, v, n) + count_at(p, v, n),
    decreases n,
{
    if n > 0 {
        lemma_count_below_next(p, v, n - 1);
    }
}

proof fn lemma_count_at_one(p: Seq<int>, k: int, n: int)
    requires
        forall|i: int, j: int|
            0 <= i < p.len() && 0 <= j < p.len() && i != j ==> #[trigger] p[i] != #[trigger] p[j],
        0 <= k < p.len(),
        0 <= n <= p.len(),
    ensures
        count_at(p, p[k], n) == if k < n {
            1int
        } else {
            0int
        },
    decreases n,
{
    if n > 0 {
        lemma_count_at_one(p, k, n - 1);
    }
}

proof fn lemma_count_below_dense(p: Seq<int>, v: int)
    requires
        dense(p),
        0 <= v <= p.len(),
    ensures
        count_below(p, v, p.len() as int) == v,
    decreases v,
{
    let n = p.len() as int;
    if v > 0 {
        lemma_count_below_dense(p, v - 1);
        lemma_count_below_next(p, v - 1, n);
        law_dense_leaves_no_gap(p, v - 1);
        let k = choose|k: int| 0 <= k < p.len() && #[trigger] p[k] == v - 1;
        lemma_count_at_one(p, k, n);
    } else {
        lemma_none_below_zero(p, n);
    }
}

proof fn lemma_none_below_zero(p: Seq<int>, n: int)
    requires
        dense(p),
        0 <= n <= p.len(),
    ensures
        count_below(p, 0, n) == 0,
    decreases n,
{
    if n > 0 {
        lemma_none_below_zero(p, n - 1);
    }
}

proof fn lemma_count_before_is_below(p: Seq<int>, i: int, n: int)
    requires
        dense(p),
        0 <= i < p.len(),
        0 <= n <= p.len(),
    ensures
        count_before(p, i, n) == count_below(p, p[i], n),
    decreases n,
{
    if n > 0 {
        lemma_count_before_is_below(p, i, n - 1);
    }
}

/// Renumbering a dense list changes nothing.
pub proof fn law_renumber_keeps_dense_list(p: Seq<int>)
    requires
        dense(p),
    ensures
        renumbered(p) == p,
{
    assert forall|i: int| 0 <= i < p.len() implies renumbered(p)[i] == p[i] by {
        lemma_count_before_is_below(p, i, p.len() as int);
        lemma_count_below_dense(p, p[i]);
    }
    assert(renumbered(p) =~= p);
}

/// Renumbering keeps the members in their order.
pub proof fn law_renumber_keeps_order(p: Seq<int>, i: int, j: int)
    requires
        0 <= i < p.len(),
        0 <= j < p.len(),
        p[i] < p[j],
    ensures
        renumbered(p)[i] < renumbered(p)[j],
{
    lemma_count_before_order(p, i, j, p.len() as int);
}

/// Renumbering a dense list with a member far behind it brings that member up
/// to the end and moves no other.
pub proof fn law_renumber_append(p: Seq<int>, at: int)
    requires
        dense(p),
        p.len() <= at,
    ensures
        renumbered(p.push(at)) == p.push(p.len() as int),
{
    let q = p.push(at);
    let d = p.push(p.len() as int);
    law_append_keeps_dense(p);
    law_renumber_keeps_dense_list(d);
    assert forall|i: int| 0 <= i < q.len() implies renumbered(q)[i] == renumbered(d)[i] by {
        lemma_same_counts(q, d, i, q.len() as int);
    }
    assert(renumbered(q) =~= renumbered(d));
}

proof fn lemma_same_counts(p: Seq<int>, q: Seq<int>, i: int, n: int)
    requires
        0 <= i < p.len(),
        0 <= n <= p.len(),
        forall|j: int|
            0 <= j < p.len() ==> #[trigger] comes_before(p, j, i) == comes_before(q, j, i),
    ensures
        count_before(p, i, n) == count_before(q, i, n),
    decreases n,
{
    if n > 0 {
        lemma_same_counts(p, q, i, n - 1);
        assert(comes_before(p, n - 1, i) == comes_before(q, n - 1, i));
    }
}

/// Making room at a place moves what stands there or behind it one place on,
/// and leaves everything else where it stands.
pub proof fn law_room_is_made_at_the_place(before: Seq<Slot>, after: Seq<Slot>, at: int)
    requires
        same_members(before, after),
        positions(after) == opened(positions(before), at),
    ensures
        after.len() == before.len(),
        forall|i: int|
            0 <= i < before.len() ==> {
                &&& (#[trigger] after[i]).id == before[i].id
                &&& before[i].position < at ==> after[i].position == before[i].position
                &&& before[i].position >= at ==> after[i].position == before[i].position + 1
            },
{
    assert forall|i: int| 0 <= i < before.len() implies {
        &&& (#[trigger] after[i]).id == before[i].id
        &&& before[i].position < at ==> after[i].position == before[i].position
        &&& before[i].position >= at ==> after[i].position == before[i].position + 1
    } by {
        assert(positions(after)[i] == after[i].position);
    }
}

/// Closing a gap moves what stands behind it one place up, and leaves everything
/// else where it stands.
pub proof fn law_gap_is_closed(before: Seq<Slot>, after: Seq<Slot>, gap: int)
    requires
        same_members(before, after),
        positions(after) == closed_up(positions(before), gap),
    ensures
        after.len() == before.len(),
        forall|i: int|
            0 <= i < before.len() ==> {
                &&& (#[trigger] after[i]).id == before[i].id
                &&& before[i].position <= gap ==> after[i].position == before[i].position
                &&& before[i].position > gap ==> after[i].position == before[i].position - 1
            },
{
    assert forall|i: int| 0 <= i < before.len() implies {
        &&& (#[trigger] after[i]).id == before[i].id
        &&& before[i].position <= gap ==> after[i].position == before[i].position
        &&& before[i].position > gap ==> after[i].position == before[i].position - 1
    } by {
        assert(positions(after)[i] == after[i].position);
    }
}

/// A move displaces what stands between the two places by one towards the place
/// that is left, and nothing else.
pub proof fn law_move_displaces_what_is_between(
    before: Seq<Slot>,
    after: Seq<Slot>,
    from: int,
    to: int,
)
    requires
        same_members(before, after),
        positions(after) == displaced_all(positions(before), from, to),
    ensures
        after.len() == before.len(),
        forall|i: int|
            0 <= i < before.len() ==> {
                let x = before[i].position;
                &&& (#[trigger] after[i]).id == before[i].id
                &&& from < x <= to ==> after[i].position == x - 1
                &&& to <= x < from ==> after[i].position == x + 1
                &&& x == from || x < from && x < to || x > from && x > to ==> after[i].position
                    == x
            },
{
    assert forall|i: int| 0 <= i < before.len() implies {
        let x = before[i].position;
        &&& (#[trigger] after[i]).id == before[i].id
        &&& from < x <= to ==> after[i].position == x - 1
        &&& to <= x < from ==> after[i].position == x + 1
        &&& x == from || x < from && x < to || x > from && x > to ==> after[i].position == x
    } by {
        assert(positions(after)[i] == after[i].position);
    }
}

/// A member that is moved stands where it was sent, and displaces what stands
/// between the two places by one towards the place that it left.
pub proof fn law_moved_member_lands(
    before: Seq<Slot>,
    after: Seq<Slot>,
    k: int,
    to: int,
)
    requires
        same_members(before, after),
        positions(after) == moved(positions(before), k, to),
        0 <= k < before.len(),
    ensures
        after.len() == before.len(),
        after[k].position == to,
        forall|i: int|
            0 <= i < before.len() ==> {
                let (x, from) = (before[i].position, before[k].position);
                &&& (#[trigger] after[i]).id == before[i].id
                &&& i != k && from < x <= to ==> after[i].position == x - 1
                &&& i != k && to <= x < from ==> after[i].position == x + 1
                &&& i != k && (x == from || x < from && x < to || x > from && x > to)
                    ==> after[i].position == x
            },
{
    assert forall|i: int| 0 <= i < before.len() implies {
        let (x, from) = (before[i].position, before[k].position);
        &&& (#[trigger] after[i]).id == before[i].id
        &&& i != k && from < x <= to ==> after[i].position == x - 1
        &&& i != k && to <= x < from ==> after[i].position == x + 1
        &&& i != k && (x == from || x < from && x < to || x > from && x > to)
            ==> after[i].position == x
    } by {
        assert(positions(after)[i] == after[i].position);
        assert(positions(before)[k] == before[k].position);
    }
    assert(positions(after)[k] == after[k].position);
}

/// The end of a list lies right behind its last member; an empty list ends at 0.
pub proof fn law_end_lies_behind_the_last(slots: Seq<Slot>)
    ensures
        slots.len() == 0 ==> end_position(positions(slots)) == 0,
        forall|i: int|
            0 <= i < slots.len() ==> (#[trigger] slots[i]).position < end_position(
                positions(slots),
            ),
        slots.len() > 0 ==> exists|i: int|
            0 <= i < slots.len() && (#[trigger] slots[i]).position + 1 == end_position(
                positions(slots),
            ),
{
    let p = positions(slots);
    if slots.len() > 0 {
        p.max_ensures();
        assert forall|i: int| 0 <= i < slots.len() implies (#[trigger] slots[i]).position
            < end_position(p) by {
            assert(p[i] == slots[i].position);
        }
        let k = choose|k: int| 0 <= k < p.len() && p[k] == p.max();
        assert(slots[k].position + 1 == end_position(p));
    }
}

/// A list names an identifier where one of its members has it, at whatever
/// place; the first such place is the one where it is listed.
pub proof fn law_listed_where_it_stands_first(slots: Seq<Slot>, id: Seq<char>, k: int)
    ensures
        0 <= k < slots.len() && slots[k].id@ == id ==> lists(slots, id),
        (forall|j: int| 0 <= j < slots.len() ==> (#[trigger] slots[j]).id@ != id) ==> !lists(
            slots,
            id,
        ),
        listed_at(slots, id, k) <==> 0 <= k < slots.len() && slots[k].id@ == id && forall|j: int|
            0 <= j < k ==> (#[trigger] slots[j]).id@ != id,
        full(slots) <==> exists|j: int|
            0 <= j < slots.len() && (#[trigger] slots[j]).position == i32::MAX,
{
}

/// Renumbering counts the members from 0 on, each once, and keeps them in their
/// order, those at one place by their order in the list.
pub proof fn law_renumbering_counts_in_order(before: Seq<Slot>, after: Seq<Slot>)
    requires
        same_members(before, after),
        positions(after) == renumbered(positions(before)),
    ensures
        after.len() == before.len(),
        forall|i: int|
            0 <= i < after.len() ==> (#[trigger] after[i]).id == before[i].id && 0
                <= after[i].position < after.len(),
        forall|i: int, j: int|
            0 <= i < after.len() && 0 <= j < after.len() ==> (before[i].position
                < before[j].position || before[i].position == before[j].position && i < j <==> (
            #[trigger] after[i]).position < (#[trigger] after[j]).position),
{
    let p = positions(before);
    law_renumber_makes_dense(p);
    assert forall|i: int| 0 <= i < after.len() implies (#[trigger] after[i]).id == before[i].id
        && 0 <= after[i].position < after.len() by {
        assert(positions(after)[i] == after[i].position);
    }
    assert forall|i: int, j: int| 0 <= i < after.len() && 0 <= j < after.len() implies (
    before[i].position < before[j].position || before[i].position == before[j].position && i < j
        <==> (#[trigger] after[i]).position < (#[trigger] after[j]).position) by {
        let n = p.len() as int;
        if comes_before(p, i, j) {
            lemma_count_before_order(p, i, j, n);
        } else if i != j {
            lemma_count_before_order(p, j, i, n);
        }
        assert(positions(after)[i] == after[i].position);
        assert(positions(after)[j] == after[j].position);
        assert(p[i] == before[i].position);
        assert(p[j] == before[j].position);
    }
}

} // verus!
