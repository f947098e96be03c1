//! Pages of a listing.
//!
//! A page starts behind its cursor, the last row of the page before it. Whoever
//! follows the cursors from the first page to the last sees every row once.
use crate::context::Id;
use crate::text::{is_behind, opt_view, sorts_behind};
use vstd::prelude::*;

verus! {

/// The most that one page holds.
pub const MAX_PAGE_LIMIT: i32 = 200;

/// How much a page holds when `limit` is asked for.
pub open spec fn page_size(limit: int) -> int {
    if limit < 1 {
        1
    } else if limit > MAX_PAGE_LIMIT {
        MAX_PAGE_LIMIT as int
    } else {
        limit
    }
}

/// How much a page holds when `limit` is asked for.
pub fn page_limit(limit: i32) -> (r: i32)
    ensures
        r == page_size(limit as int),
        1 <= r <= MAX_PAGE_LIMIT,
{
    if limit < 1 {
        1
    } else if limit > MAX_PAGE_LIMIT {
        MAX_PAGE_LIMIT
    } else {
        limit
    }
}

/// There is more than fits on a page.
pub open spec fn has_more<T>(rows: Seq<T>, size: int) -> bool {
    rows.len() > size
}

/// What is on the page.
pub open spec fn on_page<T>(rows: Seq<T>, size: int) -> Seq<T> {
    if has_more(rows, size) {
        rows.take(size)
    } else {
        rows
    }
}

/// Cuts a listing down to a page, and says whether there was more.
pub fn cut_page<T>(rows: &mut Vec<T>, size: i32) -> (more: bool)
    requires
        size >= 0,
    ensures
        more == has_more(old(rows)@, size as int),
        final(rows)@ == on_page(old(rows)@, size as int),
{
    if rows.len() > size as usize {
        rows.truncate(size as usize);
        assert(rows@ =~= old(rows)@.take(size as int));
        true
    } else {
        false
    }
}

/// A page never holds more than its size, and holds the start of the listing;
/// where the listing goes on, the page is full and so has a last row.
pub proof fn law_page_is_the_start<T>(rows: Seq<T>, limit: int)
    ensures
        1 <= page_size(limit) <= MAX_PAGE_LIMIT,
        on_page(rows, page_size(limit)).len() <= page_size(limit),
        on_page(rows, page_size(limit)) == rows.take(
            on_page(rows, page_size(limit)).len() as int,
        ),
        has_more(rows, page_size(limit)) ==> on_page(rows, page_size(limit)).len() == page_size(
            limit,
        ),
{
    assert(rows.take(rows.len() as int) =~= rows);
}

/// A row of a listing.
pub trait Listed {
    /// The identifier that the row is found again by.
    spec fn key(&self) -> Seq<char>;

    /// The identifier that the row is found again by.
    fn id(&self) -> (r: &Id)
        ensures
            r@ == self.key(),
    ;
}

/// No two rows share an identifier.
pub open spec fn distinct<T: Listed>(rows: Seq<T>) -> bool {
    forall|i: int, j: int|
        0 <= i < rows.len() && 0 <= j < rows.len() && i != j ==> (#[trigger] rows[i]).key() != (
        #[trigger] rows[j]).key()
}

/// Row `k` is the first that has the identifier.
pub open spec fn first_at<T: Listed>(rows: Seq<T>, key: Seq<char>, k: int) -> bool {
    &&& 0 <= k < rows.len()
    &&& rows[k].key() == key
    &&& forall|j: int| 0 <= j < k ==> (#[trigger] rows[j]).key() != key
}

/// The rows behind the cursor: all of them where there is none, and those that
/// follow its row where that is listed. A cursor whose row is gone stands for
/// its identifier: what is left are the rows whose identifiers sort behind it.
pub open spec fn behind<T: Listed>(rows: Seq<T>, cursor: Option<Seq<char>>) -> Seq<T> {
    match cursor {
        None => rows,
        Some(key) => if exists|k: int| first_at(rows, key, k) {
            rows.skip((choose|k: int| first_at(rows, key, k)) + 1)
        } else {
            rows.filter(|row: T| sorts_behind(row.key(), key))
        },
    }
}

/// The rows on the page behind the cursor.
pub open spec fn page_rows<T: Listed>(rows: Seq<T>, cursor: Option<Seq<char>>, size: int) -> Seq<
    T,
> {
    on_page(behind(rows, cursor), size)
}

/// The cursor of the page after that: the last row on this one, where there is
/// more.
pub open spec fn next_key<T: Listed>(
    rows: Seq<T>,
    cursor: Option<Seq<char>>,
    size: int,
) -> Option<Seq<char>> {
    if has_more(behind(rows, cursor), size) {
        Some(behind(rows, cursor)[size - 1].key())
    } else {
        None
    }
}

/// A cursor as it is answered: empty where there is no further page.
pub open spec fn cursor_text(key: Option<Seq<char>>) -> Seq<char> {
    match key {
        Some(key) => key,
        None => Seq::empty(),
    }
}

fn rows_behind<T: Listed>(rows: Vec<T>, cursor: &Option<Id>) -> (r: Vec<T>)
    ensures
        r@ == behind(rows@, opt_view(*cursor)),
{
    let key = match cursor {
        None => {
            return rows;
        },
        Some(key) => key,
    };
    let ghost all = rows@;
    let mut k: usize = 0;
    while k < rows.len()
        invariant
            k <= rows.len(),
            rows@ == all,
            opt_view(*cursor) == Some(key@),
            forall|j: int| 0 <= j < k ==> (#[trigger] rows[j]).key() != key@,
        decreases rows.len() - k,
    {
        if *rows[k].id() == *key {
            let mut rows = rows;
            let r = rows.split_off(k + 1);
            proof {
                assert(first_at(all, key@, k as int));
                let c = choose|c: int| first_at(all, key@, c);
                assert(c == k) by {
                    if c < k {
                        assert(all[c].key() != key@);
                    }
                    if k < c {
                        assert(all[k as int].key() != key@);
                    }
                }
                assert(r@ =~= all.skip(k + 1));
            }
            return r;
        }
        k += 1;
    }
    assert(!exists|c: int| first_at(all, key@, c));
    let ghost keep = |row: T| sorts_behind(row.key(), key@);
    let mut r: Vec<T> = Vec::new();
    assert(all.take(0).filter(keep) =~= r@) by {
        reveal(Seq::filter);
    }
    for row in it: rows
        invariant
            it.seq() == all,
            keep == (|row: T| sorts_behind(row.key(), key@)),
            r@ == all.take(it.index()).filter(keep),
    {
        proof {
            assert(all.take(it.index() + 1).drop_last() =~= all.take(it.index()));
            reveal(Seq::filter);
        }
        if is_behind(row.id().as_str(), key.as_str()) {
            r.push(row);
        }
    }
    assert(all.take(all.len() as int) =~= all);
    r
}

/// The page behind the cursor, and the cursor of the page after it.
pub fn page_behind<T: Listed>(rows: Vec<T>, cursor: &Option<Id>, size: i32) -> (r: (
    Vec<T>,
    String,
))
    requires
        size >= 1,
    ensures
        r.0@ == page_rows(rows@, opt_view(*cursor), size as int),
        r.1@ == cursor_text(next_key(rows@, opt_view(*cursor), size as int)),
{
    let mut left = rows_behind(rows, cursor);
    let more = cut_page(&mut left, size);
    let next: String = if more {
        left[left.len() - 1].id().clone()
    } else {
        String::new()
    };
    (left, next)
}

/// The cursors of pages read one after the other: the first page has none, and
/// each further one has the cursor that the page before it gave.
pub open spec fn is_path<T: Listed>(
    rows: Seq<T>,
    size: int,
    cursors: Seq<Option<Seq<char>>>,
) -> bool {
    &&& cursors.len() >= 1
    &&& cursors[0] is None
    &&& forall|i: int|
        1 <= i < cursors.len() ==> (#[trigger] cursors[i]) is Some && cursors[i] == next_key(
            rows,
            cursors[i - 1],
            size,
        )
}

/// What is on the pages with these cursors, one page after the other.
pub open spec fn walked<T: Listed>(
    rows: Seq<T>,
    size: int,
    cursors: Seq<Option<Seq<char>>>,
) -> Seq<T>
    decreases cursors.len(),
{
    if cursors.len() == 0 {
        Seq::empty()
    } else {
        walked(rows, size, cursors.drop_last()) + page_rows(rows, cursors.last(), size)
    }
}

proof fn lemma_path<T: Listed>(rows: Seq<T>, size: int, cursors: Seq<Option<Seq<char>>>)
    requires
        distinct(rows),
        size >= 1,
        is_path(rows, size, cursors),
    ensures
        0 <= (cursors.len() - 1) * size <= rows.len(),
        behind(rows, cursors.last()) == rows.skip((cursors.len() - 1) * size),
        walked(rows, size, cursors.drop_last()) == rows.take((cursors.len() - 1) * size),
    decreases cursors.len(),
{
    let n = cursors.len() - 1;
    if n == 0 {
        assert(rows.skip(0) =~= rows);
        assert(rows.take(0) =~= Seq::empty());
    } else {
        let before = cursors.drop_last();
        assert(is_path(rows, size, before)) by {
            assert forall|i: int| 1 <= i < before.len() implies (#[trigger] before[i]) is Some
                && before[i] == next_key(rows, before[i - 1], size) by {
                assert(cursors[i] is Some && cursors[i] == next_key(rows, cursors[i - 1], size));
            }
        }
        lemma_path(rows, size, before);
        let start = (n - 1) * size;
        assert(n * size == start + size) by (nonlinear_arith)
            requires
                start == (n - 1) * size,
        ;
        let left = behind(rows, before.last());
        assert(cursors[n] == next_key(rows, cursors[n - 1], size));
        assert(left == rows.skip(start));
        assert(has_more(left, size));
        let last = start + size - 1;
        let key = rows[last].key();
        assert(left[size - 1] == rows[last]);
        assert(cursors.last() == Some(key));
        assert(first_at(rows, key, last));
        let k = choose|k: int| first_at(rows, key, k);
        assert(k == last);
        assert(rows.take(start) + left.take(size) =~= rows.take(n * size));
    }
}

/// Following the cursors from the first page to the last shows every row exactly
/// once, in the order of the listing.
pub proof fn law_walk_shows_every_row_once<T: Listed>(
    rows: Seq<T>,
    size: int,
    cursors: Seq<Option<Seq<char>>>,
)
    requires
        distinct(rows),
        size >= 1,
        is_path(rows, size, cursors),
        next_key(rows, cursors.last(), size) is None,
    ensures
        walked(rows, size, cursors) == rows,
{
    lemma_path(rows, size, cursors);
    let at = (cursors.len() - 1) * size;
    assert(rows.take(at) + rows.skip(at) =~= rows);
}

/// Following the cursors comes to an end: there are never more pages than rows,
/// but for the one page of an empty listing.
pub proof fn law_walk_comes_to_an_end<T: Listed>(
    rows: Seq<T>,
    size: int,
    cursors: Seq<Option<Seq<char>>>,
)
    requires
        distinct(rows),
        size >= 1,
        is_path(rows, size, cursors),
    ensures
        cursors.len() == 1 || cursors.len() <= rows.len(),
{
    let n = cursors.len() - 1;
    if n > 0 {
        let before = cursors.drop_last();
        assert(is_path(rows, size, before)) by {
            assert forall|i: int| 1 <= i < before.len() implies (#[trigger] before[i]) is Some
                && before[i] == next_key(rows, before[i - 1], size) by {
                assert(cursors[i] is Some && cursors[i] == next_key(rows, cursors[i - 1], size));
            }
        }
        lemma_path(rows, size, before);
        assert(cursors[n] == next_key(rows, cursors[n - 1], size));
        assert(rows.len() - (n - 1) * size > size);
        assert(n <= n * size) by (nonlinear_arith)
            requires
                size >= 1,
                n > 0,
        ;
        assert((n - 1) * size + size == n * size) by (nonlinear_arith);
    }
}

/// Leaving rows out of a listing leaves no two with the same identifier.
pub proof fn lemma_filter_keeps_distinct<T: Listed>(rows: Seq<T>, keep: spec_fn(T) -> bool)
    requires
        distinct(rows),
    ensures
        distinct(rows.filter(keep)),
    decreases rows.len(),
{
    reveal(Seq::filter);
    if rows.len() > 0 {
        let front = rows.drop_last();
        assert(distinct(front));
        lemma_filter_keeps_distinct(front, keep);
        let kept = front.filter(keep);
        assert forall|i: int| 0 <= i < kept.len() implies (#[trigger] kept[i]).key()
            != rows.last().key() by {
            assert(kept.contains(kept[i]));
            front.lemma_filter_contains_rev(keep, kept[i]);
            let j = choose|j: int| 0 <= j < front.len() && front[j] == kept[i];
            assert(rows[j] == kept[i]);
        }
    }
}

/// A page holds as many rows as were asked for, but one at least and 200 at
/// most. Of more rows it shows the first, else all, and says whether there are
/// more.
pub proof fn law_page_holds_what_was_asked<T>(rows: Seq<T>, limit: int)
    ensures
        page_size(limit) == if limit < 1 {
            1
        } else if limit > 200 {
            200
        } else {
            limit
        },
        has_more(rows, limit) <==> rows.len() > limit,
        0 <= limit < rows.len() ==> on_page(rows, limit) == rows.take(limit),
        rows.len() <= limit ==> on_page(rows, limit) == rows,
{
}

/// A page begins right behind the row that the cursor names: the row itself and
/// all before it are left out, all behind it are there.
pub proof fn law_page_begins_behind_the_cursor<T: Listed>(rows: Seq<T>, k: int, size: int)
    requires
        0 <= k < rows.len(),
        forall|j: int| 0 <= j < k ==> (#[trigger] rows[j]).key() != rows[k].key(),
        0 < size,
    ensures
        behind(rows, None) == rows,
        behind(rows, Some(rows[k].key())) == rows.skip(k + 1),
        page_rows(rows, Some(rows[k].key()), size) == if rows.len() - k - 1 > size {
            rows.subrange(k + 1, k + 1 + size)
        } else {
            rows.skip(k + 1)
        },
        next_key(rows, Some(rows[k].key()), size) == if rows.len() - k - 1 > size {
            Some(rows[k + size].key())
        } else {
            None
        },
        cursor_text(Some(rows[k].key())) == rows[k].key(),
        cursor_text(None).len() == 0,
{
    let key = rows[k].key();
    assert(first_at(rows, key, k));
    let c = choose|c: int| first_at(rows, key, c);
    assert(c == k);
    if rows.len() - k - 1 > size {
        assert(rows.skip(k + 1).take(size) =~= rows.subrange(k + 1, k + 1 + size));
    }
}

/// Where no row has the cursor's key any more, the page begins with the rows
/// whose keys sort behind it, and leaves out no such row.
pub proof fn law_lost_cursor_goes_by_the_key<T: Listed>(rows: Seq<T>, key: Seq<char>, row: T)
    requires
        forall|j: int| 0 <= j < rows.len() ==> (#[trigger] rows[j]).key() != key,
    ensures
        behind(rows, Some(key)).contains(row) <==> rows.contains(row) && sorts_behind(
            row.key(),
            key,
        ),
{
    let keep = |row: T| sorts_behind(row.key(), key);
    if behind(rows, Some(key)).contains(row) {
        rows.lemma_filter_contains_rev(keep, row);
        let i = choose|i: int| 0 <= i < rows.filter(keep).len() && rows.filter(keep)[i] == row;
        rows.lemma_filter_pred(keep, i);
    }
    if rows.contains(row) && sorts_behind(row.key(), key) {
        let i = choose|i: int| 0 <= i < rows.len() && rows[i] == row;
        rows.lemma_filter_contains(keep, i);
    }
}

/// A filter keeps the rows of a list at certain places: those that meet the
/// condition, all of them, each once and in their order.
pub proof fn lemma_filter_selects<T>(rows: Seq<T>, keep: spec_fn(T) -> bool) -> (at: Seq<int>)
    ensures
        at.len() == rows.filter(keep).len(),
        forall|i: int| 0 <= i < at.len() ==> 0 <= #[trigger] at[i] < rows.len(),
        forall|i: int| 0 <= i < at.len() ==> rows.filter(keep)[i] == rows[#[trigger] at[i]],
        forall|i: int, j: int| 0 <= i < j < at.len() ==> #[trigger] at[i] < #[trigger] at[j],
        forall|k: int| #[trigger] at.contains(k) <==> 0 <= k < rows.len() && keep(rows[k]),
    decreases rows.len(),
{
    reveal(Seq::filter);
    if rows.len() == 0 {
        Seq::empty()
    } else {
        let front = rows.drop_last();
        let n = front.len() as int;
        let before = lemma_filter_selects(front, keep);
        let at = if keep(rows.last()) {
            before.push(n)
        } else {
            before
        };
        assert forall|k: int| #[trigger] at.contains(k) <==> 0 <= k < rows.len() && keep(
            rows[k],
        ) by {
            if at.contains(k) {
                let i = choose|i: int| 0 <= i < at.len() && at[i] == k;
                if i < before.len() {
                    assert(before[i] == k);
                    assert(before.contains(k));
                    assert(front[k] == rows[k]);
                }
            }
            if 0 <= k < rows.len() && keep(rows[k]) {
                if k < n {
                    assert(front[k] == rows[k]);
                    assert(before.contains(k));
                    let i = choose|i: int| 0 <= i < before.len() && before[i] == k;
                    assert(at[i] == k);
                } else {
                    assert(at[before.len() as int] == k);
                }
            }
        }
        assert forall|i: int| 0 <= i < at.len() implies rows.filter(keep)[i] == rows[
        #[trigger] at[i]] by {
            if i < before.len() {
                assert(front.filter(keep)[i] == front[before[i]]);
            }
        }
        at
    }
}

} // verus!
