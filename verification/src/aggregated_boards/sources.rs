//! The list of source boards of an aggregated board.
use crate::aggregated_boards::model::{get_aggregate_metadata, shows_aggregate};
use crate::aggregated_boards::model::{AggregatedBoard, AggregatedBoardRow};
use crate::context::{checked_id, id_fault, object_fault, require_id, tenant_fault};
use crate::context::{tenant_id_from_request, Id, IdArg, RequestContext};
use crate::event::EventRow;
use crate::json::{fields, JsonView, ObjectBuilder};
use crate::page::lemma_filter_selects;
use crate::number::{low_i32, truncate_len};
use crate::position::{dense, find_slot, full, law_insert_keeps_dense, law_renumber_append};
use crate::position::{law_renumber_keeps_dense_list, law_renumber_makes_dense};
use crate::position::{law_renumbering_counts_in_order, listed_at, lists};
use crate::position::{open_slot, opened, positions, renumber, renumbered, same_members, Slot};
use crate::status::{fault, first_of3, Code, Status, StatusView};
use vstd::prelude::*;

verus! {

/// A source board of an aggregated board that may be acted on.
#[derive(Debug)]
pub struct SourceCall {
    pub tenant_id: String,
    pub aggregated_board_id: Id,
    pub board_id: Id,
}

/// Why a request on a source board is refused before anything is looked up.
pub open spec fn source_fault(ctx: RequestContext, board_id: IdArg) -> Option<StatusView> {
    first_of3(
        tenant_fault(ctx),
        object_fault(ctx, "invalid aggregated_board_id"),
        id_fault(board_id, "invalid board_id"),
    )
}

/// Checks a request to add, remove or move a source board of the aggregated
/// board that the call was authorized for.
pub fn source_call(ctx: &RequestContext, board_id: &IdArg) -> (r: Result<SourceCall, Status>)
    ensures
        match r {
            Ok(call) => {
                &&& source_fault(*ctx, *board_id) is None
                &&& ctx.tenant() == Some(call.tenant_id)
                &&& ctx.object() == Some(call.aggregated_board_id)
                &&& board_id.id == Some(call.board_id)
            },
            Err(e) => source_fault(*ctx, *board_id) == Some(e@),
        },
{
    let tenant_id = tenant_id_from_request(ctx)?;
    let aggregated_board_id = checked_id(ctx, "invalid aggregated_board_id")?;
    let board_id = require_id(board_id, "invalid board_id")?;
    Ok(SourceCall { tenant_id, aggregated_board_id, board_id })
}

/// The list of source boards as it is to be stored.
#[derive(Debug)]
pub struct SourceChange {
    pub tenant_id: String,
    pub aggregated_board_id: Id,
    /// A board that is not in the list any more.
    pub removed: Option<Id>,
    /// All boards of the list with their positions.
    pub sources: Vec<Slot>,
    /// The event that reports the change, where it is reported. Its board is the
    /// aggregated board.
    pub event: Option<EventRow>,
}

/// What has been learned for a request on a source board.
#[derive(Debug)]
pub struct SourceFacts {
    /// The list, by position and then by age.
    pub sources: Option<Vec<Slot>>,
    /// The change was stored.
    pub stored: bool,
    /// The aggregated board, once it was looked for.
    pub board: Option<Option<AggregatedBoardRow>>,
}

/// What a request on a source board needs next.
#[derive(Debug)]
pub enum SourceStep {
    /// Read the list, by position and then by age.
    LoadSources { aggregated_board_id: Id, tenant_id: String },
    /// Store everything in it together.
    Store(SourceChange),
    /// Read the aggregated board to answer.
    LoadBoard { aggregated_board_id: Id, tenant_id: String },
    Answer(AggregatedBoard),
    Refuse(Status),
}

/// `r` reads the aggregated board to answer, or answers it.
pub open spec fn answers_board(
    r: SourceStep,
    call: SourceCall,
    board: Option<Option<AggregatedBoardRow>>,
) -> bool {
    match board {
        None => r == (SourceStep::LoadBoard {
            aggregated_board_id: call.aggregated_board_id,
            tenant_id: call.tenant_id,
        }),
        Some(None) => r matches SourceStep::Refuse(e) && e@ == fault(
            Code::NotFound,
            "aggregated board not found",
        ),
        Some(Some(row)) => r matches SourceStep::Answer(b) && shows_aggregate(b, row),
    }
}

fn answer_board(call: &SourceCall, board: &Option<Option<AggregatedBoardRow>>) -> (r: SourceStep)
    ensures
        answers_board(r, *call, *board),
{
    match board {
        None => SourceStep::LoadBoard {
            aggregated_board_id: call.aggregated_board_id.clone(),
            tenant_id: call.tenant_id.clone(),
        },
        Some(found) => match get_aggregate_metadata(found) {
            Ok(b) => SourceStep::Answer(b),
            Err(e) => SourceStep::Refuse(e),
        },
    }
}

/// `r` reads the list.
pub open spec fn loads_sources(r: SourceStep, call: SourceCall) -> bool {
    r == (SourceStep::LoadSources {
        aggregated_board_id: call.aggregated_board_id,
        tenant_id: call.tenant_id,
    })
}

fn load_sources(call: &SourceCall) -> (r: SourceStep)
    ensures
        loads_sources(r, *call),
{
    SourceStep::LoadSources {
        aggregated_board_id: call.aggregated_board_id.clone(),
        tenant_id: call.tenant_id.clone(),
    }
}

/// `event` reports a change of the board in the list.
pub open spec fn is_source_event(
    event: Option<EventRow>,
    call: SourceCall,
    event_type: &str,
) -> bool {
    &&& event matches Some(e)
    &&& e.tenant_id == call.tenant_id
    &&& e.board_id == call.aggregated_board_id
    &&& e.event_type@ == event_type@
    &&& e.payload@ == fields().text("aggregated_board_id", call.aggregated_board_id@).text(
        "board_id",
        call.board_id@,
    ).object()
}

fn source_event(call: &SourceCall, event_type: &'static str) -> (r: Option<EventRow>)
    ensures
        is_source_event(r, *call, event_type),
{
    let payload = ObjectBuilder::new().put_text(
        "aggregated_board_id",
        &call.aggregated_board_id,
    ).put_text("board_id", &call.board_id).build();
    Some(
        EventRow {
            tenant_id: call.tenant_id.clone(),
            board_id: call.aggregated_board_id.clone(),
            event_type,
            payload,
        },
    )
}

/// Where a board is put that is to be added at `position` of `n` boards: behind
/// them all where no position is given.
pub open spec fn insert_at(position: int, n: int) -> int {
    if position > 0 {
        position
    } else {
        low_i32(n)
    }
}

/// The list with room made at `at` and the board put there, before it is
/// renumbered: at its old entry where it was in the list, else at the end.
pub open spec fn is_put(
    before: Seq<Slot>,
    after: Seq<Slot>,
    board_id: Id,
    at: int,
) -> bool {
    if lists(before, board_id@) {
        exists|k: int| #[trigger]
            listed_at(before, board_id@, k) && same_members(before, after) && positions(after)
                == opened(positions(before), at).update(k, at)
    } else {
        &&& after.len() == before.len() + 1
        &&& same_members(before, after.drop_last())
        &&& after.last().id == board_id
        &&& positions(after) == opened(positions(before), at).push(at)
    }
}

fn put_source(slots: &Vec<Slot>, board_id: &Id, at: i32) -> (r: Option<Vec<Slot>>)
    ensures
        match r {
            Some(after) => !full(slots@) && is_put(slots@, after@, *board_id, at as int),
            None => full(slots@),
        },
{
    let mut after = match open_slot(slots, at) {
        Some(after) => after,
        None => {
            return None;
        },
    };
    let ghost opened_slots = after@;
    match find_slot(slots, board_id) {
        Some(k) => {
            let id = after[k].id.clone();
            after.set(k, Slot { id, position: at });
            proof {
                assert(listed_at(slots@, board_id@, k as int));
                assert(lists(slots@, board_id@));
                assert(positions(after@) =~= opened(positions(slots@), at as int).update(
                    k as int,
                    at as int,
                ));
            }
        },
        None => {
            after.push(Slot { id: board_id.clone(), position: at });
            proof {
                assert(after@.drop_last() =~= opened_slots);
                assert(positions(after@) =~= opened(positions(slots@), at as int).push(at as int));
            }
        },
    }
    Some(after)
}

/// `sources` is the list with the board put at `at`, renumbered 0, 1, 2, .. in
/// the order that results.
pub open spec fn is_added(
    before: Seq<Slot>,
    sources: Seq<Slot>,
    board_id: Id,
    at: int,
) -> bool {
    exists|put: Seq<Slot>| #[trigger]
        is_put(before, put, board_id, at) && same_members(put, sources) && positions(sources)
            == renumbered(positions(put))
}

/// Adds a source board, or puts one that is in the list elsewhere: what to do
/// next, given what has been learned.
pub fn add_source_board(call: &SourceCall, position: i32, facts: &SourceFacts) -> (r: SourceStep)
    requires
        facts.sources matches Some(s) ==> s.len() < i32::MAX,
    ensures
        match facts.sources {
            None => loads_sources(r, *call),
            Some(slots) => if full(slots@) {
                r matches SourceStep::Refuse(e) && e@ == fault(
                    Code::Internal,
                    "failed to shift source board positions",
                )
            } else if !facts.stored {
                &&& r matches SourceStep::Store(change)
                &&& change.tenant_id == call.tenant_id
                &&& change.aggregated_board_id == call.aggregated_board_id
                &&& change.removed is None
                &&& is_added(
                    slots@,
                    change.sources@,
                    call.board_id,
                    insert_at(position as int, slots.len() as int),
                )
                &&& is_source_event(change.event, *call, "SourceBoardAdded")
            } else {
                answers_board(r, *call, facts.board)
            },
        },
{
    let slots = match &facts.sources {
        None => {
            return load_sources(call);
        },
        Some(slots) => slots,
    };
    let at: i32 = if position > 0 {
        position
    } else {
        truncate_len(slots.len())
    };
    let put = match put_source(slots, &call.board_id, at) {
        Some(put) => put,
        None => {
            return SourceStep::Refuse(Status::internal("failed to shift source board positions"));
        },
    };
    if !facts.stored {
        let sources = renumber(&put);
        proof {
            assert(is_put(slots@, put@, call.board_id, at as int));
        }
        return SourceStep::Store(
            SourceChange {
                tenant_id: call.tenant_id.clone(),
                aggregated_board_id: call.aggregated_board_id.clone(),
                removed: None,
                sources,
                event: source_event(call, "SourceBoardAdded"),
            },
        );
    }
    answer_board(call, &facts.board)
}

/// Adding a source board leaves the list dense, however it was numbered before.
pub proof fn law_added_source_leaves_list_dense(
    before: Seq<Slot>,
    sources: Seq<Slot>,
    board_id: Id,
    at: int,
)
    requires
        is_added(before, sources, board_id, at),
    ensures
        dense(positions(sources)),
{
    let put = choose|put: Seq<Slot>| #[trigger]
        is_put(before, put, board_id, at) && same_members(put, sources) && positions(sources)
            == renumbered(positions(put));
    law_renumber_makes_dense(positions(put));
}

/// A new source board lands exactly at the position asked for, where that is a
/// place of a dense list or right behind it; the boards before it stay and the
/// others move up by one.
pub proof fn law_new_source_lands_where_asked(
    before: Seq<Slot>,
    sources: Seq<Slot>,
    board_id: Id,
    at: int,
)
    requires
        is_added(before, sources, board_id, at),
        dense(positions(before)),
        !lists(before, board_id@),
        0 <= at <= before.len(),
    ensures
        sources.len() == before.len() + 1,
        sources.last().id == board_id,
        sources.last().position == at,
        positions(sources) == opened(positions(before), at).push(at),
{
    let put = choose|put: Seq<Slot>| #[trigger]
        is_put(before, put, board_id, at) && same_members(put, sources) && positions(sources)
            == renumbered(positions(put));
    law_insert_keeps_dense(positions(before), at);
    law_renumber_keeps_dense_list(positions(put));
    assert(positions(sources).last() == at);
    assert(positions(sources).last() == sources.last().position);
}

/// The slot is another board's.
pub open spec fn is_other(s: Slot, board_id: Seq<char>) -> bool {
    s.id@ != board_id
}

/// The list without the board.
pub open spec fn without(slots: Seq<Slot>, board_id: Seq<char>) -> Seq<Slot> {
    slots.filter(|s: Slot| is_other(s, board_id))
}

fn drop_source(slots: &Vec<Slot>, board_id: &Id) -> (r: Vec<Slot>)
    ensures
        r@ == without(slots@, board_id@),
        r.len() <= slots.len(),
{
    let ghost keep = |s: Slot| is_other(s, board_id@);
    let mut r: Vec<Slot> = Vec::new();
    let mut i: usize = 0;
    assert(slots@.take(0).filter(keep) =~= r@) by {
        reveal(Seq::filter);
    }
    while i < slots.len()
        invariant
            i <= slots.len(),
            keep == (|s: Slot| is_other(s, board_id@)),
            r@ == slots@.take(i as int).filter(keep),
            r.len() <= i,
        decreases slots.len() - i,
    {
        proof {
            assert(slots@.take(i + 1).drop_last() =~= slots@.take(i as int));
            reveal(Seq::filter);
        }
        if slots[i].id != *board_id {
            r.push(Slot { id: slots[i].id.clone(), position: slots[i].position });
        }
        i += 1;
    }
    assert(slots@.take(slots@.len() as int) =~= slots@);
    r
}

/// Removes a source board: what to do next, given what has been learned. A
/// board that is not in the list leaves it as it is, but for its numbering.
pub fn remove_source_board(call: &SourceCall, facts: &SourceFacts) -> (r: SourceStep)
    requires
        facts.sources matches Some(s) ==> s.len() < i32::MAX,
    ensures
        match facts.sources {
            None => loads_sources(r, *call),
            Some(slots) => if !facts.stored {
                &&& r matches SourceStep::Store(change)
                &&& change.tenant_id == call.tenant_id
                &&& change.aggregated_board_id == call.aggregated_board_id
                &&& change.removed == Some(call.board_id)
                &&& same_members(without(slots@, call.board_id@), change.sources@)
                &&& positions(change.sources@) == renumbered(
                    positions(without(slots@, call.board_id@)),
                )
                &&& is_source_event(change.event, *call, "SourceBoardRemoved")
            } else {
                answers_board(r, *call, facts.board)
            },
        },
{
    let slots = match &facts.sources {
        None => {
            return load_sources(call);
        },
        Some(slots) => slots,
    };
    if !facts.stored {
        let left = drop_source(slots, &call.board_id);
        return SourceStep::Store(
            SourceChange {
                tenant_id: call.tenant_id.clone(),
                aggregated_board_id: call.aggregated_board_id.clone(),
                removed: Some(call.board_id.clone()),
                sources: renumber(&left),
                event: source_event(call, "SourceBoardRemoved"),
            },
        );
    }
    answer_board(call, &facts.board)
}

/// Removing a source board leaves the list dense, and the board is gone from
/// it.
pub proof fn law_removed_source_is_gone_and_list_dense(
    before: Seq<Slot>,
    sources: Seq<Slot>,
    board_id: Seq<char>,
)
    requires
        same_members(without(before, board_id), sources),
        positions(sources) == renumbered(positions(without(before, board_id))),
    ensures
        dense(positions(sources)),
        !lists(sources, board_id),
{
    law_renumber_makes_dense(positions(without(before, board_id)));
    let keep = |s: Slot| is_other(s, board_id);
    assert forall|k: int| 0 <= k < sources.len() implies (#[trigger] sources[k]).id@ != board_id by {
        before.lemma_filter_pred(keep, k);
    }
}

/// Where in a list of `n` others a board goes that is to move to `to`: a place
/// behind the last stands for the end, and so does a negative one.
pub open spec fn move_target(to: int, n: int) -> int {
    if 0 <= to < n {
        to
    } else {
        n
    }
}

/// The boards of the list, in order.
pub open spec fn order(slots: Seq<Slot>) -> Seq<Id> {
    slots.map_values(|s: Slot| s.id)
}

/// The order after the board at index `k` has been taken out and put back at
/// `to`.
pub open spec fn reordered(ids: Seq<Id>, k: int, to: int) -> Seq<Id> {
    ids.remove(k).insert(move_target(to, ids.len() - 1), ids[k])
}

/// The boards numbered 0, 1, 2, .. in this order.
pub open spec fn numbers(ids: Seq<Id>, slots: Seq<Slot>) -> bool {
    &&& slots.len() == ids.len()
    &&& forall|i: int|
        0 <= i < ids.len() ==> (#[trigger] slots[i]).id == ids[i] && slots[i].position == i
}

fn reorder(slots: &Vec<Slot>, k: usize, to: i32) -> (r: Vec<Slot>)
    requires
        k < slots.len() < i32::MAX,
    ensures
        numbers(reordered(order(slots@), k as int, to as int), r@),
{
    let n: usize = slots.len() - 1;
    let target: usize = if to >= 0 && (to as usize) < n {
        to as usize
    } else {
        n
    };
    let ghost ids = order(slots@);
    let ghost goal = reordered(ids, k as int, to as int);
    let mut r: Vec<Slot> = Vec::new();
    let mut i: usize = 0;
    while i < slots.len()
        invariant
            i <= slots.len() < i32::MAX,
            k < slots.len(),
            n == slots.len() - 1,
            target <= n,
            ids == order(slots@),
            goal == ids.remove(k as int).insert(target as int, ids[k as int]),
            r.len() == i,
            forall|j: int|
                0 <= j < i ==> (#[trigger] r[j]).id == goal[j] && r[j].position == j,
        decreases slots.len() - i,
    {
        let from: usize = if i == target {
            k
        } else {
            let j: usize = if i < target {
                i
            } else {
                i - 1
            };
            if j < k {
                j
            } else {
                j + 1
            }
        };
        assert(goal[i as int] == slots@[from as int].id);
        r.push(Slot { id: slots[from].id.clone(), position: i as i32 });
        i += 1;
    }
    r
}

/// Moves a source board: what to do next, given what has been learned. Moves
/// are not reported with an event.
pub fn move_source_board(call: &SourceCall, to_position: i32, facts: &SourceFacts) -> (r:
    SourceStep)
    requires
        facts.sources matches Some(s) ==> s.len() < i32::MAX,
    ensures
        match facts.sources {
            None => loads_sources(r, *call),
            Some(slots) => if !lists(slots@, call.board_id@) {
                r matches SourceStep::Refuse(e) && e@ == fault(
                    Code::NotFound,
                    "source board not found in aggregate",
                )
            } else if !facts.stored {
                &&& r matches SourceStep::Store(change)
                &&& change.tenant_id == call.tenant_id
                &&& change.aggregated_board_id == call.aggregated_board_id
                &&& change.removed is None
                &&& change.event is None
                &&& exists|k: int| #[trigger]
                    listed_at(slots@, call.board_id@, k) && numbers(
                        reordered(order(slots@), k, to_position as int),
                        change.sources@,
                    )
            } else {
                answers_board(r, *call, facts.board)
            },
        },
{
    let slots = match &facts.sources {
        None => {
            return load_sources(call);
        },
        Some(slots) => slots,
    };
    let k: usize = match find_slot(slots, &call.board_id) {
        Some(k) => k,
        None => {
            return SourceStep::Refuse(Status::not_found("source board not found in aggregate"));
        },
    };
    assert(listed_at(slots@, call.board_id@, k as int));
    assert(lists(slots@, call.board_id@));
    if !facts.stored {
        return SourceStep::Store(
            SourceChange {
                tenant_id: call.tenant_id.clone(),
                aggregated_board_id: call.aggregated_board_id.clone(),
                removed: None,
                sources: reorder(slots, k, to_position),
                event: None,
            },
        );
    }
    answer_board(call, &facts.board)
}

/// Moving a source board keeps every board in the list, numbers them without a
/// gap, and puts the board where it was to go.
pub proof fn law_moved_source_keeps_all_boards(slots: Seq<Slot>, k: int, to: int, sources: Seq<Slot>)
    requires
        0 <= k < slots.len(),
        numbers(reordered(order(slots), k, to), sources),
    ensures
        sources.len() == slots.len(),
        dense(positions(sources)),
        order(sources).to_multiset() == order(slots).to_multiset(),
        sources[move_target(to, slots.len() - 1)].id == slots[k].id,
{
    let ids = order(slots);
    let t = move_target(to, slots.len() - 1);
    assert(order(sources) =~= reordered(ids, k, to));
    assert(ids.remove(k).insert(t, ids[k]).to_multiset() =~= ids.to_multiset()) by {
        broadcast use vstd::seq_lib::group_to_multiset_ensures;
        assert(ids.remove(k).to_multiset() =~= ids.to_multiset().remove(ids[k]));
        assert(ids.contains(ids[k]));
        assert(ids.to_multiset().count(ids[k]) > 0);
    }
}

/// A new source board that is to go beyond the end of a dense list lands at its
/// end, and no other board moves.
pub proof fn law_source_beyond_the_end_lands_last(
    before: Seq<Slot>,
    sources: Seq<Slot>,
    board_id: Id,
    at: int,
)
    requires
        is_added(before, sources, board_id, at),
        dense(positions(before)),
        !lists(before, board_id@),
        before.len() <= at,
    ensures
        sources.len() == before.len() + 1,
        sources.last().id == board_id,
        sources.last().position == before.len(),
        positions(sources) == positions(before).push(before.len() as int),
{
    let put = choose|put: Seq<Slot>| #[trigger]
        is_put(before, put, board_id, at) && same_members(put, sources) && positions(sources)
            == renumbered(positions(put));
    let p = positions(before);
    assert(opened(p, at) =~= p);
    law_renumber_append(p, at);
    assert(positions(sources).last() == sources.last().position);
}

/// A board that is added without a place goes behind all that are listed, one
/// that is added with a place goes there.
pub proof fn law_place_of_an_added_source(position: int, n: int)
    requires
        0 <= n <= i32::MAX,
    ensures
        position > 0 ==> insert_at(position, n) == position,
        position <= 0 ==> insert_at(position, n) == n,
{
}

/// Adding a board keeps all boards that are listed, in their order, and puts the
/// board between those that stood in front of its place and those that stood
/// there or behind. A board that is listed already is not listed twice.
pub proof fn law_added_source_comes_between(
    before: Seq<Slot>,
    sources: Seq<Slot>,
    board_id: Id,
    at: int,
) -> (n: int)
    requires
        is_added(before, sources, board_id, at),
    ensures
        0 <= n < sources.len(),
        sources[n].id@ == board_id@,
        n == before.len() <==> !(exists|k: int|
            0 <= k < before.len() && (#[trigger] before[k]).id@ == board_id@),
        n == before.len() ==> sources.len() == before.len() + 1,
        n < before.len() ==> sources.len() == before.len() && forall|j: int|
            0 <= j < n ==> (#[trigger] before[j]).id@ != board_id@,
        forall|i: int| 0 <= i < before.len() ==> (#[trigger] sources[i]).id == before[i].id,
        forall|i: int|
            0 <= i < sources.len() ==> 0 <= (#[trigger] sources[i]).position < sources.len(),
        forall|i: int|
            0 <= i < before.len() && i != n ==> (before[i].position < at <==> (
            #[trigger] sources[i]).position < sources[n].position),
        forall|i: int|
            0 <= i < before.len() && i != n ==> (before[i].position >= at <==> (
            #[trigger] sources[i]).position > sources[n].position),
        forall|i: int, j: int|
            0 <= i < before.len() && 0 <= j < before.len() && i != n && j != n ==> (
            before[i].position < before[j].position || before[i].position == before[j].position
                && i < j <==> (#[trigger] sources[i]).position < (#[trigger] sources[j]).position),
{
    let put = choose|put: Seq<Slot>| #[trigger]
        is_put(before, put, board_id, at) && same_members(put, sources) && positions(sources)
            == renumbered(positions(put));
    law_renumbering_counts_in_order(put, sources);
    let listed = lists(before, board_id@);
    let n = if listed {
        choose|k: int| #[trigger]
            listed_at(before, board_id@, k) && same_members(before, put) && positions(put)
                == opened(positions(before), at).update(k, at)
    } else {
        before.len() as int
    };
    assert(positions(put)[n] == put[n].position);
    assert forall|i: int| 0 <= i < before.len() implies (#[trigger] sources[i]).id
        == before[i].id by {
        if !listed {
            assert(put.drop_last()[i] == put[i]);
        }
        assert(put[i].id == before[i].id);
    }
    assert forall|i: int| 0 <= i < before.len() && i != n implies put[i].position == (if (
    #[trigger] before[i]).position >= at {
        before[i].position + 1
    } else {
        before[i].position as int
    }) by {
        assert(positions(put)[i] == put[i].position);
        assert(positions(before)[i] == before[i].position);
    }
    if listed {
        assert(put[n].id == before[n].id);
    }
    assert forall|i: int| 0 <= i < before.len() && i != n implies ((before[i].position < at <==> (
    #[trigger] sources[i]).position < sources[n].position) && (before[i].position >= at
        <==> sources[i].position > sources[n].position)) by {
        assert(put[n].position == at);
        assert(put[i].position < put[n].position <==> before[i].position < at);
        assert(put[i].position != put[n].position);
        assert(sources[i].position < sources[n].position || sources[n].position
            < sources[i].position);
    }
    n
}

/// Removing a board keeps all other boards, each once and in their order, and
/// numbers them from 0 on.
pub proof fn law_removed_source_leaves_the_others(
    before: Seq<Slot>,
    sources: Seq<Slot>,
    board_id: Seq<char>,
) -> (at: Seq<int>)
    requires
        same_members(without(before, board_id), sources),
        positions(sources) == renumbered(positions(without(before, board_id))),
    ensures
        at.len() == sources.len(),
        forall|i: int, j: int| 0 <= i < j < at.len() ==> #[trigger] at[i] < #[trigger] at[j],
        forall|k: int| #[trigger]
            at.contains(k) <==> 0 <= k < before.len() && before[k].id@ != board_id,
        forall|i: int| 0 <= i < at.len() ==> sources[i].id == before[#[trigger] at[i]].id,
        forall|i: int|
            0 <= i < sources.len() ==> 0 <= (#[trigger] sources[i]).position < sources.len(),
        forall|i: int, j: int|
            0 <= i < at.len() && 0 <= j < at.len() ==> (before[at[i]].position
                < before[at[j]].position || before[at[i]].position == before[at[j]].position && i
                < j <==> (#[trigger] sources[i]).position < (#[trigger] sources[j]).position),
{
    let left = without(before, board_id);
    let at = lemma_filter_selects(before, |s: Slot| is_other(s, board_id));
    law_renumbering_counts_in_order(left, sources);
    assert forall|i: int| 0 <= i < at.len() implies left[i] == before[#[trigger] at[i]] by {}
    assert forall|i: int| 0 <= i < at.len() implies sources[i].id == before[#[trigger] at[i]].id by {
        assert(sources[i].id == left[i].id);
    }
    assert forall|i: int, j: int| 0 <= i < at.len() && 0 <= j < at.len() implies (
    before[at[i]].position < before[at[j]].position || before[at[i]].position
        == before[at[j]].position && i < j <==> (#[trigger] sources[i]).position < (
    #[trigger] sources[j]).position) by {
        assert(left[i] == before[at[i]]);
        assert(left[j] == before[at[j]]);
    }
    at
}

/// A board that is moved stands at the place that it was sent to, or last where
/// there is no such place; all others keep their order, and all are numbered
/// from 0 on.
pub proof fn law_moved_source_lands_where_asked(
    slots: Seq<Slot>,
    k: int,
    to: int,
    sources: Seq<Slot>,
    i: int,
)
    requires
        0 <= k < slots.len(),
        numbers(reordered(order(slots), k, to), sources),
        0 <= i < slots.len(),
    ensures
        sources.len() == slots.len(),
        sources[i].position == i,
        ({
            let last = slots.len() - 1;
            let place = if 0 <= to <= last {
                to
            } else {
                last
            };
            &&& i == place ==> sources[i].id == slots[k].id
            &&& i < place && i < k ==> sources[i].id == slots[i].id
            &&& i < place && i >= k ==> sources[i].id == slots[i + 1].id
            &&& i > place && i <= k ==> sources[i].id == slots[i - 1].id
            &&& i > place && i > k ==> sources[i].id == slots[i].id
        }),
{
    let ids = order(slots);
    assert(sources[i].id == reordered(ids, k, to)[i]);
}

/// A request on a source board reads the list of the aggregated board that the
/// call was authorized for. Once the change is stored it is answered that board.
pub proof fn law_source_request_answers_its_board(
    r: SourceStep,
    call: SourceCall,
    row: AggregatedBoardRow,
)
    ensures
        loads_sources(r, call) <==> r == (SourceStep::LoadSources {
            aggregated_board_id: call.aggregated_board_id,
            tenant_id: call.tenant_id,
        }),
        answers_board(r, call, None) <==> r == (SourceStep::LoadBoard {
            aggregated_board_id: call.aggregated_board_id,
            tenant_id: call.tenant_id,
        }),
        answers_board(r, call, Some(None)) <==> (r matches SourceStep::Refuse(e) && e.code
            == Code::NotFound && e.message@ == "aggregated board not found"@),
        answers_board(r, call, Some(Some(row))) <==> (r matches SourceStep::Answer(board)
            && shows_aggregate(board, row)),
{
}

/// A change of the list is reported on the aggregated board, with the board that
/// was added or removed.
pub proof fn law_source_event_names_both_boards(
    event: Option<EventRow>,
    call: SourceCall,
    event_type: &str,
)
    requires
        is_source_event(event, call, event_type),
    ensures
        event is Some,
        event->Some_0.tenant_id == call.tenant_id,
        event->Some_0.board_id == call.aggregated_board_id,
        event->Some_0.event_type@ == event_type@,
        event->Some_0.payload@ matches JsonView::Object(members) && members =~= seq![
            ("aggregated_board_id"@, JsonView::Text(call.aggregated_board_id@)),
            ("board_id"@, JsonView::Text(call.board_id@)),
        ],
{
}

/// A request on a source board needs a tenant, the aggregated board that the
/// call was authorized for and the source board, and is refused for the first
/// that is missing.
pub proof fn law_source_request_is_refused_in_order(ctx: RequestContext, board_id: IdArg)
    ensures
        source_fault(ctx, board_id) == if ctx.tenant() is None {
            Some(StatusView { code: Code::Unauthenticated, message: "missing tenant context"@ })
        } else if ctx.checked_object_id is None {
            Some(StatusView { code: Code::Internal, message: "missing CheckedObjectId extension"@ })
        } else if ctx.object() is None {
            Some(StatusView { code: Code::InvalidArgument, message: "invalid aggregated_board_id"@ })
        } else if board_id.id is None {
            Some(StatusView { code: Code::InvalidArgument, message: "invalid board_id"@ })
        } else {
            None
        },
{
}

} // verus!
