//! The columns of a board.
use crate::boards::model::{column_from_row, columns_from_rows, shows_column, shows_columns};
use crate::boards::model::{Column, ColumnRow};
use crate::boards::service::{board_call, board_fault, BoardCall};
use crate::context::{checked_id, id_fault, object_fault, require_id, tenant_fault};
use crate::context::{tenant_id_from_request, Id, IdArg, RequestContext};
use crate::position::{dense, end_position, find_slot, full, law_append_keeps_dense};
use crate::position::{law_end_lies_behind_the_last, law_insert_keeps_dense, law_move_keeps_dense};
use crate::position::{law_renumber_makes_dense, law_room_is_made_at_the_place};
use crate::position::{listed_at, lists, move_slot, moved, next_position, open_slot, opened};
use crate::position::{positions, renumber, renumbered, same_members, Slot};
use crate::status::{fault, fault_if, first_fault, first_of3, Code, Status, StatusView};
use crate::text::{if_not_empty, non_empty};
use vstd::prelude::*;

verus! {

/// A request to add a column.
#[derive(Debug)]
pub struct AddColumnRequest {
    pub title: String,
    pub accent: String,
    /// The most cards that the column is meant to hold; 0 stands for no limit.
    pub wip_limit: i32,
    /// The position on the board; 0 stands for its end.
    pub position: i32,
    pub idempotency_key: String,
}

/// A request to add a column that may go ahead.
#[derive(Debug)]
pub struct AddColumnCall {
    pub board_id: Id,
    pub tenant_id: String,
    pub req: AddColumnRequest,
}

/// Why a request to add a column is refused before anything is looked up.
pub open spec fn add_column_fault(ctx: RequestContext, req: AddColumnRequest) -> Option<
    StatusView,
> {
    first_of3(
        object_fault(ctx, "invalid board_id"),
        tenant_fault(ctx),
        fault_if(req.title@.len() == 0, Code::InvalidArgument, "title is required"),
    )
}

/// Checks a request to add a column to the board that the call was authorized
/// for.
pub fn add_column_call(ctx: &RequestContext, req: AddColumnRequest) -> (r: Result<
    AddColumnCall,
    Status,
>)
    ensures
        match r {
            Ok(call) => {
                &&& add_column_fault(*ctx, req) is None
                &&& ctx.object() == Some(call.board_id)
                &&& ctx.tenant() == Some(call.tenant_id)
                &&& call.req == req
            },
            Err(e) => add_column_fault(*ctx, req) == Some(e@),
        },
{
    let board_id = checked_id(ctx, "invalid board_id")?;
    let tenant_id = tenant_id_from_request(ctx)?;
    if req.title.as_str().is_empty() {
        return Err(Status::invalid_argument("title is required"));
    }
    Ok(AddColumnCall { board_id, tenant_id, req })
}

/// A column to be stored.
#[derive(Debug)]
pub struct NewColumn {
    pub id: Id,
    pub tenant_id: String,
    pub board_id: Id,
    pub title: String,
    pub accent: Option<String>,
    pub wip_limit: Option<i32>,
    pub position: i32,
    /// The board's other columns with room made for this one, where it is not
    /// appended.
    pub shifted: Option<Vec<Slot>>,
}

/// What has been learned for a request to add a column.
#[derive(Debug)]
pub struct AddColumnFacts {
    /// The column that was answered to an earlier request with the key.
    pub replay: Option<Option<Id>>,
    /// That column, once it was looked for.
    pub cached: Option<Option<ColumnRow>>,
    /// The columns of the board.
    pub slots: Option<Vec<Slot>>,
    /// The column as it was stored.
    pub stored: Option<ColumnRow>,
    /// The key was kept.
    pub kept: bool,
}

/// What a request to add a column needs next.
#[derive(Debug)]
pub enum AddColumnStep {
    /// Look for an earlier request with the key: the column it was answered.
    FindKey { tenant_id: String, key: String },
    /// Look for that column.
    FindColumn { column_id: Id, tenant_id: String },
    /// Read the columns of the board.
    LoadSlots { board_id: Id },
    /// Store everything in it together.
    Store(NewColumn),
    /// Keep the key with the column.
    KeepKey { tenant_id: String, key: String, column_id: Id },
    Answer(Column),
    Refuse(Status),
}

/// Why there is no place for a column at `position`.
pub open spec fn column_place_fault(position: int, slots: Seq<Slot>) -> Option<StatusView> {
    if position == 0 {
        fault_if(
            end_position(positions(slots)) > i32::MAX,
            Code::Internal,
            "failed to insert column",
        )
    } else {
        fault_if(full(slots), Code::Internal, "failed to insert column at position")
    }
}

/// `new` is the column that the call asks for, among the columns given: at its
/// position, with the ones from there on moved up, or behind them all.
pub open spec fn is_new_column(
    new: NewColumn,
    call: AddColumnCall,
    column_id: Id,
    slots: Seq<Slot>,
) -> bool {
    let req = call.req;
    &&& new.id == column_id
    &&& new.tenant_id == call.tenant_id
    &&& new.board_id == call.board_id
    &&& new.title == req.title
    &&& new.accent == non_empty(req.accent)
    &&& new.wip_limit == if req.wip_limit == 0 {
        None
    } else {
        Some(req.wip_limit)
    }
    &&& if req.position == 0 {
        new.position == end_position(positions(slots)) && new.shifted is None
    } else {
        &&& new.position == req.position
        &&& new.shifted matches Some(after) && same_members(slots, after@) && positions(after@)
            == opened(positions(slots), req.position as int)
    }
}

fn new_column(call: &AddColumnCall, column_id: &Id, slots: &Vec<Slot>) -> (r: Result<
    NewColumn,
    Status,
>)
    ensures
        match r {
            Ok(new) => column_place_fault(call.req.position as int, slots@) is None
                && is_new_column(new, *call, *column_id, slots@),
            Err(e) => column_place_fault(call.req.position as int, slots@) == Some(e@),
        },
{
    let req = &call.req;
    let (position, shifted): (i32, Option<Vec<Slot>>) = if req.position == 0 {
        match next_position(slots) {
            Some(end) => (end, None),
            None => {
                return Err(Status::internal("failed to insert column"));
            },
        }
    } else {
        match open_slot(slots, req.position) {
            Some(after) => (req.position, Some(after)),
            None => {
                return Err(Status::internal("failed to insert column at position"));
            },
        }
    };
    Ok(
        NewColumn {
            id: column_id.clone(),
            tenant_id: call.tenant_id.clone(),
            board_id: call.board_id.clone(),
            title: req.title.clone(),
            accent: if_not_empty(&req.accent),
            wip_limit: if req.wip_limit == 0 {
                None
            } else {
                Some(req.wip_limit)
            },
            position,
            shifted,
        },
    )
}

/// What a request that no earlier column answers needs next.
pub open spec fn adds_column(
    r: AddColumnStep,
    call: AddColumnCall,
    column_id: Id,
    facts: AddColumnFacts,
) -> bool {
    let key = call.req.idempotency_key;
    match (facts.slots, facts.stored) {
        (None, _) => r == (AddColumnStep::LoadSlots { board_id: call.board_id }),
        (Some(slots), stored) => if column_place_fault(
            call.req.position as int,
            slots@,
        ) is Some {
            r matches AddColumnStep::Refuse(e) && column_place_fault(
                call.req.position as int,
                slots@,
            ) == Some(e@)
        } else {
            match stored {
                None => r matches AddColumnStep::Store(new) && is_new_column(
                    new,
                    call,
                    column_id,
                    slots@,
                ),
                Some(row) => if key@.len() > 0 && !facts.kept {
                    r == (AddColumnStep::KeepKey { tenant_id: call.tenant_id, key, column_id })
                } else {
                    r matches AddColumnStep::Answer(column) && shows_column(column, row)
                },
            }
        },
    }
}

/// What a request to add a column needs next.
pub open spec fn leads_column(
    r: AddColumnStep,
    call: AddColumnCall,
    column_id: Id,
    facts: AddColumnFacts,
) -> bool {
    if call.req.idempotency_key@.len() == 0 {
        adds_column(r, call, column_id, facts)
    } else {
        match (facts.replay, facts.cached) {
            (None, _) => r == (AddColumnStep::FindKey {
                tenant_id: call.tenant_id,
                key: call.req.idempotency_key,
            }),
            (Some(Some(earlier)), None) => r == (AddColumnStep::FindColumn {
                column_id: earlier,
                tenant_id: call.tenant_id,
            }),
            (Some(Some(_)), Some(Some(row))) => r matches AddColumnStep::Answer(column)
                && shows_column(column, row),
            _ => adds_column(r, call, column_id, facts),
        }
    }
}

/// Adds a column: what to do next, given what has been learned. Where the key
/// was used before and its column is still there, that column is answered and
/// nothing is stored.
pub fn add_column(call: &AddColumnCall, column_id: &Id, facts: &AddColumnFacts) -> (r:
    AddColumnStep)
    ensures
        leads_column(r, *call, *column_id, *facts),
{
    let has_key = !call.req.idempotency_key.as_str().is_empty();
    if has_key {
        match (&facts.replay, &facts.cached) {
            (None, _) => {
                return AddColumnStep::FindKey {
                    tenant_id: call.tenant_id.clone(),
                    key: call.req.idempotency_key.clone(),
                };
            },
            (Some(Some(earlier)), None) => {
                return AddColumnStep::FindColumn {
                    column_id: earlier.clone(),
                    tenant_id: call.tenant_id.clone(),
                };
            },
            (Some(Some(_)), Some(Some(row))) => {
                return AddColumnStep::Answer(column_from_row(row));
            },
            _ => {},
        }
    }
    let slots = match &facts.slots {
        None => {
            return AddColumnStep::LoadSlots { board_id: call.board_id.clone() };
        },
        Some(slots) => slots,
    };
    let new = match new_column(call, column_id, slots) {
        Ok(new) => new,
        Err(e) => {
            return AddColumnStep::Refuse(e);
        },
    };
    match &facts.stored {
        None => AddColumnStep::Store(new),
        Some(row) => if has_key && !facts.kept {
            AddColumnStep::KeepKey {
                tenant_id: call.tenant_id.clone(),
                key: call.req.idempotency_key.clone(),
                column_id: column_id.clone(),
            }
        } else {
            AddColumnStep::Answer(column_from_row(row))
        },
    }
}

/// The positions of a board's columns once `new` is stored among `slots`.
pub open spec fn board_with(new: NewColumn, slots: Seq<Slot>) -> Seq<int> {
    match new.shifted {
        Some(after) => positions(after@),
        None => positions(slots),
    }.push(new.position as int)
}

/// A column added at a place of a dense board, or at its end, leaves the board
/// dense.
pub proof fn law_new_column_keeps_board_dense(
    new: NewColumn,
    call: AddColumnCall,
    column_id: Id,
    slots: Seq<Slot>,
)
    requires
        is_new_column(new, call, column_id, slots),
        dense(positions(slots)),
        0 <= call.req.position <= slots.len(),
    ensures
        dense(board_with(new, slots)),
{
    law_append_keeps_dense(positions(slots));
    law_insert_keeps_dense(positions(slots), call.req.position as int);
}

/// A column of a board that may be acted on.
#[derive(Debug)]
pub struct ColumnCall {
    pub board: BoardCall,
    pub column_id: Id,
}

/// Why a request on a column is refused before anything is looked up.
pub open spec fn column_fault(ctx: RequestContext, column_id: IdArg) -> Option<StatusView> {
    first_fault(board_fault(ctx), id_fault(column_id, "invalid column_id"))
}

/// Checks a request to change or remove a column of the board that the call was
/// authorized for.
pub fn column_call(ctx: &RequestContext, column_id: &IdArg) -> (r: Result<ColumnCall, Status>)
    ensures
        match r {
            Ok(call) => {
                &&& column_fault(*ctx, *column_id) is None
                &&& ctx.object() == Some(call.board.board_id)
                &&& ctx.tenant() == Some(call.board.tenant_id)
                &&& column_id.id == Some(call.column_id)
            },
            Err(e) => column_fault(*ctx, *column_id) == Some(e@),
        },
{
    let board = board_call(ctx)?;
    let column_id = require_id(column_id, "invalid column_id")?;
    Ok(ColumnCall { board, column_id })
}

/// A change to a column of a board. What is `None` stays as it is.
#[derive(Debug)]
pub struct ColumnUpdate {
    pub column_id: Id,
    pub board_id: Id,
    pub tenant_id: String,
    pub title: Option<String>,
    pub accent: Option<String>,
    pub wip_limit: Option<i32>,
}

/// The change that a request asks for: what is empty, or a limit of 0, leaves
/// the field as it is.
pub fn column_update(call: &ColumnCall, title: &String, accent: &String, wip_limit: i32) -> (r:
    ColumnUpdate)
    ensures
        r == (ColumnUpdate {
            column_id: call.column_id,
            board_id: call.board.board_id,
            tenant_id: call.board.tenant_id,
            title: non_empty(*title),
            accent: non_empty(*accent),
            wip_limit: if wip_limit == 0 {
                None
            } else {
                Some(wip_limit)
            },
        }),
{
    ColumnUpdate {
        column_id: call.column_id.clone(),
        board_id: call.board.board_id.clone(),
        tenant_id: call.board.tenant_id.clone(),
        title: if_not_empty(title),
        accent: if_not_empty(accent),
        wip_limit: if wip_limit == 0 {
            None
        } else {
            Some(wip_limit)
        },
    }
}

/// Changes a column: `updated` is the changed column, where it was found on the
/// board.
pub fn update_column(updated: &Option<ColumnRow>) -> (r: Result<Column, Status>)
    ensures
        match (r, *updated) {
            (Ok(column), Some(row)) => shows_column(column, row),
            (Err(e), None) => e@ == fault(Code::NotFound, "column not found on this board"),
            _ => false,
        },
{
    match updated {
        Some(row) => Ok(column_from_row(row)),
        None => Err(Status::not_found("column not found on this board")),
    }
}

/// What has been learned for a request to remove a column.
#[derive(Debug)]
pub struct RemoveColumnFacts {
    /// Whether the column is on the board, once that was looked for.
    pub exists: Option<bool>,
    /// How many columns were deleted, once that was tried.
    pub deleted: Option<u64>,
    /// The columns that are left.
    pub left: Option<Vec<Slot>>,
    /// They were renumbered.
    pub renumbered: bool,
}

/// What a request to remove a column needs next.
#[derive(Debug)]
pub enum RemoveColumnStep {
    /// Whether the column is on the board.
    FindColumn { column_id: Id, board_id: Id, tenant_id: String },
    /// Delete the column and the cards in it.
    Delete { column_id: Id, board_id: Id, tenant_id: String },
    /// Read the columns that are left.
    LoadSlots { board_id: Id, tenant_id: String },
    /// Store the positions; a failure is left for later.
    Renumber(Vec<Slot>),
    Done,
    Refuse(Status),
}

/// Removes a column: what to do next, given what has been learned. The columns
/// that are left are renumbered 0, 1, 2, .. in their order.
pub fn remove_column(call: &ColumnCall, facts: &RemoveColumnFacts) -> (r: RemoveColumnStep)
    ensures
        match (facts.exists, facts.deleted, facts.left) {
            (None, _, _) => r == (RemoveColumnStep::FindColumn {
                column_id: call.column_id,
                board_id: call.board.board_id,
                tenant_id: call.board.tenant_id,
            }),
            (Some(false), _, _) => r matches RemoveColumnStep::Refuse(e) && e@ == fault(
                Code::NotFound,
                "column not found on this board",
            ),
            (Some(true), None, _) => r == (RemoveColumnStep::Delete {
                column_id: call.column_id,
                board_id: call.board.board_id,
                tenant_id: call.board.tenant_id,
            }),
            (_, Some(0), _) => r matches RemoveColumnStep::Refuse(e) && e@ == fault(
                Code::NotFound,
                "column not found",
            ),
            (_, _, None) => r == (RemoveColumnStep::LoadSlots {
                board_id: call.board.board_id,
                tenant_id: call.board.tenant_id,
            }),
            (_, _, Some(left)) => if facts.renumbered || left.len() > i32::MAX {
                r is Done
            } else {
                r matches RemoveColumnStep::Renumber(after) && same_members(left@, after@)
                    && positions(after@) == renumbered(positions(left@))
            },
        },
{
    match facts.exists {
        None => {
            return RemoveColumnStep::FindColumn {
                column_id: call.column_id.clone(),
                board_id: call.board.board_id.clone(),
                tenant_id: call.board.tenant_id.clone(),
            };
        },
        Some(false) => {
            return RemoveColumnStep::Refuse(Status::not_found("column not found on this board"));
        },
        Some(true) => {},
    }
    match facts.deleted {
        None => {
            return RemoveColumnStep::Delete {
                column_id: call.column_id.clone(),
                board_id: call.board.board_id.clone(),
                tenant_id: call.board.tenant_id.clone(),
            };
        },
        Some(deleted) => {
            if deleted == 0 {
                return RemoveColumnStep::Refuse(Status::not_found("column not found"));
            }
        },
    }
    match &facts.left {
        None => RemoveColumnStep::LoadSlots {
            board_id: call.board.board_id.clone(),
            tenant_id: call.board.tenant_id.clone(),
        },
        Some(left) => if facts.renumbered || left.len() > i32::MAX as usize {
            RemoveColumnStep::Done
        } else {
            RemoveColumnStep::Renumber(renumber(left))
        },
    }
}

/// Removing a column leaves the board dense, however its columns were numbered
/// before.
pub proof fn law_removal_leaves_board_dense(left: Seq<Slot>, after: Seq<Slot>)
    requires
        same_members(left, after),
        positions(after) == renumbered(positions(left)),
    ensures
        dense(positions(after)),
{
    law_renumber_makes_dense(positions(left));
}

/// A request to move a column that may go ahead.
#[derive(Debug)]
pub struct MoveColumnCall {
    pub column: ColumnCall,
    /// The place on the board, counted from 0.
    pub to_position: i32,
}

/// Why a request to move a column is refused before anything is looked up.
pub open spec fn move_column_fault(ctx: RequestContext, column_id: IdArg, to_position: i32) -> Option<
    StatusView,
> {
    first_fault(
        column_fault(ctx, column_id),
        fault_if(to_position < 1, Code::InvalidArgument, "to_position must be >= 1"),
    )
}

/// Checks a request to move a column of the board that the call was authorized
/// for. The request counts places from 1.
pub fn move_column_call(ctx: &RequestContext, column_id: &IdArg, to_position: i32) -> (r: Result<
    MoveColumnCall,
    Status,
>)
    ensures
        match r {
            Ok(call) => {
                &&& move_column_fault(*ctx, *column_id, to_position) is None
                &&& ctx.object() == Some(call.column.board.board_id)
                &&& ctx.tenant() == Some(call.column.board.tenant_id)
                &&& column_id.id == Some(call.column.column_id)
                &&& call.to_position == to_position - 1
            },
            Err(e) => move_column_fault(*ctx, *column_id, to_position) == Some(e@),
        },
{
    let column = column_call(ctx, column_id)?;
    if to_position < 1 {
        return Err(Status::invalid_argument("to_position must be >= 1"));
    }
    Ok(MoveColumnCall { column, to_position: to_position - 1 })
}

/// What has been learned for a request to move a column.
#[derive(Debug)]
pub struct MoveColumnFacts {
    /// The columns of the board.
    pub slots: Option<Vec<Slot>>,
    /// The new positions were stored.
    pub stored: bool,
    /// The columns to answer, by position.
    pub columns: Option<Vec<ColumnRow>>,
}

/// What a request to move a column needs next.
#[derive(Debug)]
pub enum MoveColumnStep {
    /// Read the columns of the board.
    LoadSlots { board_id: Id, tenant_id: String },
    /// Store the positions together.
    Store(Vec<Slot>),
    /// Read the columns to answer, by position.
    LoadColumns { board_id: Id },
    Answer(Vec<Column>),
    Refuse(Status),
}

/// Moves a column: what to do next, given what has been learned. A column that
/// stands where it is to go moves nothing.
pub fn move_column(call: &MoveColumnCall, facts: &MoveColumnFacts) -> (r: MoveColumnStep)
    ensures
        match facts.slots {
            None => r == (MoveColumnStep::LoadSlots {
                board_id: call.column.board.board_id,
                tenant_id: call.column.board.tenant_id,
            }),
            Some(slots) => if !lists(slots@, call.column.column_id@) {
                r matches MoveColumnStep::Refuse(e) && e@ == fault(
                    Code::NotFound,
                    "column not found on this board",
                )
            } else {
                exists|k: int| #[trigger]
                    listed_at(slots@, call.column.column_id@, k) && if slots@[k].position
                        != call.to_position && !facts.stored {
                        r matches MoveColumnStep::Store(after) && same_members(slots@, after@)
                            && positions(after@) == moved(
                            positions(slots@),
                            k,
                            call.to_position as int,
                        )
                    } else {
                        match facts.columns {
                            None => r == (MoveColumnStep::LoadColumns {
                                board_id: call.column.board.board_id,
                            }),
                            Some(rows) => r matches MoveColumnStep::Answer(columns)
                                && shows_columns(columns@, rows@),
                        }
                    }
            },
        },
{
    let slots = match &facts.slots {
        None => {
            return MoveColumnStep::LoadSlots {
                board_id: call.column.board.board_id.clone(),
                tenant_id: call.column.board.tenant_id.clone(),
            };
        },
        Some(slots) => slots,
    };
    let k: usize = match find_slot(slots, &call.column.column_id) {
        None => {
            return MoveColumnStep::Refuse(Status::not_found("column not found on this board"));
        },
        Some(k) => k,
    };
    assert(listed_at(slots@, call.column.column_id@, k as int));
    assert(lists(slots@, call.column.column_id@));
    if slots[k].position != call.to_position && !facts.stored {
        return MoveColumnStep::Store(move_slot(slots, k, call.to_position));
    }
    match &facts.columns {
        None => MoveColumnStep::LoadColumns { board_id: call.column.board.board_id.clone() },
        Some(rows) => MoveColumnStep::Answer(columns_from_rows(rows)),
    }
}

/// Moving a column to a place on its dense board leaves the board dense.
pub proof fn law_moved_column_keeps_board_dense(
    slots: Seq<Slot>,
    after: Seq<Slot>,
    k: int,
    to_position: int,
)
    requires
        dense(positions(slots)),
        0 <= k < slots.len(),
        0 <= to_position < slots.len(),
        positions(after) == moved(positions(slots), k, to_position),
    ensures
        dense(positions(after)),
{
    law_move_keeps_dense(positions(slots), k, to_position);
}

/// A request sent twice adds one column: as long as the column that the first
/// one added is there, the second one is answered that column.
pub proof fn law_repeat_answers_the_first_column(
    first: AddColumnStep,
    call: AddColumnCall,
    column_id: Id,
    facts: AddColumnFacts,
    again: AddColumnStep,
    repeat: AddColumnCall,
    other_id: Id,
    learned: AddColumnFacts,
)
    requires
        leads_column(first, call, column_id, facts),
        first is KeepKey,
        leads_column(again, repeat, other_id, learned),
        repeat.tenant_id == call.tenant_id,
        repeat.req.idempotency_key == call.req.idempotency_key,
        learned.replay == Some(Some(first->KeepKey_column_id)),
        learned.cached != Some(None::<ColumnRow>),
    ensures
        !(again is Store),
        match learned.cached {
            Some(Some(row)) => again matches AddColumnStep::Answer(column) && shows_column(
                column,
                row,
            ),
            _ => again == (AddColumnStep::FindColumn { column_id, tenant_id: call.tenant_id }),
        },
{
}

/// A column that is added with a position stands at exactly that position: the
/// columns in front of it stay where they are, and all others move on by one.
/// One that is added without a position stands right behind the last, at 0 on an
/// empty board, and no other column moves.
pub proof fn law_new_column_stands_where_asked(
    r: AddColumnStep,
    call: AddColumnCall,
    column_id: Id,
    facts: AddColumnFacts,
    i: int,
)
    requires
        leads_column(r, call, column_id, facts),
        r is Store,
    ensures
        facts.slots is Some,
        call.req.position != 0 ==> {
            &&& r->Store_0.position == call.req.position
            &&& r->Store_0.shifted matches Some(after) && after.len() == facts.slots->Some_0.len()
                && (0 <= i < after.len() ==> {
                let before = facts.slots->Some_0[i];
                &&& after[i].id == before.id
                &&& before.position < call.req.position ==> after[i].position == before.position
                &&& before.position >= call.req.position ==> after[i].position == before.position
                    + 1
            })
        },
        call.req.position == 0 ==> {
            &&& r->Store_0.shifted is None
            &&& facts.slots->Some_0.len() == 0 ==> r->Store_0.position == 0
            &&& forall|k: int|
                0 <= k < facts.slots->Some_0.len() ==> (#[trigger] facts.slots->Some_0[k]).position
                    < r->Store_0.position
            &&& facts.slots->Some_0.len() > 0 ==> exists|k: int|
                0 <= k < facts.slots->Some_0.len() && (
                #[trigger] facts.slots->Some_0[k]).position + 1 == r->Store_0.position
        },
{
    let slots = facts.slots->Some_0@;
    law_end_lies_behind_the_last(slots);
    if call.req.position != 0 {
        law_room_is_made_at_the_place(
            slots,
            r->Store_0.shifted->Some_0@,
            call.req.position as int,
        );
    }
}

/// A new column holds what the request says of it, on the board that the call
/// was authorized for; a limit of 0 is none.
pub proof fn law_new_column_holds_what_was_asked(
    r: AddColumnStep,
    call: AddColumnCall,
    column_id: Id,
    facts: AddColumnFacts,
)
    requires
        leads_column(r, call, column_id, facts),
        r is Store,
    ensures
        r->Store_0.id == column_id,
        r->Store_0.tenant_id == call.tenant_id,
        r->Store_0.board_id == call.board_id,
        r->Store_0.title == call.req.title,
        call.req.accent@.len() == 0 ==> r->Store_0.accent is None,
        call.req.accent@.len() > 0 ==> r->Store_0.accent == Some(call.req.accent),
        call.req.wip_limit == 0 ==> r->Store_0.wip_limit is None,
        call.req.wip_limit != 0 ==> r->Store_0.wip_limit == Some(call.req.wip_limit),
{
}

/// A column can be added exactly where no column stands at the last position.
pub proof fn law_column_is_added_while_there_is_room(position: int, slots: Seq<Slot>)
    ensures
        column_place_fault(position, slots) is None <==> forall|i: int|
            0 <= i < slots.len() ==> (#[trigger] slots[i]).position < i32::MAX,
        column_place_fault(position, slots) matches Some(f) ==> f.code == Code::Internal
            && f.message == if position == 0 {
            "failed to insert column"@
        } else {
            "failed to insert column at position"@
        },
{
    law_end_lies_behind_the_last(slots);
    if full(slots) {
        let k = choose|k: int| 0 <= k < slots.len() && (#[trigger] slots[k]).position == i32::MAX;
        assert(slots[k].position < end_position(positions(slots)));
    } else if slots.len() > 0 {
        let k = choose|k: int|
            0 <= k < slots.len() && (#[trigger] slots[k]).position + 1 == end_position(
                positions(slots),
            );
        assert(slots[k].position < i32::MAX);
    }
}

/// A column is stored once the board's columns were read and while there is
/// room, unless the column of an earlier request with the key is there still.
/// Once it is stored, the key is kept with it, and it is answered as it was
/// stored.
pub proof fn law_adding_a_column_goes_on_in_order(
    r: AddColumnStep,
    call: AddColumnCall,
    column_id: Id,
    facts: AddColumnFacts,
    earlier: Id,
    row: ColumnRow,
)
    requires
        leads_column(r, call, column_id, facts),
    ensures
        ({
            let key = call.req.idempotency_key@;
            let fresh = key.len() == 0 || facts.replay == Some(None::<Id>) || facts.replay is Some
                && facts.cached == Some(None::<ColumnRow>);
            let room = facts.slots is Some && column_place_fault(
                call.req.position as int,
                facts.slots->Some_0@,
            ) is None;
            &&& key.len() > 0 && facts.replay is None ==> r == (AddColumnStep::FindKey {
                tenant_id: call.tenant_id,
                key: call.req.idempotency_key,
            })
            &&& key.len() > 0 && facts.replay == Some(Some(earlier)) && facts.cached is None ==> r
                == (AddColumnStep::FindColumn { column_id: earlier, tenant_id: call.tenant_id })
            &&& key.len() > 0 && facts.replay == Some(Some(earlier)) && facts.cached == Some(
                Some(row),
            ) ==> (r matches AddColumnStep::Answer(column) && shows_column(column, row))
            &&& fresh && facts.slots is None ==> r == (AddColumnStep::LoadSlots {
                board_id: call.board_id,
            })
            &&& r is Store <==> fresh && room && facts.stored is None
            &&& fresh && room && facts.stored == Some(row) ==> {
                &&& key.len() > 0 && !facts.kept ==> r == (AddColumnStep::KeepKey {
                    tenant_id: call.tenant_id,
                    key: call.req.idempotency_key,
                    column_id,
                })
                &&& key.len() == 0 || facts.kept ==> (r matches AddColumnStep::Answer(column)
                    && shows_column(column, row))
            }
            &&& fresh && facts.slots is Some && !room ==> (r matches AddColumnStep::Refuse(e)
                && Some(e@) == column_place_fault(
                call.req.position as int,
                facts.slots->Some_0@,
            ))
        }),
{
}

/// A request to add a column needs the board that the call was authorized for, a
/// tenant and a title, and is refused for the first that is missing.
pub proof fn law_add_column_request_is_refused_in_order(ctx: RequestContext, req: AddColumnRequest)
    ensures
        add_column_fault(ctx, req) == if ctx.checked_object_id is None {
            Some(StatusView { code: Code::Internal, message: "missing CheckedObjectId extension"@ })
        } else if ctx.object() is None {
            Some(StatusView { code: Code::InvalidArgument, message: "invalid board_id"@ })
        } else if ctx.tenant() is None {
            Some(StatusView { code: Code::Unauthenticated, message: "missing tenant context"@ })
        } else if req.title@.len() == 0 {
            Some(StatusView { code: Code::InvalidArgument, message: "title is required"@ })
        } else {
            None
        },
{
}

/// A request on a column needs a tenant, the board that the call was authorized
/// for and the column, and is refused for the first that is missing.
pub proof fn law_column_request_is_refused_in_order(ctx: RequestContext, column_id: IdArg)
    ensures
        column_fault(ctx, column_id) == if ctx.tenant() is None {
            Some(StatusView { code: Code::Unauthenticated, message: "missing tenant context"@ })
        } else if ctx.checked_object_id is None {
            Some(StatusView { code: Code::Internal, message: "missing CheckedObjectId extension"@ })
        } else if ctx.object() is None {
            Some(StatusView { code: Code::InvalidArgument, message: "invalid board_id"@ })
        } else if column_id.id is None {
            Some(StatusView { code: Code::InvalidArgument, message: "invalid column_id"@ })
        } else {
            None
        },
{
}

/// A request to move a column needs a place besides, counted from 1.
pub proof fn law_move_column_request_is_refused_in_order(ctx: RequestContext, column_id: IdArg, to_position: i32)
    ensures
        move_column_fault(ctx, column_id, to_position) == if ctx.tenant() is None {
            Some(StatusView { code: Code::Unauthenticated, message: "missing tenant context"@ })
        } else if ctx.checked_object_id is None {
            Some(StatusView { code: Code::Internal, message: "missing CheckedObjectId extension"@ })
        } else if ctx.object() is None {
            Some(StatusView { code: Code::InvalidArgument, message: "invalid board_id"@ })
        } else if column_id.id is None {
            Some(StatusView { code: Code::InvalidArgument, message: "invalid column_id"@ })
        } else if to_position < 1 {
            Some(StatusView { code: Code::InvalidArgument, message: "to_position must be >= 1"@ })
        } else {
            None
        },
{
}

} // verus!
