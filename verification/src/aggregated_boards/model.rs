//! Aggregated boards as they are stored and as they are answered.
use crate::context::Id;
use crate::status::{fault, Code, Status};
use crate::text::{opt_view, or_empty, or_text};
use crate::timestamp::Timestamp;
use vstd::prelude::*;

verus! {

/// The kind of object that permissions on aggregated boards are held on.
pub const PERMISSION_TYPE: &'static str = "KanbanAggregatedBoard";

/// The most aggregated boards that are looked through for those that a caller
/// may view.
pub const MAX_AGGREGATES: usize = 10000;

/// A stored aggregated board.
#[derive(Debug)]
pub struct AggregatedBoardRow {
    pub id: Id,
    pub name: String,
    pub description: Option<String>,
    pub icon: Option<String>,
    pub visibility: String,
    pub created_at: Timestamp,
    pub updated_at: Timestamp,
}

/// An aggregated board as it is answered.
#[derive(Debug)]
pub struct AggregatedBoard {
    pub id: Id,
    pub name: String,
    pub description: String,
    pub icon: String,
    pub visibility: String,
    pub created_at: Timestamp,
    pub updated_at: Timestamp,
}

/// `board` shows the aggregated board in `row`.
pub open spec fn shows_aggregate(board: AggregatedBoard, row: AggregatedBoardRow) -> bool {
    &&& board.id == row.id
    &&& board.name == row.name
    &&& board.description@ == or_text(opt_view(row.description), Seq::empty())
    &&& board.icon@ == or_text(opt_view(row.icon), Seq::empty())
    &&& board.visibility == row.visibility
    &&& board.created_at == row.created_at
    &&& board.updated_at == row.updated_at
}

/// The aggregated board as it is answered.
pub fn aggregated_board_from_row(row: &AggregatedBoardRow) -> (r: AggregatedBoard)
    ensures
        shows_aggregate(r, *row),
{
    AggregatedBoard {
        id: row.id.clone(),
        name: row.name.clone(),
        description: or_empty(&row.description),
        icon: or_empty(&row.icon),
        visibility: row.visibility.clone(),
        created_at: row.created_at,
        updated_at: row.updated_at,
    }
}

/// The aggregated board as it is answered, where it was found.
pub fn get_aggregate_metadata(row: &Option<AggregatedBoardRow>) -> (r: Result<
    AggregatedBoard,
    Status,
>)
    ensures
        match (r, *row) {
            (Ok(board), Some(row)) => shows_aggregate(board, row),
            (Err(e), None) => e@ == fault(Code::NotFound, "aggregated board not found"),
            _ => false,
        },
{
    match row {
        Some(row) => Ok(aggregated_board_from_row(row)),
        None => Err(Status::not_found("aggregated board not found")),
    }
}

/// A source board, as it is stored in the list of an aggregated board.
#[derive(Debug)]
pub struct SourceBoardRow {
    pub board_id: Id,
    pub project_id: Id,
    pub name: String,
    pub icon: Option<String>,
    pub position: i32,
}

/// A source board as it is answered.
#[derive(Debug)]
pub struct SourceBoardRef {
    pub board_id: Id,
    pub project_id: Id,
    pub name: String,
    pub icon: String,
    pub position: i32,
}

/// `source` shows the source board in `row`.
pub open spec fn shows_source(source: SourceBoardRef, row: SourceBoardRow) -> bool {
    &&& source.board_id == row.board_id
    &&& source.project_id == row.project_id
    &&& source.name == row.name
    &&& source.icon@ == or_text(opt_view(row.icon), Seq::empty())
    &&& source.position == row.position
}

/// The source board as it is answered.
pub fn source_board_from_row(row: &SourceBoardRow) -> (r: SourceBoardRef)
    ensures
        shows_source(r, *row),
{
    SourceBoardRef {
        board_id: row.board_id.clone(),
        project_id: row.project_id.clone(),
        name: row.name.clone(),
        icon: or_empty(&row.icon),
        position: row.position,
    }
}

/// An aggregated board and its source boards are answered as they are stored:
/// each field shows the stored field of its own, and what is not stored shows
/// empty.
pub proof fn law_aggregate_is_answered_as_stored(
    board: AggregatedBoard,
    row: AggregatedBoardRow,
    source: SourceBoardRef,
    source_row: SourceBoardRow,
)
    ensures
        shows_aggregate(board, row) <==> {
            &&& board.id == row.id
            &&& board.name == row.name
            &&& match row.description {
                Some(s) => board.description@ == s@,
                None => board.description@ == Seq::<char>::empty(),
            }
            &&& match row.icon {
                Some(s) => board.icon@ == s@,
                None => board.icon@ == Seq::<char>::empty(),
            }
            &&& board.visibility == row.visibility
            &&& board.created_at == row.created_at
            &&& board.updated_at == row.updated_at
        },
        shows_source(source, source_row) <==> {
            &&& source.board_id == source_row.board_id
            &&& source.project_id == source_row.project_id
            &&& source.name == source_row.name
            &&& match source_row.icon {
                Some(s) => source.icon@ == s@,
                None => source.icon@ == Seq::<char>::empty(),
            }
            &&& source.position == source_row.position
        },
        PERMISSION_TYPE@ == "KanbanAggregatedBoard"@,
        MAX_AGGREGATES == 10000,
{
}

} // verus!
