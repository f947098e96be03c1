//! Reading an aggregated board: a run of chunks with the board itself, its
//! source boards, a column for each of them, and the cards in batches.
use crate::aggregated_boards::model::{aggregated_board_from_row, shows_aggregate, shows_source};
use crate::aggregated_boards::model::{source_board_from_row, AggregatedBoard, AggregatedBoardRow};
use crate::aggregated_boards::model::{SourceBoardRef, SourceBoardRow, PERMISSION_TYPE};
use crate::boards::model::{MAX_VIEWABLE, PERMISSION_TYPE_BOARD};
use crate::cards::bulk_labels::shows_cards;
use crate::cards::model::{card_from_row, shows_card, Card, LoadedCard};
use crate::context::{id_fault, require_id, subject_fault, subject_from_request, tenant_fault};
use crate::context::{tenant_id_from_request, Id, IdArg, RequestContext};
use crate::page::lemma_filter_selects;
use crate::permission::{asks_viewable, viewable_query, ExpandQuery};
use crate::status::{fault, first_of3, Code, Status, StatusView};
use crate::text::{opt_view, or_empty, or_text};
use crate::visibility::{is_listed, is_open, is_public_or_internal, lists_id};
use vstd::prelude::*;
use vstd::string::*;

verus! {

/// The most cards in one batch.
pub const CARD_BATCH_SIZE: usize = 100;

/// A request to read an aggregated board that may go ahead.
#[derive(Debug)]
pub struct GetAggregateCall {
    pub subject: String,
    pub tenant_id: String,
    pub aggregated_board_id: Id,
}

/// Why a request to read an aggregated board is refused before anything is
/// looked up.
pub open spec fn get_aggregate_fault(
    ctx: RequestContext,
    aggregated_board_id: IdArg,
) -> Option<StatusView> {
    first_of3(
        subject_fault(ctx),
        tenant_fault(ctx),
        id_fault(aggregated_board_id, "invalid aggregated_board_id"),
    )
}

/// Checks a request to read an aggregated board.
pub fn get_aggregated_board_call(ctx: &RequestContext, aggregated_board_id: &IdArg) -> (r: Result<
    GetAggregateCall,
    Status,
>)
    ensures
        match r {
            Ok(call) => {
                &&& get_aggregate_fault(*ctx, *aggregated_board_id) is None
                &&& ctx.subject() == Some(call.subject)
                &&& ctx.tenant() == Some(call.tenant_id)
                &&& aggregated_board_id.id == Some(call.aggregated_board_id)
            },
            Err(e) => get_aggregate_fault(*ctx, *aggregated_board_id) == Some(e@),
        },
{
    let subject = subject_from_request(ctx)?;
    let tenant_id = tenant_id_from_request(ctx)?;
    let aggregated_board_id = require_id(aggregated_board_id, "invalid aggregated_board_id")?;
    Ok(GetAggregateCall { subject, tenant_id, aggregated_board_id })
}

/// A board and its visibility.
#[derive(Debug)]
pub struct BoardVisibility {
    pub board_id: Id,
    pub visibility: String,
}

/// What has been learned for a request to read an aggregated board.
#[derive(Debug)]
pub struct GetAggregateFacts {
    /// The aggregated board, once it was looked for.
    pub board: Option<Option<AggregatedBoardRow>>,
    /// Whether the caller may view it, once that was asked.
    pub allowed: Option<bool>,
    /// Its source boards, in order.
    pub sources: Option<Vec<SourceBoardRow>>,
    /// The boards that the caller may view by permission.
    pub viewable: Option<Vec<Id>>,
    /// The visibilities of the source boards that are in the tenant.
    pub visibilities: Option<Vec<BoardVisibility>>,
    /// The cards of the source boards, by board, column and position.
    pub cards: Option<Vec<LoadedCard>>,
}

/// A column of an aggregated board: one of its source boards.
#[derive(Debug)]
pub struct AggregatedColumn {
    pub id: String,
    pub title: String,
    pub accent: String,
    pub wip_limit: i32,
    pub position: i32,
    pub source_board_id: Id,
}

/// A piece of the answer.
#[derive(Debug)]
pub enum AggregatedBoardChunk {
    Metadata(AggregatedBoard),
    SourceBoard(SourceBoardRef),
    Column(AggregatedColumn),
    CardBatch(Vec<Card>),
}

/// What a request to read an aggregated board needs next.
#[derive(Debug)]
pub enum GetAggregateStep {
    /// Look for the aggregated board.
    FindBoard { aggregated_board_id: Id, tenant_id: String },
    /// Ask whether the caller may.
    CheckPermission {
        namespace: &'static str,
        object_id: Id,
        relation: &'static str,
        subject: String,
    },
    /// Read its source boards, in order.
    LoadSources { aggregated_board_id: Id, tenant_id: String },
    /// Ask for all objects of the namespace that the caller has the relation to.
    Expand(ExpandQuery),
    /// Read the visibilities of these boards.
    LoadVisibilities { board_ids: Vec<Id>, tenant_id: String },
    /// Read the cards of these boards, by board, column and position.
    LoadCards { board_ids: Vec<Id>, tenant_id: String },
    /// Answer these chunks, in order.
    Answer(Vec<AggregatedBoardChunk>),
    Refuse(Status),
}

/// The board is known to be open.
pub open spec fn known_open(visibilities: Seq<BoardVisibility>, board_id: Seq<char>) -> bool {
    exists|i: int|
        0 <= i < visibilities.len() && (#[trigger] visibilities[i]).board_id@ == board_id
            && is_open(visibilities[i].visibility@)
}

/// The caller sees the source board: it is open, or they may view it by
/// permission.
pub open spec fn sees(
    board_id: Seq<char>,
    visibilities: Seq<BoardVisibility>,
    viewable: Seq<Id>,
) -> bool {
    known_open(visibilities, board_id) || is_listed(viewable, board_id)
}

fn can_see(board_id: &Id, visibilities: &Vec<BoardVisibility>, viewable: &Vec<Id>) -> (r: bool)
    ensures
        r == sees(board_id@, visibilities@, viewable@),
{
    let mut i: usize = 0;
    while i < visibilities.len()
        invariant
            i <= visibilities.len(),
            forall|j: int|
                0 <= j < i ==> (#[trigger] visibilities[j]).board_id@ != board_id@ || !is_open(
                    visibilities[j].visibility@,
                ),
        decreases visibilities.len() - i,
    {
        if visibilities[i].board_id == *board_id && is_public_or_internal(
            visibilities[i].visibility.as_str(),
        ) {
            return true;
        }
        i += 1;
    }
    lists_id(viewable, board_id)
}

/// The source boards that the caller sees, in order.
pub open spec fn seen_sources(
    sources: Seq<SourceBoardRow>,
    visibilities: Seq<BoardVisibility>,
    viewable: Seq<Id>,
) -> Seq<SourceBoardRow> {
    sources.filter(|s: SourceBoardRow| sees(s.board_id@, visibilities, viewable))
}

/// The boards of these source boards.
pub open spec fn board_ids(sources: Seq<SourceBoardRow>) -> Seq<Id> {
    sources.map_values(|s: SourceBoardRow| s.board_id)
}

/// The cards that are on boards that the caller sees, in order.
pub open spec fn seen_cards(cards: Seq<LoadedCard>, seen: Seq<SourceBoardRow>) -> Seq<LoadedCard> {
    cards.filter(|l: LoadedCard| is_listed(board_ids(seen), l.row.board_id@))
}

/// The column of a source board.
pub open spec fn is_column(column: AggregatedColumn, row: SourceBoardRow, i: int) -> bool {
    &&& column.id@ == "agg-col-"@ + row.board_id@
    &&& column.title == row.name
    &&& column.accent@ == or_text(opt_view(row.icon), Seq::empty())
    &&& column.wip_limit == 0
    &&& column.position == i + 1
    &&& column.source_board_id == row.board_id
}

/// The cards cut into batches: all but the last are full.
pub open spec fn batches(cards: Seq<Card>) -> Seq<Seq<Card>>
    decreases cards.len(),
{
    if cards.len() == 0 {
        Seq::empty()
    } else if cards.len() <= CARD_BATCH_SIZE {
        seq![cards]
    } else {
        seq![cards.take(CARD_BATCH_SIZE as int)] + batches(cards.skip(CARD_BATCH_SIZE as int))
    }
}

/// `chunks` is the answer: the board, then its source boards that the caller
/// sees, then a column for each of those, then their cards in batches.
pub open spec fn is_answer(
    chunks: Seq<AggregatedBoardChunk>,
    row: AggregatedBoardRow,
    seen: Seq<SourceBoardRow>,
    loaded: Seq<LoadedCard>,
) -> bool {
    let n = seen.len() as int;
    exists|cards: Seq<Card>| #[trigger]
        shows_cards(cards, loaded) && {
            &&& chunks.len() == 1 + 2 * n + batches(cards).len()
            &&& chunks[0] matches AggregatedBoardChunk::Metadata(board) && shows_aggregate(
                board,
                row,
            )
            &&& forall|i: int|
                1 <= i < 1 + n ==> (#[trigger] chunks[i] matches AggregatedBoardChunk::SourceBoard(
                    s,
                ) && shows_source(s, seen[i - 1]))
            &&& forall|i: int|
                1 + n <= i < 1 + 2 * n ==> (
                #[trigger] chunks[i] matches AggregatedBoardChunk::Column(c) && is_column(
                    c,
                    seen[i - 1 - n],
                    i - 1 - n,
                ))
            &&& forall|i: int|
                1 + 2 * n <= i < chunks.len() ==> (
                #[trigger] chunks[i] matches AggregatedBoardChunk::CardBatch(b) && b@ == batches(
                    cards,
                )[i - 1 - 2 * n])
        }
}

fn seen_of(
    sources: &Vec<SourceBoardRow>,
    visibilities: &Vec<BoardVisibility>,
    viewable: &Vec<Id>,
) -> (r: Vec<usize>)
    ensures
        r.len() == seen_sources(sources@, visibilities@, viewable@).len(),
        r.len() <= sources.len(),
        forall|i: int|
            0 <= i < r.len() ==> #[trigger] r[i] < sources.len() && sources[r[i] as int]
                == seen_sources(sources@, visibilities@, viewable@)[i],
{
    let ghost keep = |s: SourceBoardRow| sees(s.board_id@, visibilities@, viewable@);
    let mut r: Vec<usize> = Vec::new();
    let mut i: usize = 0;
    assert(sources@.take(0).filter(keep).len() == 0) by {
        reveal(Seq::filter);
    }
    while i < sources.len()
        invariant
            i <= sources.len(),
            keep == (|s: SourceBoardRow| sees(s.board_id@, visibilities@, viewable@)),
            r.len() == sources@.take(i as int).filter(keep).len(),
            r.len() <= i,
            forall|j: int|
                0 <= j < r.len() ==> #[trigger] r[j] < sources.len() && sources[r[j] as int]
                    == sources@.take(i as int).filter(keep)[j],
        decreases sources.len() - i,
    {
        proof {
            assert(sources@.take(i + 1).drop_last() =~= sources@.take(i as int));
            reveal(Seq::filter);
        }
        if can_see(&sources[i].board_id, visibilities, viewable) {
            r.push(i);
        }
        i += 1;
    }
    assert(sources@.take(sources@.len() as int) =~= sources@);
    r
}

fn ids_of(sources: &Vec<SourceBoardRow>) -> (r: Vec<Id>)
    ensures
        r@ == board_ids(sources@),
{
    let mut r: Vec<Id> = Vec::new();
    let mut i: usize = 0;
    while i < sources.len()
        invariant
            i <= sources.len(),
            r.len() == i,
            forall|j: int| 0 <= j < i ==> #[trigger] r[j] == sources[j].board_id,
        decreases sources.len() - i,
    {
        r.push(sources[i].board_id.clone());
        i += 1;
    }
    assert(r@ =~= board_ids(sources@));
    r
}

fn seen_ids(sources: &Vec<SourceBoardRow>, seen: &Vec<usize>) -> (r: Vec<Id>)
    requires
        forall|i: int| 0 <= i < seen.len() ==> #[trigger] seen[i] < sources.len(),
    ensures
        r.len() == seen.len(),
        forall|i: int| 0 <= i < seen.len() ==> #[trigger] r[i] == sources[seen[i] as int].board_id,
{
    let mut r: Vec<Id> = Vec::new();
    let mut i: usize = 0;
    while i < seen.len()
        invariant
            i <= seen.len(),
            r.len() == i,
            forall|j: int| 0 <= j < seen.len() ==> #[trigger] seen[j] < sources.len(),
            forall|j: int| 0 <= j < i ==> #[trigger] r[j] == sources[seen[j] as int].board_id,
        decreases seen.len() - i,
    {
        r.push(sources[seen[i]].board_id.clone());
        i += 1;
    }
    r
}

fn cards_on(loaded: &Vec<LoadedCard>, ids: &Vec<Id>) -> (r: Vec<Card>)
    ensures
        shows_cards(r@, loaded@.filter(|l: LoadedCard| is_listed(ids@, l.row.board_id@))),
{
    let ghost keep = |l: LoadedCard| is_listed(ids@, l.row.board_id@);
    let mut r: Vec<Card> = Vec::new();
    let mut i: usize = 0;
    assert(loaded@.take(0).filter(keep).len() == 0) by {
        reveal(Seq::filter);
    }
    while i < loaded.len()
        invariant
            i <= loaded.len(),
            keep == (|l: LoadedCard| is_listed(ids@, l.row.board_id@)),
            shows_cards(r@, loaded@.take(i as int).filter(keep)),
        decreases loaded.len() - i,
    {
        proof {
            assert(loaded@.take(i + 1).drop_last() =~= loaded@.take(i as int));
            reveal(Seq::filter);
        }
        if lists_id(ids, &loaded[i].row.board_id) {
            r.push(card_from_row(&loaded[i]));
        }
        i += 1;
    }
    assert(loaded@.take(loaded@.len() as int) =~= loaded@);
    r
}

fn batch(cards: Vec<Card>) -> (r: Vec<Vec<Card>>)
    ensures
        r.len() == batches(cards@).len(),
        forall|i: int| 0 <= i < r.len() ==> (#[trigger] r[i])@ == batches(cards@)[i],
{
    let ghost all = batches(cards@);
    let mut r: Vec<Vec<Card>> = Vec::new();
    let mut rest = cards;
    assert(all =~= Seq::<Seq<Card>>::empty() + batches(rest@));
    let ghost mut done: Seq<Seq<Card>> = Seq::empty();
    while rest.len() > CARD_BATCH_SIZE
        invariant
            all == done + batches(rest@),
            r.len() == done.len(),
            forall|i: int| 0 <= i < r.len() ==> (#[trigger] r[i])@ == done[i],
        decreases rest.len(),
    {
        let ghost before = rest@;
        let tail = rest.split_off(CARD_BATCH_SIZE);
        proof {
            assert(rest@ =~= before.take(CARD_BATCH_SIZE as int));
            assert(tail@ =~= before.skip(CARD_BATCH_SIZE as int));
            assert(done + (seq![rest@] + batches(tail@)) =~= done.push(rest@) + batches(tail@));
            done = done.push(rest@);
        }
        r.push(rest);
        rest = tail;
    }
    if rest.len() > 0 {
        proof {
            assert(done + seq![rest@] =~= done.push(rest@));
        }
        r.push(rest);
    }
    r
}

fn column(row: &SourceBoardRow, i: usize) -> (r: AggregatedColumn)
    requires
        i < i32::MAX,
    ensures
        is_column(r, *row, i as int),
{
    let mut id: String = "agg-col-".to_owned();
    id.append(row.board_id.as_str());
    AggregatedColumn {
        id,
        title: row.name.clone(),
        accent: or_empty(&row.icon),
        wip_limit: 0,
        position: i as i32 + 1,
        source_board_id: row.board_id.clone(),
    }
}

fn answer(
    row: &AggregatedBoardRow,
    sources: &Vec<SourceBoardRow>,
    seen: &Vec<usize>,
    loaded: &Vec<LoadedCard>,
    Ghost(rows): Ghost<Seq<SourceBoardRow>>,
) -> (r: Vec<AggregatedBoardChunk>)
    requires
        sources.len() < i32::MAX,
        seen.len() <= sources.len(),
        seen.len() == rows.len(),
        forall|i: int|
            0 <= i < seen.len() ==> #[trigger] seen[i] < sources.len() && sources[seen[i] as int]
                == rows[i],
    ensures
        is_answer(r@, *row, rows, seen_cards(loaded@, rows)),
{
    let n: usize = seen.len();
    let mut chunks: Vec<AggregatedBoardChunk> = Vec::new();
    chunks.push(AggregatedBoardChunk::Metadata(aggregated_board_from_row(row)));
    let mut i: usize = 0;
    while i < n
        invariant
            i <= n == seen.len() == rows.len(),
            forall|j: int|
                0 <= j < n ==> #[trigger] seen[j] < sources.len() && sources[seen[j] as int]
                    == rows[j],
            chunks.len() == 1 + i,
            chunks[0] matches AggregatedBoardChunk::Metadata(board) && shows_aggregate(board, *row),
            forall|j: int|
                1 <= j < 1 + i ==> (#[trigger] chunks[j] matches AggregatedBoardChunk::SourceBoard(
                    s,
                ) && shows_source(s, rows[j - 1])),
        decreases n - i,
    {
        assert(sources[seen[i as int] as int] == rows[i as int]);
        chunks.push(AggregatedBoardChunk::SourceBoard(source_board_from_row(&sources[seen[i]])));
        i += 1;
    }
    let mut i: usize = 0;
    while i < n
        invariant
            i <= n == seen.len() == rows.len(),
            n <= sources.len() < i32::MAX,
            forall|j: int|
                0 <= j < n ==> #[trigger] seen[j] < sources.len() && sources[seen[j] as int]
                    == rows[j],
            chunks.len() == 1 + n + i,
            chunks[0] matches AggregatedBoardChunk::Metadata(board) && shows_aggregate(board, *row),
            forall|j: int|
                1 <= j < 1 + n ==> (#[trigger] chunks[j] matches AggregatedBoardChunk::SourceBoard(
                    s,
                ) && shows_source(s, rows[j - 1])),
            forall|j: int|
                1 + n <= j < 1 + n + i ==> (
                #[trigger] chunks[j] matches AggregatedBoardChunk::Column(c) && is_column(
                    c,
                    rows[j - 1 - n],
                    j - 1 - n,
                )),
        decreases n - i,
    {
        assert(sources[seen[i as int] as int] == rows[i as int]);
        chunks.push(AggregatedBoardChunk::Column(column(&sources[seen[i]], i)));
        i += 1;
    }
    let ids = seen_ids(sources, seen);
    assert(ids@ =~= board_ids(rows)) by {
        assert forall|j: int| 0 <= j < rows.len() implies ids@[j] == rows[j].board_id by {
            assert(ids[j] == sources[seen[j] as int].board_id);
        }
    }
    let cards = cards_on(loaded, &ids);
    let ghost all = cards@;
    let card_batches = batch(cards);
    for b in it: card_batches
        invariant
            it.seq() == card_batches@,
            card_batches.len() == batches(all).len(),
            forall|j: int| 0 <= j < card_batches.len() ==> (#[trigger] card_batches[j])@ == batches(all)[j],
            n == rows.len(),
            chunks.len() == 1 + 2 * n + it.index(),
            chunks[0] matches AggregatedBoardChunk::Metadata(board) && shows_aggregate(board, *row),
            forall|j: int|
                1 <= j < 1 + n ==> (#[trigger] chunks[j] matches AggregatedBoardChunk::SourceBoard(
                    s,
                ) && shows_source(s, rows[j - 1])),
            forall|j: int|
                1 + n <= j < 1 + 2 * n ==> (
                #[trigger] chunks[j] matches AggregatedBoardChunk::Column(c) && is_column(
                    c,
                    rows[j - 1 - n],
                    j - 1 - n,
                )),
            forall|j: int|
                1 + 2 * n <= j < chunks.len() ==> (
                #[trigger] chunks[j] matches AggregatedBoardChunk::CardBatch(b) && b@ == batches(
                    all,
                )[j - 1 - 2 * n]),
    {
        assert(b == card_batches[it.index()]);
        chunks.push(AggregatedBoardChunk::CardBatch(b));
    }
    assert(shows_cards(all, seen_cards(loaded@, rows)));
    chunks
}

/// What a caller who may view the aggregated board needs next.
pub open spec fn reads_board(
    r: GetAggregateStep,
    call: GetAggregateCall,
    row: AggregatedBoardRow,
    facts: GetAggregateFacts,
) -> bool {
    match (facts.sources, facts.viewable, facts.visibilities, facts.cards) {
        (None, _, _, _) => r == (GetAggregateStep::LoadSources {
            aggregated_board_id: call.aggregated_board_id,
            tenant_id: call.tenant_id,
        }),
        (_, None, _, _) => r matches GetAggregateStep::Expand(query) && asks_viewable(
            query,
            PERMISSION_TYPE_BOARD,
            call.subject,
            MAX_VIEWABLE,
        ),
        (Some(sources), _, None, _) => {
            r matches GetAggregateStep::LoadVisibilities { board_ids: ids, tenant_id } && ids@
                == board_ids(sources@) && tenant_id == call.tenant_id
        },
        (Some(sources), Some(viewable), Some(visibilities), None) => {
            r matches GetAggregateStep::LoadCards { board_ids: ids, tenant_id } && ids@
                == board_ids(seen_sources(sources@, visibilities@, viewable@)) && tenant_id
                == call.tenant_id
        },
        (Some(sources), Some(viewable), Some(visibilities), Some(cards)) => {
            let seen = seen_sources(sources@, visibilities@, viewable@);
            r matches GetAggregateStep::Answer(chunks) && is_answer(
                chunks@,
                row,
                seen,
                seen_cards(cards@, seen),
            )
        },
    }
}

/// What a request for an aggregated board needs next: a private one is read only
/// once the caller may view it.
pub open spec fn shows_aggregated_board(
    r: GetAggregateStep,
    call: GetAggregateCall,
    facts: GetAggregateFacts,
) -> bool {
    match facts.board {
        None => r == (GetAggregateStep::FindBoard {
            aggregated_board_id: call.aggregated_board_id,
            tenant_id: call.tenant_id,
        }),
        Some(None) => r matches GetAggregateStep::Refuse(e) && e@ == fault(
            Code::NotFound,
            "aggregated board not found",
        ),
        Some(Some(row)) => if !is_open(row.visibility@) && facts.allowed is None {
            r matches GetAggregateStep::CheckPermission {
                namespace,
                object_id,
                relation,
                subject,
            } && namespace@ == PERMISSION_TYPE@ && object_id == call.aggregated_board_id
                && relation@ == "view"@ && subject == call.subject
        } else if !is_open(row.visibility@) && facts.allowed == Some(false) {
            r matches GetAggregateStep::Refuse(e) && e@ == fault(
                Code::PermissionDenied,
                "you do not have permission to view this aggregated board",
            )
        } else {
            reads_board(r, call, row, facts)
        },
    }
}

/// Reads an aggregated board: what to do next, given what has been learned. A
/// private one is answered only to a caller who may view it, and of its source
/// boards and their cards only what the caller sees.
pub fn get_aggregated_board(call: &GetAggregateCall, facts: &GetAggregateFacts) -> (r:
    GetAggregateStep)
    requires
        facts.sources matches Some(s) ==> s.len() < i32::MAX,
    ensures
        shows_aggregated_board(r, *call, *facts),
{
    let row = match &facts.board {
        None => {
            return GetAggregateStep::FindBoard {
                aggregated_board_id: call.aggregated_board_id.clone(),
                tenant_id: call.tenant_id.clone(),
            };
        },
        Some(None) => {
            return GetAggregateStep::Refuse(Status::not_found("aggregated board not found"));
        },
        Some(Some(row)) => row,
    };
    if !is_public_or_internal(row.visibility.as_str()) {
        match facts.allowed {
            None => {
                return GetAggregateStep::CheckPermission {
                    namespace: PERMISSION_TYPE,
                    object_id: call.aggregated_board_id.clone(),
                    relation: "view",
                    subject: call.subject.clone(),
                };
            },
            Some(false) => {
                return GetAggregateStep::Refuse(
                    Status::permission_denied(
                        "you do not have permission to view this aggregated board",
                    ),
                );
            },
            Some(true) => {},
        }
    }
    let sources = match &facts.sources {
        None => {
            return GetAggregateStep::LoadSources {
                aggregated_board_id: call.aggregated_board_id.clone(),
                tenant_id: call.tenant_id.clone(),
            };
        },
        Some(sources) => sources,
    };
    let viewable = match &facts.viewable {
        None => {
            return GetAggregateStep::Expand(
                viewable_query(PERMISSION_TYPE_BOARD, &call.subject, MAX_VIEWABLE),
            );
        },
        Some(viewable) => viewable,
    };
    let visibilities = match &facts.visibilities {
        None => {
            return GetAggregateStep::LoadVisibilities {
                board_ids: ids_of(sources),
                tenant_id: call.tenant_id.clone(),
            };
        },
        Some(visibilities) => visibilities,
    };
    let seen = seen_of(sources, visibilities, viewable);
    let ghost rows = seen_sources(sources@, visibilities@, viewable@);
    match &facts.cards {
        None => {
            let ids = seen_ids(sources, &seen);
            assert(ids@ =~= board_ids(rows)) by {
                assert forall|j: int| 0 <= j < rows.len() implies ids@[j] == rows[j].board_id by {
                    assert(ids[j] == sources[seen[j] as int].board_id);
                }
            }
            GetAggregateStep::LoadCards { board_ids: ids, tenant_id: call.tenant_id.clone() }
        },
        Some(cards) => GetAggregateStep::Answer(answer(row, sources, &seen, cards, Ghost(rows))),
    }
}

/// The batches, put together again, are the cards in their order.
pub proof fn law_batches_hold_all_cards(cards: Seq<Card>)
    ensures
        batches(cards).flatten() == cards,
    decreases cards.len(),
{
    if cards.len() == 0 {
        assert(batches(cards).flatten() =~= cards);
    } else if cards.len() <= CARD_BATCH_SIZE {
        seq![cards].lemma_flatten_one_element();
        assert(batches(cards).flatten() =~= cards);
    } else {
        let rest = cards.skip(CARD_BATCH_SIZE as int);
        let all = batches(cards);
        law_batches_hold_all_cards(rest);
        assert(all.drop_first() =~= batches(rest));
        assert(all.first() == cards.take(CARD_BATCH_SIZE as int));
        assert(all.flatten() == all.first() + all.drop_first().flatten());
        assert(cards.take(CARD_BATCH_SIZE as int) + rest =~= cards);
    }
}

/// No batch is empty, and none holds more than 100 cards.
pub proof fn law_batches_are_bounded(cards: Seq<Card>, i: int)
    requires
        0 <= i < batches(cards).len(),
    ensures
        1 <= batches(cards)[i].len() <= CARD_BATCH_SIZE,
    decreases cards.len(),
{
    if cards.len() > CARD_BATCH_SIZE && i > 0 {
        let rest = cards.skip(CARD_BATCH_SIZE as int);
        assert(batches(cards)[i] == batches(rest)[i - 1]);
        law_batches_are_bounded(rest, i - 1);
    }
}

/// Nothing of a source board reaches a caller who does not see it: neither the
/// board nor any of its cards is in the answer.
pub proof fn law_hidden_source_stays_hidden(
    sources: Seq<SourceBoardRow>,
    visibilities: Seq<BoardVisibility>,
    viewable: Seq<Id>,
    cards: Seq<LoadedCard>,
    board_id: Seq<char>,
)
    requires
        !sees(board_id, visibilities, viewable),
    ensures
        ({
            let seen = seen_sources(sources, visibilities, viewable);
            &&& forall|i: int| 0 <= i < seen.len() ==> (#[trigger] seen[i]).board_id@ != board_id
            &&& forall|i: int|
                0 <= i < seen_cards(cards, seen).len() ==> (#[trigger] seen_cards(
                    cards,
                    seen,
                )[i]).row.board_id@ != board_id
        }),
{
    let seen = seen_sources(sources, visibilities, viewable);
    let keep = |s: SourceBoardRow| sees(s.board_id@, visibilities, viewable);
    assert forall|i: int| 0 <= i < seen.len() implies (#[trigger] seen[i]).board_id@ != board_id by {
        sources.lemma_filter_pred(keep, i);
    }
    let on = |l: LoadedCard| is_listed(board_ids(seen), l.row.board_id@);
    assert forall|i: int| 0 <= i < seen_cards(cards, seen).len() implies (#[trigger] seen_cards(
        cards,
        seen,
    )[i]).row.board_id@ != board_id by {
        cards.lemma_filter_pred(on, i);
        let l = seen_cards(cards, seen)[i];
        let j = choose|j: int|
            0 <= j < board_ids(seen).len() && (#[trigger] board_ids(seen)[j])@ == l.row.board_id@;
        assert(board_ids(seen)[j] == seen[j].board_id);
    }
}

/// Of a private aggregated board nothing is read or answered before the
/// permission backend has let the caller in.
pub proof fn law_private_aggregate_needs_permission(
    r: GetAggregateStep,
    call: GetAggregateCall,
    facts: GetAggregateFacts,
    row: AggregatedBoardRow,
)
    requires
        shows_aggregated_board(r, call, facts),
        facts.board == Some(Some(row)),
        !(r is CheckPermission || r is Refuse),
    ensures
        is_open(row.visibility@) || facts.allowed == Some(true),
{
}

proof fn lemma_batched_card(cards: Seq<Card>, i: int, j: int) -> (k: int)
    requires
        0 <= i < batches(cards).len(),
        0 <= j < batches(cards)[i].len(),
    ensures
        0 <= k < cards.len(),
        batches(cards)[i][j] == cards[k],
    decreases cards.len(),
{
    if cards.len() > CARD_BATCH_SIZE && i > 0 {
        let rest = cards.skip(CARD_BATCH_SIZE as int);
        assert(batches(cards)[i] == batches(rest)[i - 1]);
        lemma_batched_card(rest, i - 1, j) + CARD_BATCH_SIZE
    } else {
        j
    }
}

/// Every item of an answer names the board that it comes from, and that is a
/// board that the caller sees.
pub proof fn law_every_item_names_a_seen_board(
    chunks: Seq<AggregatedBoardChunk>,
    row: AggregatedBoardRow,
    sources: Seq<SourceBoardRow>,
    visibilities: Seq<BoardVisibility>,
    viewable: Seq<Id>,
    cards: Seq<LoadedCard>,
    i: int,
)
    requires
        ({
            let seen = seen_sources(sources, visibilities, viewable);
            is_answer(chunks, row, seen, seen_cards(cards, seen))
        }),
        0 <= i < chunks.len(),
    ensures
        match chunks[i] {
            AggregatedBoardChunk::Metadata(_) => i == 0,
            AggregatedBoardChunk::SourceBoard(s) => sees(s.board_id@, visibilities, viewable),
            AggregatedBoardChunk::Column(c) => sees(c.source_board_id@, visibilities, viewable),
            AggregatedBoardChunk::CardBatch(batch) => forall|j: int|
                0 <= j < batch.len() ==> sees(
                    (#[trigger] batch[j]).board_id@,
                    visibilities,
                    viewable,
                ),
        },
{
    let seen = seen_sources(sources, visibilities, viewable);
    let loaded = seen_cards(cards, seen);
    let n = seen.len() as int;
    let keep = |s: SourceBoardRow| sees(s.board_id@, visibilities, viewable);
    let shown = choose|shown: Seq<Card>| #[trigger]
        shows_cards(shown, loaded) && chunks.len() == 1 + 2 * n + batches(shown).len() && (forall|
            k: int,
        |
            1 + 2 * n <= k < chunks.len() ==> (
            #[trigger] chunks[k] matches AggregatedBoardChunk::CardBatch(b) && b@ == batches(
                shown,
            )[k - 1 - 2 * n]));
    if 1 <= i < 1 + n {
        sources.lemma_filter_pred(keep, i - 1);
    } else if 1 + n <= i < 1 + 2 * n {
        sources.lemma_filter_pred(keep, i - 1 - n);
    } else if i >= 1 + 2 * n {
        let batch = chunks[i]->CardBatch_0;
        assert forall|j: int| 0 <= j < batch.len() implies sees(
            (#[trigger] batch[j]).board_id@,
            visibilities,
            viewable,
        ) by {
            let k = lemma_batched_card(shown, i - 1 - 2 * n, j);
            let on = |l: LoadedCard| is_listed(board_ids(seen), l.row.board_id@);
            cards.lemma_filter_pred(on, k);
            let id = loaded[k].row.board_id@;
            let m = choose|m: int|
                0 <= m < board_ids(seen).len() && (#[trigger] board_ids(seen)[m])@ == id;
            assert(board_ids(seen)[m] == seen[m].board_id);
            sources.lemma_filter_pred(keep, m);
        }
    }
}

proof fn lemma_card_is_in_its_batch(cards: Seq<Card>, k: int)
    requires
        0 <= k < cards.len(),
    ensures
        0 <= k / 100 < batches(cards).len(),
        0 <= k % 100 < batches(cards)[k / 100].len(),
        batches(cards)[k / 100][k % 100] == cards[k],
    decreases cards.len(),
{
    if cards.len() > CARD_BATCH_SIZE {
        let rest = cards.skip(CARD_BATCH_SIZE as int);
        let all = batches(cards);
        assert(all.drop_first() =~= batches(rest));
        if k < CARD_BATCH_SIZE {
            assert(all[0] == cards.take(CARD_BATCH_SIZE as int));
        } else {
            lemma_card_is_in_its_batch(rest, k - 100);
            assert((k - 100) / 100 == k / 100 - 1 && (k - 100) % 100 == k % 100);
            assert(all[k / 100] == batches(rest)[k / 100 - 1]);
        }
    }
}

proof fn lemma_batch_count(cards: Seq<Card>)
    ensures
        batches(cards).len() == (cards.len() + 99) / 100,
    decreases cards.len(),
{
    if cards.len() > CARD_BATCH_SIZE {
        lemma_batch_count(cards.skip(CARD_BATCH_SIZE as int));
    }
}

/// A caller sees a board that is known to be public or internal, and one that
/// is among those that they may view, and no other.
pub proof fn law_board_is_seen_when_open_or_viewable(
    board_id: Seq<char>,
    visibilities: Seq<BoardVisibility>,
    viewable: Seq<Id>,
)
    ensures
        sees(board_id, visibilities, viewable) <==> {
            ||| exists|i: int|
                0 <= i < visibilities.len() && (#[trigger] visibilities[i]).board_id@ == board_id
                    && (visibilities[i].visibility@ == "public"@ || visibilities[i].visibility@
                    == "internal"@)
            ||| exists|i: int| 0 <= i < viewable.len() && (#[trigger] viewable[i])@ == board_id
        },
{
}

/// An answer leaves out no card of a board that the caller sees: of every card
/// that was read, whose board is among the source boards and is public, internal
/// or viewable by the caller, some batch shows that card.
pub proof fn law_every_card_of_a_seen_board_is_answered(
    r: GetAggregateStep,
    call: GetAggregateCall,
    facts: GetAggregateFacts,
    k: int,
    j: int,
    v: int,
)
    requires
        shows_aggregated_board(r, call, facts),
        r is Answer,
        facts.cards matches Some(cards) && 0 <= k < cards.len(),
        facts.sources matches Some(sources) && 0 <= j < sources.len() && sources[j].board_id@
            == facts.cards->Some_0[k].row.board_id@,
        ({
            let id = facts.cards->Some_0[k].row.board_id@;
            ||| facts.visibilities matches Some(visibilities) && 0 <= v < visibilities.len()
                && visibilities[v].board_id@ == id && (visibilities[v].visibility@ == "public"@
                || visibilities[v].visibility@ == "internal"@)
            ||| facts.viewable matches Some(viewable) && 0 <= v < viewable.len() && viewable[v]@
                == id
        }),
    ensures
        exists|i: int, n: int|
            {
                &&& 0 <= i < r->Answer_0.len()
                &&& r->Answer_0[i] is CardBatch
                &&& 0 <= n < r->Answer_0[i]->CardBatch_0.len()
                &&& (#[trigger] r->Answer_0[i]->CardBatch_0[n]).id == facts.cards->Some_0[k].row.id
                &&& r->Answer_0[i]->CardBatch_0[n].board_id == facts.cards->Some_0[k].row.board_id
                &&& r->Answer_0[i]->CardBatch_0[n].title == facts.cards->Some_0[k].row.title
                &&& shows_card(r->Answer_0[i]->CardBatch_0[n], facts.cards->Some_0[k])
            },
{
    let chunks = r->Answer_0@;
    let cards = facts.cards->Some_0@;
    let sources = facts.sources->Some_0@;
    let visibilities = facts.visibilities->Some_0@;
    let viewable = facts.viewable->Some_0@;
    let seen = seen_sources(sources, visibilities, viewable);
    let id = cards[k].row.board_id@;
    let keep = |s: SourceBoardRow| sees(s.board_id@, visibilities, viewable);
    assert(sees(sources[j].board_id@, visibilities, viewable));
    sources.lemma_filter_contains(keep, j);
    let m = choose|m: int| 0 <= m < seen.len() && seen[m] == sources[j];
    assert(board_ids(seen)[m]@ == id);
    let on = |l: LoadedCard| is_listed(board_ids(seen), l.row.board_id@);
    let loaded = seen_cards(cards, seen);
    cards.lemma_filter_contains(on, k);
    let q = choose|q: int| 0 <= q < loaded.len() && loaded[q] == cards[k];
    let n = seen.len() as int;
    let shown = choose|shown: Seq<Card>| #[trigger]
        shows_cards(shown, loaded) && chunks.len() == 1 + 2 * n + batches(shown).len() && (forall|
            i: int,
        |
            1 + 2 * n <= i < chunks.len() ==> (
            #[trigger] chunks[i] matches AggregatedBoardChunk::CardBatch(b) && b@ == batches(
                shown,
            )[i - 1 - 2 * n]));
    lemma_card_is_in_its_batch(shown, q);
    let at = 1 + 2 * n + q / 100;
    assert(chunks[at] is CardBatch);
    assert(chunks[at]->CardBatch_0@[q % 100] == shown[q]);
    assert(shows_card(r->Answer_0[at]->CardBatch_0[q % 100], cards[k]));
}

/// The cards of an answer come in the order in which they were read, each once:
/// the card at place `m` of the answer is in batch `m / 100` at place `m % 100`,
/// and the cards that are shown are those of the boards that the caller sees.
pub proof fn law_cards_are_answered_in_order(
    r: GetAggregateStep,
    call: GetAggregateCall,
    facts: GetAggregateFacts,
)
    requires
        shows_aggregated_board(r, call, facts),
        r is Answer,
    ensures
        exists|at: Seq<int>|
            {
                let cards = facts.cards->Some_0;
                let start = r->Answer_0.len() - (#[trigger] at.len() + 99) / 100;
                &&& 1 <= start
                &&& forall|i: int, j: int|
                    0 <= i < j < at.len() ==> #[trigger] at[i] < #[trigger] at[j]
                &&& forall|k: int| #[trigger]
                    at.contains(k) <==> 0 <= k < cards.len() && exists|j: int|
                        {
                            &&& 0 <= j < facts.sources->Some_0.len()
                            &&& (#[trigger] facts.sources->Some_0[j]).board_id@
                                == cards[k].row.board_id@
                            &&& sees(
                                cards[k].row.board_id@,
                                facts.visibilities->Some_0@,
                                facts.viewable->Some_0@,
                            )
                        }
                &&& forall|m: int|
                    0 <= m < at.len() ==> {
                        &&& r->Answer_0[#[trigger] (start + m / 100)] is CardBatch
                        &&& m % 100 < r->Answer_0[start + m / 100]->CardBatch_0.len() <= 100
                        &&& shows_card(
                            r->Answer_0[start + m / 100]->CardBatch_0[m % 100],
                            cards[at[m]],
                        )
                    }
            },
{
    let chunks = r->Answer_0@;
    let cards = facts.cards->Some_0@;
    let sources = facts.sources->Some_0@;
    let visibilities = facts.visibilities->Some_0@;
    let viewable = facts.viewable->Some_0@;
    let seen = seen_sources(sources, visibilities, viewable);
    let keep = |s: SourceBoardRow| sees(s.board_id@, visibilities, viewable);
    let on = |l: LoadedCard| is_listed(board_ids(seen), l.row.board_id@);
    let loaded = seen_cards(cards, seen);
    let at = lemma_filter_selects(cards, on);
    let n = seen.len() as int;
    let start = 1 + 2 * n;
    let shown = choose|shown: Seq<Card>| #[trigger]
        shows_cards(shown, loaded) && chunks.len() == 1 + 2 * n + batches(shown).len() && (forall|
            i: int,
        |
            1 + 2 * n <= i < chunks.len() ==> (
            #[trigger] chunks[i] matches AggregatedBoardChunk::CardBatch(b) && b@ == batches(
                shown,
            )[i - 1 - 2 * n]));
    lemma_batch_count(shown);
    assert forall|k: int| #[trigger] at.contains(k) <==> 0 <= k < cards.len() && exists|j: int|
        {
            &&& 0 <= j < facts.sources->Some_0.len()
            &&& (#[trigger] facts.sources->Some_0[j]).board_id@ == cards[k].row.board_id@
            &&& sees(cards[k].row.board_id@, visibilities, viewable)
        } by {
        if at.contains(k) {
            let m = choose|m: int|
                0 <= m < board_ids(seen).len() && (#[trigger] board_ids(seen)[m])@
                    == cards[k].row.board_id@;
            assert(board_ids(seen)[m] == seen[m].board_id);
            sources.lemma_filter_pred(keep, m);
            assert(seen.contains(seen[m]));
            sources.lemma_filter_contains_rev(keep, seen[m]);
            let j = choose|j: int| 0 <= j < sources.len() && sources[j] == seen[m];
            assert(facts.sources->Some_0[j].board_id@ == cards[k].row.board_id@);
        }
        if 0 <= k < cards.len() && exists|j: int|
            {
                &&& 0 <= j < facts.sources->Some_0.len()
                &&& (#[trigger] facts.sources->Some_0[j]).board_id@ == cards[k].row.board_id@
                &&& sees(cards[k].row.board_id@, visibilities, viewable)
            } {
            let j = choose|j: int|
                {
                    &&& 0 <= j < facts.sources->Some_0.len()
                    &&& (#[trigger] facts.sources->Some_0[j]).board_id@ == cards[k].row.board_id@
                    &&& sees(cards[k].row.board_id@, visibilities, viewable)
                };
            sources.lemma_filter_contains(keep, j);
            let m = choose|m: int| 0 <= m < seen.len() && seen[m] == sources[j];
            assert(board_ids(seen)[m]@ == cards[k].row.board_id@);
            assert(on(cards[k]));
        }
    }
    assert forall|m: int| 0 <= m < at.len() implies {
        &&& r->Answer_0[#[trigger] (start + m / 100)] is CardBatch
        &&& m % 100 < r->Answer_0[start + m / 100]->CardBatch_0.len() <= 100
        &&& shows_card(r->Answer_0[start + m / 100]->CardBatch_0[m % 100], cards[at[m]])
    } by {
        lemma_card_is_in_its_batch(shown, m);
        law_batches_are_bounded(shown, m / 100);
        assert(chunks[start + m / 100] is CardBatch);
        assert(chunks[start + m / 100]->CardBatch_0@[m % 100] == shown[m]);
        assert(loaded[m] == cards[at[m]]);
    }
    assert(at.len() == shown.len());
}

/// An answer begins with the aggregated board. Then come the source boards that
/// the caller sees, all of them, each once and in their order, and after them a
/// column for each, in the same order, numbered from 1 and named after its
/// board.
pub proof fn law_every_seen_source_is_answered(
    r: GetAggregateStep,
    call: GetAggregateCall,
    facts: GetAggregateFacts,
)
    requires
        shows_aggregated_board(r, call, facts),
        r is Answer,
    ensures
        facts.board matches Some(Some(_)),
        r->Answer_0.len() > 0,
        r->Answer_0[0] matches AggregatedBoardChunk::Metadata(board) && shows_aggregate(
            board,
            facts.board->Some_0->Some_0,
        ),
        exists|at: Seq<int>|
            {
                let n = #[trigger] at.len() as int;
                let sources = facts.sources->Some_0;
                &&& r->Answer_0.len() >= 1 + 2 * n
                &&& forall|i: int, j: int| 0 <= i < j < n ==> #[trigger] at[i] < #[trigger] at[j]
                &&& forall|k: int| #[trigger]
                    at.contains(k) <==> 0 <= k < sources.len() && sees(
                        sources[k].board_id@,
                        facts.visibilities->Some_0@,
                        facts.viewable->Some_0@,
                    )
                &&& forall|i: int|
                    0 <= i < n ==> {
                        &&& r->Answer_0[1 + i] matches AggregatedBoardChunk::SourceBoard(s) && {
                            &&& s.board_id == sources[#[trigger] at[i]].board_id
                            &&& s.project_id == sources[at[i]].project_id
                            &&& s.name == sources[at[i]].name
                            &&& s.icon@ == match sources[at[i]].icon {
                                Some(icon) => icon@,
                                None => Seq::empty(),
                            }
                            &&& s.position == sources[at[i]].position
                        }
                        &&& r->Answer_0[1 + n + i] matches AggregatedBoardChunk::Column(c) && {
                            &&& c.id@ == "agg-col-"@ + sources[at[i]].board_id@
                            &&& c.title == sources[at[i]].name
                            &&& c.accent@ == match sources[at[i]].icon {
                                Some(icon) => icon@,
                                None => Seq::empty(),
                            }
                            &&& c.wip_limit == 0
                            &&& c.position == i + 1
                            &&& c.source_board_id == sources[at[i]].board_id
                        }
                    }
                &&& forall|i: int|
                    1 + 2 * n <= i < r->Answer_0.len() ==> #[trigger] r->Answer_0[i] is CardBatch
            },
{
    let chunks = r->Answer_0@;
    let sources = facts.sources->Some_0@;
    let visibilities = facts.visibilities->Some_0@;
    let viewable = facts.viewable->Some_0@;
    let seen = seen_sources(sources, visibilities, viewable);
    let keep = |s: SourceBoardRow| sees(s.board_id@, visibilities, viewable);
    let at = lemma_filter_selects(sources, keep);
    let n = at.len() as int;
    assert forall|i: int| 0 <= i < n implies {
        &&& r->Answer_0[1 + i] matches AggregatedBoardChunk::SourceBoard(s) && {
            &&& s.board_id == sources[#[trigger] at[i]].board_id
            &&& s.project_id == sources[at[i]].project_id
            &&& s.name == sources[at[i]].name
            &&& s.icon@ == match sources[at[i]].icon {
                Some(icon) => icon@,
                None => Seq::empty(),
            }
            &&& s.position == sources[at[i]].position
        }
        &&& r->Answer_0[1 + n + i] matches AggregatedBoardChunk::Column(c) && {
            &&& c.id@ == "agg-col-"@ + sources[at[i]].board_id@
            &&& c.title == sources[at[i]].name
            &&& c.accent@ == match sources[at[i]].icon {
                Some(icon) => icon@,
                None => Seq::empty(),
            }
            &&& c.wip_limit == 0
            &&& c.position == i + 1
            &&& c.source_board_id == sources[at[i]].board_id
        }
    } by {
        assert(seen[i] == sources[at[i]]);
        assert(chunks[1 + i] is SourceBoard);
        assert(chunks[1 + n + i] is Column);
    }
}

/// Reading an aggregated board goes on in order: it looks for the board, asks
/// whether the caller may view one that is not open, reads the source boards,
/// asks what the caller may view, and reads the visibilities of all source
/// boards and then the cards of those that the caller sees, and of no other.
pub proof fn law_reading_goes_on_in_order(
    r: GetAggregateStep,
    call: GetAggregateCall,
    facts: GetAggregateFacts,
    row: AggregatedBoardRow,
)
    requires
        shows_aggregated_board(r, call, facts),
    ensures
        r is FindBoard <==> facts.board is None,
        r matches GetAggregateStep::FindBoard { aggregated_board_id, tenant_id }
            ==> aggregated_board_id == call.aggregated_board_id && tenant_id == call.tenant_id,
        facts.board == Some(None::<AggregatedBoardRow>) ==> (r matches GetAggregateStep::Refuse(e)
            && e.code == Code::NotFound && e.message@ == "aggregated board not found"@),
        facts.board == Some(Some(row)) ==> {
            let open = row.visibility@ == "public"@ || row.visibility@ == "internal"@;
            &&& !open && facts.allowed is None ==> (r matches GetAggregateStep::CheckPermission {
                namespace,
                object_id,
                relation,
                subject,
            } && namespace@ == PERMISSION_TYPE@ && object_id == call.aggregated_board_id
                && relation@ == "view"@ && subject == call.subject)
            &&& !open && facts.allowed == Some(false) ==> (r matches GetAggregateStep::Refuse(e)
                && e.code == Code::PermissionDenied && e.message@
                == "you do not have permission to view this aggregated board"@)
            &&& open || facts.allowed == Some(true) ==> {
                &&& r is LoadSources <==> facts.sources is None
                &&& r is Expand <==> facts.sources is Some && facts.viewable is None
                &&& r is LoadVisibilities <==> facts.sources is Some && facts.viewable is Some
                    && facts.visibilities is None
                &&& r is LoadCards <==> facts.sources is Some && facts.viewable is Some
                    && facts.visibilities is Some && facts.cards is None
                &&& r is Answer <==> facts.sources is Some && facts.viewable is Some
                    && facts.visibilities is Some && facts.cards is Some
            }
        },
        r matches GetAggregateStep::LoadSources { aggregated_board_id, tenant_id }
            ==> aggregated_board_id == call.aggregated_board_id && tenant_id == call.tenant_id,
        r matches GetAggregateStep::Expand(q) ==> q.namespace@ == "KanbanBoard"@ && q.relation@
            == "view"@ && q.subject == call.subject && q.limit == 10000,
        r matches GetAggregateStep::LoadVisibilities { board_ids: ids, tenant_id } ==> {
            &&& tenant_id == call.tenant_id
            &&& ids.len() == facts.sources->Some_0.len()
            &&& forall|i: int|
                0 <= i < ids.len() ==> #[trigger] ids[i] == facts.sources->Some_0[i].board_id
        },
        r matches GetAggregateStep::LoadCards { board_ids: ids, tenant_id } ==> {
            &&& tenant_id == call.tenant_id
            &&& forall|j: int|
                0 <= j < facts.sources->Some_0.len() && sees(
                    (#[trigger] facts.sources->Some_0[j]).board_id@,
                    facts.visibilities->Some_0@,
                    facts.viewable->Some_0@,
                ) ==> ids@.contains(facts.sources->Some_0[j].board_id)
            &&& forall|i: int|
                0 <= i < ids.len() ==> sees(
                    (#[trigger] ids[i])@,
                    facts.visibilities->Some_0@,
                    facts.viewable->Some_0@,
                )
        },
{
    if r is LoadVisibilities {
        let ids = r->LoadVisibilities_board_ids;
        assert forall|i: int| 0 <= i < ids.len() implies #[trigger] ids[i]
            == facts.sources->Some_0[i].board_id by {
            assert(ids@[i] == board_ids(facts.sources->Some_0@)[i]);
        }
    }
    if r is LoadCards {
        let ids = r->LoadCards_board_ids;
        let sources = facts.sources->Some_0@;
        let visibilities = facts.visibilities->Some_0@;
        let viewable = facts.viewable->Some_0@;
        let seen = seen_sources(sources, visibilities, viewable);
        let keep = |s: SourceBoardRow| sees(s.board_id@, visibilities, viewable);
        assert forall|j: int| 0 <= j < sources.len() && sees(
            (#[trigger] facts.sources->Some_0[j]).board_id@,
            visibilities,
            viewable,
        ) implies ids@.contains(facts.sources->Some_0[j].board_id) by {
            sources.lemma_filter_contains(keep, j);
            let m = choose|m: int| 0 <= m < seen.len() && seen[m] == sources[j];
            assert(ids@[m] == board_ids(seen)[m]);
        }
        assert forall|i: int| 0 <= i < ids.len() implies sees(
            (#[trigger] ids[i])@,
            visibilities,
            viewable,
        ) by {
            assert(ids@[i] == board_ids(seen)[i]);
            sources.lemma_filter_pred(keep, i);
        }
    }
}

/// A request to read an aggregated board needs a caller, a tenant and the board,
/// and is refused for the first that is missing.
pub proof fn law_get_aggregate_request_is_refused_in_order(ctx: RequestContext, aggregated_board_id: IdArg)
    ensures
        get_aggregate_fault(ctx, aggregated_board_id) == if ctx.subject() is None {
            Some(StatusView { code: Code::Unauthenticated, message: "missing auth context"@ })
        } else if ctx.tenant() is None {
            Some(StatusView { code: Code::Unauthenticated, message: "missing tenant context"@ })
        } else if aggregated_board_id.id is None {
            Some(StatusView { code: Code::InvalidArgument, message: "invalid aggregated_board_id"@ })
        } else {
            None
        },
{
}

} // verus!
