//! Listing, reading, creating, changing, deleting and following boards.
use crate::boards::model::{board_from_row, columns_from_rows, shows_board, shows_column};
use crate::boards::model::shows_columns;
use crate::boards::model::{slug, slug_from_name, Board, BoardRow, Column, ColumnRow};
use crate::boards::model::{MAX_VIEWABLE, PERMISSION_TYPE_BOARD};
use crate::context::{checked_id, copy_text, id_fault, object_fault, require_id, subject_fault};
use crate::context::{subject_from_request, tenant_fault, tenant_id_from_request};
use crate::context::{AuthContext, Id, IdArg, RequestContext};
use crate::mask::{is_masked, mask_contains};
use crate::number::{low_i32, truncate_len};
use crate::page::lemma_filter_selects;
use crate::permission::{asks_viewable, viewable_query, ExpandQuery};
use crate::status::{fault, first_fault, first_of3, require_rows, Code, Status, StatusView};
use crate::stream::StreamConfig;
use crate::text::{if_not_empty, non_empty, same_text};
use crate::visibility::{is_open, is_public_or_internal, is_visible, visible};
use vstd::prelude::*;
use vstd::string::*;

verus! {

/// A request for the boards of a project that may go ahead.
#[derive(Debug)]
pub struct ListBoardsCall {
    pub tenant_id: String,
    pub project_id: Id,
    /// Which boards the caller may view by permission.
    pub query: ExpandQuery,
}

/// Why a request for the boards of a project is refused.
pub open spec fn list_boards_fault(ctx: RequestContext, project_id: IdArg) -> Option<StatusView> {
    first_of3(subject_fault(ctx), tenant_fault(ctx), id_fault(project_id, "invalid project_id"))
}

/// Checks a request for the boards of a project.
pub fn list_boards_call(ctx: &RequestContext, project_id: &IdArg) -> (r: Result<
    ListBoardsCall,
    Status,
>)
    ensures
        match r {
            Ok(call) => {
                &&& list_boards_fault(*ctx, *project_id) is None
                &&& ctx.tenant() == Some(call.tenant_id)
                &&& project_id.id == Some(call.project_id)
                &&& asks_viewable(
                    call.query,
                    PERMISSION_TYPE_BOARD,
                    ctx.subject()->Some_0,
                    MAX_VIEWABLE,
                )
            },
            Err(e) => list_boards_fault(*ctx, *project_id) == Some(e@),
        },
{
    let subject = subject_from_request(ctx)?;
    let tenant_id = tenant_id_from_request(ctx)?;
    let project_id = require_id(project_id, "invalid project_id")?;
    let query = viewable_query(PERMISSION_TYPE_BOARD, &subject, MAX_VIEWABLE);
    Ok(ListBoardsCall { tenant_id, project_id, query })
}

/// The board in the row is one of the project, and a caller sees it who may view
/// the private boards `allowed`.
pub open spec fn is_shown(row: BoardRow, project_id: Seq<char>, allowed: Seq<Id>) -> bool {
    row.project_id@ == project_id && is_visible(row.id@, row.visibility@, allowed)
}

/// The boards of the project among `rows` that a caller sees who may view the
/// private boards `allowed`.
pub open spec fn visible_rows(rows: Seq<BoardRow>, project_id: Seq<char>, allowed: Seq<Id>) -> Seq<
    BoardRow,
> {
    rows.filter(|row: BoardRow| is_shown(row, project_id, allowed))
}

/// Keeps the boards of the project that a caller sees who may view the private
/// boards `allowed`, in their order.
pub fn list_boards(rows: Vec<BoardRow>, project_id: &Id, allowed: &Vec<Id>) -> (r: Vec<BoardRow>)
    ensures
        r@ == visible_rows(rows@, project_id@, allowed@),
{
    let ghost all = rows@;
    let ghost keep = |row: BoardRow| is_shown(row, project_id@, allowed@);
    let mut r: Vec<BoardRow> = Vec::new();
    assert(all.take(0).filter(keep) =~= r@) by {
        reveal(Seq::filter);
    }
    for row in it: rows
        invariant
            it.seq() == all,
            keep == (|row: BoardRow| is_shown(row, project_id@, allowed@)),
            r@ == all.take(it.index()).filter(keep),
    {
        proof {
            assert(all.take(it.index() + 1).drop_last() =~= all.take(it.index()));
            reveal(Seq::filter);
        }
        if row.project_id == *project_id && visible(&row.id, row.visibility.as_str(), allowed) {
            r.push(row);
        }
    }
    assert(all.take(all.len() as int) =~= all);
    r
}

/// A board is listed exactly where it is one of the project and the caller sees
/// it: no private board is listed for a caller who may not view it, and every
/// board is that is open or that the caller may view.
pub proof fn law_listing_shows_exactly_what_may_be_seen(
    rows: Seq<BoardRow>,
    project_id: Seq<char>,
    allowed: Seq<Id>,
    row: BoardRow,
)
    requires
        rows.contains(row),
    ensures
        visible_rows(rows, project_id, allowed).contains(row) <==> row.project_id@ == project_id
            && is_visible(row.id@, row.visibility@, allowed),
{
    let keep = |row: BoardRow| is_shown(row, project_id, allowed);
    let listed = visible_rows(rows, project_id, allowed);
    let i = choose|i: int| 0 <= i < rows.len() && rows[i] == row;
    if keep(row) {
        rows.lemma_filter_contains(keep, i);
    }
    if listed.contains(row) {
        let j = choose|j: int| 0 <= j < listed.len() && listed[j] == row;
        rows.lemma_filter_pred(keep, j);
    }
}

/// A request to read a board that may go ahead.
#[derive(Debug)]
pub struct GetBoardCall {
    pub subject: String,
    pub tenant_id: String,
    pub board_id: Id,
}

/// Why a request to read a board is refused before anything is looked up.
pub open spec fn get_board_fault(ctx: RequestContext, board_id: IdArg) -> Option<StatusView> {
    first_of3(subject_fault(ctx), tenant_fault(ctx), id_fault(board_id, "invalid board_id"))
}

/// Checks a request to read a board.
pub fn get_board_call(ctx: &RequestContext, board_id: &IdArg) -> (r: Result<GetBoardCall, Status>)
    ensures
        match r {
            Ok(call) => {
                &&& get_board_fault(*ctx, *board_id) is None
                &&& ctx.subject() == Some(call.subject)
                &&& ctx.tenant() == Some(call.tenant_id)
                &&& board_id.id == Some(call.board_id)
            },
            Err(e) => get_board_fault(*ctx, *board_id) == Some(e@),
        },
{
    let subject = subject_from_request(ctx)?;
    let tenant_id = tenant_id_from_request(ctx)?;
    let board_id = require_id(board_id, "invalid board_id")?;
    Ok(GetBoardCall { subject, tenant_id, board_id })
}

/// A board with its columns, as it is answered.
#[derive(Debug)]
pub struct BoardDetail {
    pub board: Board,
    pub columns: Vec<Column>,
}

/// What has been learned for a request to read a board.
#[derive(Debug)]
pub struct GetBoardFacts {
    /// The board, once it was looked for.
    pub board: Option<Option<BoardRow>>,
    /// Whether the caller may view the board, once that was asked.
    pub allowed: Option<bool>,
    /// The board's columns, by position, and the number of its cards.
    pub content: Option<(Vec<ColumnRow>, i32)>,
}

/// What a request to read a board needs next.
#[derive(Debug)]
pub enum GetBoardStep {
    /// Look for the board.
    FindBoard { board_id: Id, tenant_id: String },
    /// Ask whether the caller may.
    CheckPermission {
        namespace: &'static str,
        object_id: Id,
        relation: &'static str,
        subject: String,
    },
    /// Read the board's columns, by position, and count its cards.
    LoadContent { board_id: Id, tenant_id: String },
    Answer(BoardDetail),
    Refuse(Status),
}

/// What a request for a board needs next: a private one is read only once the
/// caller may view it.
pub open spec fn shows_detail(r: GetBoardStep, call: GetBoardCall, facts: GetBoardFacts) -> bool {
    match facts.board {
        None => r == (GetBoardStep::FindBoard {
            board_id: call.board_id,
            tenant_id: call.tenant_id,
        }),
        Some(None) => r matches GetBoardStep::Refuse(e) && e@ == fault(
            Code::NotFound,
            "board not found",
        ),
        Some(Some(row)) => if !is_open(row.visibility@) && facts.allowed is None {
            r matches GetBoardStep::CheckPermission { namespace, object_id, relation, subject }
                && namespace@ == PERMISSION_TYPE_BOARD@ && object_id == call.board_id
                && relation@ == "view"@ && subject == call.subject
        } else if !is_open(row.visibility@) && facts.allowed == Some(false) {
            r matches GetBoardStep::Refuse(e) && e@ == fault(
                Code::PermissionDenied,
                "you do not have permission to view this board",
            )
        } else {
            match facts.content {
                None => r == (GetBoardStep::LoadContent {
                    board_id: call.board_id,
                    tenant_id: call.tenant_id,
                }),
                Some((columns, cards_count)) => {
                    &&& r matches GetBoardStep::Answer(detail)
                    &&& shows_board(
                        detail.board,
                        row,
                        low_i32(columns.len() as int) as i32,
                        cards_count,
                    )
                    &&& shows_columns(detail.columns@, columns@)
                },
            }
        },
    }
}

/// Reads a board: what to do next, given what has been learned. A private board
/// is answered only to a caller who may view it.
pub fn get_board(call: &GetBoardCall, facts: &GetBoardFacts) -> (r: GetBoardStep)
    ensures
        shows_detail(r, *call, *facts),
{
    let row = match &facts.board {
        None => {
            return GetBoardStep::FindBoard {
                board_id: call.board_id.clone(),
                tenant_id: call.tenant_id.clone(),
            };
        },
        Some(None) => {
            return GetBoardStep::Refuse(Status::not_found("board not found"));
        },
        Some(Some(row)) => row,
    };
    if !is_public_or_internal(row.visibility.as_str()) {
        match facts.allowed {
            None => {
                return GetBoardStep::CheckPermission {
                    namespace: PERMISSION_TYPE_BOARD,
                    object_id: call.board_id.clone(),
                    relation: "view",
                    subject: call.subject.clone(),
                };
            },
            Some(false) => {
                return GetBoardStep::Refuse(
                    Status::permission_denied("you do not have permission to view this board"),
                );
            },
            Some(true) => {},
        }
    }
    match &facts.content {
        None => GetBoardStep::LoadContent {
            board_id: call.board_id.clone(),
            tenant_id: call.tenant_id.clone(),
        },
        Some((columns, cards_count)) => GetBoardStep::Answer(
            BoardDetail {
                board: board_from_row(row, truncate_len(columns.len()), *cards_count),
                columns: columns_from_rows(columns),
            },
        ),
    }
}

/// A request to create a board.
#[derive(Debug)]
pub struct CreateBoardRequest {
    pub name: String,
    pub description: String,
    pub icon: String,
    /// The visibility, in its stored form.
    pub visibility: String,
    pub idempotency_key: String,
}

/// A request to create a board that may go ahead.
#[derive(Debug)]
pub struct CreateBoardCall {
    pub project_id: Id,
    pub tenant_id: String,
    pub req: CreateBoardRequest,
}

/// Why a request to create a board is refused before anything is looked up.
pub open spec fn create_board_fault(ctx: RequestContext) -> Option<StatusView> {
    first_fault(object_fault(ctx, "invalid project_id"), tenant_fault(ctx))
}

/// Checks a request to create a board in the project that the call was
/// authorized for.
pub fn create_board_call(ctx: &RequestContext, req: CreateBoardRequest) -> (r: Result<
    CreateBoardCall,
    Status,
>)
    ensures
        match r {
            Ok(call) => {
                &&& create_board_fault(*ctx) is None
                &&& ctx.object() == Some(call.project_id)
                &&& ctx.tenant() == Some(call.tenant_id)
                &&& call.req == req
            },
            Err(e) => create_board_fault(*ctx) == Some(e@),
        },
{
    let project_id = checked_id(ctx, "invalid project_id")?;
    let tenant_id = tenant_id_from_request(ctx)?;
    Ok(CreateBoardCall { project_id, tenant_id, req })
}

/// A board to be stored.
#[derive(Debug)]
pub struct NewBoard {
    pub id: Id,
    pub tenant_id: String,
    pub project_id: Id,
    pub name: String,
    pub slug: String,
    pub description: String,
    pub icon: Option<String>,
    pub visibility: String,
}

/// What became of a board to be stored.
#[derive(Debug)]
pub enum InsertReply {
    Stored(BoardRow),
    /// It was not stored; `constraint` names the constraint that it broke, where
    /// it broke one.
    Failed { constraint: Option<String> },
}

/// What has been learned for a request to create a board.
#[derive(Debug)]
pub struct CreateBoardFacts {
    /// The board that was answered to an earlier request with the key.
    pub replay: Option<Option<Id>>,
    /// That board with the number of its columns and cards, once it was looked
    /// for.
    pub cached: Option<Option<(BoardRow, i32, i32)>>,
    /// What became of the new board.
    pub inserted: Option<InsertReply>,
    /// The permission backend was told that the board belongs to its project.
    pub granted: bool,
    /// The key was kept.
    pub kept: bool,
}

/// What a request to create a board needs next.
#[derive(Debug)]
pub enum CreateBoardStep {
    /// Look for an earlier request with the key: the board it was answered.
    FindKey { tenant_id: String, key: String },
    /// Read that board and count its columns and cards.
    LoadBoard { board_id: Id, tenant_id: String },
    /// Store the board.
    Store(NewBoard),
    /// Tell the permission backend; a failure is left for later.
    Grant { namespace: &'static str, object_id: Id, relation: &'static str, subject: String },
    /// Keep the key with the board.
    KeepKey { tenant_id: String, key: String, board_id: Id },
    Answer(Board),
    Refuse(Status),
}

/// `new` is the board that the call asks for.
pub open spec fn is_new_board(new: NewBoard, call: CreateBoardCall, board_id: Id) -> bool {
    &&& new.id == board_id
    &&& new.tenant_id == call.tenant_id
    &&& new.project_id == call.project_id
    &&& new.name == call.req.name
    &&& new.slug@ == slug(call.req.name@)
    &&& new.description == call.req.description
    &&& new.icon == non_empty(call.req.icon)
    &&& new.visibility == call.req.visibility
}

/// Why a board was not stored: another one of the project has its slug, or
/// something else.
pub open spec fn insert_fault(constraint: Option<String>) -> StatusView {
    if constraint matches Some(c) && c@ == "boards_project_id_slug_key"@ {
        fault(Code::AlreadyExists, "board with that name already exists in project")
    } else {
        fault(Code::Internal, "failed to insert board")
    }
}

fn insert_status(constraint: &Option<String>) -> (r: Status)
    ensures
        r@ == insert_fault(*constraint),
{
    if let Some(c) = constraint {
        if same_text(c.as_str(), "boards_project_id_slug_key") {
            return Status::new(
                Code::AlreadyExists,
                "board with that name already exists in project",
            );
        }
    }
    Status::internal("failed to insert board")
}

/// What a request that no earlier board answers needs next.
pub open spec fn creates_board(
    r: CreateBoardStep,
    call: CreateBoardCall,
    board_id: Id,
    facts: CreateBoardFacts,
) -> bool {
    let key = call.req.idempotency_key;
    if call.req.name@.len() == 0 {
        r matches CreateBoardStep::Refuse(e) && e@ == fault(
            Code::InvalidArgument,
            "name is required",
        )
    } else {
        match facts.inserted {
            None => r matches CreateBoardStep::Store(new) && is_new_board(new, call, board_id),
            Some(InsertReply::Failed { constraint }) => r matches CreateBoardStep::Refuse(e) && e@
                == insert_fault(constraint),
            Some(InsertReply::Stored(row)) => if !facts.granted {
                r matches CreateBoardStep::Grant { namespace, object_id, relation, subject }
                    && namespace@ == PERMISSION_TYPE_BOARD@ && object_id == board_id && relation@
                    == "parent"@ && subject@ == "KanbanProject:"@ + call.project_id@
            } else if key@.len() > 0 && !facts.kept {
                r == (CreateBoardStep::KeepKey { tenant_id: call.tenant_id, key, board_id })
            } else {
                r matches CreateBoardStep::Answer(board) && shows_board(board, row, 0, 0)
            },
        }
    }
}

/// What a request to create a board needs next.
pub open spec fn leads_board(
    r: CreateBoardStep,
    call: CreateBoardCall,
    board_id: Id,
    facts: CreateBoardFacts,
) -> bool {
    if call.req.idempotency_key@.len() == 0 {
        creates_board(r, call, board_id, facts)
    } else {
        match (facts.replay, facts.cached) {
            (None, _) => r == (CreateBoardStep::FindKey {
                tenant_id: call.tenant_id,
                key: call.req.idempotency_key,
            }),
            (Some(Some(earlier)), None) => r == (CreateBoardStep::LoadBoard {
                board_id: earlier,
                tenant_id: call.tenant_id,
            }),
            (Some(Some(_)), Some(Some((row, columns_count, cards_count)))) => {
                r matches CreateBoardStep::Answer(board) && shows_board(
                    board,
                    row,
                    columns_count,
                    cards_count,
                )
            },
            _ => creates_board(r, call, board_id, facts),
        }
    }
}

/// Creates a board: what to do next, given what has been learned. Where the key
/// was used before and its board is still there, that board is answered and
/// nothing is stored.
pub fn create_board(call: &CreateBoardCall, board_id: &Id, facts: &CreateBoardFacts) -> (r:
    CreateBoardStep)
    ensures
        leads_board(r, *call, *board_id, *facts),
{
    let has_key = !call.req.idempotency_key.as_str().is_empty();
    if has_key {
        match (&facts.replay, &facts.cached) {
            (None, _) => {
                return CreateBoardStep::FindKey {
                    tenant_id: call.tenant_id.clone(),
                    key: call.req.idempotency_key.clone(),
                };
            },
            (Some(Some(earlier)), None) => {
                return CreateBoardStep::LoadBoard {
                    board_id: earlier.clone(),
                    tenant_id: call.tenant_id.clone(),
                };
            },
            (Some(Some(_)), Some(Some((row, columns_count, cards_count)))) => {
                return CreateBoardStep::Answer(board_from_row(row, *columns_count, *cards_count));
            },
            _ => {},
        }
    }
    if call.req.name.as_str().is_empty() {
        return CreateBoardStep::Refuse(Status::invalid_argument("name is required"));
    }
    let row = match &facts.inserted {
        None => {
            return CreateBoardStep::Store(
                NewBoard {
                    id: board_id.clone(),
                    tenant_id: call.tenant_id.clone(),
                    project_id: call.project_id.clone(),
                    name: call.req.name.clone(),
                    slug: slug_from_name(call.req.name.as_str()),
                    description: call.req.description.clone(),
                    icon: if_not_empty(&call.req.icon),
                    visibility: call.req.visibility.clone(),
                },
            );
        },
        Some(InsertReply::Failed { constraint }) => {
            return CreateBoardStep::Refuse(insert_status(constraint));
        },
        Some(InsertReply::Stored(row)) => row,
    };
    if !facts.granted {
        let mut subject: String = "KanbanProject:".to_owned();
        subject.append(call.project_id.as_str());
        return CreateBoardStep::Grant {
            namespace: PERMISSION_TYPE_BOARD,
            object_id: board_id.clone(),
            relation: "parent",
            subject,
        };
    }
    if has_key && !facts.kept {
        return CreateBoardStep::KeepKey {
            tenant_id: call.tenant_id.clone(),
            key: call.req.idempotency_key.clone(),
            board_id: board_id.clone(),
        };
    }
    CreateBoardStep::Answer(board_from_row(row, 0, 0))
}

/// The fields of a board to change. What is empty stays as it is; the
/// visibility changes only where the mask names it.
#[derive(Debug)]
pub struct BoardPatch {
    pub name: String,
    pub description: String,
    pub icon: String,
    /// The visibility, in its stored form.
    pub visibility: String,
    /// The fields that the request names as changed.
    pub mask: Vec<String>,
}

/// A request to change a board that may go ahead.
#[derive(Debug)]
pub struct UpdateBoardCall {
    pub subject: String,
    pub tenant_id: String,
    pub board_id: Id,
}

/// Why a request to change a board is refused before anything is looked up.
pub open spec fn update_board_fault(ctx: RequestContext) -> Option<StatusView> {
    first_of3(subject_fault(ctx), tenant_fault(ctx), object_fault(ctx, "invalid board_id"))
}

/// Checks a request to change the board that the call was authorized for.
pub fn update_board_call(ctx: &RequestContext) -> (r: Result<UpdateBoardCall, Status>)
    ensures
        match r {
            Ok(call) => {
                &&& update_board_fault(*ctx) is None
                &&& ctx.subject() == Some(call.subject)
                &&& ctx.tenant() == Some(call.tenant_id)
                &&& ctx.object() == Some(call.board_id)
            },
            Err(e) => update_board_fault(*ctx) == Some(e@),
        },
{
    let subject = subject_from_request(ctx)?;
    let tenant_id = tenant_id_from_request(ctx)?;
    let board_id = checked_id(ctx, "invalid board_id")?;
    Ok(UpdateBoardCall { subject, tenant_id, board_id })
}

/// A change to a board. What is `None` stays as it is.
#[derive(Debug)]
pub struct BoardUpdate {
    pub board_id: Id,
    pub tenant_id: String,
    pub name: Option<String>,
    pub description: Option<String>,
    pub icon: Option<String>,
    pub visibility: Option<String>,
}

/// What has been learned for a request to change a board.
#[derive(Debug)]
pub struct UpdateBoardFacts {
    /// Whether the caller may manage the board, once that was asked.
    pub allowed: Option<bool>,
    /// The changed board with the number of its columns and cards, once the
    /// change was made; none where there is no such board.
    pub updated: Option<Option<(BoardRow, i32, i32)>>,
}

/// What a request to change a board needs next.
#[derive(Debug)]
pub enum UpdateBoardStep {
    /// Ask whether the caller may.
    CheckPermission {
        namespace: &'static str,
        object_id: Id,
        relation: &'static str,
        subject: String,
    },
    /// Make the change, where there is such a board.
    Update(BoardUpdate),
    Answer(Board),
    Refuse(Status),
}

/// What a request to change a board needs next.
pub open spec fn changes_board(
    r: UpdateBoardStep,
    call: UpdateBoardCall,
    patch: BoardPatch,
    facts: UpdateBoardFacts,
) -> bool {
    if is_masked(patch.mask@, "visibility") && facts.allowed is None {
        r matches UpdateBoardStep::CheckPermission { namespace, object_id, relation, subject }
            && namespace@ == PERMISSION_TYPE_BOARD@ && object_id == call.board_id && relation@
            == "manage"@ && subject == call.subject
    } else if is_masked(patch.mask@, "visibility") && facts.allowed == Some(false) {
        r matches UpdateBoardStep::Refuse(e) && e@ == fault(
            Code::PermissionDenied,
            "you do not have permission to change board visibility",
        )
    } else {
        match facts.updated {
            None => r == UpdateBoardStep::Update(
                BoardUpdate {
                    board_id: call.board_id,
                    tenant_id: call.tenant_id,
                    name: non_empty(patch.name),
                    description: non_empty(patch.description),
                    icon: non_empty(patch.icon),
                    visibility: if is_masked(patch.mask@, "visibility") {
                        Some(patch.visibility)
                    } else {
                        None
                    },
                },
            ),
            Some(None) => r matches UpdateBoardStep::Refuse(e) && e@ == fault(
                Code::NotFound,
                "board not found",
            ),
            Some(Some((row, columns_count, cards_count))) => {
                r matches UpdateBoardStep::Answer(board) && shows_board(
                    board,
                    row,
                    columns_count,
                    cards_count,
                )
            },
        }
    }
}

/// Changes a board: what to do next, given what has been learned. Its
/// visibility changes only where the mask names it and the caller may manage
/// the board.
pub fn update_board(call: &UpdateBoardCall, patch: &BoardPatch, facts: &UpdateBoardFacts) -> (r:
    UpdateBoardStep)
    ensures
        changes_board(r, *call, *patch, *facts),
{
    let visibility_change = mask_contains(&patch.mask, "visibility");
    if visibility_change {
        match facts.allowed {
            None => {
                return UpdateBoardStep::CheckPermission {
                    namespace: PERMISSION_TYPE_BOARD,
                    object_id: call.board_id.clone(),
                    relation: "manage",
                    subject: call.subject.clone(),
                };
            },
            Some(false) => {
                return UpdateBoardStep::Refuse(
                    Status::permission_denied(
                        "you do not have permission to change board visibility",
                    ),
                );
            },
            Some(true) => {},
        }
    }
    match &facts.updated {
        None => UpdateBoardStep::Update(
            BoardUpdate {
                board_id: call.board_id.clone(),
                tenant_id: call.tenant_id.clone(),
                name: if_not_empty(&patch.name),
                description: if_not_empty(&patch.description),
                icon: if_not_empty(&patch.icon),
                visibility: if visibility_change {
                    Some(patch.visibility.clone())
                } else {
                    None
                },
            },
        ),
        Some(None) => UpdateBoardStep::Refuse(Status::not_found("board not found")),
        Some(Some((row, columns_count, cards_count))) => UpdateBoardStep::Answer(
            board_from_row(row, *columns_count, *cards_count),
        ),
    }
}

/// A board that may be acted on.
#[derive(Debug)]
pub struct BoardCall {
    pub board_id: Id,
    pub tenant_id: String,
}

/// Why a request on a board is refused before anything is looked up.
pub open spec fn board_fault(ctx: RequestContext) -> Option<StatusView> {
    first_fault(tenant_fault(ctx), object_fault(ctx, "invalid board_id"))
}

/// Checks a request on the board that the call was authorized for.
pub fn board_call(ctx: &RequestContext) -> (r: Result<BoardCall, Status>)
    ensures
        match r {
            Ok(call) => {
                &&& board_fault(*ctx) is None
                &&& ctx.object() == Some(call.board_id)
                &&& ctx.tenant() == Some(call.tenant_id)
            },
            Err(e) => board_fault(*ctx) == Some(e@),
        },
{
    let tenant_id = tenant_id_from_request(ctx)?;
    let board_id = checked_id(ctx, "invalid board_id")?;
    Ok(BoardCall { board_id, tenant_id })
}

/// Deletes a board: `deleted` boards were found and deleted, with all that is
/// on them.
pub fn delete_board(deleted: u64) -> (r: Result<(), Status>)
    ensures
        match r {
            Ok(_) => deleted > 0,
            Err(e) => deleted == 0 && e@ == fault(Code::NotFound, "board not found"),
        },
{
    require_rows(deleted, "board not found")
}

/// A request to follow a board that may go ahead.
#[derive(Debug)]
pub struct SubscribeBoardCall {
    pub auth: AuthContext,
    pub tenant_id: String,
    pub board_id: Id,
    /// The board as the request names it, which is also the topic to follow.
    pub topic: String,
}

/// Why a request to follow a board is refused before anything is looked up.
pub open spec fn subscribe_board_fault(ctx: RequestContext, board_id: IdArg) -> Option<StatusView> {
    if ctx.auth is None {
        Some(fault(Code::Unauthenticated, "missing auth context"))
    } else {
        first_fault(tenant_fault(ctx), id_fault(board_id, "invalid board_id"))
    }
}

/// Checks a request to follow a board.
pub fn subscribe_board_call(ctx: &RequestContext, board_id: &IdArg) -> (r: Result<
    SubscribeBoardCall,
    Status,
>)
    ensures
        match r {
            Ok(call) => {
                &&& subscribe_board_fault(*ctx, *board_id) is None
                &&& ctx.auth == Some(call.auth)
                &&& ctx.tenant() == Some(call.tenant_id)
                &&& board_id.id == Some(call.board_id)
                &&& call.topic == board_id.text
            },
            Err(e) => subscribe_board_fault(*ctx, *board_id) == Some(e@),
        },
{
    let auth = match &ctx.auth {
        None => {
            return Err(Status::unauthenticated("missing auth context"));
        },
        Some(auth) => AuthContext {
            tenant_id: copy_text(&auth.tenant_id),
            subject: copy_text(&auth.subject),
            exp: auth.exp,
        },
    };
    let tenant_id = tenant_id_from_request(ctx)?;
    let topic = board_id.text.clone();
    let board_id = require_id(board_id, "invalid board_id")?;
    Ok(SubscribeBoardCall { auth, tenant_id, board_id, topic })
}

/// The caller as the permission backend is asked about them.
pub open spec fn subject_or_empty(auth: AuthContext) -> Seq<char> {
    match auth.subject {
        Some(s) => s@,
        None => Seq::empty(),
    }
}

/// The settings of a board's stream; `visibility` is the board's, where the
/// board was found.
pub fn subscribe_board(
    call: &SubscribeBoardCall,
    visibility: &Option<String>,
    recheck_interval_ms: u64,
) -> (r: Result<StreamConfig, Status>)
    ensures
        match (r, *visibility) {
            (Ok(config), Some(v)) => {
                &&& config.topics@ == seq![call.topic]
                &&& config.namespace@ == PERMISSION_TYPE_BOARD@
                &&& config.object_id == call.topic
                &&& config.subject@ == subject_or_empty(call.auth)
                &&& config.expires_at == call.auth.exp
                &&& config.is_private == !is_open(v@)
                &&& config.recheck_interval_ms == recheck_interval_ms
            },
            (Err(e), None) => e@ == fault(Code::NotFound, "board not found"),
            _ => false,
        },
{
    match visibility {
        None => Err(Status::not_found("board not found")),
        Some(v) => {
            let mut topics: Vec<String> = Vec::new();
            topics.push(call.topic.clone());
            assert(topics@ =~= seq![call.topic]);
            Ok(
                StreamConfig {
                    topics,
                    namespace: PERMISSION_TYPE_BOARD,
                    object_id: call.topic.clone(),
                    subject: match &call.auth.subject {
                        Some(s) => s.clone(),
                        None => String::new(),
                    },
                    expires_at: call.auth.exp,
                    is_private: !is_public_or_internal(v.as_str()),
                    recheck_interval_ms,
                },
            )
        },
    }
}

/// A request sent twice creates one board: as long as the board that the first
/// one created is there, the second one is answered that board.
pub proof fn law_repeat_answers_the_first_board(
    first: CreateBoardStep,
    call: CreateBoardCall,
    board_id: Id,
    facts: CreateBoardFacts,
    again: CreateBoardStep,
    repeat: CreateBoardCall,
    other_id: Id,
    learned: CreateBoardFacts,
)
    requires
        leads_board(first, call, board_id, facts),
        first is KeepKey,
        leads_board(again, repeat, other_id, learned),
        repeat.tenant_id == call.tenant_id,
        repeat.req.idempotency_key == call.req.idempotency_key,
        learned.replay == Some(Some(first->KeepKey_board_id)),
        learned.cached != Some(None::<(BoardRow, i32, i32)>),
    ensures
        !(again is Store),
        match learned.cached {
            Some(Some((row, columns_count, cards_count))) => {
                again matches CreateBoardStep::Answer(board) && shows_board(
                    board,
                    row,
                    columns_count,
                    cards_count,
                )
            },
            _ => again == (CreateBoardStep::LoadBoard { board_id, tenant_id: call.tenant_id }),
        },
{
}

/// Of a private board nothing is read or answered before the permission backend
/// has let the caller in.
pub proof fn law_private_board_needs_permission(
    r: GetBoardStep,
    call: GetBoardCall,
    facts: GetBoardFacts,
    row: BoardRow,
)
    requires
        shows_detail(r, call, facts),
        facts.board == Some(Some(row)),
        r is LoadContent || r is Answer,
    ensures
        is_open(row.visibility@) || facts.allowed == Some(true),
{
}

/// A board's visibility changes only where the request's mask names it and the
/// permission backend has let the caller manage the board.
pub proof fn law_visibility_needs_manage(
    r: UpdateBoardStep,
    call: UpdateBoardCall,
    patch: BoardPatch,
    facts: UpdateBoardFacts,
)
    requires
        changes_board(r, call, patch, facts),
        r matches UpdateBoardStep::Update(u) && u.visibility is Some,
    ensures
        is_masked(patch.mask@, "visibility"),
        facts.allowed == Some(true),
{
}

/// A listing shows the boards of the project that are public, internal or
/// viewable by the caller, all of them, each once and in their order.
pub proof fn law_listing_leaves_out_no_board(
    rows: Seq<BoardRow>,
    project_id: Seq<char>,
    allowed: Seq<Id>,
)
    ensures
        exists|at: Seq<int>|
            {
                &&& #[trigger] at.len() == visible_rows(rows, project_id, allowed).len()
                &&& forall|i: int, j: int|
                    0 <= i < j < at.len() ==> #[trigger] at[i] < #[trigger] at[j]
                &&& forall|k: int| #[trigger]
                    at.contains(k) <==> {
                        &&& 0 <= k < rows.len()
                        &&& rows[k].project_id@ == project_id
                        &&& rows[k].visibility@ == "public"@ || rows[k].visibility@ == "internal"@
                            || exists|j: int|
                            0 <= j < allowed.len() && (#[trigger] allowed[j])@ == rows[k].id@
                    }
                &&& forall|i: int|
                    0 <= i < at.len() ==> visible_rows(rows, project_id, allowed)[i]
                        == rows[#[trigger] at[i]]
            },
{
    let keep = |row: BoardRow| is_shown(row, project_id, allowed);
    let at = lemma_filter_selects(rows, keep);
    assert(at.len() == visible_rows(rows, project_id, allowed).len());
}

/// A board is shown with all its columns and its counts to everyone where it is
/// public or internal, and else to those who may view it, and to no one else.
pub proof fn law_board_is_shown_to_those_who_may_view_it(
    r: GetBoardStep,
    call: GetBoardCall,
    facts: GetBoardFacts,
    row: BoardRow,
)
    requires
        shows_detail(r, call, facts),
    ensures
        facts.board is None ==> r == (GetBoardStep::FindBoard {
            board_id: call.board_id,
            tenant_id: call.tenant_id,
        }),
        facts.board == Some(None::<BoardRow>) ==> (r matches GetBoardStep::Refuse(e) && e.code
            == Code::NotFound && e.message@ == "board not found"@),
        facts.board == Some(Some(row)) ==> {
            let open = row.visibility@ == "public"@ || row.visibility@ == "internal"@;
            &&& !open && facts.allowed is None ==> (r matches GetBoardStep::CheckPermission {
                namespace,
                object_id,
                relation,
                subject,
            } && namespace@ == "KanbanBoard"@ && object_id == call.board_id && relation@ == "view"@
                && subject == call.subject)
            &&& !open && facts.allowed == Some(false) ==> (r matches GetBoardStep::Refuse(e)
                && e.code == Code::PermissionDenied && e.message@
                == "you do not have permission to view this board"@)
            &&& open || facts.allowed == Some(true) ==> match facts.content {
                None => r == (GetBoardStep::LoadContent {
                    board_id: call.board_id,
                    tenant_id: call.tenant_id,
                }),
                Some((columns, cards_count)) => {
                    &&& r matches GetBoardStep::Answer(detail)
                    &&& detail.board.id == row.id
                    &&& detail.board.name == row.name
                    &&& detail.board.visibility == row.visibility
                    &&& columns.len() <= i32::MAX ==> detail.board.columns_count == columns.len()
                    &&& detail.board.cards_count == cards_count
                    &&& shows_board(detail.board, row, detail.board.columns_count, cards_count)
                    &&& detail.columns.len() == columns.len()
                    &&& forall|i: int|
                        0 <= i < columns.len() ==> shows_column(
                            #[trigger] detail.columns[i],
                            columns[i],
                        )
                },
            }
        },
{
}

/// A new board holds what the request says of it, in the project that the call
/// was authorized for.
pub proof fn law_new_board_holds_what_was_asked(
    r: CreateBoardStep,
    call: CreateBoardCall,
    board_id: Id,
    facts: CreateBoardFacts,
)
    requires
        leads_board(r, call, board_id, facts),
        r is Store,
    ensures
        r->Store_0.id == board_id,
        r->Store_0.tenant_id == call.tenant_id,
        r->Store_0.project_id == call.project_id,
        r->Store_0.name == call.req.name,
        r->Store_0.slug@ == slug(call.req.name@),
        r->Store_0.description == call.req.description,
        call.req.icon@.len() == 0 ==> r->Store_0.icon is None,
        call.req.icon@.len() > 0 ==> r->Store_0.icon == Some(call.req.icon),
        r->Store_0.visibility == call.req.visibility,
{
}

/// A board is stored where it has a name, unless the board of an earlier request
/// with the key is there still. Then the permission backend is told its project,
/// the key is kept with it, and it is answered, with no columns and no cards.
pub proof fn law_creating_a_board_goes_on_in_order(
    r: CreateBoardStep,
    call: CreateBoardCall,
    board_id: Id,
    facts: CreateBoardFacts,
    earlier: Id,
    row: BoardRow,
    c: Option<String>,
    counts: (i32, i32),
)
    requires
        leads_board(r, call, board_id, facts),
    ensures
        ({
            let key = call.req.idempotency_key@;
            let fresh = key.len() == 0 || facts.replay == Some(None::<Id>) || facts.replay is Some
                && facts.cached == Some(None::<(BoardRow, i32, i32)>);
            &&& key.len() > 0 && facts.replay is None ==> r == (CreateBoardStep::FindKey {
                tenant_id: call.tenant_id,
                key: call.req.idempotency_key,
            })
            &&& key.len() > 0 && facts.replay == Some(Some(earlier)) && facts.cached is None ==> r
                == (CreateBoardStep::LoadBoard { board_id: earlier, tenant_id: call.tenant_id })
            &&& key.len() > 0 && facts.replay == Some(Some(earlier)) && facts.cached == Some(
                Some((row, counts.0, counts.1)),
            ) ==> (r matches CreateBoardStep::Answer(board) && shows_board(
                board,
                row,
                counts.0,
                counts.1,
            ))
            &&& r is Store <==> fresh && call.req.name@.len() > 0 && facts.inserted is None
            &&& fresh && call.req.name@.len() == 0 ==> (r matches CreateBoardStep::Refuse(e)
                && e.code == Code::InvalidArgument && e.message@ == "name is required"@)
            &&& fresh && call.req.name@.len() > 0 && facts.inserted == Some(
                InsertReply::Failed { constraint: c },
            ) ==> (r matches CreateBoardStep::Refuse(e) && if c matches Some(name) && name@
                == "boards_project_id_slug_key"@ {
                e.code == Code::AlreadyExists && e.message@
                    == "board with that name already exists in project"@
            } else {
                e.code == Code::Internal && e.message@ == "failed to insert board"@
            })
            &&& fresh && call.req.name@.len() > 0 && facts.inserted == Some(
                InsertReply::Stored(row),
            ) ==> {
                &&& !facts.granted ==> (r matches CreateBoardStep::Grant {
                    namespace,
                    object_id,
                    relation,
                    subject,
                } && namespace@ == "KanbanBoard"@ && object_id == board_id && relation@
                    == "parent"@ && subject@ == "KanbanProject:"@ + call.project_id@)
                &&& facts.granted && key.len() > 0 && !facts.kept ==> r == (
                CreateBoardStep::KeepKey {
                    tenant_id: call.tenant_id,
                    key: call.req.idempotency_key,
                    board_id,
                })
                &&& facts.granted && (key.len() == 0 || facts.kept) ==> (
                r matches CreateBoardStep::Answer(board) && shows_board(board, row, 0, 0))
            }
        }),
{
}

/// A change to a board sets each field that the patch fills to that field's own
/// value, leaves the others, and sets the visibility exactly where the mask
/// names it. That needs the permission to manage the board; nothing else does.
pub proof fn law_board_fields_are_set_from_their_own(
    r: UpdateBoardStep,
    call: UpdateBoardCall,
    patch: BoardPatch,
    facts: UpdateBoardFacts,
    row: BoardRow,
    counts: (i32, i32),
)
    requires
        changes_board(r, call, patch, facts),
    ensures
        ({
            let masked = is_masked(patch.mask@, "visibility");
            let may = !masked || facts.allowed == Some(true);
            &&& masked && facts.allowed is None ==> (r matches UpdateBoardStep::CheckPermission {
                namespace,
                object_id,
                relation,
                subject,
            } && namespace@ == "KanbanBoard"@ && object_id == call.board_id && relation@
                == "manage"@ && subject == call.subject)
            &&& masked && facts.allowed == Some(false) ==> (r matches UpdateBoardStep::Refuse(e)
                && e.code == Code::PermissionDenied && e.message@
                == "you do not have permission to change board visibility"@)
            &&& r is Update <==> may && facts.updated is None
            &&& (r matches UpdateBoardStep::Update(u) ==> {
                &&& u.board_id == call.board_id
                &&& u.tenant_id == call.tenant_id
                &&& patch.name@.len() == 0 ==> u.name is None
                &&& patch.name@.len() > 0 ==> u.name == Some(patch.name)
                &&& patch.description@.len() == 0 ==> u.description is None
                &&& patch.description@.len() > 0 ==> u.description == Some(patch.description)
                &&& patch.icon@.len() == 0 ==> u.icon is None
                &&& patch.icon@.len() > 0 ==> u.icon == Some(patch.icon)
                &&& masked ==> u.visibility == Some(patch.visibility)
                &&& !masked ==> u.visibility is None
            })
            &&& may && facts.updated == Some(None::<(BoardRow, i32, i32)>) ==> (
            r matches UpdateBoardStep::Refuse(e) && e.code == Code::NotFound && e.message@
                == "board not found"@)
            &&& may && facts.updated == Some(Some((row, counts.0, counts.1))) ==> (
            r matches UpdateBoardStep::Answer(board) && shows_board(board, row, counts.0, counts.1))
        }),
{
    if let Some(allowed) = facts.allowed {
        assert(allowed || facts.allowed == Some(false));
    }
}

/// The caller is named by the token where it names one, and else by nothing.
pub proof fn law_subject_is_the_tokens(auth: AuthContext)
    ensures
        auth.subject matches Some(s) ==> subject_or_empty(auth) == s@,
        auth.subject is None ==> subject_or_empty(auth).len() == 0,
{
}

/// A request to list boards needs a caller, a tenant and a project, and is
/// refused for the first that is missing.
pub proof fn law_list_request_is_refused_in_order(ctx: RequestContext, project_id: IdArg)
    ensures
        list_boards_fault(ctx, project_id) == if ctx.subject() is None {
            Some(StatusView { code: Code::Unauthenticated, message: "missing auth context"@ })
        } else if ctx.tenant() is None {
            Some(StatusView { code: Code::Unauthenticated, message: "missing tenant context"@ })
        } else if project_id.id is None {
            Some(StatusView { code: Code::InvalidArgument, message: "invalid project_id"@ })
        } else {
            None
        },
{
}

/// A request to read a board needs a caller, a tenant and a board, and is
/// refused for the first that is missing.
pub proof fn law_get_request_is_refused_in_order(ctx: RequestContext, board_id: IdArg)
    ensures
        get_board_fault(ctx, board_id) == if ctx.subject() is None {
            Some(StatusView { code: Code::Unauthenticated, message: "missing auth context"@ })
        } else if ctx.tenant() is None {
            Some(StatusView { code: Code::Unauthenticated, message: "missing tenant context"@ })
        } else if board_id.id is None {
            Some(StatusView { code: Code::InvalidArgument, message: "invalid board_id"@ })
        } else {
            None
        },
{
}

/// A request to create a board needs the project that the call was authorized
/// for and a tenant, and is refused for the first that is missing.
pub proof fn law_create_request_is_refused_in_order(ctx: RequestContext)
    ensures
        create_board_fault(ctx) == if ctx.checked_object_id is None {
            Some(StatusView { code: Code::Internal, message: "missing CheckedObjectId extension"@ })
        } else if ctx.object() is None {
            Some(StatusView { code: Code::InvalidArgument, message: "invalid project_id"@ })
        } else if ctx.tenant() is None {
            Some(StatusView { code: Code::Unauthenticated, message: "missing tenant context"@ })
        } else {
            None
        },
{
}

/// A request to change a board needs a caller, a tenant and the board that the
/// call was authorized for, and is refused for the first that is missing.
pub proof fn law_update_request_is_refused_in_order(ctx: RequestContext)
    ensures
        update_board_fault(ctx) == if ctx.subject() is None {
            Some(StatusView { code: Code::Unauthenticated, message: "missing auth context"@ })
        } else if ctx.tenant() is None {
            Some(StatusView { code: Code::Unauthenticated, message: "missing tenant context"@ })
        } else if ctx.checked_object_id is None {
            Some(StatusView { code: Code::Internal, message: "missing CheckedObjectId extension"@ })
        } else if ctx.object() is None {
            Some(StatusView { code: Code::InvalidArgument, message: "invalid board_id"@ })
        } else {
            None
        },
{
}

/// A request on a board needs a tenant and the board that the call was
/// authorized for, and is refused for the first that is missing.
pub proof fn law_board_request_is_refused_in_order(ctx: RequestContext)
    ensures
        board_fault(ctx) == if ctx.tenant() is None {
            Some(StatusView { code: Code::Unauthenticated, message: "missing tenant context"@ })
        } else if ctx.checked_object_id is None {
            Some(StatusView { code: Code::Internal, message: "missing CheckedObjectId extension"@ })
        } else if ctx.object() is None {
            Some(StatusView { code: Code::InvalidArgument, message: "invalid board_id"@ })
        } else {
            None
        },
{
}

/// A request to follow a board needs a token, a tenant and a board, and is
/// refused for the first that is missing.
pub proof fn law_subscribe_request_is_refused_in_order(ctx: RequestContext, board_id: IdArg)
    ensures
        subscribe_board_fault(ctx, board_id) == if ctx.auth is None {
            Some(StatusView { code: Code::Unauthenticated, message: "missing auth context"@ })
        } else if ctx.tenant() is None {
            Some(StatusView { code: Code::Unauthenticated, message: "missing tenant context"@ })
        } else if board_id.id is None {
            Some(StatusView { code: Code::InvalidArgument, message: "invalid board_id"@ })
        } else {
            None
        },
{
}

} // verus!
