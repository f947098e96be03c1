//! Listing, changing, deleting and following aggregated boards.
use crate::aggregated_boards::create::{aggregate_event, is_aggregate_event};
use crate::aggregated_boards::model::{aggregated_board_from_row, shows_aggregate};
use crate::aggregated_boards::model::{AggregatedBoard, AggregatedBoardRow, MAX_AGGREGATES};
use crate::aggregated_boards::model::PERMISSION_TYPE;
use crate::boards::service::{subject_or_empty, BoardPatch};
use crate::cards::model::copy_ids;
use crate::context::{checked_id, copy_text, id_fault, object_fault, require_id, subject_fault};
use crate::context::{subject_from_request, tenant_fault, tenant_id_from_request};
use crate::context::{AuthContext, Id, IdArg, RequestContext};
use crate::event::EventRow;
use crate::json::JsonView;
use crate::mask::{is_masked, mask_contains};
use crate::page::lemma_filter_selects;
use crate::permission::{asks_viewable, viewable_query, ExpandQuery};
use crate::status::{fault, first_fault, first_of3, require_rows, Code, Status, StatusView};
use crate::stream::StreamConfig;
use crate::text::{if_not_empty, non_empty};
use crate::visibility::{is_open, is_public_or_internal, is_visible, visible};
use vstd::prelude::*;

verus! {

/// A request for the aggregated boards of the tenant that may go ahead.
#[derive(Debug)]
pub struct ListAggregatesCall {
    pub tenant_id: String,
    /// Which aggregated boards the caller may view by permission.
    pub query: ExpandQuery,
}

/// Checks a request for the aggregated boards of the caller's tenant.
pub fn list_aggregated_boards_call(ctx: &RequestContext) -> (r: Result<ListAggregatesCall, Status>)
    ensures
        match r {
            Ok(call) => {
                &&& first_fault(subject_fault(*ctx), tenant_fault(*ctx)) is None
                &&& ctx.tenant() == Some(call.tenant_id)
                &&& asks_viewable(
                    call.query,
                    PERMISSION_TYPE,
                    ctx.subject()->Some_0,
                    MAX_AGGREGATES,
                )
            },
            Err(e) => first_fault(subject_fault(*ctx), tenant_fault(*ctx)) == Some(e@),
        },
{
    let subject = subject_from_request(ctx)?;
    let tenant_id = tenant_id_from_request(ctx)?;
    let query = viewable_query(PERMISSION_TYPE, &subject, MAX_AGGREGATES);
    Ok(ListAggregatesCall { tenant_id, query })
}

/// The aggregated boards among `rows` that a caller sees who may view the
/// private ones `allowed`.
pub open spec fn visible_aggregates(rows: Seq<AggregatedBoardRow>, allowed: Seq<Id>) -> Seq<
    AggregatedBoardRow,
> {
    rows.filter(|row: AggregatedBoardRow| is_visible(row.id@, row.visibility@, allowed))
}

/// The aggregated boards that a caller sees who may view the private ones
/// `allowed`, in their order.
pub fn list_aggregated_boards(rows: &Vec<AggregatedBoardRow>, allowed: &Vec<Id>) -> (r: Vec<
    AggregatedBoard,
>)
    ensures
        r.len() == visible_aggregates(rows@, allowed@).len(),
        forall|i: int|
            0 <= i < r.len() ==> shows_aggregate(
                #[trigger] r[i],
                visible_aggregates(rows@, allowed@)[i],
            ),
{
    let ghost keep = |row: AggregatedBoardRow| is_visible(row.id@, row.visibility@, allowed@);
    let mut r: Vec<AggregatedBoard> = Vec::new();
    let mut i: usize = 0;
    assert(rows@.take(0).filter(keep).len() == 0) by {
        reveal(Seq::filter);
    }
    while i < rows.len()
        invariant
            i <= rows.len(),
            keep == (|row: AggregatedBoardRow|
                is_visible(row.id@, row.visibility@, allowed@)),
            r.len() == rows@.take(i as int).filter(keep).len(),
            forall|j: int|
                0 <= j < r.len() ==> shows_aggregate(
                    #[trigger] r[j],
                    rows@.take(i as int).filter(keep)[j],
                ),
        decreases rows.len() - i,
    {
        proof {
            assert(rows@.take(i + 1).drop_last() =~= rows@.take(i as int));
            reveal(Seq::filter);
        }
        if visible(&rows[i].id, rows[i].visibility.as_str(), allowed) {
            r.push(aggregated_board_from_row(&rows[i]));
        }
        i += 1;
    }
    assert(rows@.take(rows@.len() as int) =~= rows@);
    r
}

/// A request to change an aggregated board that may go ahead.
#[derive(Debug)]
pub struct UpdateAggregateCall {
    pub subject: String,
    pub tenant_id: String,
    pub aggregated_board_id: Id,
}

/// Why a request to change an aggregated board is refused before anything is
/// looked up.
pub open spec fn update_aggregate_fault(ctx: RequestContext) -> Option<StatusView> {
    first_of3(
        subject_fault(ctx),
        tenant_fault(ctx),
        object_fault(ctx, "invalid aggregated_board_id"),
    )
}

/// Checks a request to change the aggregated board that the call was authorized
/// for.
pub fn update_aggregated_board_call(ctx: &RequestContext) -> (r: Result<
    UpdateAggregateCall,
    Status,
>)
    ensures
        match r {
            Ok(call) => {
                &&& update_aggregate_fault(*ctx) is None
                &&& ctx.subject() == Some(call.subject)
                &&& ctx.tenant() == Some(call.tenant_id)
                &&& ctx.object() == Some(call.aggregated_board_id)
            },
            Err(e) => update_aggregate_fault(*ctx) == Some(e@),
        },
{
    let subject = subject_from_request(ctx)?;
    let tenant_id = tenant_id_from_request(ctx)?;
    let aggregated_board_id = checked_id(ctx, "invalid aggregated_board_id")?;
    Ok(UpdateAggregateCall { subject, tenant_id, aggregated_board_id })
}

/// A change to an aggregated board, with the event that reports it. What is
/// `None` stays as it is.
#[derive(Debug)]
pub struct AggregateUpdate {
    pub aggregated_board_id: Id,
    pub tenant_id: String,
    pub name: Option<String>,
    pub description: Option<String>,
    pub icon: Option<String>,
    pub visibility: Option<String>,
    pub event: EventRow,
}

/// What has been learned for a request to change an aggregated board.
#[derive(Debug)]
pub struct UpdateAggregateFacts {
    /// Whether the caller may manage the board, once that was asked.
    pub allowed: Option<bool>,
    /// The changed board, once the change was made; none where there is no such
    /// board.
    pub updated: Option<Option<AggregatedBoardRow>>,
}

/// What a request to change an aggregated board needs next.
#[derive(Debug)]
pub enum UpdateAggregateStep {
    /// Ask whether the caller may.
    CheckPermission {
        namespace: &'static str,
        object_id: Id,
        relation: &'static str,
        subject: String,
    },
    /// Make the change and write its event together, where there is such a
    /// board.
    Update(AggregateUpdate),
    Answer(AggregatedBoard),
    Refuse(Status),
}

/// `u` is the change that the patch asks for.
pub open spec fn is_aggregate_update(
    u: AggregateUpdate,
    call: UpdateAggregateCall,
    patch: BoardPatch,
) -> bool {
    &&& u.aggregated_board_id == call.aggregated_board_id
    &&& u.tenant_id == call.tenant_id
    &&& u.name == non_empty(patch.name)
    &&& u.description == non_empty(patch.description)
    &&& u.icon == non_empty(patch.icon)
    &&& u.visibility == if is_masked(patch.mask@, "visibility") {
        Some(patch.visibility)
    } else {
        None
    }
    &&& is_aggregate_event(
        u.event,
        call.tenant_id,
        call.aggregated_board_id,
        "AggregatedBoardUpdated",
    )
}

/// What a request to change an aggregated board needs next.
pub open spec fn changes_aggregate(
    r: UpdateAggregateStep,
    call: UpdateAggregateCall,
    patch: BoardPatch,
    facts: UpdateAggregateFacts,
) -> bool {
    if is_masked(patch.mask@, "visibility") && facts.allowed is None {
        r matches UpdateAggregateStep::CheckPermission {
            namespace,
            object_id,
            relation,
            subject,
        } && namespace@ == PERMISSION_TYPE@ && object_id == call.aggregated_board_id
            && relation@ == "manage"@ && subject == call.subject
    } else if is_masked(patch.mask@, "visibility") && facts.allowed == Some(false) {
        r matches UpdateAggregateStep::Refuse(e) && e@ == fault(
            Code::PermissionDenied,
            "you do not have permission to change aggregated board visibility",
        )
    } else {
        match facts.updated {
            None => r matches UpdateAggregateStep::Update(u) && is_aggregate_update(
                u,
                call,
                patch,
            ),
            Some(None) => r matches UpdateAggregateStep::Refuse(e) && e@ == fault(
                Code::NotFound,
                "aggregated board not found",
            ),
            Some(Some(row)) => r matches UpdateAggregateStep::Answer(board) && shows_aggregate(
                board,
                row,
            ),
        }
    }
}

/// Changes an aggregated board: what to do next, given what has been learned.
/// Its visibility changes only where the mask names it and the caller may manage
/// the board.
pub fn update_aggregated_board(
    call: &UpdateAggregateCall,
    patch: &BoardPatch,
    facts: &UpdateAggregateFacts,
) -> (r: UpdateAggregateStep)
    ensures
        changes_aggregate(r, *call, *patch, *facts),
{
    let visibility_change = mask_contains(&patch.mask, "visibility");
    if visibility_change {
        match facts.allowed {
            None => {
                return UpdateAggregateStep::CheckPermission {
                    namespace: PERMISSION_TYPE,
                    object_id: call.aggregated_board_id.clone(),
                    relation: "manage",
                    subject: call.subject.clone(),
                };
            },
            Some(false) => {
                return UpdateAggregateStep::Refuse(
                    Status::permission_denied(
                        "you do not have permission to change aggregated board visibility",
                    ),
                );
            },
            Some(true) => {},
        }
    }
    match &facts.updated {
        None => UpdateAggregateStep::Update(
            AggregateUpdate {
                aggregated_board_id: call.aggregated_board_id.clone(),
                tenant_id: call.tenant_id.clone(),
                name: if_not_empty(&patch.name),
                description: if_not_empty(&patch.description),
                icon: if_not_empty(&patch.icon),
                visibility: if visibility_change {
                    Some(patch.visibility.clone())
                } else {
                    None
                },
                event: aggregate_event(
                    &call.tenant_id,
                    &call.aggregated_board_id,
                    "AggregatedBoardUpdated",
                ),
            },
        ),
        Some(None) => UpdateAggregateStep::Refuse(Status::not_found("aggregated board not found")),
        Some(Some(row)) => UpdateAggregateStep::Answer(aggregated_board_from_row(row)),
    }
}

/// An aggregated board that may be acted on.
#[derive(Debug)]
pub struct AggregateCall {
    pub aggregated_board_id: Id,
    pub tenant_id: String,
}

/// Checks a request to delete the aggregated board that the call was authorized
/// for.
pub fn delete_aggregated_board_call(ctx: &RequestContext) -> (r: Result<AggregateCall, Status>)
    ensures
        match r {
            Ok(call) => {
                &&& first_fault(
                    tenant_fault(*ctx),
                    object_fault(*ctx, "invalid aggregated_board_id"),
                ) is None
                &&& ctx.tenant() == Some(call.tenant_id)
                &&& ctx.object() == Some(call.aggregated_board_id)
            },
            Err(e) => first_fault(
                tenant_fault(*ctx),
                object_fault(*ctx, "invalid aggregated_board_id"),
            ) == Some(e@),
        },
{
    let tenant_id = tenant_id_from_request(ctx)?;
    let aggregated_board_id = checked_id(ctx, "invalid aggregated_board_id")?;
    Ok(AggregateCall { aggregated_board_id, tenant_id })
}

/// Deletes an aggregated board: `deleted` boards were found and deleted.
pub fn delete_aggregated_board(deleted: u64) -> (r: Result<(), Status>)
    ensures
        match r {
            Ok(_) => deleted > 0,
            Err(e) => deleted == 0 && e@ == fault(Code::NotFound, "aggregated board not found"),
        },
{
    require_rows(deleted, "aggregated board not found")
}

/// A request to follow an aggregated board that may go ahead.
#[derive(Debug)]
pub struct SubscribeAggregateCall {
    pub auth: AuthContext,
    pub tenant_id: String,
    pub aggregated_board_id: Id,
    /// The board as the request names it, which is also a topic to follow.
    pub topic: String,
}

/// Why a request to follow an aggregated board is refused before anything is
/// looked up.
pub open spec fn subscribe_aggregate_fault(
    ctx: RequestContext,
    aggregated_board_id: IdArg,
) -> Option<StatusView> {
    if ctx.auth is None {
        Some(fault(Code::Unauthenticated, "missing auth context"))
    } else {
        first_fault(
            tenant_fault(ctx),
            id_fault(aggregated_board_id, "invalid aggregated_board_id"),
        )
    }
}

/// Checks a request to follow an aggregated board.
pub fn subscribe_aggregated_board_call(ctx: &RequestContext, aggregated_board_id: &IdArg) -> (r:
    Result<SubscribeAggregateCall, Status>)
    ensures
        match r {
            Ok(call) => {
                &&& subscribe_aggregate_fault(*ctx, *aggregated_board_id) is None
                &&& ctx.auth == Some(call.auth)
                &&& ctx.tenant() == Some(call.tenant_id)
                &&& aggregated_board_id.id == Some(call.aggregated_board_id)
                &&& call.topic == aggregated_board_id.text
            },
            Err(e) => subscribe_aggregate_fault(*ctx, *aggregated_board_id) == Some(e@),
        },
{
    let auth = match &ctx.auth {
        None => {
            return Err(Status::unauthenticated("missing auth context"));
        },
        Some(auth) => AuthContext {
            tenant_id: copy_text(&auth.tenant_id),
            subject: copy_text(&auth.subject),
            exp: auth.exp,
        },
    };
    let tenant_id = tenant_id_from_request(ctx)?;
    let topic = aggregated_board_id.text.clone();
    let aggregated_board_id = require_id(aggregated_board_id, "invalid aggregated_board_id")?;
    Ok(SubscribeAggregateCall { auth, tenant_id, aggregated_board_id, topic })
}

/// The settings of an aggregated board's stream, which follows the board itself
/// and then its source boards; `visibility` is the board's, where the board was
/// found. The stream ends with the caller's token.
pub fn subscribe_aggregated_board(
    call: &SubscribeAggregateCall,
    visibility: &Option<String>,
    source_board_ids: &Vec<Id>,
    recheck_interval_ms: u64,
) -> (r: Result<StreamConfig, Status>)
    ensures
        match (r, *visibility) {
            (Ok(config), Some(v)) => {
                &&& config.topics@ == seq![call.topic] + source_board_ids@
                &&& config.namespace@ == PERMISSION_TYPE@
                &&& config.object_id == call.topic
                &&& config.subject@ == subject_or_empty(call.auth)
                &&& config.expires_at == call.auth.exp
                &&& config.is_private == !is_open(v@)
                &&& config.recheck_interval_ms == recheck_interval_ms
            },
            (Err(e), None) => e@ == fault(Code::NotFound, "aggregated board not found"),
            _ => false,
        },
{
    match visibility {
        None => Err(Status::not_found("aggregated board not found")),
        Some(v) => {
            let mut topics: Vec<String> = Vec::new();
            topics.push(call.topic.clone());
            let mut rest = copy_ids(source_board_ids);
            topics.append(&mut rest);
            assert(topics@ =~= seq![call.topic] + source_board_ids@);
            Ok(
                StreamConfig {
                    topics,
                    namespace: PERMISSION_TYPE,
                    object_id: call.topic.clone(),
                    subject: match &call.auth.subject {
                        Some(s) => s.clone(),
                        None => String::new(),
                    },
                    expires_at: call.auth.exp,
                    is_private: !is_public_or_internal(v.as_str()),
                    recheck_interval_ms,
                },
            )
        },
    }
}

/// An aggregated board's visibility changes only where the request's mask names
/// it and the permission backend has let the caller manage the board.
pub proof fn law_aggregate_visibility_needs_manage(
    r: UpdateAggregateStep,
    call: UpdateAggregateCall,
    patch: BoardPatch,
    facts: UpdateAggregateFacts,
)
    requires
        changes_aggregate(r, call, patch, facts),
        r matches UpdateAggregateStep::Update(u) && u.visibility is Some,
    ensures
        is_masked(patch.mask@, "visibility"),
        facts.allowed == Some(true),
{
}

/// A listing shows the aggregated boards that are public, internal or viewable
/// by the caller, all of them, each once and in their order.
pub proof fn law_listing_leaves_out_no_aggregate(rows: Seq<AggregatedBoardRow>, allowed: Seq<Id>)
    ensures
        exists|at: Seq<int>|
            {
                &&& #[trigger] at.len() == visible_aggregates(rows, allowed).len()
                &&& forall|i: int, j: int|
                    0 <= i < j < at.len() ==> #[trigger] at[i] < #[trigger] at[j]
                &&& forall|k: int| #[trigger]
                    at.contains(k) <==> {
                        &&& 0 <= k < rows.len()
                        &&& rows[k].visibility@ == "public"@ || rows[k].visibility@ == "internal"@
                            || exists|j: int|
                            0 <= j < allowed.len() && (#[trigger] allowed[j])@ == rows[k].id@
                    }
                &&& forall|i: int|
                    0 <= i < at.len() ==> visible_aggregates(rows, allowed)[i]
                        == rows[#[trigger] at[i]]
            },
{
    let at = lemma_filter_selects(
        rows,
        |row: AggregatedBoardRow| is_visible(row.id@, row.visibility@, allowed),
    );
    assert(at.len() == visible_aggregates(rows, allowed).len());
}

/// A change to an aggregated board sets each field that the patch fills to that
/// field's own value, leaves the others, and sets the visibility exactly where
/// the mask names it. That needs the permission to manage the board; nothing
/// else does. The change is reported.
pub proof fn law_aggregate_fields_are_set_from_their_own(
    r: UpdateAggregateStep,
    call: UpdateAggregateCall,
    patch: BoardPatch,
    facts: UpdateAggregateFacts,
    row: AggregatedBoardRow,
)
    requires
        changes_aggregate(r, call, patch, facts),
    ensures
        ({
            let masked = is_masked(patch.mask@, "visibility");
            let may = !masked || facts.allowed == Some(true);
            &&& masked && facts.allowed is None ==> (
            r matches UpdateAggregateStep::CheckPermission {
                namespace,
                object_id,
                relation,
                subject,
            } && namespace@ == "KanbanAggregatedBoard"@ && object_id == call.aggregated_board_id
                && relation@ == "manage"@ && subject == call.subject)
            &&& masked && facts.allowed == Some(false) ==> (
            r matches UpdateAggregateStep::Refuse(e) && e.code == Code::PermissionDenied
                && e.message@ == "you do not have permission to change aggregated board visibility"@)
            &&& r is Update <==> may && facts.updated is None
            &&& (r matches UpdateAggregateStep::Update(u) ==> {
                &&& u.aggregated_board_id == call.aggregated_board_id
                &&& u.tenant_id == call.tenant_id
                &&& patch.name@.len() == 0 ==> u.name is None
                &&& patch.name@.len() > 0 ==> u.name == Some(patch.name)
                &&& patch.description@.len() == 0 ==> u.description is None
                &&& patch.description@.len() > 0 ==> u.description == Some(patch.description)
                &&& patch.icon@.len() == 0 ==> u.icon is None
                &&& patch.icon@.len() > 0 ==> u.icon == Some(patch.icon)
                &&& masked ==> u.visibility == Some(patch.visibility)
                &&& !masked ==> u.visibility is None
                &&& u.event.tenant_id == call.tenant_id
                &&& u.event.board_id == call.aggregated_board_id
                &&& u.event.event_type@ == "AggregatedBoardUpdated"@
                &&& u.event.payload@ matches JsonView::Object(members) && members =~= seq![
                    ("aggregated_board_id"@, JsonView::Text(call.aggregated_board_id@)),
                ]
            })
            &&& may && facts.updated == Some(None::<AggregatedBoardRow>) ==> (
            r matches UpdateAggregateStep::Refuse(e) && e.code == Code::NotFound && e.message@
                == "aggregated board not found"@)
            &&& may && facts.updated == Some(Some(row)) ==> (
            r matches UpdateAggregateStep::Answer(board) && shows_aggregate(board, row))
        }),
{
    if let Some(allowed) = facts.allowed {
        assert(allowed || facts.allowed == Some(false));
    }
}

/// A request to change an aggregated board needs a caller, a tenant and the
/// board that the call was authorized for, and is refused for the first that is
/// missing.
pub proof fn law_update_aggregate_request_is_refused_in_order(ctx: RequestContext)
    ensures
        update_aggregate_fault(ctx) == if ctx.subject() is None {
            Some(StatusView { code: Code::Unauthenticated, message: "missing auth context"@ })
        } else if ctx.tenant() is None {
            Some(StatusView { code: Code::Unauthenticated, message: "missing tenant context"@ })
        } else if ctx.checked_object_id is None {
            Some(StatusView { code: Code::Internal, message: "missing CheckedObjectId extension"@ })
        } else if ctx.object() is None {
            Some(StatusView { code: Code::InvalidArgument, message: "invalid aggregated_board_id"@ })
        } else {
            None
        },
{
}

/// A request to follow an aggregated board needs a token, a tenant and the
/// board, and is refused for the first that is missing.
pub proof fn law_subscribe_aggregate_request_is_refused_in_order(ctx: RequestContext, aggregated_board_id: IdArg)
    ensures
        subscribe_aggregate_fault(ctx, aggregated_board_id) == if ctx.auth is None {
            Some(StatusView { code: Code::Unauthenticated, message: "missing auth context"@ })
        } else if ctx.tenant() is None {
            Some(StatusView { code: Code::Unauthenticated, message: "missing tenant context"@ })
        } else if aggregated_board_id.id is None {
            Some(StatusView { code: Code::InvalidArgument, message: "invalid aggregated_board_id"@ })
        } else {
            None
        },
{
}

} // verus!
