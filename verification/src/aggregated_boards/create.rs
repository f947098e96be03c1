//! Creating an aggregated board.
use crate::aggregated_boards::model::{aggregated_board_from_row, shows_aggregate};
use crate::aggregated_boards::model::{AggregatedBoard, AggregatedBoardRow, PERMISSION_TYPE};
use crate::context::{subject_fault, subject_from_request, tenant_fault, tenant_id_from_request};
use crate::context::{Id, IdArg, RequestContext};
use crate::event::EventRow;
use crate::json::{fields, JsonView, ObjectBuilder};
use crate::number::{low_i32, truncate_len};
use crate::position::Slot;
use crate::status::{fault, fault_if, first_of4, Code, Status, StatusView};
use vstd::prelude::*;

verus! {

/// A request to create an aggregated board.
#[derive(Debug)]
pub struct CreateAggregatedBoardRequest {
    pub name: String,
    pub description: String,
    pub icon: String,
    /// The visibility, in its stored form.
    pub visibility: String,
    pub source_board_ids: Vec<IdArg>,
    pub idempotency_key: String,
}

/// A request to create an aggregated board that may go ahead.
#[derive(Debug)]
pub struct CreateAggregateCall {
    pub subject: String,
    pub tenant_id: String,
    pub req: CreateAggregatedBoardRequest,
    /// The source boards, numbered in the order of the request.
    pub sources: Vec<Slot>,
}

/// Source board `i` occurs before in the list.
pub open spec fn is_repeated(args: Seq<IdArg>, i: int) -> bool {
    exists|j: int|
        0 <= j < i && (#[trigger] args[j]).id is Some && args[j].id->Some_0@ == args[i].id->Some_0@
}

/// Why the source boards from number `i` on cannot be stored: the first that is
/// not an identifier, or that occurs twice.
pub open spec fn sources_fault(args: Seq<IdArg>, i: int) -> Option<StatusView>
    decreases args.len() - i,
{
    if i >= args.len() {
        None
    } else if args[i].id is None {
        Some(fault(Code::InvalidArgument, "invalid source_board_id"))
    } else if is_repeated(args, i) {
        Some(fault(Code::Internal, "failed to insert source board"))
    } else {
        sources_fault(args, i + 1)
    }
}

/// `slots` numbers the source boards in the order of the request.
pub open spec fn numbers_sources(args: Seq<IdArg>, slots: Seq<Slot>) -> bool {
    &&& slots.len() == args.len()
    &&& forall|i: int|
        0 <= i < args.len() ==> args[i].id == Some((#[trigger] slots[i]).id) && slots[i].position
            == low_i32(i)
}

fn number_sources(args: &Vec<IdArg>) -> (r: Result<Vec<Slot>, Status>)
    ensures
        match r {
            Ok(slots) => sources_fault(args@, 0) is None && numbers_sources(args@, slots@),
            Err(e) => sources_fault(args@, 0) == Some(e@),
        },
{
    let mut slots: Vec<Slot> = Vec::new();
    let mut i: usize = 0;
    while i < args.len()
        invariant
            i <= args.len(),
            slots.len() == i,
            sources_fault(args@, 0) == sources_fault(args@, i as int),
            forall|j: int|
                0 <= j < i ==> args[j].id == Some((#[trigger] slots[j]).id) && slots[j].position
                    == low_i32(j),
        decreases args.len() - i,
    {
        let id = match &args[i].id {
            None => {
                return Err(Status::invalid_argument("invalid source_board_id"));
            },
            Some(id) => id,
        };
        let mut j: usize = 0;
        while j < i
            invariant
                j <= i < args.len(),
                slots.len() == i,
                args[i as int].id == Some(*id),
                sources_fault(args@, 0) == sources_fault(args@, i as int),
                forall|k: int|
                    0 <= k < i ==> args[k].id == Some((#[trigger] slots[k]).id),
                forall|k: int| 0 <= k < j ==> (#[trigger] slots[k]).id@ != id@,
            decreases i - j,
        {
            if slots[j].id == *id {
                assert(args[j as int].id == Some(slots[j as int].id));
                assert(is_repeated(args@, i as int));
                return Err(Status::internal("failed to insert source board"));
            }
            j += 1;
        }
        proof {
            assert forall|k: int| 0 <= k < i && (#[trigger] args@[k]).id is Some implies args@[k].id->Some_0@
                != args@[i as int].id->Some_0@ by {
                assert(args[k].id == Some(slots[k].id));
            }
            assert(!is_repeated(args@, i as int));
        }
        slots.push(Slot { id: id.clone(), position: truncate_len(i) });
        i += 1;
    }
    Ok(slots)
}

/// Why a request to create an aggregated board is refused before anything is
/// stored.
pub open spec fn create_aggregate_fault(
    ctx: RequestContext,
    req: CreateAggregatedBoardRequest,
) -> Option<StatusView> {
    first_of4(
        subject_fault(ctx),
        tenant_fault(ctx),
        fault_if(req.name@.len() == 0, Code::InvalidArgument, "name is required"),
        sources_fault(req.source_board_ids@, 0),
    )
}

/// Checks a request to create an aggregated board.
pub fn create_aggregated_board_call(ctx: &RequestContext, req: CreateAggregatedBoardRequest) -> (r:
    Result<CreateAggregateCall, Status>)
    ensures
        match r {
            Ok(call) => {
                &&& create_aggregate_fault(*ctx, req) is None
                &&& ctx.subject() == Some(call.subject)
                &&& ctx.tenant() == Some(call.tenant_id)
                &&& call.req == req
                &&& numbers_sources(req.source_board_ids@, call.sources@)
            },
            Err(e) => create_aggregate_fault(*ctx, req) == Some(e@),
        },
{
    let subject = subject_from_request(ctx)?;
    let tenant_id = tenant_id_from_request(ctx)?;
    if req.name.as_str().is_empty() {
        return Err(Status::invalid_argument("name is required"));
    }
    let sources = number_sources(&req.source_board_ids)?;
    Ok(CreateAggregateCall { subject, tenant_id, req, sources })
}

/// An aggregated board to be stored. Its source boards are stored with it.
#[derive(Debug)]
pub struct NewAggregate {
    pub id: Id,
    pub tenant_id: String,
    pub name: String,
    pub description: String,
    pub icon: String,
    pub visibility: String,
    pub created_by: String,
}

/// What is stored last, and together with the new aggregated board.
#[derive(Debug)]
pub struct AggregateClosing {
    /// The owner's entry in the list of members; a failure is left for later.
    pub owner: String,
    pub event: EventRow,
}

/// What has been learned for a request to create an aggregated board.
#[derive(Debug)]
pub struct CreateAggregateFacts {
    /// The new board, once it was written.
    pub written: Option<AggregatedBoardRow>,
    /// Whether the permission backend took the owner.
    pub owner: Option<bool>,
    /// Whether the permission backend took the viewer.
    pub viewer: Option<bool>,
    /// All was stored.
    pub stored: bool,
    /// The key was kept.
    pub kept: bool,
}

/// What a request to create an aggregated board needs next.
#[derive(Debug)]
pub enum CreateAggregateStep {
    /// Write the board and its source boards, to be stored with the closing.
    Write(NewAggregate),
    /// Tell the permission backend.
    Grant { namespace: &'static str, object_id: Id, relation: &'static str, subject: String },
    /// Write the closing and store all together.
    Store(AggregateClosing),
    /// Keep the key with the board.
    KeepKey { tenant_id: String, key: String, board_id: Id },
    Answer(AggregatedBoard),
    Refuse(Status),
}

/// `r` grants the caller `relation` on the new board.
pub open spec fn grants(
    r: CreateAggregateStep,
    call: CreateAggregateCall,
    board_id: Id,
    relation: &str,
) -> bool {
    r matches CreateAggregateStep::Grant { namespace, object_id, relation: rel, subject }
        && namespace@ == PERMISSION_TYPE@ && object_id == board_id && rel@ == relation@ && subject
        == call.subject
}

/// The event that reports something of a whole aggregated board.
pub open spec fn is_aggregate_event(
    e: EventRow,
    tenant_id: String,
    board_id: Id,
    event_type: &str,
) -> bool {
    &&& e.tenant_id == tenant_id
    &&& e.board_id == board_id
    &&& e.event_type@ == event_type@
    &&& e.payload@ == fields().text("aggregated_board_id", board_id@).object()
}

/// The event that reports something of a whole aggregated board. Its board is
/// the aggregated board.
pub fn aggregate_event(tenant_id: &String, board_id: &Id, event_type: &'static str) -> (r: EventRow)
    ensures
        is_aggregate_event(r, *tenant_id, *board_id, event_type),
{
    EventRow {
        tenant_id: tenant_id.clone(),
        board_id: board_id.clone(),
        event_type,
        payload: ObjectBuilder::new().put_text("aggregated_board_id", board_id).build(),
    }
}

/// What a request to create an aggregated board needs next.
pub open spec fn leads_aggregate(
    r: CreateAggregateStep,
    call: CreateAggregateCall,
    board_id: Id,
    facts: CreateAggregateFacts,
) -> bool {
    match (facts.written, facts.owner, facts.viewer) {
        (None, _, _) => r == CreateAggregateStep::Write(
            NewAggregate {
                id: board_id,
                tenant_id: call.tenant_id,
                name: call.req.name,
                description: call.req.description,
                icon: call.req.icon,
                visibility: call.req.visibility,
                created_by: call.subject,
            },
        ),
        (_, None, _) => grants(r, call, board_id, "owner"),
        (_, Some(false), _) => r matches CreateAggregateStep::Refuse(e) && e@ == fault(
            Code::Internal,
            "failed to write owner tuple to the permission backend",
        ),
        (_, _, None) => grants(r, call, board_id, "viewer"),
        (_, _, Some(false)) => r matches CreateAggregateStep::Refuse(e) && e@ == fault(
            Code::Internal,
            "failed to write viewer tuple to the permission backend",
        ),
        (Some(row), _, _) => if !facts.stored {
            r matches CreateAggregateStep::Store(closing) && closing.owner == call.subject
                && is_aggregate_event(
                closing.event,
                call.tenant_id,
                board_id,
                "AggregatedBoardCreated",
            )
        } else if call.req.idempotency_key@.len() > 0 && !facts.kept {
            r == (CreateAggregateStep::KeepKey {
                tenant_id: call.tenant_id,
                key: call.req.idempotency_key,
                board_id: board_id,
            })
        } else {
            r matches CreateAggregateStep::Answer(board) && shows_aggregate(board, row)
        },
    }
}

/// Creates an aggregated board: what to do next, given what has been learned.
/// The caller becomes its owner and viewer in the permission backend before it
/// is stored; where the backend does not take that, nothing is stored.
pub fn create_aggregated_board(
    call: &CreateAggregateCall,
    board_id: &Id,
    facts: &CreateAggregateFacts,
) -> (r: CreateAggregateStep)
    ensures
        leads_aggregate(r, *call, *board_id, *facts),
{
    let row = match &facts.written {
        None => {
            return CreateAggregateStep::Write(
                NewAggregate {
                    id: board_id.clone(),
                    tenant_id: call.tenant_id.clone(),
                    name: call.req.name.clone(),
                    description: call.req.description.clone(),
                    icon: call.req.icon.clone(),
                    visibility: call.req.visibility.clone(),
                    created_by: call.subject.clone(),
                },
            );
        },
        Some(row) => row,
    };
    match facts.owner {
        None => {
            return CreateAggregateStep::Grant {
                namespace: PERMISSION_TYPE,
                object_id: board_id.clone(),
                relation: "owner",
                subject: call.subject.clone(),
            };
        },
        Some(false) => {
            return CreateAggregateStep::Refuse(
                Status::internal("failed to write owner tuple to the permission backend"),
            );
        },
        Some(true) => {},
    }
    match facts.viewer {
        None => {
            return CreateAggregateStep::Grant {
                namespace: PERMISSION_TYPE,
                object_id: board_id.clone(),
                relation: "viewer",
                subject: call.subject.clone(),
            };
        },
        Some(false) => {
            return CreateAggregateStep::Refuse(
                Status::internal("failed to write viewer tuple to the permission backend"),
            );
        },
        Some(true) => {},
    }
    if !facts.stored {
        return CreateAggregateStep::Store(
            AggregateClosing {
                owner: call.subject.clone(),
                event: aggregate_event(&call.tenant_id, board_id, "AggregatedBoardCreated"),
            },
        );
    }
    if !call.req.idempotency_key.as_str().is_empty() && !facts.kept {
        return CreateAggregateStep::KeepKey {
            tenant_id: call.tenant_id.clone(),
            key: call.req.idempotency_key.clone(),
            board_id: board_id.clone(),
        };
    }
    CreateAggregateStep::Answer(aggregated_board_from_row(row))
}

/// The permission backend comes first: an aggregated board is stored only once
/// its creator is its owner and its viewer there.
pub proof fn law_permissions_come_first(
    r: CreateAggregateStep,
    call: CreateAggregateCall,
    board_id: Id,
    facts: CreateAggregateFacts,
)
    requires
        leads_aggregate(r, call, board_id, facts),
        r is Store || r is KeepKey || r is Answer,
    ensures
        facts.owner == Some(true),
        facts.viewer == Some(true),
{
}

/// The source boards of a new aggregated board are numbered from 0 on, in the
/// order of the request, and none is left out.
pub proof fn law_sources_are_numbered_in_order(args: Seq<IdArg>, slots: Seq<Slot>, i: int)
    requires
        numbers_sources(args, slots),
        0 <= i < args.len(),
    ensures
        slots.len() == args.len(),
        args[i].id == Some(slots[i].id),
        i <= i32::MAX ==> slots[i].position == i,
{
    assert(args[i].id == Some(slots[i].id) && slots[i].position == low_i32(i));
}

proof fn lemma_sources_fault_at(args: Seq<IdArg>, from: int, i: int)
    requires
        0 <= from <= i <= args.len(),
        forall|j: int| from <= j < i ==> (#[trigger] args[j]).id is Some && !is_repeated(args, j),
    ensures
        sources_fault(args, from) == sources_fault(args, i),
    decreases i - from,
{
    if from < i {
        assert(args[from].id is Some);
        lemma_sources_fault_at(args, from + 1, i);
    }
}

/// Source boards can be stored where all are identifiers and none is named
/// twice; else the first that is not so decides how the request is refused.
pub proof fn law_first_bad_source_is_refused(args: Seq<IdArg>, i: int)
    requires
        0 <= i <= args.len(),
        forall|j: int| 0 <= j < i ==> (#[trigger] args[j]).id is Some,
        forall|j: int, k: int|
            0 <= j < k < i ==> (#[trigger] args[j]).id->Some_0@ != (#[trigger] args[k]).id->Some_0@,
    ensures
        i == args.len() ==> sources_fault(args, 0) is None,
        i < args.len() && args[i].id is None ==> sources_fault(args, 0) == Some(
            StatusView { code: Code::InvalidArgument, message: "invalid source_board_id"@ },
        ),
        i < args.len() && args[i].id is Some && (exists|j: int|
            0 <= j < i && (#[trigger] args[j]).id->Some_0@ == args[i].id->Some_0@)
            ==> sources_fault(args, 0) == Some(
            StatusView { code: Code::Internal, message: "failed to insert source board"@ },
        ),
{
    assert forall|j: int| 0 <= j < i implies (#[trigger] args[j]).id is Some && !is_repeated(
        args,
        j,
    ) by {
        assert forall|k: int| 0 <= k < j && (#[trigger] args[k]).id is Some implies args[k].id->Some_0@
            != args[j].id->Some_0@ by {}
    }
    lemma_sources_fault_at(args, 0, i);
    if i < args.len() && args[i].id is Some && (exists|j: int|
        0 <= j < i && (#[trigger] args[j]).id->Some_0@ == args[i].id->Some_0@) {
        let j = choose|j: int|
            0 <= j < i && (#[trigger] args[j]).id->Some_0@ == args[i].id->Some_0@;
        assert(args[j].id is Some);
        assert(is_repeated(args, i));
    }
}

/// A new aggregated board holds what the request says of it and is its caller's:
/// the caller is made its owner, then its viewer, and only then is it stored and
/// reported. Then the key is kept with it, and it is answered.
pub proof fn law_new_aggregate_belongs_to_its_caller(
    r: CreateAggregateStep,
    call: CreateAggregateCall,
    board_id: Id,
    facts: CreateAggregateFacts,
    row: AggregatedBoardRow,
)
    requires
        leads_aggregate(r, call, board_id, facts),
    ensures
        r is Write <==> facts.written is None,
        r matches CreateAggregateStep::Write(new) ==> {
            &&& new.id == board_id
            &&& new.tenant_id == call.tenant_id
            &&& new.name == call.req.name
            &&& new.description == call.req.description
            &&& new.icon == call.req.icon
            &&& new.visibility == call.req.visibility
            &&& new.created_by == call.subject
        },
        facts.written is Some && (facts.owner is None || facts.owner == Some(true) && facts.viewer is None)
            ==> (r matches CreateAggregateStep::Grant { namespace, object_id, relation, subject }
            && namespace@ == "KanbanAggregatedBoard"@ && object_id == board_id && subject
            == call.subject && relation@ == if facts.owner is None {
            "owner"@
        } else {
            "viewer"@
        }),
        facts.written is Some && facts.owner == Some(false) ==> (
        r matches CreateAggregateStep::Refuse(e) && e.code == Code::Internal && e.message@
            == "failed to write owner tuple to the permission backend"@),
        facts.written is Some && facts.owner == Some(true) && facts.viewer == Some(false) ==> (
        r matches CreateAggregateStep::Refuse(e) && e.code == Code::Internal && e.message@
            == "failed to write viewer tuple to the permission backend"@),
        facts.written == Some(row) && facts.owner == Some(true) && facts.viewer == Some(true) ==> {
            &&& r is Store <==> !facts.stored
            &&& facts.stored && call.req.idempotency_key@.len() > 0 && !facts.kept ==> r == (
            CreateAggregateStep::KeepKey {
                tenant_id: call.tenant_id,
                key: call.req.idempotency_key,
                board_id,
            })
            &&& facts.stored && (call.req.idempotency_key@.len() == 0 || facts.kept) ==> (
            r matches CreateAggregateStep::Answer(board) && shows_aggregate(board, row))
        },
        r matches CreateAggregateStep::Store(closing) ==> {
            &&& closing.owner == call.subject
            &&& closing.event.tenant_id == call.tenant_id
            &&& closing.event.board_id == board_id
            &&& closing.event.event_type@ == "AggregatedBoardCreated"@
            &&& closing.event.payload@ matches JsonView::Object(members) && members =~= seq![
                ("aggregated_board_id"@, JsonView::Text(board_id@)),
            ]
        },
{
    if let Some(owner) = facts.owner {
        assert(owner || facts.owner == Some(false));
    }
    if let Some(viewer) = facts.viewer {
        assert(viewer || facts.viewer == Some(false));
    }
}

/// An event of an aggregated board names the board and what happened to it.
pub proof fn law_aggregate_event_names_the_board(
    e: EventRow,
    tenant_id: String,
    board_id: Id,
    event_type: &str,
)
    requires
        is_aggregate_event(e, tenant_id, board_id, event_type),
    ensures
        e.tenant_id == tenant_id,
        e.board_id == board_id,
        e.event_type@ == event_type@,
        e.payload@ matches JsonView::Object(members) && members =~= seq![
            ("aggregated_board_id"@, JsonView::Text(board_id@)),
        ],
{
}

/// A request to create an aggregated board needs a caller, a tenant, a name and
/// source boards that can be stored, and is refused for the first that is
/// missing.
pub proof fn law_create_aggregate_request_is_refused_in_order(ctx: RequestContext, req: CreateAggregatedBoardRequest)
    ensures
        create_aggregate_fault(ctx, req) == if ctx.subject() is None {
            Some(StatusView { code: Code::Unauthenticated, message: "missing auth context"@ })
        } else if ctx.tenant() is None {
            Some(StatusView { code: Code::Unauthenticated, message: "missing tenant context"@ })
        } else if req.name@.len() == 0 {
            Some(StatusView { code: Code::InvalidArgument, message: "name is required"@ })
        } else {
            sources_fault(req.source_board_ids@, 0)
        },
{
}

} // verus!
