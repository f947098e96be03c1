//! Creating a card.
use crate::cards::model::{priority_from_i32, priority_name, urgency_from_i32, urgency_name};
use crate::cards::model::LoadedCard;
use crate::cards::reference::{allocate_card_ref, allocates, Allocation, RefCounter, RefState};
use crate::cards::step::{answer_card, answers_card, keep_and_answer, keeps_and_answers};
use crate::cards::step::{key_state, refuses, CardStep, KeyView};
use crate::context::{checked_id, object_fault, optional_id, optional_id_of, require_id};
use crate::context::{subject_fault, subject_from_request, tenant_fault, tenant_id_from_request};
use crate::context::{Id, IdArg, RequestContext};
use crate::event::EventRow;
use crate::json::{fields, JsonView, ObjectBuilder};
use crate::position::{dense, end_position, full, law_append_keeps_dense};
use crate::position::{law_end_lies_behind_the_last, law_insert_keeps_dense};
use crate::position::{law_room_is_made_at_the_place, next_position, open_slot, opened, positions, same_members, Slot};
use crate::status::{fault, fault_if, first_of4, Code, Status, StatusView};
use crate::text::{if_not_empty, non_empty};
use crate::timestamp::{opt_from_proto_ts, stored_time, Timestamp};
use vstd::prelude::*;

verus! {

/// A request to create a card.
#[derive(Debug)]
pub struct CreateCardRequest {
    pub column_id: IdArg,
    pub title: String,
    pub description: String,
    /// The position in the column; 0 stands for its end.
    pub position: i32,
    pub priority: i32,
    pub urgency: i32,
    pub due: Option<Timestamp>,
    pub milestone_id: IdArg,
    pub idempotency_key: String,
}

/// A request to create a card that may go ahead.
#[derive(Debug)]
pub struct CreateCardCall {
    pub board_id: Id,
    pub subject: String,
    pub tenant_id: String,
    pub req: CreateCardRequest,
}

/// Why a request to create a card is refused before anything is looked up.
pub open spec fn create_card_fault(ctx: RequestContext, req: CreateCardRequest) -> Option<
    StatusView,
> {
    first_of4(
        object_fault(ctx, "invalid board_id"),
        subject_fault(ctx),
        tenant_fault(ctx),
        fault_if(req.title@.len() == 0, Code::InvalidArgument, "title is required"),
    )
}

/// Checks a request to create a card on the board that the call was authorized
/// for.
pub fn create_card_call(ctx: &RequestContext, req: CreateCardRequest) -> (r: Result<
    CreateCardCall,
    Status,
>)
    ensures
        match r {
            Ok(call) => {
                &&& create_card_fault(*ctx, req) is None
                &&& ctx.object() == Some(call.board_id)
                &&& ctx.subject() == Some(call.subject)
                &&& ctx.tenant() == Some(call.tenant_id)
                &&& call.req == req
            },
            Err(e) => create_card_fault(*ctx, req) == Some(e@),
        },
{
    let board_id = checked_id(ctx, "invalid board_id")?;
    let subject = subject_from_request(ctx)?;
    let tenant_id = tenant_id_from_request(ctx)?;
    if req.title.as_str().is_empty() {
        return Err(Status::invalid_argument("title is required"));
    }
    Ok(CreateCardCall { board_id, subject, tenant_id, req })
}

/// A card to be stored, with all that is written together with it.
#[derive(Debug)]
pub struct NewCard {
    pub id: Id,
    pub tenant_id: String,
    pub project_id: Id,
    pub board_id: Id,
    pub column_id: Id,
    pub reference: String,
    pub title: String,
    pub description: Option<String>,
    pub position: i32,
    pub priority: &'static str,
    pub urgency: &'static str,
    pub due_date: Option<Timestamp>,
    pub milestone_id: Option<Id>,
    pub created_by: String,
    pub revision: i64,
    /// The project's counter after the card was given its reference.
    pub counter: RefCounter,
    /// The column's other cards with room made for this one, where it is not
    /// appended.
    pub shifted: Option<Vec<Slot>>,
    pub event: EventRow,
}

/// What has been learned for a request to create a card.
#[derive(Debug)]
pub struct CreateCardFacts {
    /// The card that was answered to an earlier request with the key.
    pub replay: Option<Option<Id>>,
    /// The board's project, once the board was looked for.
    pub project: Option<Option<Id>>,
    /// The column's board, once the column was looked for.
    pub column: Option<Option<Id>>,
    /// What is stored of the project's references.
    pub refs: Option<RefState>,
    /// The cards of the column.
    pub slots: Option<Vec<Slot>>,
    /// The new card was stored.
    pub stored: bool,
    /// The key was kept.
    pub kept: bool,
    /// The card to answer, once it was looked for.
    pub loaded: Option<Option<LoadedCard>>,
}

/// Why there is no place for a card at `position`.
pub open spec fn place_fault(position: int, slots: Seq<Slot>) -> Option<StatusView> {
    if position == 0 {
        fault_if(
            end_position(positions(slots)) > i32::MAX,
            Code::Internal,
            "failed to insert card",
        )
    } else {
        fault_if(full(slots), Code::Internal, "failed to shift positions")
    }
}

/// `new` is the card that the call asks for, on the project, in the column and
/// among the cards given.
pub open spec fn is_new_card(
    new: NewCard,
    call: CreateCardCall,
    card_id: Id,
    project_id: Id,
    column_id: Id,
    refs: RefState,
    slots: Seq<Slot>,
) -> bool {
    let req = call.req;
    &&& new.id == card_id
    &&& new.tenant_id == call.tenant_id
    &&& new.project_id == project_id
    &&& new.board_id == call.board_id
    &&& new.column_id == column_id
    &&& allocates((Allocation { reference: new.reference, counter: new.counter }), refs)
    &&& new.title == req.title
    &&& new.description == non_empty(req.description)
    &&& if req.position == 0 {
        new.position == end_position(positions(slots)) && new.shifted is None
    } else {
        &&& new.position == req.position
        &&& new.shifted matches Some(after) && same_members(slots, after@) && positions(after@)
            == opened(positions(slots), req.position as int)
    }
    &&& new.priority@ == priority_name(req.priority as int)
    &&& new.urgency@ == urgency_name(req.urgency as int)
    &&& new.due_date == stored_time(req.due)
    &&& new.milestone_id == optional_id(req.milestone_id)
    &&& new.created_by == call.subject
    &&& new.revision == 0
    &&& new.event.tenant_id == call.tenant_id
    &&& new.event.board_id == call.board_id
    &&& new.event.event_type@ == "CardCreated"@
    &&& new.event.payload@ == fields().text("card_id", card_id@).text(
        "board_id",
        call.board_id@,
    ).text("column_id", column_id@).text("title", req.title@).text("ref", new.reference@).number(
        "position",
        new.position as int,
    ).text("priority", priority_name(req.priority as int)).text(
        "urgency",
        urgency_name(req.urgency as int),
    ).text("idempotency_key", req.idempotency_key@).object()
}

fn new_card(
    call: &CreateCardCall,
    card_id: &Id,
    project_id: &Id,
    column_id: &Id,
    refs: &RefState,
    slots: &Vec<Slot>,
) -> (r: Result<NewCard, Status>)
    requires
        refs.can_allocate(),
    ensures
        match r {
            Ok(new) => place_fault(call.req.position as int, slots@) is None && is_new_card(
                new,
                *call,
                *card_id,
                *project_id,
                *column_id,
                *refs,
                slots@,
            ),
            Err(e) => place_fault(call.req.position as int, slots@) == Some(e@),
        },
{
    let req = &call.req;
    let Allocation { reference, counter } = allocate_card_ref(refs)?;
    let (position, shifted): (i32, Option<Vec<Slot>>) = if req.position == 0 {
        match next_position(slots) {
            Some(end) => (end, None),
            None => {
                return Err(Status::internal("failed to insert card"));
            },
        }
    } else {
        match open_slot(slots, req.position) {
            Some(after) => (req.position, Some(after)),
            None => {
                return Err(Status::internal("failed to shift positions"));
            },
        }
    };
    let priority = priority_from_i32(req.priority);
    let urgency = urgency_from_i32(req.urgency);
    let payload = ObjectBuilder::new().put_text("card_id", card_id).put_text(
        "board_id",
        &call.board_id,
    ).put_text("column_id", column_id).put_text("title", &req.title).put_text(
        "ref",
        &reference,
    ).put_int("position", position as i64).put_text("priority", &priority.to_owned()).put_text(
        "urgency",
        &urgency.to_owned(),
    ).put_text("idempotency_key", &req.idempotency_key).build();
    Ok(
        NewCard {
            id: card_id.clone(),
            tenant_id: call.tenant_id.clone(),
            project_id: project_id.clone(),
            board_id: call.board_id.clone(),
            column_id: column_id.clone(),
            reference,
            title: req.title.clone(),
            description: if_not_empty(&req.description),
            position,
            priority,
            urgency,
            due_date: opt_from_proto_ts(req.due),
            milestone_id: optional_id_of(&req.milestone_id),
            created_by: call.subject.clone(),
            revision: 0,
            counter,
            shifted,
            event: EventRow {
                tenant_id: call.tenant_id.clone(),
                board_id: call.board_id.clone(),
                event_type: "CardCreated",
                payload,
            },
        },
    )
}

/// What a request with a new key, or without one, needs next.
pub open spec fn creates_card(
    r: CardStep<NewCard>,
    call: CreateCardCall,
    card_id: Id,
    facts: CreateCardFacts,
) -> bool {
    let tenant_id = call.tenant_id;
    let key = call.req.idempotency_key;
    match (facts.project, call.req.column_id.id, facts.column, facts.refs, facts.slots) {
        (None, _, _, _, _) => r == (CardStep::<NewCard>::FindBoard {
            board_id: call.board_id,
            tenant_id,
        }),
        (Some(None), _, _, _, _) => refuses(r, fault(Code::NotFound, "board not found")),
        (_, None, _, _, _) => refuses(
            r,
            fault(Code::InvalidArgument, "invalid column_id"),
        ),
        (_, Some(column_id), None, _, _) => r == (CardStep::<NewCard>::FindColumn {
            column_id,
            tenant_id,
        }),
        (Some(Some(project_id)), Some(column_id), Some(board), refs, slots) => if board is None
            || board->Some_0@ != call.board_id@ {
            refuses(r, fault(Code::NotFound, "column not found on this board"))
        } else {
            match (refs, slots) {
                (None, _) => r == (CardStep::<NewCard>::LoadRefs { project_id, tenant_id }),
                (Some(refs), _) if !refs.can_allocate() => refuses(
                    r,
                    fault(Code::Internal, "failed to allocate card ref"),
                ),
                (_, None) => r == (CardStep::<NewCard>::LoadSlots { column_id, tenant_id }),
                (Some(refs), Some(slots)) => if place_fault(
                    call.req.position as int,
                    slots@,
                ) is Some {
                    refuses(r, place_fault(call.req.position as int, slots@)->Some_0)
                } else if !facts.stored {
                    r matches CardStep::Store(new) && is_new_card(
                        new,
                        call,
                        card_id,
                        project_id,
                        column_id,
                        refs,
                        slots@,
                    )
                } else {
                    keeps_and_answers(r, card_id, tenant_id, key, facts.kept, facts.loaded)
                },
            }
        },
    }
}

/// What a request to create a card needs next.
pub open spec fn leads_create(
    r: CardStep<NewCard>,
    call: CreateCardCall,
    card_id: Id,
    facts: CreateCardFacts,
) -> bool {
    match key_state(call.req.idempotency_key, facts.replay) {
        KeyView::Unknown => r == (CardStep::<NewCard>::FindKey {
            tenant_id: call.tenant_id,
            key: call.req.idempotency_key,
        }),
        KeyView::Used(earlier) => answers_card(r, earlier, call.tenant_id, facts.loaded),
        KeyView::Fresh => creates_card(r, call, card_id, facts),
    }
}

/// Creates a card: what to do next, given what has been learned. A key that was
/// used before answers the card of that request, and nothing is stored.
pub fn create_card(call: &CreateCardCall, card_id: &Id, facts: &CreateCardFacts) -> (r:
    CardStep<NewCard>)
    ensures
        leads_create(r, *call, *card_id, *facts),
{
    if !call.req.idempotency_key.as_str().is_empty() {
        match &facts.replay {
            None => {
                return CardStep::FindKey {
                    tenant_id: call.tenant_id.clone(),
                    key: call.req.idempotency_key.clone(),
                };
            },
            Some(Some(earlier)) => {
                return answer_card(earlier, &call.tenant_id, &facts.loaded);
            },
            Some(None) => {},
        }
    }
    let project_id = match &facts.project {
        None => {
            return CardStep::FindBoard {
                board_id: call.board_id.clone(),
                tenant_id: call.tenant_id.clone(),
            };
        },
        Some(None) => {
            return CardStep::Refuse(Status::not_found("board not found"));
        },
        Some(Some(project_id)) => project_id,
    };
    let column_id = match require_id(&call.req.column_id, "invalid column_id") {
        Ok(column_id) => column_id,
        Err(e) => {
            return CardStep::Refuse(e);
        },
    };
    match &facts.column {
        None => {
            return CardStep::FindColumn { column_id, tenant_id: call.tenant_id.clone() };
        },
        Some(Some(board_id)) if *board_id == call.board_id => {},
        _ => {
            return CardStep::Refuse(Status::not_found("column not found on this board"));
        },
    }
    let refs = match &facts.refs {
        None => {
            return CardStep::LoadRefs {
                project_id: project_id.clone(),
                tenant_id: call.tenant_id.clone(),
            };
        },
        Some(refs) => refs,
    };
    if let Err(e) = allocate_card_ref(refs) {
        return CardStep::Refuse(e);
    }
    let slots = match &facts.slots {
        None => {
            return CardStep::LoadSlots { column_id, tenant_id: call.tenant_id.clone() };
        },
        Some(slots) => slots,
    };
    let new = match new_card(call, card_id, project_id, &column_id, refs, slots) {
        Ok(new) => new,
        Err(e) => {
            return CardStep::Refuse(e);
        },
    };
    if !facts.stored {
        return CardStep::Store(new);
    }
    keep_and_answer(
        card_id,
        &call.tenant_id,
        &call.req.idempotency_key,
        facts.kept,
        &facts.loaded,
    )
}

/// The positions of a column's cards once `new` is stored among `slots`.
pub open spec fn column_with(new: NewCard, slots: Seq<Slot>) -> Seq<int> {
    match new.shifted {
        Some(after) => positions(after@),
        None => positions(slots),
    }.push(new.position as int)
}

/// A card created at a place of a dense column, or at its end, leaves the
/// column dense.
pub proof fn law_new_card_keeps_column_dense(
    new: NewCard,
    call: CreateCardCall,
    card_id: Id,
    project_id: Id,
    column_id: Id,
    refs: RefState,
    slots: Seq<Slot>,
)
    requires
        is_new_card(new, call, card_id, project_id, column_id, refs, slots),
        dense(positions(slots)),
        0 <= call.req.position <= slots.len(),
    ensures
        dense(column_with(new, slots)),
{
    law_append_keeps_dense(positions(slots));
    law_insert_keeps_dense(positions(slots), call.req.position as int);
}

/// A request sent again with its key creates no second card: the key was kept with the
/// first card, and that card is answered.
pub proof fn law_used_key_creates_no_card(
    r: CardStep<NewCard>,
    call: CreateCardCall,
    card_id: Id,
    facts: CreateCardFacts,
    earlier: Id,
)
    requires
        leads_create(r, call, card_id, facts),
        call.req.idempotency_key@.len() > 0,
        facts.replay == Some(Some(earlier)),
    ensures
        !(r is Store),
        answers_card(r, earlier, call.tenant_id, facts.loaded),
{
}

/// A request sent twice creates one card: what the second one is answered is the
/// card that the key of the first was kept with, and that is the card that the
/// first one created.
pub proof fn law_repeat_answers_the_first_card(
    first: CardStep<NewCard>,
    call: CreateCardCall,
    card_id: Id,
    facts: CreateCardFacts,
    again: CardStep<NewCard>,
    repeat: CreateCardCall,
    other_id: Id,
    learned: CreateCardFacts,
)
    requires
        leads_create(first, call, card_id, facts),
        first is KeepKey,
        leads_create(again, repeat, other_id, learned),
        repeat.tenant_id == call.tenant_id,
        repeat.req.idempotency_key == call.req.idempotency_key,
        learned.replay == Some(Some(first->KeepKey_card_id)),
    ensures
        !(again is Store),
        answers_card(again, card_id, call.tenant_id, learned.loaded),
{
}

/// A card that is created with a position stands at exactly that position: the
/// cards of the column in front of it stay where they are, and all others move
/// on by one.
pub proof fn law_new_card_stands_where_asked(
    r: CardStep<NewCard>,
    call: CreateCardCall,
    card_id: Id,
    facts: CreateCardFacts,
    i: int,
)
    requires
        leads_create(r, call, card_id, facts),
        r is Store,
        call.req.position != 0,
    ensures
        facts.slots is Some,
        r->Store_0.position == call.req.position,
        r->Store_0.shifted is Some,
        r->Store_0.shifted->Some_0.len() == facts.slots->Some_0.len(),
        0 <= i < facts.slots->Some_0.len() ==> {
            let (before, after) = (facts.slots->Some_0[i], r->Store_0.shifted->Some_0[i]);
            &&& after.id == before.id
            &&& before.position < call.req.position ==> after.position == before.position
            &&& before.position >= call.req.position ==> after.position == before.position + 1
        },
{
    law_room_is_made_at_the_place(
        facts.slots->Some_0@,
        r->Store_0.shifted->Some_0@,
        call.req.position as int,
    );
}

/// A card that is created without a position stands right behind the last card
/// of its column, at 0 in an empty one, and no other card moves.
pub proof fn law_new_card_is_appended(
    r: CardStep<NewCard>,
    call: CreateCardCall,
    card_id: Id,
    facts: CreateCardFacts,
)
    requires
        leads_create(r, call, card_id, facts),
        r is Store,
        call.req.position == 0,
    ensures
        facts.slots is Some,
        r->Store_0.shifted is None,
        facts.slots->Some_0.len() == 0 ==> r->Store_0.position == 0,
        forall|i: int|
            0 <= i < facts.slots->Some_0.len() ==> (#[trigger] facts.slots->Some_0[i]).position
                < r->Store_0.position,
        facts.slots->Some_0.len() > 0 ==> exists|i: int|
            0 <= i < facts.slots->Some_0.len() && (#[trigger] facts.slots->Some_0[i]).position + 1
                == r->Store_0.position,
{
    law_end_lies_behind_the_last(facts.slots->Some_0@);
}

/// A new card holds what the request says of it, on the board that the call was
/// authorized for and in the column that the request names, and begins at
/// revision 0.
pub proof fn law_new_card_holds_what_was_asked(
    r: CardStep<NewCard>,
    call: CreateCardCall,
    card_id: Id,
    facts: CreateCardFacts,
)
    requires
        leads_create(r, call, card_id, facts),
        r is Store,
    ensures
        r->Store_0.id == card_id,
        r->Store_0.tenant_id == call.tenant_id,
        facts.project == Some(Some(r->Store_0.project_id)),
        r->Store_0.board_id == call.board_id,
        call.req.column_id.id == Some(r->Store_0.column_id),
        r->Store_0.title == call.req.title,
        call.req.description@.len() == 0 ==> r->Store_0.description is None,
        call.req.description@.len() > 0 ==> r->Store_0.description == Some(call.req.description),
        r->Store_0.priority@ == if call.req.priority == 1 {
            "low"@
        } else if call.req.priority == 3 {
            "high"@
        } else if call.req.priority == 4 {
            "urgent"@
        } else {
            "medium"@
        },
        r->Store_0.urgency@ == if call.req.urgency == 1 {
            "low"@
        } else if call.req.urgency == 3 {
            "high"@
        } else if call.req.urgency == 4 {
            "critical"@
        } else {
            "medium"@
        },
        call.req.due is None ==> r->Store_0.due_date is None,
        call.req.due matches Some(due) ==> (0 <= due.seconds <= 8210266876799 && 0 <= due.nanos
            < 1_000_000_000 ==> r->Store_0.due_date == Some(due)),
        call.req.milestone_id.text@.len() == 0 ==> r->Store_0.milestone_id is None,
        call.req.milestone_id.text@.len() > 0 ==> r->Store_0.milestone_id
            == call.req.milestone_id.id,
        r->Store_0.created_by == call.subject,
        r->Store_0.revision == 0,
        facts.refs matches Some(refs) && allocates(
            (Allocation { reference: r->Store_0.reference, counter: r->Store_0.counter }),
            refs,
        ),
        r->Store_0.event.tenant_id == call.tenant_id,
        r->Store_0.event.board_id == call.board_id,
        r->Store_0.event.event_type@ == "CardCreated"@,
        r->Store_0.event.payload@ matches JsonView::Object(members) && members =~= seq![
            ("card_id"@, JsonView::Text(card_id@)),
            ("board_id"@, JsonView::Text(call.board_id@)),
            ("column_id"@, JsonView::Text(r->Store_0.column_id@)),
            ("title"@, JsonView::Text(call.req.title@)),
            ("ref"@, JsonView::Text(r->Store_0.reference@)),
            ("position"@, JsonView::Int(r->Store_0.position as int)),
            ("priority"@, JsonView::Text(r->Store_0.priority@)),
            ("urgency"@, JsonView::Text(r->Store_0.urgency@)),
            ("idempotency_key"@, JsonView::Text(call.req.idempotency_key@)),
        ],
{
}

/// A card is created exactly where its board and its column are there, the
/// column is on the board, a reference can be given out and there is room,
/// unless an earlier request with the key was answered.
pub proof fn law_card_is_created_when_nothing_stands_against_it(
    r: CardStep<NewCard>,
    call: CreateCardCall,
    card_id: Id,
    facts: CreateCardFacts,
)
    requires
        leads_create(r, call, card_id, facts),
    ensures
        r is Store <==> {
            &&& call.req.idempotency_key@.len() == 0 || facts.replay == Some(None::<Id>)
            &&& facts.project matches Some(Some(_))
            &&& call.req.column_id.id is Some
            &&& facts.column matches Some(Some(board_id)) && board_id@ == call.board_id@
            &&& facts.refs matches Some(refs) && refs.can_allocate()
            &&& facts.slots matches Some(slots) && forall|i: int|
                0 <= i < slots.len() ==> (#[trigger] slots[i]).position < i32::MAX
            &&& !facts.stored
        },
{
    if facts.slots is Some {
        let slots = facts.slots->Some_0@;
        law_end_lies_behind_the_last(slots);
        assert(full(slots) <==> exists|i: int|
            0 <= i < slots.len() && (#[trigger] slots[i]).position == i32::MAX);
        if full(slots) && call.req.position == 0 {
            let k = choose|k: int|
                0 <= k < slots.len() && (#[trigger] slots[k]).position == i32::MAX;
            assert(slots[k].position < end_position(positions(slots)));
        }
        if !full(slots) && slots.len() > 0 {
            let k = choose|k: int|
                0 <= k < slots.len() && (#[trigger] slots[k]).position + 1 == end_position(
                    positions(slots),
                );
            assert(slots[k].position < i32::MAX);
        }
    }
}

/// A request to create a card goes on in order: it looks for the board and the
/// column, reads the references and the column, and once the card is stored it
/// is answered that card.
pub proof fn law_creating_a_card_goes_on_in_order(
    r: CardStep<NewCard>,
    call: CreateCardCall,
    card_id: Id,
    facts: CreateCardFacts,
    project_id: Id,
    column_id: Id,
    board_id: Id,
)
    requires
        leads_create(r, call, card_id, facts),
        call.req.idempotency_key@.len() == 0 || facts.replay == Some(None::<Id>),
    ensures
        facts.project is None ==> r == (CardStep::<NewCard>::FindBoard {
            board_id: call.board_id,
            tenant_id: call.tenant_id,
        }),
        facts.project == Some(None::<Id>) ==> refuses(r, fault(Code::NotFound, "board not found")),
        facts.project == Some(Some(project_id)) ==> {
            &&& call.req.column_id.id is None ==> refuses(
                r,
                fault(Code::InvalidArgument, "invalid column_id"),
            )
            &&& call.req.column_id.id == Some(column_id) ==> {
                &&& facts.column is None ==> r == (CardStep::<NewCard>::FindColumn {
                    column_id,
                    tenant_id: call.tenant_id,
                })
                &&& facts.column == Some(None::<Id>) ==> refuses(
                    r,
                    fault(Code::NotFound, "column not found on this board"),
                )
                &&& facts.column == Some(Some(board_id)) && board_id@ != call.board_id@
                    ==> refuses(r, fault(Code::NotFound, "column not found on this board"))
                &&& facts.column == Some(Some(board_id)) && board_id@ == call.board_id@ ==> {
                    &&& facts.refs is None ==> r == (CardStep::<NewCard>::LoadRefs {
                        project_id,
                        tenant_id: call.tenant_id,
                    })
                    &&& facts.refs is Some && facts.refs->Some_0.can_allocate() && facts.slots is None
                        ==> r == (CardStep::<NewCard>::LoadSlots {
                        column_id,
                        tenant_id: call.tenant_id,
                    })
                }
            }
        },
        r is KeepKey || r is LoadCard || r is Answer ==> facts.stored && keeps_and_answers(
            r,
            card_id,
            call.tenant_id,
            call.req.idempotency_key,
            facts.kept,
            facts.loaded,
        ),
{
}

/// A request to create a card needs the board that the call was authorized for,
/// a caller, a tenant and a title, and is refused for the first that is missing.
pub proof fn law_create_request_is_refused_in_order(ctx: RequestContext, req: CreateCardRequest)
    ensures
        create_card_fault(ctx, req) == if ctx.checked_object_id is None {
            Some(StatusView { code: Code::Internal, message: "missing CheckedObjectId extension"@ })
        } else if ctx.object() is None {
            Some(StatusView { code: Code::InvalidArgument, message: "invalid board_id"@ })
        } else if ctx.subject() is None {
            Some(StatusView { code: Code::Unauthenticated, message: "missing auth context"@ })
        } else if ctx.tenant() is None {
            Some(StatusView { code: Code::Unauthenticated, message: "missing tenant context"@ })
        } else if req.title@.len() == 0 {
            Some(StatusView { code: Code::InvalidArgument, message: "title is required"@ })
        } else {
            None
        },
{
}

/// A card can be put in a column exactly where no card stands at the last
/// position.
pub proof fn law_card_is_placed_while_there_is_room(position: int, slots: Seq<Slot>)
    ensures
        place_fault(position, slots) is None <==> forall|i: int|
            0 <= i < slots.len() ==> (#[trigger] slots[i]).position < i32::MAX,
        place_fault(position, slots) matches Some(f) ==> f.code == Code::Internal && f.message
            == if position == 0 {
            "failed to insert card"@
        } else {
            "failed to shift positions"@
        },
{
    law_end_lies_behind_the_last(slots);
    if full(slots) {
        let k = choose|k: int| 0 <= k < slots.len() && (#[trigger] slots[k]).position == i32::MAX;
        assert(slots[k].position < end_position(positions(slots)));
    } else if slots.len() > 0 {
        let k = choose|k: int|
            0 <= k < slots.len() && (#[trigger] slots[k]).position + 1 == end_position(
                positions(slots),
            );
        assert(slots[k].position < i32::MAX);
    }
}

} // verus!
