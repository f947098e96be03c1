//! Moving a card within its column or to another one of its project.
use crate::cards::model::LoadedCard;
use crate::cards::step::{answer_card, answers_card, keep_and_answer, keeps_and_answers};
use crate::cards::step::{key_state, refuses, CardHead, CardStep, KeyView};
use crate::context::{checked_id, id_fault, object_fault, require_id, tenant_fault};
use crate::context::{tenant_id_from_request, Id, IdArg, RequestContext};
use crate::event::EventRow;
use crate::json::{fields, JsonView, ObjectBuilder};
use crate::position::{close_gap, closed_up, dense, displace, displaced_all, full};
use crate::position::{law_close_keeps_order, law_displace_and_place_is_move};
use crate::position::{law_gap_is_closed, law_insert_keeps_dense, law_insert_keeps_order};
use crate::position::{law_move_displaces_what_is_between, law_move_keeps_dense};
use crate::position::{law_room_is_made_at_the_place, law_take_out_keeps_dense, moved};
use crate::position::{open_slot, opened};
use crate::position::{positions, same_members, Slot};
use crate::status::{fault, first_of3, Code, Status, StatusView};
use vstd::prelude::*;

verus! {

/// A request to move a card.
#[derive(Debug)]
pub struct MoveCardRequest {
    pub to_column_id: IdArg,
    /// The place in the column, counted from 1.
    pub to_position: i32,
    pub idempotency_key: String,
}

/// A request to move a card that may go ahead.
#[derive(Debug)]
pub struct MoveCardCall {
    pub card_id: Id,
    pub tenant_id: String,
    pub to_column_id: Id,
    pub to_position: i32,
    pub idempotency_key: String,
}

/// Why a request to move a card is refused before anything is looked up.
pub open spec fn move_card_fault(ctx: RequestContext, req: MoveCardRequest) -> Option<StatusView> {
    first_of3(
        object_fault(ctx, "invalid card_id"),
        tenant_fault(ctx),
        id_fault(req.to_column_id, "invalid to_column_id"),
    )
}

/// Checks a request to move the card that the call was authorized for.
pub fn move_card_call(ctx: &RequestContext, req: MoveCardRequest) -> (r: Result<
    MoveCardCall,
    Status,
>)
    ensures
        match r {
            Ok(call) => {
                &&& move_card_fault(*ctx, req) is None
                &&& ctx.object() == Some(call.card_id)
                &&& ctx.tenant() == Some(call.tenant_id)
                &&& req.to_column_id.id == Some(call.to_column_id)
                &&& call.to_position == req.to_position
                &&& call.idempotency_key == req.idempotency_key
            },
            Err(e) => move_card_fault(*ctx, req) == Some(e@),
        },
{
    let card_id = checked_id(ctx, "invalid card_id")?;
    let tenant_id = tenant_id_from_request(ctx)?;
    let to_column_id = require_id(&req.to_column_id, "invalid to_column_id")?;
    Ok(
        MoveCardCall {
            card_id,
            tenant_id,
            to_column_id,
            to_position: req.to_position,
            idempotency_key: req.idempotency_key,
        },
    )
}

/// A card's move, with all that is written together with it.
#[derive(Debug)]
pub struct CardMove {
    pub card_id: Id,
    pub tenant_id: String,
    pub to_column_id: Id,
    pub to_position: i32,
    /// The card's revision after the move.
    pub revision: i64,
    /// The cards of the column that the card was in, where they stand after.
    pub source: Vec<Slot>,
    /// The cards of the column that the card moves to, where they stand after;
    /// none where it stays in its column.
    pub target: Option<Vec<Slot>>,
    pub event: EventRow,
}

/// What has been learned for a request to move a card.
#[derive(Debug)]
pub struct MoveCardFacts {
    /// The card that was answered to an earlier request with the key.
    pub replay: Option<Option<Id>>,
    /// The card, once it was looked for.
    pub head: Option<Option<CardHead>>,
    /// The board of the target column, once the column was looked for.
    pub column: Option<Option<Id>>,
    /// The project of that board, once the board was looked for.
    pub project: Option<Option<Id>>,
    /// The cards of the column that the card is in.
    pub source: Option<Vec<Slot>>,
    /// The cards of the column that it moves to.
    pub target: Option<Vec<Slot>>,
    /// The move was stored.
    pub stored: bool,
    /// The key was kept.
    pub kept: bool,
    /// The card to answer, once it was looked for.
    pub loaded: Option<Option<LoadedCard>>,
}

/// The place that the request counts from 1, counted from 0. What comes before
/// the first place stands for the first.
pub open spec fn target_place(to_position: int) -> int {
    if to_position < 1 {
        0
    } else {
        to_position - 1
    }
}

/// `m` moves the card: within its column, the cards that it passes make way;
/// to another column, its old one closes up and the new one makes room.
pub open spec fn is_card_move(
    m: CardMove,
    call: MoveCardCall,
    head: CardHead,
    source: Seq<Slot>,
    target: Seq<Slot>,
) -> bool {
    let to = target_place(call.to_position as int);
    &&& m.card_id == call.card_id
    &&& m.tenant_id == call.tenant_id
    &&& m.to_column_id == call.to_column_id
    &&& m.to_position == to
    &&& m.revision == head.revision + 1
    &&& same_members(source, m.source@)
    &&& if head.column_id@ == call.to_column_id@ {
        &&& positions(m.source@) == displaced_all(positions(source), head.position as int, to)
        &&& m.target is None
    } else {
        &&& positions(m.source@) == closed_up(positions(source), head.position as int)
        &&& m.target matches Some(after) && same_members(target, after@) && positions(after@)
            == opened(positions(target), to)
    }
    &&& m.event.tenant_id == call.tenant_id
    &&& m.event.board_id == head.board_id
    &&& m.event.event_type@ == "CardMoved"@
    &&& m.event.payload@ == fields().text("card_id", call.card_id@).text(
        "from_column",
        head.column_id@,
    ).text("to_column", call.to_column_id@).number("to_position", to).number(
        "prev_revision",
        head.revision as int,
    ).number("new_revision", head.revision + 1).text(
        "idempotency_key",
        call.idempotency_key@,
    ).object()
}

/// Why a card cannot be put in its place.
pub open spec fn placing_fault(
    call: MoveCardCall,
    head: CardHead,
    target: Seq<Slot>,
) -> Option<StatusView> {
    if head.column_id@ != call.to_column_id@ && full(target) {
        Some(fault(Code::Internal, "failed to open target slot"))
    } else if head.revision == i64::MAX {
        Some(fault(Code::Internal, "failed to place card at new position"))
    } else {
        None
    }
}

fn place_card(call: &MoveCardCall, head: &CardHead, source: &Vec<Slot>, target: &Vec<Slot>) -> (r:
    Result<CardMove, Status>)
    ensures
        match r {
            Ok(m) => placing_fault(*call, *head, target@) is None && is_card_move(
                m,
                *call,
                *head,
                source@,
                target@,
            ),
            Err(e) => placing_fault(*call, *head, target@) == Some(e@),
        },
{
    let to: i32 = if call.to_position < 1 {
        0
    } else {
        call.to_position - 1
    };
    let (after, after_target): (Vec<Slot>, Option<Vec<Slot>>) = if head.column_id
        == call.to_column_id {
        (displace(source, head.position, to), None)
    } else {
        match open_slot(target, to) {
            Some(opened) => (close_gap(source, head.position), Some(opened)),
            None => {
                return Err(Status::internal("failed to open target slot"));
            },
        }
    };
    if head.revision == i64::MAX {
        return Err(Status::internal("failed to place card at new position"));
    }
    let revision: i64 = head.revision + 1;
    let payload = ObjectBuilder::new().put_text("card_id", &call.card_id).put_text(
        "from_column",
        &head.column_id,
    ).put_text("to_column", &call.to_column_id).put_int("to_position", to as i64).put_int(
        "prev_revision",
        head.revision,
    ).put_int("new_revision", revision).put_text("idempotency_key", &call.idempotency_key).build();
    Ok(
        CardMove {
            card_id: call.card_id.clone(),
            tenant_id: call.tenant_id.clone(),
            to_column_id: call.to_column_id.clone(),
            to_position: to,
            revision,
            source: after,
            target: after_target,
            event: EventRow {
                tenant_id: call.tenant_id.clone(),
                board_id: head.board_id.clone(),
                event_type: "CardMoved",
                payload,
            },
        },
    )
}

/// What a request with a new key, or without one, needs next: the card, the
/// target column, its board and that board's project are looked for in turn,
/// and a move to another project is refused.
pub open spec fn moves_card(
    r: CardStep<CardMove>,
    call: MoveCardCall,
    facts: MoveCardFacts,
) -> bool {
    let tenant_id = call.tenant_id;
    match (facts.head, facts.column, facts.project) {
        (None, _, _) => r == (CardStep::<CardMove>::FindCard { card_id: call.card_id, tenant_id }),
        (Some(None), _, _) => refuses(r, fault(Code::NotFound, "card not found")),
        (_, None, _) => r == (CardStep::<CardMove>::FindColumn {
            column_id: call.to_column_id,
            tenant_id,
        }),
        (_, Some(None), _) => refuses(r, fault(Code::NotFound, "target column not found")),
        (_, Some(Some(board_id)), None) => r == (CardStep::<CardMove>::FindBoard {
            board_id,
            tenant_id,
        }),
        (_, _, Some(None)) => refuses(r, fault(Code::NotFound, "target board not found")),
        (Some(Some(head)), _, Some(Some(project_id))) => if head.project_id@ != project_id@ {
            refuses(r, fault(Code::InvalidArgument, "cards do not move between projects"))
        } else {
            let stays = head.column_id@ == call.to_column_id@;
            match (facts.source, facts.target) {
                (None, _) => r == (CardStep::<CardMove>::LoadSlots {
                    column_id: head.column_id,
                    tenant_id,
                }),
                (_, None) if !stays => r == (CardStep::<CardMove>::LoadTargetSlots {
                    column_id: call.to_column_id,
                    tenant_id,
                }),
                (Some(source), target) => {
                    let target = match target {
                        Some(t) => t@,
                        None => Seq::empty(),
                    };
                    if placing_fault(call, head, target) is Some {
                        refuses(r, placing_fault(call, head, target)->Some_0)
                    } else if !facts.stored {
                        r matches CardStep::Store(m) && is_card_move(m, call, head, source@, target)
                    } else {
                        keeps_and_answers(
                            r,
                            call.card_id,
                            tenant_id,
                            call.idempotency_key,
                            facts.kept,
                            facts.loaded,
                        )
                    }
                },
            }
        },
    }
}

/// What a request to move a card needs next.
pub open spec fn leads_move(
    r: CardStep<CardMove>,
    call: MoveCardCall,
    facts: MoveCardFacts,
) -> bool {
    match key_state(call.idempotency_key, facts.replay) {
        KeyView::Unknown => r == (CardStep::<CardMove>::FindKey {
            tenant_id: call.tenant_id,
            key: call.idempotency_key,
        }),
        KeyView::Used(_) => answers_card(r, call.card_id, call.tenant_id, facts.loaded),
        KeyView::Fresh => moves_card(r, call, facts),
    }
}

/// Moves a card: what to do next, given what has been learned. A key that was
/// used before answers the card as it is, and nothing is stored.
pub fn move_card(call: &MoveCardCall, facts: &MoveCardFacts) -> (r: CardStep<CardMove>)
    ensures
        leads_move(r, *call, *facts),
{
    if !call.idempotency_key.as_str().is_empty() {
        match &facts.replay {
            None => {
                return CardStep::FindKey {
                    tenant_id: call.tenant_id.clone(),
                    key: call.idempotency_key.clone(),
                };
            },
            Some(Some(_)) => {
                return answer_card(&call.card_id, &call.tenant_id, &facts.loaded);
            },
            Some(None) => {},
        }
    }
    let head = match &facts.head {
        None => {
            return CardStep::FindCard {
                card_id: call.card_id.clone(),
                tenant_id: call.tenant_id.clone(),
            };
        },
        Some(None) => {
            return CardStep::Refuse(Status::not_found("card not found"));
        },
        Some(Some(head)) => head,
    };
    let board_id = match &facts.column {
        None => {
            return CardStep::FindColumn {
                column_id: call.to_column_id.clone(),
                tenant_id: call.tenant_id.clone(),
            };
        },
        Some(None) => {
            return CardStep::Refuse(Status::not_found("target column not found"));
        },
        Some(Some(board_id)) => board_id,
    };
    let project_id = match &facts.project {
        None => {
            return CardStep::FindBoard {
                board_id: board_id.clone(),
                tenant_id: call.tenant_id.clone(),
            };
        },
        Some(None) => {
            return CardStep::Refuse(Status::not_found("target board not found"));
        },
        Some(Some(project_id)) => project_id,
    };
    if head.project_id != *project_id {
        return CardStep::Refuse(Status::invalid_argument("cards do not move between projects"));
    }
    let source = match &facts.source {
        None => {
            return CardStep::LoadSlots {
                column_id: head.column_id.clone(),
                tenant_id: call.tenant_id.clone(),
            };
        },
        Some(source) => source,
    };
    let none: Vec<Slot> = Vec::new();
    let target = match &facts.target {
        Some(target) => target,
        None => {
            if head.column_id != call.to_column_id {
                return CardStep::LoadTargetSlots {
                    column_id: call.to_column_id.clone(),
                    tenant_id: call.tenant_id.clone(),
                };
            }
            &none
        },
    };
    let m = match place_card(call, head, source, target) {
        Ok(m) => m,
        Err(e) => {
            return CardStep::Refuse(e);
        },
    };
    if !facts.stored {
        return CardStep::Store(m);
    }
    keep_and_answer(
        &call.card_id,
        &call.tenant_id,
        &call.idempotency_key,
        facts.kept,
        &facts.loaded,
    )
}

/// Moving a card to a place inside its dense column leaves the column dense.
/// Here `k` is where the card is listed.
pub proof fn law_move_within_keeps_column_dense(
    m: CardMove,
    call: MoveCardCall,
    head: CardHead,
    source: Seq<Slot>,
    target: Seq<Slot>,
    k: int,
)
    requires
        is_card_move(m, call, head, source, target),
        head.column_id@ == call.to_column_id@,
        0 <= k < source.len(),
        source[k].position == head.position,
        dense(positions(source)),
        target_place(call.to_position as int) < source.len(),
    ensures
        positions(m.source@).update(k, m.to_position as int) == moved(
            positions(source),
            k,
            m.to_position as int,
        ),
        dense(positions(m.source@).update(k, m.to_position as int)),
{
    law_displace_and_place_is_move(positions(source), k, m.to_position as int);
    law_move_keeps_dense(positions(source), k, m.to_position as int);
}

/// Moving a card to a place inside another dense column, or to its end, leaves
/// both columns dense. Here `k` is where the card is listed in the old one.
pub proof fn law_move_across_keeps_columns_dense(
    m: CardMove,
    call: MoveCardCall,
    head: CardHead,
    source: Seq<Slot>,
    target: Seq<Slot>,
    k: int,
)
    requires
        is_card_move(m, call, head, source, target),
        head.column_id@ != call.to_column_id@,
        0 <= k < source.len(),
        source[k].position == head.position,
        dense(positions(source)),
        dense(positions(target)),
        target_place(call.to_position as int) <= target.len(),
    ensures
        dense(positions(m.source@).remove(k)),
        dense(positions(m.target->Some_0@).push(m.to_position as int)),
{
    let p = positions(source);
    law_take_out_keeps_dense(p, k);
    assert(positions(m.source@).remove(k) =~= closed_up(p.remove(k), p[k]));
    law_insert_keeps_dense(positions(target), m.to_position as int);
}

/// Moving a card to another column keeps the cards that stay in its old column,
/// and those of the new one, in their order. Here `k` is where the card is
/// listed in the old one, `i` and `j` are two others there, and `a` and `b` two
/// of the new one.
pub proof fn law_move_across_keeps_order(
    m: CardMove,
    call: MoveCardCall,
    head: CardHead,
    source: Seq<Slot>,
    target: Seq<Slot>,
    k: int,
    i: int,
    j: int,
    a: int,
    b: int,
)
    requires
        is_card_move(m, call, head, source, target),
        head.column_id@ != call.to_column_id@,
        0 <= k < source.len(),
        source[k].position == head.position,
        dense(positions(source)),
        0 <= i < source.len(),
        0 <= j < source.len(),
        i != k,
        j != k,
        0 <= a < target.len(),
        0 <= b < target.len(),
    ensures
        source[i].position < source[j].position <==> m.source[i].position < m.source[j].position,
        target[a].position < target[b].position <==> m.target->Some_0[a].position
            < m.target->Some_0[b].position,
{
    law_close_keeps_order(positions(source), k, i, j);
    law_insert_keeps_order(positions(target), m.to_position as int, a, b);
    assert(positions(source)[k] == head.position);
    assert(positions(m.source@)[i] == m.source[i].position);
    assert(positions(m.source@)[j] == m.source[j].position);
    let after = m.target->Some_0@;
    assert(positions(after)[a] == after[a].position);
    assert(positions(after)[b] == after[b].position);
}

/// A card never changes its project: a move to a board of another project is
/// refused, whatever else holds, and nothing is stored.
pub proof fn law_no_move_between_projects(
    r: CardStep<CardMove>,
    call: MoveCardCall,
    facts: MoveCardFacts,
)
    requires
        moves_card(r, call, facts),
        facts.head matches Some(Some(head)) && facts.column matches Some(Some(_))
            && facts.project matches Some(Some(project_id)) && head.project_id@ != project_id@,
    ensures
        refuses(r, fault(Code::InvalidArgument, "cards do not move between projects")),
        !(r is Store),
{
}

/// A request sent again with its key moves the card no further, and is answered
/// the same card.
pub proof fn law_used_key_moves_no_card(
    r: CardStep<CardMove>,
    call: MoveCardCall,
    facts: MoveCardFacts,
    earlier: Id,
)
    requires
        leads_move(r, call, facts),
        call.idempotency_key@.len() > 0,
        facts.replay == Some(Some(earlier)),
    ensures
        !(r is Store),
        answers_card(r, call.card_id, call.tenant_id, facts.loaded),
{
}

/// A card that is moved stands where the request says: at place `to_position`,
/// counted from 1, of the column that it names, in its own or in another one.
/// One below 1 stands for the first place.
pub proof fn law_card_lands_where_it_was_sent(
    r: CardStep<CardMove>,
    call: MoveCardCall,
    facts: MoveCardFacts,
)
    requires
        leads_move(r, call, facts),
        r is Store,
    ensures
        r->Store_0.card_id == call.card_id,
        r->Store_0.tenant_id == call.tenant_id,
        r->Store_0.to_column_id == call.to_column_id,
        call.to_position >= 1 ==> r->Store_0.to_position == call.to_position - 1,
        call.to_position < 1 ==> r->Store_0.to_position == 0,
        facts.head matches Some(Some(head)) && r->Store_0.revision == head.revision + 1,
{
}

/// A card that moves to another column leaves no gap behind and displaces no one
/// but those behind its new place: in the column that it comes to, the cards in
/// front of the place stay where they are and all others move on by one; in the
/// column that it leaves, the cards behind it move up by one and all others stay.
pub proof fn law_move_across_displaces_only_those_behind(
    r: CardStep<CardMove>,
    call: MoveCardCall,
    facts: MoveCardFacts,
    head: CardHead,
    i: int,
)
    requires
        leads_move(r, call, facts),
        r is Store,
        facts.head == Some(Some(head)),
        head.column_id@ != call.to_column_id@,
    ensures
        facts.source is Some,
        facts.target is Some,
        r->Store_0.target is Some,
        r->Store_0.source.len() == facts.source->Some_0.len(),
        r->Store_0.target->Some_0.len() == facts.target->Some_0.len(),
        0 <= i < facts.target->Some_0.len() ==> {
            let (before, after) = (facts.target->Some_0[i], r->Store_0.target->Some_0[i]);
            let place = if call.to_position < 1 {
                0
            } else {
                call.to_position - 1
            };
            &&& after.id == before.id
            &&& before.position < place ==> after.position == before.position
            &&& before.position >= place ==> after.position == before.position + 1
        },
        0 <= i < facts.source->Some_0.len() ==> {
            let (before, after) = (facts.source->Some_0[i], r->Store_0.source[i]);
            &&& after.id == before.id
            &&& before.position <= head.position ==> after.position == before.position
            &&& before.position > head.position ==> after.position == before.position - 1
        },
{
    let m = r->Store_0;
    law_gap_is_closed(facts.source->Some_0@, m.source@, head.position as int);
    law_room_is_made_at_the_place(
        facts.target->Some_0@,
        m.target->Some_0@,
        m.to_position as int,
    );
}

/// A card that moves within its column displaces those between its two places
/// by one towards the place that it left, and no one else.
pub proof fn law_move_within_displaces_only_those_between(
    r: CardStep<CardMove>,
    call: MoveCardCall,
    facts: MoveCardFacts,
    head: CardHead,
    i: int,
)
    requires
        leads_move(r, call, facts),
        r is Store,
        facts.head == Some(Some(head)),
        head.column_id@ == call.to_column_id@,
    ensures
        facts.source is Some,
        r->Store_0.target is None,
        r->Store_0.source.len() == facts.source->Some_0.len(),
        0 <= i < facts.source->Some_0.len() ==> {
            let (before, after) = (facts.source->Some_0[i], r->Store_0.source[i]);
            let x = before.position;
            let place = if call.to_position < 1 {
                0
            } else {
                call.to_position - 1
            };
            &&& after.id == before.id
            &&& head.position < x <= place ==> after.position == x - 1
            &&& place <= x < head.position ==> after.position == x + 1
            &&& x < head.position && x < place ==> after.position == x
            &&& x > head.position && x > place ==> after.position == x
        },
{
    let m = r->Store_0;
    law_move_displaces_what_is_between(
        facts.source->Some_0@,
        m.source@,
        head.position as int,
        m.to_position as int,
    );
}

/// A move is reported on the board of the card, with the columns and the place
/// that it is between.
pub proof fn law_move_is_reported(
    r: CardStep<CardMove>,
    call: MoveCardCall,
    facts: MoveCardFacts,
)
    requires
        leads_move(r, call, facts),
        r is Store,
    ensures
        r->Store_0.event.tenant_id == call.tenant_id,
        r->Store_0.event.board_id == facts.head->Some_0->Some_0.board_id,
        r->Store_0.event.event_type@ == "CardMoved"@,
        r->Store_0.event.payload@ matches JsonView::Object(members) && members =~= seq![
            ("card_id"@, JsonView::Text(call.card_id@)),
            ("from_column"@, JsonView::Text(facts.head->Some_0->Some_0.column_id@)),
            ("to_column"@, JsonView::Text(call.to_column_id@)),
            ("to_position"@, JsonView::Int(r->Store_0.to_position as int)),
            ("prev_revision"@, JsonView::Int(facts.head->Some_0->Some_0.revision as int)),
            ("new_revision"@, JsonView::Int(r->Store_0.revision as int)),
            ("idempotency_key"@, JsonView::Text(call.idempotency_key@)),
        ],
{
}

/// A move is stored exactly where the card, the column and its board are there,
/// the board is of the card's project, and there is room, unless an earlier
/// request with the key was answered.
pub proof fn law_move_is_stored_when_nothing_stands_against_it(
    r: CardStep<CardMove>,
    call: MoveCardCall,
    facts: MoveCardFacts,
)
    requires
        leads_move(r, call, facts),
    ensures
        r is Store <==> {
            &&& call.idempotency_key@.len() == 0 || facts.replay == Some(None::<Id>)
            &&& facts.head matches Some(Some(head)) && facts.column matches Some(Some(_))
                && facts.project matches Some(Some(project_id)) && {
                &&& head.project_id@ == project_id@
                &&& head.revision < i64::MAX
                &&& head.column_id@ == call.to_column_id@ || (facts.target matches Some(target)
                    && forall|i: int|
                    0 <= i < target.len() ==> (#[trigger] target[i]).position < i32::MAX)
            }
            &&& facts.source is Some
            &&& !facts.stored
        },
{
    if facts.target is Some {
        let target = facts.target->Some_0@;
        assert(full(target) <==> exists|i: int|
            0 <= i < target.len() && (#[trigger] target[i]).position == i32::MAX);
    }
}

/// A request to move goes on in order: it looks for the card, the column and the
/// board, reads the columns that change, and once the move is stored it is
/// answered the card.
pub proof fn law_move_goes_on_in_order(
    r: CardStep<CardMove>,
    call: MoveCardCall,
    facts: MoveCardFacts,
    head: CardHead,
    board_id: Id,
    project_id: Id,
)
    requires
        leads_move(r, call, facts),
        call.idempotency_key@.len() == 0 || facts.replay == Some(None::<Id>),
    ensures
        facts.head is None ==> r == (CardStep::<CardMove>::FindCard {
            card_id: call.card_id,
            tenant_id: call.tenant_id,
        }),
        facts.head == Some(None::<CardHead>) ==> refuses(r, fault(Code::NotFound, "card not found")),
        facts.head == Some(Some(head)) ==> {
            &&& facts.column is None ==> r == (CardStep::<CardMove>::FindColumn {
                column_id: call.to_column_id,
                tenant_id: call.tenant_id,
            })
            &&& facts.column == Some(None::<Id>) ==> refuses(
                r,
                fault(Code::NotFound, "target column not found"),
            )
        },
        facts.head == Some(Some(head)) && facts.column == Some(Some(board_id)) ==> {
            &&& facts.project is None ==> r == (CardStep::<CardMove>::FindBoard {
                board_id,
                tenant_id: call.tenant_id,
            })
            &&& facts.project == Some(None::<Id>) ==> refuses(
                r,
                fault(Code::NotFound, "target board not found"),
            )
            &&& facts.project == Some(Some(project_id)) && head.project_id@ != project_id@
                ==> refuses(
                r,
                fault(Code::InvalidArgument, "cards do not move between projects"),
            )
            &&& facts.project == Some(Some(project_id)) && head.project_id@ == project_id@ ==> {
                &&& facts.source is None ==> r == (CardStep::<CardMove>::LoadSlots {
                    column_id: head.column_id,
                    tenant_id: call.tenant_id,
                })
                &&& facts.source is Some && facts.target is None && head.column_id@
                    != call.to_column_id@ ==> r == (CardStep::<CardMove>::LoadTargetSlots {
                    column_id: call.to_column_id,
                    tenant_id: call.tenant_id,
                })
            }
        },
        r is KeepKey || r is LoadCard || r is Answer ==> facts.stored && keeps_and_answers(
            r,
            call.card_id,
            call.tenant_id,
            call.idempotency_key,
            facts.kept,
            facts.loaded,
        ),
{
}

/// A request to move a card needs the card that the call was authorized for, a
/// tenant and a column, and is refused for the first that is missing.
pub proof fn law_move_request_is_refused_in_order(ctx: RequestContext, req: MoveCardRequest)
    ensures
        move_card_fault(ctx, req) == if ctx.checked_object_id is None {
            Some(StatusView { code: Code::Internal, message: "missing CheckedObjectId extension"@ })
        } else if ctx.object() is None {
            Some(StatusView { code: Code::InvalidArgument, message: "invalid card_id"@ })
        } else if ctx.tenant() is None {
            Some(StatusView { code: Code::Unauthenticated, message: "missing tenant context"@ })
        } else if req.to_column_id.id is None {
            Some(StatusView { code: Code::InvalidArgument, message: "invalid to_column_id"@ })
        } else {
            None
        },
{
}

/// A card cannot be placed where the column that it comes to has a card at the
/// last position, or where the card has run out of revisions.
pub proof fn law_card_is_moved_while_there_is_room(
    call: MoveCardCall,
    head: CardHead,
    target: Seq<Slot>,
)
    ensures
        ({
            let full = head.column_id@ != call.to_column_id@ && exists|i: int|
                0 <= i < target.len() && (#[trigger] target[i]).position == i32::MAX;
            &&& full ==> placing_fault(call, head, target) == Some(
                StatusView { code: Code::Internal, message: "failed to open target slot"@ },
            )
            &&& !full && head.revision == i64::MAX ==> placing_fault(call, head, target) == Some(
                StatusView {
                    code: Code::Internal,
                    message: "failed to place card at new position"@,
                },
            )
            &&& !full && head.revision < i64::MAX ==> placing_fault(call, head, target) is None
        }),
{
}

} // verus!
