//! Changing and deleting a card.
use crate::cards::model::LoadedCard;
use crate::cards::model::{priority_from_i32, priority_name, urgency_from_i32, urgency_name};
use crate::cards::step::{answer_card, answers_card, keep_and_answer, keeps_and_answers};
use crate::cards::step::{key_state, refuses, CardHead, CardStep, KeyView};
use crate::context::{checked_id, object_fault, optional_id, optional_id_of, tenant_fault};
use crate::context::{tenant_id_from_request, Id, IdArg, RequestContext};
use crate::event::EventRow;
use crate::json::{fields, Json, JsonView, ObjectBuilder};
use crate::status::{fault, first_fault, Code, Status, StatusView};
use crate::text::{if_not_empty, non_empty};
use crate::timestamp::{opt_from_proto_ts, stored_time, Timestamp};
use vstd::prelude::*;

verus! {

/// A value of an enumeration as a request carries it: its number, and its name
/// where the number has one.
#[derive(Debug)]
pub struct EnumArg {
    pub number: i32,
    pub name: Option<String>,
}

impl EnumArg {
    /// How the value is written in JSON: by its name, else by its number.
    pub open spec fn as_json(self) -> JsonView {
        match self.name {
            Some(name) => JsonView::Text(name@),
            None => JsonView::Int(self.number as int),
        }
    }

    pub fn to_json(&self) -> (r: Json)
        ensures
            r@ == self.as_json(),
    {
        match &self.name {
            Some(name) => Json::Text(name.clone()),
            None => Json::Int(self.number as i64),
        }
    }
}

/// The fields of a card to change. What is empty, unspecified or false stays as
/// it is.
#[derive(Debug)]
pub struct CardPatch {
    pub title: String,
    pub description: String,
    pub priority: EnumArg,
    pub urgency: EnumArg,
    pub due: Option<Timestamp>,
    pub blocked: bool,
    pub cover: String,
    pub milestone_id: IdArg,
}

/// A card that may be acted on.
#[derive(Debug)]
pub struct CardCall {
    pub card_id: Id,
    pub tenant_id: String,
}

/// Why a request on a card is refused before anything is looked up.
pub open spec fn card_fault(ctx: RequestContext) -> Option<StatusView> {
    first_fault(object_fault(ctx, "invalid card_id"), tenant_fault(ctx))
}

/// Checks a request to read, change or delete the card that the call was
/// authorized for.
pub fn card_call(ctx: &RequestContext) -> (r: Result<CardCall, Status>)
    ensures
        match r {
            Ok(call) => {
                &&& card_fault(*ctx) is None
                &&& ctx.object() == Some(call.card_id)
                &&& ctx.tenant() == Some(call.tenant_id)
            },
            Err(e) => card_fault(*ctx) == Some(e@),
        },
{
    let card_id = checked_id(ctx, "invalid card_id")?;
    let tenant_id = tenant_id_from_request(ctx)?;
    Ok(CardCall { card_id, tenant_id })
}

/// A change to a card, with the event that reports it. What is `None` stays as
/// it is.
#[derive(Debug)]
pub struct CardUpdate {
    pub card_id: Id,
    pub tenant_id: String,
    pub title: Option<String>,
    pub description: Option<String>,
    pub priority: Option<&'static str>,
    pub urgency: Option<&'static str>,
    pub due_date: Option<Timestamp>,
    /// The card becomes blocked; else it stays as it is.
    pub block: bool,
    pub cover: Option<String>,
    pub milestone_id: Option<Id>,
    /// The card's revision after the change.
    pub revision: i64,
    pub event: EventRow,
}

/// What has been learned for a request to change a card.
#[derive(Debug)]
pub struct UpdateCardFacts {
    /// The card that was answered to an earlier request with the key.
    pub replay: Option<Option<Id>>,
    /// The card, once it was looked for.
    pub head: Option<Option<CardHead>>,
    /// The change was stored.
    pub stored: bool,
    /// The key was kept.
    pub kept: bool,
    /// The card to answer, once it was looked for.
    pub loaded: Option<Option<LoadedCard>>,
}

/// The view of an optional name.
pub open spec fn name_view(s: Option<&'static str>) -> Option<Seq<char>> {
    match s {
        Some(t) => Some(t@),
        None => None,
    }
}

/// The change that a patch asks for.
pub open spec fn is_card_update(
    u: CardUpdate,
    call: CardCall,
    patch: CardPatch,
    key: Seq<char>,
    head: CardHead,
) -> bool {
    &&& u.card_id == call.card_id
    &&& u.tenant_id == call.tenant_id
    &&& u.title == non_empty(patch.title)
    &&& u.description == non_empty(patch.description)
    &&& name_view(u.priority) == if patch.priority.number == 0 {
        None
    } else {
        Some(priority_name(patch.priority.number as int))
    }
    &&& name_view(u.urgency) == if patch.urgency.number == 0 {
        None
    } else {
        Some(urgency_name(patch.urgency.number as int))
    }
    &&& u.due_date == stored_time(patch.due)
    &&& u.block == patch.blocked
    &&& u.cover == non_empty(patch.cover)
    &&& u.milestone_id == optional_id(patch.milestone_id)
    &&& u.revision == head.revision + 1
    &&& u.event.tenant_id == call.tenant_id
    &&& u.event.board_id == head.board_id
    &&& u.event.event_type@ == "CardUpdated"@
    &&& u.event.payload@ == fields().text("card_id", call.card_id@).number(
        "prev_revision",
        head.revision as int,
    ).number("new_revision", head.revision + 1).text("idempotency_key", key).with(
        "patch",
        fields().text("title", patch.title@).text("description", patch.description@).with(
            "priority",
            patch.priority.as_json(),
        ).with("urgency", patch.urgency.as_json()).with(
            "blocked",
            JsonView::Bool(patch.blocked),
        ).text("cover", patch.cover@).object(),
    ).object()
}

fn card_update(call: &CardCall, patch: &CardPatch, key: &String, head: &CardHead) -> (r: CardUpdate)
    requires
        head.revision < i64::MAX,
    ensures
        is_card_update(r, *call, *patch, key@, *head),
{
    let revision: i64 = head.revision + 1;
    let shown = ObjectBuilder::new().put_text("title", &patch.title).put_text(
        "description",
        &patch.description,
    ).put("priority", patch.priority.to_json()).put("urgency", patch.urgency.to_json()).put(
        "blocked",
        Json::Bool(patch.blocked),
    ).put_text("cover", &patch.cover).build();
    let payload = ObjectBuilder::new().put_text("card_id", &call.card_id).put_int(
        "prev_revision",
        head.revision,
    ).put_int("new_revision", revision).put_text("idempotency_key", key).put(
        "patch",
        shown,
    ).build();
    CardUpdate {
        card_id: call.card_id.clone(),
        tenant_id: call.tenant_id.clone(),
        title: if_not_empty(&patch.title),
        description: if_not_empty(&patch.description),
        priority: if patch.priority.number == 0 {
            None
        } else {
            Some(priority_from_i32(patch.priority.number))
        },
        urgency: if patch.urgency.number == 0 {
            None
        } else {
            Some(urgency_from_i32(patch.urgency.number))
        },
        due_date: opt_from_proto_ts(patch.due),
        block: patch.blocked,
        cover: if_not_empty(&patch.cover),
        milestone_id: optional_id_of(&patch.milestone_id),
        revision,
        event: EventRow {
            tenant_id: call.tenant_id.clone(),
            board_id: head.board_id.clone(),
            event_type: "CardUpdated",
            payload,
        },
    }
}

/// What a request with a new key, or without one, needs next.
pub open spec fn updates_card(
    r: CardStep<CardUpdate>,
    call: CardCall,
    patch: CardPatch,
    key: String,
    facts: UpdateCardFacts,
) -> bool {
    match facts.head {
        None => r == (CardStep::<CardUpdate>::FindCard {
            card_id: call.card_id,
            tenant_id: call.tenant_id,
        }),
        Some(None) => refuses(r, fault(Code::NotFound, "card not found")),
        Some(Some(head)) => if head.revision == i64::MAX {
            refuses(r, fault(Code::Internal, "failed to update card"))
        } else if !facts.stored {
            r matches CardStep::Store(u) && is_card_update(u, call, patch, key@, head)
        } else {
            keeps_and_answers(
                r,
                call.card_id,
                call.tenant_id,
                key,
                facts.kept,
                facts.loaded,
            )
        },
    }
}

/// What a request to change a card needs next.
pub open spec fn leads_update(
    r: CardStep<CardUpdate>,
    call: CardCall,
    patch: CardPatch,
    key: String,
    facts: UpdateCardFacts,
) -> bool {
    match key_state(key, facts.replay) {
        KeyView::Unknown => r == (CardStep::<CardUpdate>::FindKey {
            tenant_id: call.tenant_id,
            key: key,
        }),
        KeyView::Used(_) => answers_card(r, call.card_id, call.tenant_id, facts.loaded),
        KeyView::Fresh => updates_card(r, call, patch, key, facts),
    }
}

/// Changes a card: what to do next, given what has been learned. A key that was
/// used before answers the card as it is, and nothing is stored.
pub fn update_card(call: &CardCall, patch: &CardPatch, key: &String, facts: &UpdateCardFacts) -> (r:
    CardStep<CardUpdate>)
    ensures
        leads_update(r, *call, *patch, *key, *facts),
{
    if !key.as_str().is_empty() {
        match &facts.replay {
            None => {
                return CardStep::FindKey { tenant_id: call.tenant_id.clone(), key: key.clone() };
            },
            Some(Some(_)) => {
                return answer_card(&call.card_id, &call.tenant_id, &facts.loaded);
            },
            Some(None) => {},
        }
    }
    let head = match &facts.head {
        None => {
            return CardStep::FindCard {
                card_id: call.card_id.clone(),
                tenant_id: call.tenant_id.clone(),
            };
        },
        Some(None) => {
            return CardStep::Refuse(Status::not_found("card not found"));
        },
        Some(Some(head)) => head,
    };
    if head.revision == i64::MAX {
        return CardStep::Refuse(Status::internal("failed to update card"));
    }
    if !facts.stored {
        return CardStep::Store(card_update(call, patch, key, head));
    }
    keep_and_answer(&call.card_id, &call.tenant_id, key, facts.kept, &facts.loaded)
}

/// A patch with nothing in it changes nothing but the card's revision.
pub proof fn law_empty_patch_keeps_every_field(
    u: CardUpdate,
    call: CardCall,
    patch: CardPatch,
    key: Seq<char>,
    head: CardHead,
)
    requires
        is_card_update(u, call, patch, key, head),
        patch.title@.len() == 0,
        patch.description@.len() == 0,
        patch.priority.number == 0,
        patch.urgency.number == 0,
        patch.due is None,
        !patch.blocked,
        patch.cover@.len() == 0,
        patch.milestone_id.text@.len() == 0,
    ensures
        u.title is None,
        u.description is None,
        u.priority is None,
        u.urgency is None,
        u.due_date is None,
        !u.block,
        u.cover is None,
        u.milestone_id is None,
        u.revision == head.revision + 1,
{
}

/// A card to be deleted, with the event that reports it. All that hangs on the
/// card goes with it.
#[derive(Debug)]
pub struct CardDeletion {
    pub card_id: Id,
    pub tenant_id: String,
    pub event: EventRow,
}

/// Deletes a card: `head` is what was found of it.
pub fn delete_card(call: &CardCall, head: &Option<CardHead>) -> (r: Result<CardDeletion, Status>)
    ensures
        match (r, *head) {
            (Ok(d), Some(head)) => {
                &&& d.card_id == call.card_id
                &&& d.tenant_id == call.tenant_id
                &&& d.event.tenant_id == call.tenant_id
                &&& d.event.board_id == head.board_id
                &&& d.event.event_type@ == "CardDeleted"@
                &&& d.event.payload@ == fields().text("card_id", call.card_id@).text(
                    "board_id",
                    head.board_id@,
                ).number("prev_revision", head.revision as int).object()
            },
            (Err(e), None) => e@ == fault(Code::NotFound, "card not found"),
            _ => false,
        },
{
    match head {
        None => Err(Status::not_found("card not found")),
        Some(head) => {
            let payload = ObjectBuilder::new().put_text("card_id", &call.card_id).put_text(
                "board_id",
                &head.board_id,
            ).put_int("prev_revision", head.revision).build();
            Ok(
                CardDeletion {
                    card_id: call.card_id.clone(),
                    tenant_id: call.tenant_id.clone(),
                    event: EventRow {
                        tenant_id: call.tenant_id.clone(),
                        board_id: head.board_id.clone(),
                        event_type: "CardDeleted",
                        payload,
                    },
                },
            )
        },
    }
}

/// A request sent again with its key changes the card no further, and is
/// answered the card as it is.
pub proof fn law_used_key_changes_no_card(
    r: CardStep<CardUpdate>,
    call: CardCall,
    patch: CardPatch,
    key: String,
    facts: UpdateCardFacts,
    earlier: Id,
)
    requires
        leads_update(r, call, patch, key, facts),
        key@.len() > 0,
        facts.replay == Some(Some(earlier)),
    ensures
        !(r is Store),
        answers_card(r, call.card_id, call.tenant_id, facts.loaded),
{
}

/// A change sets each field that the patch fills to that field's own value, and
/// leaves each field that the patch leaves empty, whatever the other fields
/// hold.
pub proof fn law_each_field_is_set_from_its_own(
    r: CardStep<CardUpdate>,
    call: CardCall,
    patch: CardPatch,
    key: String,
    facts: UpdateCardFacts,
)
    requires
        leads_update(r, call, patch, key, facts),
        r is Store,
    ensures
        r->Store_0.card_id == call.card_id,
        r->Store_0.tenant_id == call.tenant_id,
        patch.title@.len() == 0 ==> r->Store_0.title is None,
        patch.title@.len() > 0 ==> r->Store_0.title == Some(patch.title),
        patch.description@.len() == 0 ==> r->Store_0.description is None,
        patch.description@.len() > 0 ==> r->Store_0.description == Some(patch.description),
        patch.cover@.len() == 0 ==> r->Store_0.cover is None,
        patch.cover@.len() > 0 ==> r->Store_0.cover == Some(patch.cover),
        patch.priority.number == 0 ==> r->Store_0.priority is None,
        patch.priority.number != 0 ==> (r->Store_0.priority matches Some(name) && name@
            == if patch.priority.number == 1 {
            "low"@
        } else if patch.priority.number == 3 {
            "high"@
        } else if patch.priority.number == 4 {
            "urgent"@
        } else {
            "medium"@
        }),
        patch.urgency.number == 0 ==> r->Store_0.urgency is None,
        patch.urgency.number != 0 ==> (r->Store_0.urgency matches Some(name) && name@
            == if patch.urgency.number == 1 {
            "low"@
        } else if patch.urgency.number == 3 {
            "high"@
        } else if patch.urgency.number == 4 {
            "critical"@
        } else {
            "medium"@
        }),
        patch.due is None ==> r->Store_0.due_date is None,
        patch.due matches Some(due) ==> (0 <= due.seconds <= 8210266876799 && 0 <= due.nanos
            < 1_000_000_000 ==> r->Store_0.due_date == Some(due)),
        r->Store_0.block == patch.blocked,
        patch.milestone_id.text@.len() == 0 ==> r->Store_0.milestone_id is None,
        patch.milestone_id.text@.len() > 0 ==> r->Store_0.milestone_id == patch.milestone_id.id,
        facts.head matches Some(Some(head)) && r->Store_0.revision == head.revision + 1,
{
}

/// Two patches that agree on a field set that field alike, whatever else they
/// hold.
pub proof fn law_fields_do_not_mix(
    a: CardUpdate,
    b: CardUpdate,
    call: CardCall,
    p: CardPatch,
    q: CardPatch,
    key: Seq<char>,
    head: CardHead,
)
    requires
        is_card_update(a, call, p, key, head),
        is_card_update(b, call, q, key, head),
    ensures
        p.title == q.title ==> a.title == b.title,
        p.description == q.description ==> a.description == b.description,
        p.cover == q.cover ==> a.cover == b.cover,
        p.due == q.due ==> a.due_date == b.due_date,
        p.blocked == q.blocked ==> a.block == b.block,
        p.milestone_id == q.milestone_id ==> a.milestone_id == b.milestone_id,
{
}

/// A change is reported on the card's board, with the revisions that it is
/// between and what the patch says of each field.
pub proof fn law_change_is_reported(
    r: CardStep<CardUpdate>,
    call: CardCall,
    patch: CardPatch,
    key: String,
    facts: UpdateCardFacts,
)
    requires
        leads_update(r, call, patch, key, facts),
        r is Store,
    ensures
        r->Store_0.event.tenant_id == call.tenant_id,
        r->Store_0.event.board_id == facts.head->Some_0->Some_0.board_id,
        r->Store_0.event.event_type@ == "CardUpdated"@,
        r->Store_0.event.payload@ matches JsonView::Object(members) && {
            &&& members.len() == 5
            &&& members[0] == ("card_id"@, JsonView::Text(call.card_id@))
            &&& members[1] == (
                "prev_revision"@,
                JsonView::Int(facts.head->Some_0->Some_0.revision as int),
            )
            &&& members[2] == ("new_revision"@, JsonView::Int(r->Store_0.revision as int))
            &&& members[3] == ("idempotency_key"@, JsonView::Text(key@))
            &&& members[4].0 == "patch"@
            &&& members[4].1 matches JsonView::Object(patched) && patched =~= seq![
                ("title"@, JsonView::Text(patch.title@)),
                ("description"@, JsonView::Text(patch.description@)),
                (
                    "priority"@,
                    match patch.priority.name {
                        Some(name) => JsonView::Text(name@),
                        None => JsonView::Int(patch.priority.number as int),
                    },
                ),
                (
                    "urgency"@,
                    match patch.urgency.name {
                        Some(name) => JsonView::Text(name@),
                        None => JsonView::Int(patch.urgency.number as int),
                    },
                ),
                ("blocked"@, JsonView::Bool(patch.blocked)),
                ("cover"@, JsonView::Text(patch.cover@)),
            ]
        },
{
}

/// A change is stored exactly where the card was found and has not run out of
/// revisions, unless an earlier request with the key was answered; once it is
/// stored the request is answered the card.
pub proof fn law_change_is_stored_when_the_card_is_there(
    r: CardStep<CardUpdate>,
    call: CardCall,
    patch: CardPatch,
    key: String,
    facts: UpdateCardFacts,
)
    requires
        leads_update(r, call, patch, key, facts),
    ensures
        r is Store <==> {
            &&& key@.len() == 0 || facts.replay == Some(None::<Id>)
            &&& facts.head matches Some(Some(head)) && head.revision < i64::MAX
            &&& !facts.stored
        },
        r is FindKey <==> key@.len() > 0 && facts.replay is None,
        r is FindCard ==> r == (CardStep::<CardUpdate>::FindCard {
            card_id: call.card_id,
            tenant_id: call.tenant_id,
        }) && facts.head is None,
        (key@.len() == 0 || facts.replay == Some(None::<Id>)) && facts.head == Some(
            None::<CardHead>,
        ) ==> refuses(r, fault(Code::NotFound, "card not found")),
        (key@.len() == 0 || facts.replay == Some(None::<Id>)) && (r is KeepKey || r is LoadCard
            || r is Answer) ==> facts.stored && keeps_and_answers(
            r,
            call.card_id,
            call.tenant_id,
            key,
            facts.kept,
            facts.loaded,
        ),
{
}

/// A request on a card needs the card that the call was authorized for and a
/// tenant, and is refused for the first that is missing.
pub proof fn law_card_request_is_refused_in_order(ctx: RequestContext)
    ensures
        card_fault(ctx) == if ctx.checked_object_id is None {
            Some(StatusView { code: Code::Internal, message: "missing CheckedObjectId extension"@ })
        } else if ctx.object() is None {
            Some(StatusView { code: Code::InvalidArgument, message: "invalid card_id"@ })
        } else if ctx.tenant() is None {
            Some(StatusView { code: Code::Unauthenticated, message: "missing tenant context"@ })
        } else {
            None
        },
{
}

} // verus!
