//! Checklists of cards.
use crate::cards::touch::{at_last_revision, declines, find_card, finds_card, is_touch};
use crate::cards::touch::{revision_fault, show_result, shows_result, touch};
use crate::cards::touch::{CardChange, TouchFacts, TouchStep};
use crate::cards::update::{card_call, card_fault, CardCall};
use crate::context::{id_fault, require_id, Id, IdArg, RequestContext};
use crate::json::{fields, ObjectBuilder};
use crate::position::{dense, end_position, full, law_append_keeps_dense};
use crate::position::{law_end_lies_behind_the_last, law_insert_keeps_dense};
use crate::position::{law_room_is_made_at_the_place, next_position, open_slot, opened, positions, same_members, Slot};
use crate::status::{fault, fault_if, first_fault, Code, Status, StatusView};
use crate::text::{if_not_empty, non_empty};
use vstd::prelude::*;

verus! {

/// Checks a request to add an item to the checklist of the card that the call
/// was authorized for.
pub fn add_checklist_item_call(ctx: &RequestContext, text: &String) -> (r: Result<CardCall, Status>)
    ensures
        match r {
            Ok(card) => {
                &&& card_fault(*ctx) is None
                &&& text@.len() > 0
                &&& ctx.object() == Some(card.card_id)
                &&& ctx.tenant() == Some(card.tenant_id)
            },
            Err(e) => first_fault(
                card_fault(*ctx),
                fault_if(text@.len() == 0, Code::InvalidArgument, "text is required"),
            ) == Some(e@),
        },
{
    let card = card_call(ctx)?;
    if text.as_str().is_empty() {
        return Err(Status::invalid_argument("text is required"));
    }
    Ok(card)
}

/// Why there is no place for an item at `position`; 0 stands for the end.
pub open spec fn item_place_fault(position: int, items: Seq<Slot>) -> Option<StatusView> {
    if position == 0 {
        fault_if(
            end_position(positions(items)) > i32::MAX,
            Code::Internal,
            "failed to insert checklist item",
        )
    } else {
        fault_if(full(items), Code::Internal, "failed to shift checklist items")
    }
}

/// `change` adds the item at `position`, or at the end where that is 0.
pub open spec fn is_item_added(
    change: CardChange,
    item_id: Id,
    text: String,
    position: int,
    items: Seq<Slot>,
) -> bool {
    &&& change matches CardChange::AddItem { item_id: id, text: t, position: at, shifted }
    &&& id == item_id
    &&& t == text
    &&& if position == 0 {
        at == end_position(positions(items)) && shifted is None
    } else {
        &&& at == position
        &&& shifted matches Some(after) && same_members(items, after@) && positions(after@)
            == opened(positions(items), position)
    }
}

fn item_added(item_id: &Id, text: &String, position: i32, items: &Vec<Slot>) -> (r: Result<
    CardChange,
    Status,
>)
    ensures
        match r {
            Ok(change) => item_place_fault(position as int, items@) is None && is_item_added(
                change,
                *item_id,
                *text,
                position as int,
                items@,
            ),
            Err(e) => item_place_fault(position as int, items@) == Some(e@),
        },
{
    let (at, shifted): (i32, Option<Vec<Slot>>) = if position == 0 {
        match next_position(items) {
            Some(end) => (end, None),
            None => {
                return Err(Status::internal("failed to insert checklist item"));
            },
        }
    } else {
        match open_slot(items, position) {
            Some(after) => (position, Some(after)),
            None => {
                return Err(Status::internal("failed to shift checklist items"));
            },
        }
    };
    Ok(CardChange::AddItem { item_id: item_id.clone(), text: text.clone(), position: at, shifted })
}

/// Adds an item to a card's checklist: what to do next, given what has been
/// learned.
pub fn add_checklist_item(
    card: &CardCall,
    item_id: &Id,
    text: &String,
    position: i32,
    facts: &TouchFacts,
) -> (r: TouchStep)
    ensures
        match (facts.head, facts.items) {
            (Some(Some(_)), None) => r == (TouchStep::LoadItems {
                card_id: card.card_id,
                tenant_id: card.tenant_id,
            }),
            (Some(Some(head)), Some(items)) => if item_place_fault(
                position as int,
                items@,
            ) is Some {
                declines(r, item_place_fault(position as int, items@)->Some_0)
            } else if at_last_revision(facts.head) {
                declines(r, revision_fault())
            } else if !facts.stored {
                r matches TouchStep::Store(t) && is_item_added(
                    t.change,
                    *item_id,
                    *text,
                    position as int,
                    items@,
                ) && is_touch(
                    t,
                    *card,
                    head,
                    fields().text("checklist_item_added", item_id@).object(),
                )
            } else {
                shows_result(r, *card, facts.loaded)
            },
            _ => finds_card(r, *card, facts.head),
        },
{
    if let Some(step) = find_card(card, &facts.head) {
        return step;
    }
    let items = match &facts.items {
        None => {
            return TouchStep::LoadItems {
                card_id: card.card_id.clone(),
                tenant_id: card.tenant_id.clone(),
            };
        },
        Some(items) => items,
    };
    let change = match item_added(item_id, text, position, items) {
        Ok(change) => change,
        Err(e) => {
            return TouchStep::Refuse(e);
        },
    };
    if let Some(Some(head)) = &facts.head {
        if head.revision == i64::MAX {
            return TouchStep::Refuse(Status::internal("failed to bump revision"));
        }
        if !facts.stored {
            let patch = ObjectBuilder::new().put_text("checklist_item_added", item_id).build();
            return TouchStep::Store(touch(card, head, change, patch));
        }
    }
    show_result(card, &facts.loaded)
}

/// An item added at a place of a dense checklist, or at its end, leaves the
/// checklist dense.
pub proof fn law_added_item_keeps_checklist_dense(
    change: CardChange,
    item_id: Id,
    text: String,
    position: int,
    items: Seq<Slot>,
)
    requires
        is_item_added(change, item_id, text, position, items),
        dense(positions(items)),
        0 <= position <= items.len(),
    ensures
        dense(
            match change->AddItem_shifted {
                Some(after) => positions(after@),
                None => positions(items),
            }.push(change->AddItem_position as int),
        ),
{
    law_append_keeps_dense(positions(items));
    law_insert_keeps_dense(positions(items), position);
}

/// An item of a card that may be acted on.
#[derive(Debug)]
pub struct ItemCall {
    pub card: CardCall,
    pub item_id: Id,
}

/// Checks a request to change or remove an item of the card that the call was
/// authorized for.
pub fn checklist_item_call(ctx: &RequestContext, item_id: &IdArg) -> (r: Result<ItemCall, Status>)
    ensures
        match r {
            Ok(call) => {
                &&& card_fault(*ctx) is None
                &&& ctx.object() == Some(call.card.card_id)
                &&& ctx.tenant() == Some(call.card.tenant_id)
                &&& item_id.id == Some(call.item_id)
            },
            Err(e) => first_fault(card_fault(*ctx), id_fault(*item_id, "invalid item_id")) == Some(
                e@,
            ),
        },
{
    let card = card_call(ctx)?;
    let item_id = require_id(item_id, "invalid item_id")?;
    Ok(ItemCall { card, item_id })
}

/// The refusal of an item that is not on the card.
pub open spec fn no_item_fault() -> StatusView {
    fault(Code::NotFound, "checklist item not found on this card")
}

/// `r` looks for the item on the card.
pub open spec fn finds_item(r: TouchStep, call: ItemCall) -> bool {
    r == (TouchStep::FindItem {
        item_id: call.item_id,
        card_id: call.card.card_id,
        tenant_id: call.card.tenant_id,
    })
}

fn find_item(call: &ItemCall) -> (r: TouchStep)
    ensures
        finds_item(r, *call),
{
    TouchStep::FindItem {
        item_id: call.item_id.clone(),
        card_id: call.card.card_id.clone(),
        tenant_id: call.card.tenant_id.clone(),
    }
}

/// Changes an item of a checklist: what to do next, given what has been
/// learned. An empty text leaves the text as it is.
pub fn update_checklist_item(call: &ItemCall, text: &String, done: bool, facts: &TouchFacts) -> (r:
    TouchStep)
    ensures
        match (facts.head, facts.item) {
            (Some(Some(_)), None) => finds_item(r, *call),
            (Some(Some(_)), Some(false)) => declines(r, no_item_fault()),
            (Some(Some(head)), Some(true)) => if at_last_revision(facts.head) {
                declines(r, revision_fault())
            } else if !facts.stored {
                r matches TouchStep::Store(t) && t.change == (CardChange::UpdateItem {
                    item_id: call.item_id,
                    text: non_empty(*text),
                    done,
                }) && is_touch(
                    t,
                    call.card,
                    head,
                    fields().text("checklist_item_updated", call.item_id@).object(),
                )
            } else {
                shows_result(r, call.card, facts.loaded)
            },
            _ => finds_card(r, call.card, facts.head),
        },
{
    if let Some(step) = find_card(&call.card, &facts.head) {
        return step;
    }
    match facts.item {
        None => {
            return find_item(call);
        },
        Some(false) => {
            return TouchStep::Refuse(Status::not_found("checklist item not found on this card"));
        },
        Some(true) => {},
    }
    if let Some(Some(head)) = &facts.head {
        if head.revision == i64::MAX {
            return TouchStep::Refuse(Status::internal("failed to bump revision"));
        }
        if !facts.stored {
            let patch = ObjectBuilder::new().put_text(
                "checklist_item_updated",
                &call.item_id,
            ).build();
            let change = CardChange::UpdateItem {
                item_id: call.item_id.clone(),
                text: if_not_empty(text),
                done,
            };
            return TouchStep::Store(touch(&call.card, head, change, patch));
        }
    }
    show_result(&call.card, &facts.loaded)
}

/// Removes an item of a checklist: what to do next, given what has been
/// learned.
pub fn remove_checklist_item(call: &ItemCall, facts: &TouchFacts) -> (r: TouchStep)
    ensures
        match (facts.head, facts.item) {
            (Some(Some(_)), None) => finds_item(r, *call),
            (Some(Some(_)), Some(false)) => declines(r, no_item_fault()),
            (Some(Some(head)), Some(true)) => if at_last_revision(facts.head) {
                declines(r, revision_fault())
            } else if !facts.stored {
                r matches TouchStep::Store(t) && t.change == (CardChange::RemoveItem {
                    item_id: call.item_id,
                }) && is_touch(
                    t,
                    call.card,
                    head,
                    fields().text("checklist_item_removed", call.item_id@).object(),
                )
            } else {
                r is Done
            },
            _ => finds_card(r, call.card, facts.head),
        },
{
    if let Some(step) = find_card(&call.card, &facts.head) {
        return step;
    }
    match facts.item {
        None => {
            return find_item(call);
        },
        Some(false) => {
            return TouchStep::Refuse(Status::not_found("checklist item not found on this card"));
        },
        Some(true) => {},
    }
    if let Some(Some(head)) = &facts.head {
        if head.revision == i64::MAX {
            return TouchStep::Refuse(Status::internal("failed to bump revision"));
        }
        if !facts.stored {
            let patch = ObjectBuilder::new().put_text(
                "checklist_item_removed",
                &call.item_id,
            ).build();
            let change = CardChange::RemoveItem { item_id: call.item_id.clone() };
            return TouchStep::Store(touch(&call.card, head, change, patch));
        }
    }
    TouchStep::Done
}

/// An item that is added with a position stands at exactly that position: the
/// items in front of it stay where they are, and all others move on by one. One
/// that is added without a position stands right behind the last, at 0 in an
/// empty checklist, and no other item moves.
pub proof fn law_added_item_stands_where_asked(
    change: CardChange,
    item_id: Id,
    text: String,
    position: int,
    items: Seq<Slot>,
    i: int,
)
    requires
        is_item_added(change, item_id, text, position, items),
    ensures
        change is AddItem,
        change->AddItem_item_id == item_id,
        change->AddItem_text == text,
        position != 0 ==> {
            &&& change->AddItem_position == position
            &&& change->AddItem_shifted matches Some(after) && after.len() == items.len() && (0
                <= i < items.len() ==> {
                &&& after[i].id == items[i].id
                &&& items[i].position < position ==> after[i].position == items[i].position
                &&& items[i].position >= position ==> after[i].position == items[i].position + 1
            })
        },
        position == 0 ==> {
            &&& change->AddItem_shifted is None
            &&& items.len() == 0 ==> change->AddItem_position == 0
            &&& forall|k: int|
                0 <= k < items.len() ==> (#[trigger] items[k]).position
                    < change->AddItem_position
            &&& items.len() > 0 ==> exists|k: int|
                0 <= k < items.len() && (#[trigger] items[k]).position + 1
                    == change->AddItem_position
        },
{
    law_end_lies_behind_the_last(items);
    if position != 0 {
        law_room_is_made_at_the_place(items, change->AddItem_shifted->Some_0@, position);
    }
}

/// An item can be added exactly where no item stands at the last position.
pub proof fn law_item_is_added_while_there_is_room(position: int, items: Seq<Slot>)
    ensures
        item_place_fault(position, items) is None <==> forall|i: int|
            0 <= i < items.len() ==> (#[trigger] items[i]).position < i32::MAX,
        item_place_fault(position, items) matches Some(f) ==> f.code == Code::Internal && f.message
            == if position == 0 {
            "failed to insert checklist item"@
        } else {
            "failed to shift checklist items"@
        },
{
    law_end_lies_behind_the_last(items);
    if full(items) {
        let k = choose|k: int| 0 <= k < items.len() && (#[trigger] items[k]).position == i32::MAX;
        assert(items[k].position < end_position(positions(items)));
    } else if items.len() > 0 {
        let k = choose|k: int|
            0 <= k < items.len() && (#[trigger] items[k]).position + 1 == end_position(
                positions(items),
            );
        assert(items[k].position < i32::MAX);
    }
}

/// An item is looked for on the card that the call was authorized for.
pub proof fn law_item_is_looked_for_on_the_card(r: TouchStep, call: ItemCall)
    ensures
        finds_item(r, call) <==> r == (TouchStep::FindItem {
            item_id: call.item_id,
            card_id: call.card.card_id,
            tenant_id: call.card.tenant_id,
        }),
        no_item_fault() == (StatusView {
            code: Code::NotFound,
            message: "checklist item not found on this card"@,
        }),
{
}

} // verus!
