//! Assigning cards.
use crate::cards::touch::{at_last_revision, declines, find_card, finds_card, is_touch};
use crate::cards::touch::{revision_fault, show_result, shows_result, touch};
use crate::cards::touch::{CardChange, TouchFacts, TouchStep};
use crate::cards::update::{card_call, card_fault, CardCall};
use crate::context::RequestContext;
use crate::json::{fields, json_texts, text_list, ObjectBuilder};
use crate::status::{fault_if, first_fault, Code, Status};
use vstd::prelude::*;

verus! {

/// Checks a request to assign someone to the card that the call was authorized
/// for.
pub fn assign_card_call(ctx: &RequestContext, subject: &String) -> (r: Result<CardCall, Status>)
    ensures
        match r {
            Ok(card) => {
                &&& card_fault(*ctx) is None
                &&& subject@.len() > 0
                &&& ctx.object() == Some(card.card_id)
                &&& ctx.tenant() == Some(card.tenant_id)
            },
            Err(e) => first_fault(
                card_fault(*ctx),
                fault_if(subject@.len() == 0, Code::InvalidArgument, "subject is required"),
            ) == Some(e@),
        },
{
    let card = card_call(ctx)?;
    if subject.as_str().is_empty() {
        return Err(Status::invalid_argument("subject is required"));
    }
    Ok(card)
}

/// Assigns someone to a card: what to do next, given what has been learned.
pub fn assign_card(card: &CardCall, subject: &String, facts: &TouchFacts) -> (r: TouchStep)
    ensures
        match facts.head {
            Some(Some(head)) => if at_last_revision(facts.head) {
                declines(r, revision_fault())
            } else if !facts.stored {
                r matches TouchStep::Store(t) && t.change == (CardChange::Assign {
                    subject: *subject,
                }) && is_touch(
                    t,
                    *card,
                    head,
                    fields().with("assignees", text_list(seq![*subject])).object(),
                )
            } else {
                shows_result(r, *card, facts.loaded)
            },
            _ => finds_card(r, *card, facts.head),
        },
{
    if let Some(step) = find_card(card, &facts.head) {
        return step;
    }
    if let Some(Some(head)) = &facts.head {
        if head.revision == i64::MAX {
            return TouchStep::Refuse(Status::internal("failed to bump revision"));
        }
        if !facts.stored {
            let mut subjects: Vec<String> = Vec::new();
            subjects.push(subject.clone());
            assert(subjects@ =~= seq![*subject]);
            let patch = ObjectBuilder::new().put("assignees", json_texts(&subjects)).build();
            return TouchStep::Store(
                touch(card, head, CardChange::Assign { subject: subject.clone() }, patch),
            );
        }
    }
    show_result(card, &facts.loaded)
}

/// Takes an assignment to a card back: what to do next, given what has been
/// learned.
pub fn unassign_card(card: &CardCall, subject: &String, facts: &TouchFacts) -> (r: TouchStep)
    ensures
        match facts.head {
            Some(Some(head)) => if at_last_revision(facts.head) {
                declines(r, revision_fault())
            } else if !facts.stored {
                r matches TouchStep::Store(t) && t.change == (CardChange::Unassign {
                    subject: *subject,
                }) && is_touch(t, *card, head, fields().text("unassigned", subject@).object())
            } else {
                shows_result(r, *card, facts.loaded)
            },
            _ => finds_card(r, *card, facts.head),
        },
{
    if let Some(step) = find_card(card, &facts.head) {
        return step;
    }
    if let Some(Some(head)) = &facts.head {
        if head.revision == i64::MAX {
            return TouchStep::Refuse(Status::internal("failed to bump revision"));
        }
        if !facts.stored {
            let patch = ObjectBuilder::new().put_text("unassigned", subject).build();
            return TouchStep::Store(
                touch(card, head, CardChange::Unassign { subject: subject.clone() }, patch),
            );
        }
    }
    show_result(card, &facts.loaded)
}

} // verus!
