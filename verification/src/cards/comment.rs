//! Comments on cards.
use crate::cards::model::{comment_from_row, shows_comment, Comment, CommentRow};
use crate::cards::step::CardHead;
use crate::cards::touch::{at_last_revision, declines, find_card, finds_card, is_touch};
use crate::cards::touch::{revision_fault, touch, touch_payload};
use crate::cards::touch::{CardChange, CardTouch, TouchFacts, TouchStep};
use crate::cards::update::CardCall;
use crate::context::{checked_id, id_fault, object_fault, require_id, subject_fault};
use crate::context::{subject_from_request, tenant_fault, tenant_id_from_request};
use crate::context::{Id, IdArg, RequestContext};
use crate::event::EventRow;
use crate::json::{fields, Json, JsonView, ObjectBuilder};
use crate::status::{fault, fault_if, first_of3, first_of4, first_of5, Code, Status, StatusView};
use vstd::prelude::*;

verus! {

/// A comment of a card that may be acted on, and who acts.
#[derive(Debug)]
pub struct CommentCall {
    pub card: CardCall,
    pub subject: String,
    pub comment_id: Id,
}

/// Why a request of a caller on a card is refused before anything is looked up.
pub open spec fn caller_fault(ctx: RequestContext) -> Option<StatusView> {
    first_of3(object_fault(ctx, "invalid card_id"), subject_fault(ctx), tenant_fault(ctx))
}

/// Why a request to delete a comment is refused before anything is looked up.
pub open spec fn comment_fault(ctx: RequestContext, comment_id: IdArg) -> Option<StatusView> {
    first_of4(
        object_fault(ctx, "invalid card_id"),
        subject_fault(ctx),
        tenant_fault(ctx),
        id_fault(comment_id, "invalid comment_id"),
    )
}

/// `call` names the caller and the comment, on the card that the call was
/// authorized for.
pub open spec fn is_comment_call(
    call: CommentCall,
    ctx: RequestContext,
    comment_id: IdArg,
) -> bool {
    &&& ctx.object() == Some(call.card.card_id)
    &&& ctx.tenant() == Some(call.card.tenant_id)
    &&& ctx.subject() == Some(call.subject)
    &&& comment_id.id == Some(call.comment_id)
}

/// Checks a request to delete a comment.
pub fn delete_comment_call(ctx: &RequestContext, comment_id: &IdArg) -> (r: Result<
    CommentCall,
    Status,
>)
    ensures
        match r {
            Ok(call) => comment_fault(*ctx, *comment_id) is None && is_comment_call(
                call,
                *ctx,
                *comment_id,
            ),
            Err(e) => comment_fault(*ctx, *comment_id) == Some(e@),
        },
{
    let card_id = checked_id(ctx, "invalid card_id")?;
    let subject = subject_from_request(ctx)?;
    let tenant_id = tenant_id_from_request(ctx)?;
    let comment_id = require_id(comment_id, "invalid comment_id")?;
    Ok(CommentCall { card: CardCall { card_id, tenant_id }, subject, comment_id })
}

/// Checks a request to edit a comment.
pub fn edit_comment_call(ctx: &RequestContext, comment_id: &IdArg, body: &String) -> (r: Result<
    CommentCall,
    Status,
>)
    ensures
        match r {
            Ok(call) => {
                &&& comment_fault(*ctx, *comment_id) is None
                &&& body@.len() > 0
                &&& is_comment_call(call, *ctx, *comment_id)
            },
            Err(e) => first_of5(
                object_fault(*ctx, "invalid card_id"),
                subject_fault(*ctx),
                tenant_fault(*ctx),
                id_fault(*comment_id, "invalid comment_id"),
                fault_if(body@.len() == 0, Code::InvalidArgument, "body is required"),
            ) == Some(e@),
        },
{
    let call = delete_comment_call(ctx, comment_id)?;
    if body.as_str().is_empty() {
        return Err(Status::invalid_argument("body is required"));
    }
    Ok(call)
}

/// `r` looks for the comment on the card.
pub open spec fn finds_comment(r: TouchStep, call: CommentCall) -> bool {
    r == (TouchStep::FindComment {
        comment_id: call.comment_id,
        card_id: call.card.card_id,
        tenant_id: call.card.tenant_id,
    })
}

fn find_comment(call: &CommentCall) -> (r: TouchStep)
    ensures
        finds_comment(r, *call),
{
    TouchStep::FindComment {
        comment_id: call.comment_id.clone(),
        card_id: call.card.card_id.clone(),
        tenant_id: call.card.tenant_id.clone(),
    }
}

/// `r` reads the comment to answer, or answers it.
pub open spec fn shows_written(
    r: TouchStep,
    comment_id: Id,
    tenant_id: String,
    written: Option<CommentRow>,
) -> bool {
    match written {
        None => r == (TouchStep::LoadComment { comment_id, tenant_id }),
        Some(row) => r matches TouchStep::AnswerComment(c) && shows_comment(c, row),
    }
}

fn show_written(comment_id: &Id, tenant_id: &String, written: &Option<CommentRow>) -> (r: TouchStep)
    ensures
        shows_written(r, *comment_id, *tenant_id, *written),
{
    match written {
        None => TouchStep::LoadComment {
            comment_id: comment_id.clone(),
            tenant_id: tenant_id.clone(),
        },
        Some(row) => TouchStep::AnswerComment(comment_from_row(row)),
    }
}

/// The comment was found, and the caller wrote it.
pub open spec fn is_own(comment: Option<CommentRow>, subject: String) -> bool {
    comment matches Some(row) && row.author_sub@ == subject@
}

/// What a request to edit a comment needs next.
pub open spec fn edits_comment(r: TouchStep, call: CommentCall, body: String, facts: TouchFacts) -> bool {
    match (facts.head, facts.comment) {
        (Some(Some(_)), None) => finds_comment(r, call),
        (Some(Some(head)), Some(comment)) => if !is_own(comment, call.subject) {
            declines(
                r,
                fault(Code::PermissionDenied, "comment not found or not authored by you"),
            )
        } else if at_last_revision(facts.head) {
            declines(r, revision_fault())
        } else if !facts.stored {
            r matches TouchStep::Store(t) && t.change == (CardChange::EditComment {
                comment_id: call.comment_id,
                body: body,
            }) && is_touch(
                t,
                call.card,
                head,
                fields().text("comment_edited", call.comment_id@).object(),
            )
        } else {
            shows_written(r, call.comment_id, call.card.tenant_id, facts.written)
        },
        _ => finds_card(r, call.card, facts.head),
    }
}

/// Edits a comment: what to do next, given what has been learned. Only its
/// author may.
pub fn edit_comment(call: &CommentCall, body: &String, facts: &TouchFacts) -> (r: TouchStep)
    ensures
        edits_comment(r, *call, *body, *facts),
{
    if let Some(step) = find_card(&call.card, &facts.head) {
        return step;
    }
    match &facts.comment {
        None => {
            return find_comment(call);
        },
        Some(Some(row)) if row.author_sub == call.subject => {},
        _ => {
            return TouchStep::Refuse(
                Status::permission_denied("comment not found or not authored by you"),
            );
        },
    }
    if let Some(Some(head)) = &facts.head {
        if head.revision == i64::MAX {
            return TouchStep::Refuse(Status::internal("failed to bump revision"));
        }
        if !facts.stored {
            let patch = ObjectBuilder::new().put_text("comment_edited", &call.comment_id).build();
            let change = CardChange::EditComment {
                comment_id: call.comment_id.clone(),
                body: body.clone(),
            };
            return TouchStep::Store(touch(&call.card, head, change, patch));
        }
    }
    show_written(&call.comment_id, &call.card.tenant_id, &facts.written)
}

/// Deletes a comment: what to do next, given what has been learned. Its author
/// may, and so may whoever may edit the card, which everyone who gets here may.
pub fn delete_comment(call: &CommentCall, facts: &TouchFacts) -> (r: TouchStep)
    ensures
        match (facts.head, facts.comment) {
            (Some(Some(_)), None) => finds_comment(r, *call),
            (Some(Some(_)), Some(None)) => declines(
                r,
                fault(Code::NotFound, "comment not found on this card"),
            ),
            (Some(Some(head)), Some(Some(_))) => if at_last_revision(facts.head) {
                declines(r, revision_fault())
            } else if !facts.stored {
                r matches TouchStep::Store(t) && t.change == (CardChange::DeleteComment {
                    comment_id: call.comment_id,
                }) && is_touch(
                    t,
                    call.card,
                    head,
                    fields().text("comment_deleted", call.comment_id@).object(),
                )
            } else {
                r is Done
            },
            _ => finds_card(r, call.card, facts.head),
        },
{
    if let Some(step) = find_card(&call.card, &facts.head) {
        return step;
    }
    match &facts.comment {
        None => {
            return find_comment(call);
        },
        Some(None) => {
            return TouchStep::Refuse(Status::not_found("comment not found on this card"));
        },
        Some(Some(_)) => {},
    }
    if let Some(Some(head)) = &facts.head {
        if head.revision == i64::MAX {
            return TouchStep::Refuse(Status::internal("failed to bump revision"));
        }
        if !facts.stored {
            let patch = ObjectBuilder::new().put_text("comment_deleted", &call.comment_id).build();
            let change = CardChange::DeleteComment { comment_id: call.comment_id.clone() };
            return TouchStep::Store(touch(&call.card, head, change, patch));
        }
    }
    TouchStep::Done
}

/// A request to comment on a card that may go ahead.
#[derive(Debug)]
pub struct AddCommentCall {
    pub card: CardCall,
    pub subject: String,
    pub body: String,
    pub idempotency_key: String,
}

/// Checks a request to comment on the card that the call was authorized for.
pub fn add_comment_call(ctx: &RequestContext, body: String, idempotency_key: String) -> (r: Result<
    AddCommentCall,
    Status,
>)
    ensures
        match r {
            Ok(call) => {
                &&& caller_fault(*ctx) is None
                &&& body@.len() > 0
                &&& ctx.object() == Some(call.card.card_id)
                &&& ctx.tenant() == Some(call.card.tenant_id)
                &&& ctx.subject() == Some(call.subject)
                &&& call.body == body
                &&& call.idempotency_key == idempotency_key
            },
            Err(e) => first_of4(
                object_fault(*ctx, "invalid card_id"),
                subject_fault(*ctx),
                tenant_fault(*ctx),
                fault_if(body@.len() == 0, Code::InvalidArgument, "body is required"),
            ) == Some(e@),
        },
{
    let card_id = checked_id(ctx, "invalid card_id")?;
    let subject = subject_from_request(ctx)?;
    let tenant_id = tenant_id_from_request(ctx)?;
    if body.as_str().is_empty() {
        return Err(Status::invalid_argument("body is required"));
    }
    Ok(AddCommentCall { card: CardCall { card_id, tenant_id }, subject, body, idempotency_key })
}

/// What has been learned for a request to comment.
#[derive(Debug)]
pub struct AddCommentFacts {
    /// What was kept for an earlier request with the key.
    pub replay: Option<Option<Json>>,
    /// The comment that was kept, once it was looked for.
    pub cached: Option<Option<CommentRow>>,
    /// The card, once it was looked for.
    pub head: Option<Option<CardHead>>,
    /// The comment was stored.
    pub stored: bool,
    /// The key was kept.
    pub kept: bool,
    /// The comment to answer.
    pub written: Option<CommentRow>,
}

/// What a request to comment needs next.
#[derive(Debug)]
pub enum AddCommentStep {
    /// Look for what was kept for an earlier request with the key.
    FindKey { tenant_id: String, key: String },
    /// Look for the comment that was kept, where its text is an identifier.
    FindCached { comment_id: String, tenant_id: String },
    /// Look for the card, and keep others from changing it.
    FindCard { card_id: Id, tenant_id: String },
    /// Store everything in it together.
    Store(CardTouch),
    /// Keep the key with what is to be found for it.
    KeepKey { tenant_id: String, key: String, payload: Json },
    /// Read the comment to answer.
    LoadComment { comment_id: Id, tenant_id: String },
    Answer(Comment),
    Refuse(Status),
}

/// The comment that was kept for the key.
pub open spec fn kept_comment(replay: Option<Json>) -> Option<Seq<char>> {
    match replay {
        Some(v) => v@.text_member("comment_id"@),
        None => None,
    }
}

/// `t` stores the comment, takes the card to its next revision and reports it.
pub open spec fn is_comment_added(
    t: CardTouch,
    call: AddCommentCall,
    comment_id: Id,
    head: CardHead,
) -> bool {
    &&& t.card_id == call.card.card_id
    &&& t.tenant_id == call.card.tenant_id
    &&& t.change == (CardChange::AddComment {
        comment_id,
        author_sub: call.subject,
        body: call.body,
    })
    &&& t.revision == head.revision + 1
    &&& t.event.tenant_id == call.card.tenant_id
    &&& t.event.board_id == head.board_id
    &&& t.event.event_type@ == "CardUpdated"@
    &&& t.event.payload@ == touch_payload(
        call.card.card_id@,
        head.revision as int,
        fields().text("comments_count", "+1"@).object(),
    ).text("idempotency_key", call.idempotency_key@).object()
}

fn comment_added(call: &AddCommentCall, comment_id: &Id, head: &CardHead) -> (r: CardTouch)
    requires
        head.revision < i64::MAX,
    ensures
        is_comment_added(r, *call, *comment_id, *head),
{
    let revision: i64 = head.revision + 1;
    let patch = ObjectBuilder::new().put_text("comments_count", &"+1".to_owned()).build();
    let payload = ObjectBuilder::new().put_text("card_id", &call.card.card_id).put_int(
        "prev_revision",
        head.revision,
    ).put_int("new_revision", revision).put("patch", patch).put_text(
        "idempotency_key",
        &call.idempotency_key,
    ).build();
    CardTouch {
        card_id: call.card.card_id.clone(),
        tenant_id: call.card.tenant_id.clone(),
        change: CardChange::AddComment {
            comment_id: comment_id.clone(),
            author_sub: call.subject.clone(),
            body: call.body.clone(),
        },
        revision,
        event: EventRow {
            tenant_id: call.card.tenant_id.clone(),
            board_id: head.board_id.clone(),
            event_type: "CardUpdated",
            payload,
        },
    }
}

/// What a request that no earlier comment answers needs next.
pub open spec fn adds_comment(
    r: AddCommentStep,
    call: AddCommentCall,
    comment_id: Id,
    facts: AddCommentFacts,
) -> bool {
    let tenant_id = call.card.tenant_id;
    match facts.head {
        None => r == (AddCommentStep::FindCard { card_id: call.card.card_id, tenant_id }),
        Some(None) => r matches AddCommentStep::Refuse(e) && e@ == fault(
            Code::NotFound,
            "card not found",
        ),
        Some(Some(head)) => if head.revision == i64::MAX {
            r matches AddCommentStep::Refuse(e) && e@ == revision_fault()
        } else if !facts.stored {
            r matches AddCommentStep::Store(t) && is_comment_added(t, call, comment_id, head)
        } else if call.idempotency_key@.len() > 0 && !facts.kept {
            r matches AddCommentStep::KeepKey { tenant_id: t, key, payload } && t == tenant_id
                && key == call.idempotency_key && payload@ == fields().text(
                "comment_id",
                comment_id@,
            ).object()
        } else {
            match facts.written {
                None => r == (AddCommentStep::LoadComment { comment_id, tenant_id }),
                Some(row) => r matches AddCommentStep::Answer(c) && shows_comment(c, row),
            }
        },
    }
}

/// What a request to comment needs next.
pub open spec fn leads_comment(
    r: AddCommentStep,
    call: AddCommentCall,
    comment_id: Id,
    facts: AddCommentFacts,
) -> bool {
    if call.idempotency_key@.len() == 0 {
        adds_comment(r, call, comment_id, facts)
    } else {
        match (facts.replay, facts.cached) {
            (None, _) => r == (AddCommentStep::FindKey {
                tenant_id: call.card.tenant_id,
                key: call.idempotency_key,
            }),
            (Some(replay), cached) => match (kept_comment(replay), cached) {
                (None, _) => adds_comment(r, call, comment_id, facts),
                (Some(text), None) => r matches AddCommentStep::FindCached {
                    comment_id: id,
                    tenant_id,
                } && id@ == text && tenant_id == call.card.tenant_id,
                (Some(_), Some(Some(row))) => r matches AddCommentStep::Answer(c)
                    && shows_comment(c, row),
                (Some(_), Some(None)) => adds_comment(r, call, comment_id, facts),
            },
        }
    }
}

/// Comments on a card: what to do next, given what has been learned. Where the
/// key was used before and its comment is still there, that comment is answered
/// and nothing is stored.
pub fn add_comment(call: &AddCommentCall, comment_id: &Id, facts: &AddCommentFacts) -> (r:
    AddCommentStep)
    ensures
        leads_comment(r, *call, *comment_id, *facts),
{
    let has_key = !call.idempotency_key.as_str().is_empty();
    if has_key {
        let replay = match &facts.replay {
            None => {
                return AddCommentStep::FindKey {
                    tenant_id: call.card.tenant_id.clone(),
                    key: call.idempotency_key.clone(),
                };
            },
            Some(replay) => replay,
        };
        if let Some(v) = replay {
            if let Some(text) = v.get_text("comment_id") {
                match &facts.cached {
                    None => {
                        return AddCommentStep::FindCached {
                            comment_id: text,
                            tenant_id: call.card.tenant_id.clone(),
                        };
                    },
                    Some(Some(row)) => {
                        return AddCommentStep::Answer(comment_from_row(row));
                    },
                    Some(None) => {},
                }
            }
        }
    }
    let head = match &facts.head {
        None => {
            return AddCommentStep::FindCard {
                card_id: call.card.card_id.clone(),
                tenant_id: call.card.tenant_id.clone(),
            };
        },
        Some(None) => {
            return AddCommentStep::Refuse(Status::not_found("card not found"));
        },
        Some(Some(head)) => head,
    };
    if head.revision == i64::MAX {
        return AddCommentStep::Refuse(Status::internal("failed to bump revision"));
    }
    if !facts.stored {
        return AddCommentStep::Store(comment_added(call, comment_id, head));
    }
    if has_key && !facts.kept {
        return AddCommentStep::KeepKey {
            tenant_id: call.card.tenant_id.clone(),
            key: call.idempotency_key.clone(),
            payload: ObjectBuilder::new().put_text("comment_id", comment_id).build(),
        };
    }
    match &facts.written {
        None => AddCommentStep::LoadComment {
            comment_id: comment_id.clone(),
            tenant_id: call.card.tenant_id.clone(),
        },
        Some(row) => AddCommentStep::Answer(comment_from_row(row)),
    }
}

/// What is kept for a key leads back to its comment.
pub proof fn law_kept_key_names_its_comment(payload: Json, comment_id: Id)
    requires
        payload@ == fields().text("comment_id", comment_id@).object(),
    ensures
        kept_comment(Some(payload)) == Some(comment_id@),
{
    reveal_with_fuel(crate::json::lookup, 2);
}

/// A request sent twice adds one comment: as long as the comment that the first
/// one added is there, the second one is answered that comment.
pub proof fn law_repeat_answers_the_first_comment(
    first: AddCommentStep,
    call: AddCommentCall,
    comment_id: Id,
    facts: AddCommentFacts,
    again: AddCommentStep,
    repeat: AddCommentCall,
    other_id: Id,
    learned: AddCommentFacts,
)
    requires
        leads_comment(first, call, comment_id, facts),
        first is KeepKey,
        leads_comment(again, repeat, other_id, learned),
        repeat.card.tenant_id == call.card.tenant_id,
        repeat.idempotency_key == call.idempotency_key,
        learned.replay == Some(Some(first->KeepKey_payload)),
        learned.cached != Some(None::<CommentRow>),
    ensures
        !(again is Store),
        match learned.cached {
            Some(Some(row)) => again matches AddCommentStep::Answer(c) && shows_comment(c, row),
            _ => again matches AddCommentStep::FindCached { comment_id: id, tenant_id } && id@
                == comment_id@ && tenant_id == call.card.tenant_id,
        },
{
    law_kept_key_names_its_comment(first->KeepKey_payload, comment_id);
}

/// Only the author of a comment edits it.
pub proof fn law_only_the_author_edits(
    r: TouchStep,
    call: CommentCall,
    body: String,
    facts: TouchFacts,
)
    requires
        edits_comment(r, call, body, facts),
        r is Store,
    ensures
        facts.comment matches Some(Some(row)) && row.author_sub@ == call.subject@,
{
}

/// A request on a comment names the card that the call was authorized for, the
/// caller, the tenant and the comment, and is refused where one is missing, in
/// this order.
pub proof fn law_comment_request_names_card_and_caller(
    ctx: RequestContext,
    comment_id: IdArg,
    call: CommentCall,
)
    ensures
        is_comment_call(call, ctx, comment_id) <==> {
            &&& ctx.object() == Some(call.card.card_id)
            &&& ctx.tenant() == Some(call.card.tenant_id)
            &&& ctx.subject() == Some(call.subject)
            &&& comment_id.id == Some(call.comment_id)
        },
        caller_fault(ctx) is None <==> ctx.object() is Some && ctx.subject() is Some
            && ctx.tenant() is Some,
        comment_fault(ctx, comment_id) is None <==> caller_fault(ctx) is None && comment_id.id is Some,
        caller_fault(ctx) is Some ==> comment_fault(ctx, comment_id) == caller_fault(ctx),
        caller_fault(ctx) is None && comment_id.id is None ==> comment_fault(ctx, comment_id)
            == Some(StatusView { code: Code::InvalidArgument, message: "invalid comment_id"@ }),
        ctx.object() is None ==> caller_fault(ctx) == object_fault(ctx, "invalid card_id"),
        ctx.object() is Some && ctx.subject() is None ==> caller_fault(ctx) == subject_fault(ctx),
        ctx.object() is Some && ctx.subject() is Some ==> caller_fault(ctx) == tenant_fault(ctx),
{
}

/// A comment is edited exactly where it is on the card and the caller wrote it:
/// the comment that the request names gets the body that it names, whatever the
/// comment said before.
pub proof fn law_edited_comment_gets_the_body(
    r: TouchStep,
    call: CommentCall,
    body: String,
    facts: TouchFacts,
    head: CardHead,
)
    requires
        edits_comment(r, call, body, facts),
        facts.head == Some(Some(head)),
    ensures
        r is Store <==> {
            &&& facts.comment matches Some(Some(row)) && row.author_sub@ == call.subject@
            &&& head.revision < i64::MAX
            &&& !facts.stored
        },
        r is Store ==> {
            let t = r->Store_0;
            &&& t.change == (CardChange::EditComment { comment_id: call.comment_id, body })
            &&& is_touch(
                t,
                call.card,
                head,
                JsonView::Object(seq![("comment_edited"@, JsonView::Text(call.comment_id@))]),
            )
        },
        facts.comment is None ==> r == (TouchStep::FindComment {
            comment_id: call.comment_id,
            card_id: call.card.card_id,
            tenant_id: call.card.tenant_id,
        }),
        facts.comment is Some && !(facts.comment matches Some(Some(row)) && row.author_sub@
            == call.subject@) ==> (r matches TouchStep::Refuse(e) && e.code
            == Code::PermissionDenied && e.message@ == "comment not found or not authored by you"@),
        r matches TouchStep::LoadComment { comment_id, tenant_id } ==> facts.stored && comment_id
            == call.comment_id && tenant_id == call.card.tenant_id,
        r matches TouchStep::AnswerComment(c) ==> facts.stored && facts.written is Some
            && shows_comment(c, facts.written->Some_0),
{
    assert(fields().text("comment_edited", call.comment_id@).list =~= seq![
        ("comment_edited"@, JsonView::Text(call.comment_id@)),
    ]);
}

/// A comment is looked for on the card that the call was authorized for, and
/// answered as it is stored.
pub proof fn law_comment_is_looked_for_on_the_card(
    r: TouchStep,
    call: CommentCall,
    written: Option<CommentRow>,
    row: CommentRow,
)
    ensures
        finds_comment(r, call) <==> r == (TouchStep::FindComment {
            comment_id: call.comment_id,
            card_id: call.card.card_id,
            tenant_id: call.card.tenant_id,
        }),
        is_own(Some(row), call.subject) <==> row.author_sub@ == call.subject@,
        !is_own(None, call.subject),
        shows_written(r, call.comment_id, call.card.tenant_id, None) <==> r == (
        TouchStep::LoadComment { comment_id: call.comment_id, tenant_id: call.card.tenant_id }),
        shows_written(r, call.comment_id, call.card.tenant_id, Some(row)) <==> (
        r matches TouchStep::AnswerComment(c) && shows_comment(c, row)),
{
}

/// A comment that is added is the caller's, on the card that the call was
/// authorized for, with the body that was sent, and is one revision of the card.
pub proof fn law_added_comment_is_the_callers(
    r: AddCommentStep,
    call: AddCommentCall,
    comment_id: Id,
    facts: AddCommentFacts,
)
    requires
        leads_comment(r, call, comment_id, facts),
        r is Store,
    ensures
        r->Store_0.card_id == call.card.card_id,
        r->Store_0.tenant_id == call.card.tenant_id,
        r->Store_0.change == (CardChange::AddComment {
            comment_id,
            author_sub: call.subject,
            body: call.body,
        }),
        facts.head matches Some(Some(head)) && r->Store_0.revision == head.revision + 1,
        r->Store_0.event.tenant_id == call.card.tenant_id,
        r->Store_0.event.board_id == facts.head->Some_0->Some_0.board_id,
        r->Store_0.event.event_type@ == "CardUpdated"@,
        r->Store_0.event.payload@ matches JsonView::Object(members) && {
            &&& members.len() == 5
            &&& members[0] == ("card_id"@, JsonView::Text(call.card.card_id@))
            &&& members[1] == (
                "prev_revision"@,
                JsonView::Int(facts.head->Some_0->Some_0.revision as int),
            )
            &&& members[2] == ("new_revision"@, JsonView::Int(r->Store_0.revision as int))
            &&& members[3].0 == "patch"@
            &&& members[3].1 matches JsonView::Object(patch) && patch =~= seq![
                ("comments_count"@, JsonView::Text("+1"@)),
            ]
            &&& members[4] == ("idempotency_key"@, JsonView::Text(call.idempotency_key@))
        },
{
}

/// A comment is added exactly where the card is there and has not run out of
/// revisions, unless the comment of an earlier request with the key is there
/// still. Once it is stored, the key is kept with the comment, and the comment
/// is answered.
pub proof fn law_comment_is_added_when_the_card_is_there(
    r: AddCommentStep,
    call: AddCommentCall,
    comment_id: Id,
    facts: AddCommentFacts,
)
    requires
        leads_comment(r, call, comment_id, facts),
    ensures
        r is Store <==> {
            &&& {
                ||| call.idempotency_key@.len() == 0
                ||| facts.replay == Some(None::<Json>)
                ||| (facts.replay matches Some(Some(v)) && (v@.text_member("comment_id"@) is None
                    || facts.cached == Some(None::<CommentRow>)))
            }
            &&& facts.head matches Some(Some(head)) && head.revision < i64::MAX
            &&& !facts.stored
        },
        r matches AddCommentStep::FindKey { tenant_id, key } ==> {
            &&& tenant_id == call.card.tenant_id
            &&& key == call.idempotency_key
            &&& facts.replay is None
        },
        r matches AddCommentStep::FindCard { card_id, tenant_id } ==> {
            &&& card_id == call.card.card_id
            &&& tenant_id == call.card.tenant_id
            &&& facts.head is None
        },
        r matches AddCommentStep::FindCached { comment_id: id, tenant_id } ==> {
            &&& tenant_id == call.card.tenant_id
            &&& facts.replay matches Some(Some(v)) && v@.text_member("comment_id"@) == Some(id@)
            &&& facts.cached is None
        },
        r is KeepKey ==> {
            &&& facts.stored
            &&& r->KeepKey_tenant_id == call.card.tenant_id
            &&& r->KeepKey_key == call.idempotency_key
            &&& r->KeepKey_payload@ matches JsonView::Object(members) && members =~= seq![
                ("comment_id"@, JsonView::Text(comment_id@)),
            ]
        },
        r is LoadComment ==> facts.stored && r == (AddCommentStep::LoadComment {
            comment_id,
            tenant_id: call.card.tenant_id,
        }),
        r matches AddCommentStep::Answer(c) ==> {
            ||| (facts.written matches Some(row) && shows_comment(c, row) && facts.stored)
            ||| (facts.cached matches Some(Some(row)) && shows_comment(c, row)
                && call.idempotency_key@.len() > 0)
        },
        r matches AddCommentStep::Refuse(e) ==> {
            ||| facts.head == Some(None::<CardHead>) && e.code == Code::NotFound && e.message@
                == "card not found"@
            ||| (facts.head matches Some(Some(head)) && head.revision == i64::MAX && e.code
                == Code::Internal && e.message@ == "failed to bump revision"@)
        },
{
}

} // verus!
