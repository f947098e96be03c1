//! Changes to what hangs on a card: assignees, checklist items, comments.
//!
//! Each takes the card to its next revision and reports itself with one event,
//! stored together with the change.
use crate::cards::model::LoadedCard;
use crate::cards::model::{full_card, shows_card, Card, Comment, CommentRow};
use crate::cards::step::CardHead;
use crate::cards::update::CardCall;
use crate::context::Id;
use crate::event::EventRow;
use crate::json::{fields, lookup, Fields, Json, JsonView, ObjectBuilder};
use crate::position::Slot;
use crate::status::{fault, Code, Status, StatusView};
use vstd::prelude::*;

verus! {

/// A change to what hangs on a card.
#[derive(Debug)]
pub enum CardChange {
    /// Assigns someone; no change where they are assigned already.
    Assign { subject: String },
    /// Takes an assignment back; no change where there is none.
    Unassign { subject: String },
    /// Adds an item to the checklist; `shifted` are the other items with room
    /// made for it, where it is not appended.
    AddItem { item_id: Id, text: String, position: i32, shifted: Option<Vec<Slot>> },
    /// Changes an item; its text where one is given, and whether it is done.
    UpdateItem { item_id: Id, text: Option<String>, done: bool },
    RemoveItem { item_id: Id },
    AddComment { comment_id: Id, author_sub: String, body: String },
    EditComment { comment_id: Id, body: String },
    DeleteComment { comment_id: Id },
}

/// A change with all that is written together with it.
#[derive(Debug)]
pub struct CardTouch {
    pub card_id: Id,
    pub tenant_id: String,
    pub change: CardChange,
    /// The card's revision after the change.
    pub revision: i64,
    pub event: EventRow,
}

/// What has been learned for a request.
#[derive(Debug)]
pub struct TouchFacts {
    /// The card, once it was looked for.
    pub head: Option<Option<CardHead>>,
    /// The items of the checklist.
    pub items: Option<Vec<Slot>>,
    /// Whether the item is on the card, once that was looked for.
    pub item: Option<bool>,
    /// The comment on the card, once it was looked for.
    pub comment: Option<Option<CommentRow>>,
    /// The change was stored.
    pub stored: bool,
    /// The card to answer, once it was looked for.
    pub loaded: Option<Option<LoadedCard>>,
    /// The comment to answer.
    pub written: Option<CommentRow>,
}

/// What a request needs next.
#[derive(Debug)]
pub enum TouchStep {
    /// Look for the card, and keep others from changing it.
    FindCard { card_id: Id, tenant_id: String },
    /// Read the items of the card's checklist.
    LoadItems { card_id: Id, tenant_id: String },
    /// Whether the item is on the card.
    FindItem { item_id: Id, card_id: Id, tenant_id: String },
    /// Look for the comment on the card.
    FindComment { comment_id: Id, card_id: Id, tenant_id: String },
    /// Store everything in it together.
    Store(CardTouch),
    /// Read the card to answer.
    LoadCard { card_id: Id, tenant_id: String },
    /// Read the comment to answer.
    LoadComment { comment_id: Id, tenant_id: String },
    AnswerCard(Card),
    AnswerComment(Comment),
    /// The request is done and has nothing to answer.
    Done,
    Refuse(Status),
}

/// `r` refuses, and says exactly `f`.
pub open spec fn declines(r: TouchStep, f: StatusView) -> bool {
    r matches TouchStep::Refuse(e) && e@ == f
}

/// The payload of the event that reports a change.
pub open spec fn touch_payload(card_id: Seq<char>, prev: int, patch: JsonView) -> Fields {
    fields().text("card_id", card_id).number("prev_revision", prev).number(
        "new_revision",
        prev + 1,
    ).with("patch", patch)
}

/// `t` takes the card to its next revision and reports `patch`.
pub open spec fn is_touch(t: CardTouch, card: CardCall, head: CardHead, patch: JsonView) -> bool {
    &&& t.card_id == card.card_id
    &&& t.tenant_id == card.tenant_id
    &&& t.revision == head.revision + 1
    &&& t.event.tenant_id == card.tenant_id
    &&& t.event.board_id == head.board_id
    &&& t.event.event_type@ == "CardUpdated"@
    &&& t.event.payload@ == touch_payload(card.card_id@, head.revision as int, patch).object()
}

/// Makes the change and the event that reports it.
pub fn touch(card: &CardCall, head: &CardHead, change: CardChange, patch: Json) -> (r: CardTouch)
    requires
        head.revision < i64::MAX,
    ensures
        is_touch(r, *card, *head, patch@),
        r.change == change,
{
    let revision: i64 = head.revision + 1;
    let payload = ObjectBuilder::new().put_text("card_id", &card.card_id).put_int(
        "prev_revision",
        head.revision,
    ).put_int("new_revision", revision).put("patch", patch).build();
    CardTouch {
        card_id: card.card_id.clone(),
        tenant_id: card.tenant_id.clone(),
        change,
        revision,
        event: EventRow {
            tenant_id: card.tenant_id.clone(),
            board_id: head.board_id.clone(),
            event_type: "CardUpdated",
            payload,
        },
    }
}

/// `r` looks for the card first, and refuses where it is not found.
pub open spec fn finds_card(r: TouchStep, card: CardCall, head: Option<Option<CardHead>>) -> bool {
    match head {
        None => r == (TouchStep::FindCard { card_id: card.card_id, tenant_id: card.tenant_id }),
        Some(None) => declines(r, fault(Code::NotFound, "card not found")),
        Some(Some(_)) => false,
    }
}

/// Looks for the card, where that was not done or found nothing.
pub fn find_card(card: &CardCall, head: &Option<Option<CardHead>>) -> (r: Option<TouchStep>)
    ensures
        match r {
            Some(step) => !(head matches Some(Some(_))) && finds_card(step, *card, *head),
            None => head matches Some(Some(_)),
        },
{
    match head {
        None => Some(
            TouchStep::FindCard {
                card_id: card.card_id.clone(),
                tenant_id: card.tenant_id.clone(),
            },
        ),
        Some(None) => Some(TouchStep::Refuse(Status::not_found("card not found"))),
        Some(Some(_)) => None,
    }
}

/// `r` reads the card to answer, or answers it.
pub open spec fn shows_result(
    r: TouchStep,
    card: CardCall,
    loaded: Option<Option<LoadedCard>>,
) -> bool {
    match loaded {
        None => r == (TouchStep::LoadCard { card_id: card.card_id, tenant_id: card.tenant_id }),
        Some(None) => declines(r, fault(Code::NotFound, "card not found")),
        Some(Some(l)) => r matches TouchStep::AnswerCard(card) && shows_card(card, l),
    }
}

/// Reads the card to answer, or answers it.
pub fn show_result(card: &CardCall, loaded: &Option<Option<LoadedCard>>) -> (r: TouchStep)
    ensures
        shows_result(r, *card, *loaded),
{
    match loaded {
        None => TouchStep::LoadCard {
            card_id: card.card_id.clone(),
            tenant_id: card.tenant_id.clone(),
        },
        Some(l) => match full_card(l) {
            Ok(card) => TouchStep::AnswerCard(card),
            Err(e) => TouchStep::Refuse(e),
        },
    }
}

/// The card cannot go to a next revision.
pub open spec fn at_last_revision(head: Option<Option<CardHead>>) -> bool {
    head matches Some(Some(h)) && h.revision == i64::MAX
}

/// The refusal of a card that cannot go to a next revision.
pub open spec fn revision_fault() -> StatusView {
    fault(Code::Internal, "failed to bump revision")
}

/// A change and its event agree: the event is the card's tenant's, and names the
/// revision before the change and the one after it, one apart.
pub proof fn law_event_names_the_revisions(
    t: CardTouch,
    card: CardCall,
    head: CardHead,
    patch: JsonView,
)
    requires
        is_touch(t, card, head, patch),
    ensures
        t.event.tenant_id == t.tenant_id,
        t.event.payload@.int_member("prev_revision"@) == Some(t.revision - 1),
        t.event.payload@.int_member("new_revision"@) == Some(t.revision as int),
        t.event.payload@.member("patch"@) == Some(patch),
{
    reveal_strlit("card_id");
    reveal_strlit("prev_revision");
    reveal_strlit("new_revision");
    reveal_strlit("patch");
    assert("card_id"@.len() == 7 && "prev_revision"@.len() == 13);
    assert("new_revision"@.len() == 12 && "patch"@.len() == 5);
    reveal_with_fuel(lookup, 5);
}

/// A change to what is on a card raises the card's revision by one and is
/// reported on the card's board, with both revisions and what changed.
pub proof fn law_touch_is_one_revision(
    t: CardTouch,
    card: CardCall,
    head: CardHead,
    patch: JsonView,
)
    requires
        is_touch(t, card, head, patch),
    ensures
        t.card_id == card.card_id,
        t.tenant_id == card.tenant_id,
        t.revision == head.revision + 1,
        t.event.tenant_id == card.tenant_id,
        t.event.board_id == head.board_id,
        t.event.event_type@ == "CardUpdated"@,
        t.event.payload@ matches JsonView::Object(members) && members =~= seq![
            ("card_id"@, JsonView::Text(card.card_id@)),
            ("prev_revision"@, JsonView::Int(head.revision as int)),
            ("new_revision"@, JsonView::Int(t.revision as int)),
            ("patch"@, patch),
        ],
{
}

/// A request that changes what is on a card looks for the card first and is
/// refused where there is none. Once the change is stored it is answered the
/// card, as it is read then.
pub proof fn law_touch_finds_and_answers_its_card(
    r: TouchStep,
    card: CardCall,
    head: Option<Option<CardHead>>,
    loaded: Option<Option<LoadedCard>>,
    l: LoadedCard,
)
    ensures
        finds_card(r, card, head) ==> {
            &&& head is None ==> r == (TouchStep::FindCard {
                card_id: card.card_id,
                tenant_id: card.tenant_id,
            })
            &&& head is Some ==> head == Some(None::<CardHead>) && (r matches TouchStep::Refuse(e)
                && e.code == Code::NotFound && e.message@ == "card not found"@)
        },
        shows_result(r, card, loaded) ==> {
            &&& loaded is None ==> r == (TouchStep::LoadCard {
                card_id: card.card_id,
                tenant_id: card.tenant_id,
            })
            &&& loaded == Some(None::<LoadedCard>) ==> (r matches TouchStep::Refuse(e) && e.code
                == Code::NotFound && e.message@ == "card not found"@)
            &&& loaded == Some(Some(l)) ==> (r matches TouchStep::AnswerCard(shown) && shows_card(
                shown,
                l,
            ))
        },
{
}

/// A card that has run out of revisions is changed no more, and says so.
pub proof fn law_last_revision_is_refused(
    r: TouchStep,
    head: Option<Option<CardHead>>,
    code: Code,
    message: &str,
)
    ensures
        at_last_revision(head) <==> (head matches Some(Some(h)) && h.revision == i64::MAX),
        revision_fault() == (StatusView {
            code: Code::Internal,
            message: "failed to bump revision"@,
        }),
        declines(r, fault(code, message)) <==> (r matches TouchStep::Refuse(e) && e.code == code
            && e.message@ == message@),
{
}

} // verus!
