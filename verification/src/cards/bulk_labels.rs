//! Replacing the labels of several cards of a board at once.
use crate::cards::model::{card_from_row, copy_ids, shows_card, Card, LoadedCard};
use crate::cards::step::{is_on_board, key_state, CardHead, KeyView};
use crate::context::{checked_id, object_fault, parse_ids, parsed_ids, tenant_fault};
use crate::context::{tenant_id_from_request, Id, IdArg, RequestContext};
use crate::event::EventRow;
use crate::json::{fields, json_texts, text_list, JsonView, ObjectBuilder};
use crate::status::{fault, first_fault, Code, Status, StatusView};
use vstd::prelude::*;
use vstd::string::*;

verus! {

/// A request to replace the labels of cards.
#[derive(Debug)]
pub struct BulkLabelsRequest {
    pub card_ids: Vec<IdArg>,
    pub label_ids: Vec<IdArg>,
    pub idempotency_key: String,
}

/// A request to replace the labels of cards that may go ahead. What is not an
/// identifier has been left out.
#[derive(Debug)]
pub struct BulkLabelsCall {
    pub board_id: Id,
    pub tenant_id: String,
    /// The request names no cards at all.
    pub nothing_asked: bool,
    pub card_ids: Vec<Id>,
    pub label_ids: Vec<Id>,
    pub idempotency_key: String,
}

/// Why a request on the cards of a board is refused before anything is looked
/// up.
pub open spec fn board_cards_fault(ctx: RequestContext) -> Option<StatusView> {
    first_fault(object_fault(ctx, "invalid board_id"), tenant_fault(ctx))
}

/// Checks a request to replace the labels of cards on the board that the call
/// was authorized for.
pub fn bulk_update_card_labels_call(ctx: &RequestContext, req: BulkLabelsRequest) -> (r: Result<
    BulkLabelsCall,
    Status,
>)
    ensures
        match r {
            Ok(call) => {
                &&& board_cards_fault(*ctx) is None
                &&& ctx.object() == Some(call.board_id)
                &&& ctx.tenant() == Some(call.tenant_id)
                &&& call.nothing_asked == (req.card_ids.len() == 0)
                &&& call.card_ids@ == parsed_ids(req.card_ids@)
                &&& call.label_ids@ == parsed_ids(req.label_ids@)
                &&& call.idempotency_key == req.idempotency_key
            },
            Err(e) => board_cards_fault(*ctx) == Some(e@),
        },
{
    let board_id = checked_id(ctx, "invalid board_id")?;
    let tenant_id = tenant_id_from_request(ctx)?;
    Ok(
        BulkLabelsCall {
            board_id,
            tenant_id,
            nothing_asked: req.card_ids.len() == 0,
            card_ids: parse_ids(&req.card_ids),
            label_ids: parse_ids(&req.label_ids),
            idempotency_key: req.idempotency_key,
        },
    )
}

/// The labels of one card to be replaced, with the event that reports it.
#[derive(Debug)]
pub struct LabelChange {
    pub card_id: Id,
    pub tenant_id: String,
    pub label_ids: Vec<Id>,
    /// The card's revision after the change.
    pub revision: i64,
    pub event: EventRow,
}

/// What has been learned for a request to replace labels.
#[derive(Debug)]
pub struct BulkLabelsFacts {
    /// The card that was answered to an earlier request with the key.
    pub replay: Option<Option<Id>>,
    /// The cards, as far as they were looked for, in the order of the request.
    pub heads: Vec<Option<CardHead>>,
    /// The changes were stored.
    pub stored: bool,
    /// The key was kept.
    pub kept: bool,
    /// The cards to answer, as far as they were read.
    pub loaded: Vec<CardRead>,
}

/// What became of reading a card.
#[derive(Debug)]
pub enum CardRead {
    Found(LoadedCard),
    /// There is no such card.
    Missing,
    /// The card could not be read.
    Failed,
}

/// What a request to replace labels needs next.
#[derive(Debug)]
pub enum BulkLabelsStep {
    /// Look for an earlier request with the key: the card it was answered.
    FindKey { tenant_id: String, key: String },
    /// Look for the next card, and keep others from changing it.
    FindCard { card_id: Id, tenant_id: String },
    /// Store all changes together, in their order.
    Store(Vec<LabelChange>),
    /// Keep the key with the first card.
    KeepKey { tenant_id: String, key: String, card_id: Id },
    /// Read the next card to answer.
    LoadCard { card_id: Id, tenant_id: String },
    Answer(Vec<Card>),
    Refuse(Status),
}

/// How often `id` occurs among the first `n` of `ids`.
pub open spec fn occurrences(ids: Seq<Id>, id: Seq<char>, n: int) -> int
    decreases n,
{
    if n <= 0 {
        0
    } else {
        occurrences(ids, id, n - 1) + if ids[n - 1]@ == id {
            1int
        } else {
            0int
        }
    }
}

/// The revision that card `i` of the request is taken to: one more each time
/// that the request names it.
pub open spec fn new_revision(ids: Seq<Id>, heads: Seq<Option<CardHead>>, i: int) -> int {
    heads[i]->Some_0.revision + occurrences(ids, ids[i]@, i + 1)
}

/// Why card `i` of the request cannot be changed.
pub open spec fn card_change_fault(
    call: BulkLabelsCall,
    heads: Seq<Option<CardHead>>,
    i: int,
) -> Option<StatusView> {
    if !is_on_board(heads[i], call.board_id) {
        Some(
            StatusView {
                code: Code::InvalidArgument,
                message: "card "@ + call.card_ids@[i]@ + " does not belong to board "@
                    + call.board_id@,
            },
        )
    } else if new_revision(call.card_ids@, heads, i) > i64::MAX {
        Some(fault(Code::Internal, "failed to bump card revision"))
    } else {
        None
    }
}

/// Why one of the cards from number `i` on, as far as they were looked for,
/// cannot be changed: the first such reason.
pub open spec fn first_change_fault(
    call: BulkLabelsCall,
    heads: Seq<Option<CardHead>>,
    i: int,
) -> Option<StatusView>
    decreases heads.len() - i,
{
    if i >= heads.len() || i >= call.card_ids@.len() {
        None
    } else if card_change_fault(call, heads, i) is Some {
        card_change_fault(call, heads, i)
    } else {
        first_change_fault(call, heads, i + 1)
    }
}

/// `change` gives card `i` of the request exactly the labels that are asked
/// for.
pub open spec fn is_label_change(
    change: LabelChange,
    call: BulkLabelsCall,
    heads: Seq<Option<CardHead>>,
    i: int,
) -> bool {
    let card_id = call.card_ids@[i];
    &&& change.card_id == card_id
    &&& change.tenant_id == call.tenant_id
    &&& change.label_ids@ == call.label_ids@
    &&& change.revision == new_revision(call.card_ids@, heads, i)
    &&& change.event.tenant_id == call.tenant_id
    &&& change.event.board_id == call.board_id
    &&& change.event.event_type@ == "CardUpdated"@
    &&& change.event.payload@ == fields().text("card_id", card_id@).text(
        "board_id",
        call.board_id@,
    ).number("new_revision", change.revision as int).with(
        "label_ids",
        text_list(call.label_ids@),
    ).text("idempotency_key", call.idempotency_key@).object()
}

/// The cards that were found among those read, in their order.
pub open spec fn found(loaded: Seq<CardRead>) -> Seq<LoadedCard>
    decreases loaded.len(),
{
    if loaded.len() == 0 {
        Seq::empty()
    } else {
        match loaded.last() {
            CardRead::Found(l) => found(loaded.drop_last()).push(l),
            _ => found(loaded.drop_last()),
        }
    }
}

/// `cards` shows these stored cards, one for one.
pub open spec fn shows_cards(cards: Seq<Card>, loaded: Seq<LoadedCard>) -> bool {
    &&& cards.len() == loaded.len()
    &&& forall|i: int| 0 <= i < cards.len() ==> shows_card(#[trigger] cards[i], loaded[i])
}

/// Why a card cannot be answered.
pub open spec fn read_fault(read: CardRead) -> Option<StatusView> {
    match read {
        CardRead::Found(_) => None,
        CardRead::Missing => Some(fault(Code::NotFound, "card not found")),
        CardRead::Failed => Some(fault(Code::Internal, "failed to fetch card")),
    }
}

/// Why one of the cards read cannot be answered: the first such reason.
pub open spec fn first_read_fault(loaded: Seq<CardRead>) -> Option<StatusView>
    decreases loaded.len(),
{
    if loaded.len() == 0 {
        None
    } else if first_read_fault(loaded.drop_last()) is Some {
        first_read_fault(loaded.drop_last())
    } else {
        read_fault(loaded.last())
    }
}

proof fn lemma_fault_stays_first(loaded: Seq<CardRead>, n: int)
    requires
        0 <= n <= loaded.len(),
        first_read_fault(loaded.take(n)) is Some,
    ensures
        first_read_fault(loaded) == first_read_fault(loaded.take(n)),
    decreases loaded.len() - n,
{
    if n < loaded.len() {
        assert(loaded.take(n + 1).drop_last() =~= loaded.take(n));
        lemma_fault_stays_first(loaded, n + 1);
    } else {
        assert(loaded.take(n) =~= loaded);
    }
}

fn check_reads(loaded: &Vec<CardRead>) -> (r: Result<(), Status>)
    ensures
        match r {
            Ok(_) => first_read_fault(loaded@) is None,
            Err(e) => first_read_fault(loaded@) == Some(e@),
        },
{
    let mut i: usize = 0;
    assert(loaded@.take(0) =~= Seq::empty());
    while i < loaded.len()
        invariant
            i <= loaded.len(),
            first_read_fault(loaded@.take(i as int)) is None,
        decreases loaded.len() - i,
    {
        proof {
            assert(loaded@.take(i + 1).drop_last() =~= loaded@.take(i as int));
            if first_read_fault(loaded@.take(i + 1)) is Some {
                lemma_fault_stays_first(loaded@, i + 1);
            }
        }
        match &loaded[i] {
            CardRead::Found(_) => {},
            CardRead::Missing => {
                return Err(Status::not_found("card not found"));
            },
            CardRead::Failed => {
                return Err(Status::internal("failed to fetch card"));
            },
        }
        i += 1;
    }
    assert(loaded@.take(loaded@.len() as int) =~= loaded@);
    Ok(())
}

fn cards_found(loaded: &Vec<CardRead>) -> (r: Vec<Card>)
    ensures
        shows_cards(r@, found(loaded@)),
{
    let mut r: Vec<Card> = Vec::new();
    let mut i: usize = 0;
    while i < loaded.len()
        invariant
            i <= loaded.len(),
            shows_cards(r@, found(loaded@.take(i as int))),
        decreases loaded.len() - i,
    {
        assert(loaded@.take(i + 1).drop_last() =~= loaded@.take(i as int));
        if let CardRead::Found(l) = &loaded[i] {
            r.push(card_from_row(l));
        }
        i += 1;
    }
    assert(loaded@.take(loaded@.len() as int) =~= loaded@);
    r
}

fn count_occurrences(ids: &Vec<Id>, id: &Id, n: usize) -> (r: i128)
    requires
        n <= ids.len(),
    ensures
        r == occurrences(ids@, id@, n as int),
        0 <= r <= n,
{
    let mut r: i128 = 0;
    let mut i: usize = 0;
    while i < n
        invariant
            i <= n <= ids.len(),
            r == occurrences(ids@, id@, i as int),
            0 <= r <= i,
        decreases n - i,
    {
        if ids[i] == *id {
            r = r + 1;
        }
        i += 1;
    }
    r
}

fn label_change(call: &BulkLabelsCall, head: &Option<CardHead>, i: usize) -> (r: Result<
    LabelChange,
    Status,
>)
    requires
        i < call.card_ids.len(),
    ensures
        forall|heads: Seq<Option<CardHead>>|
            #![trigger heads[i as int]]
            heads[i as int] == *head ==> match r {
                Ok(change) => card_change_fault(*call, heads, i as int) is None && is_label_change(
                    change,
                    *call,
                    heads,
                    i as int,
                ),
                Err(e) => card_change_fault(*call, heads, i as int) == Some(e@),
            },
{
    let card_id = &call.card_ids[i];
    let revision: i64 = match head {
        Some(h) if h.board_id == call.board_id => h.revision,
        _ => {
            let mut message: String = "card ".to_owned();
            message.append(card_id.as_str());
            message.append(" does not belong to board ");
            message.append(call.board_id.as_str());
            return Err(Status { code: Code::InvalidArgument, message });
        },
    };
    let times: i128 = count_occurrences(&call.card_ids, card_id, i + 1);
    let new: i128 = revision as i128 + times;
    if new > i64::MAX as i128 {
        return Err(Status::internal("failed to bump card revision"));
    }
    let new: i64 = new as i64;
    let payload = ObjectBuilder::new().put_text("card_id", card_id).put_text(
        "board_id",
        &call.board_id,
    ).put_int("new_revision", new).put("label_ids", json_texts(&call.label_ids)).put_text(
        "idempotency_key",
        &call.idempotency_key,
    ).build();
    Ok(
        LabelChange {
            card_id: card_id.clone(),
            tenant_id: call.tenant_id.clone(),
            label_ids: copy_ids(&call.label_ids),
            revision: new,
            event: EventRow {
                tenant_id: call.tenant_id.clone(),
                board_id: call.board_id.clone(),
                event_type: "CardUpdated",
                payload,
            },
        },
    )
}

/// The changes to the cards that were looked for so far.
fn label_changes(call: &BulkLabelsCall, heads: &Vec<Option<CardHead>>) -> (r: Result<
    Vec<LabelChange>,
    Status,
>)
    ensures
        match r {
            Ok(changes) => {
                &&& first_change_fault(*call, heads@, 0) is None
                &&& changes.len() == if heads.len() < call.card_ids.len() {
                    heads.len()
                } else {
                    call.card_ids.len()
                }
                &&& forall|i: int|
                    0 <= i < changes.len() ==> is_label_change(
                        #[trigger] changes[i],
                        *call,
                        heads@,
                        i,
                    )
            },
            Err(e) => first_change_fault(*call, heads@, 0) == Some(e@),
        },
{
    let mut changes: Vec<LabelChange> = Vec::new();
    let mut i: usize = 0;
    while i < heads.len() && i < call.card_ids.len()
        invariant
            i <= heads.len(),
            i <= call.card_ids.len(),
            changes.len() == i,
            first_change_fault(*call, heads@, 0) == first_change_fault(*call, heads@, i as int),
            forall|j: int|
                0 <= j < i ==> is_label_change(#[trigger] changes[j], *call, heads@, j),
        decreases heads.len() - i,
    {
        assert(heads@[i as int] == heads[i as int]);
        let change = label_change(call, &heads[i], i)?;
        changes.push(change);
        i += 1;
    }
    Ok(changes)
}

/// What a request whose key was used before needs next: the cards are read, and
/// those are answered that are there and could be read.
pub open spec fn answers_replay(
    r: BulkLabelsStep,
    call: BulkLabelsCall,
    facts: BulkLabelsFacts,
) -> bool {
    if facts.loaded.len() < call.card_ids.len() {
        r == (BulkLabelsStep::LoadCard {
            card_id: call.card_ids@[facts.loaded.len() as int],
            tenant_id: call.tenant_id,
        })
    } else {
        r matches BulkLabelsStep::Answer(cards) && shows_cards(cards@, found(facts.loaded@))
    }
}

/// What a request with a new key, or without one, needs next: the cards are
/// looked for one by one, and one that is not on the board ends the request;
/// then all changes are stored, the key is kept with the first card, and the
/// cards are read and answered.
pub open spec fn replaces_labels(
    r: BulkLabelsStep,
    call: BulkLabelsCall,
    facts: BulkLabelsFacts,
) -> bool {
    if first_change_fault(call, facts.heads@, 0) is Some {
        r matches BulkLabelsStep::Refuse(e) && first_change_fault(call, facts.heads@, 0) == Some(e@)
    } else if facts.heads.len() < call.card_ids.len() {
        r == (BulkLabelsStep::FindCard {
            card_id: call.card_ids@[facts.heads.len() as int],
            tenant_id: call.tenant_id,
        })
    } else if !facts.stored {
        &&& r matches BulkLabelsStep::Store(changes)
        &&& changes.len() == call.card_ids.len()
        &&& forall|i: int|
            0 <= i < changes.len() ==> is_label_change(
                #[trigger] changes[i],
                call,
                facts.heads@,
                i,
            )
    } else if call.idempotency_key@.len() > 0 && call.card_ids.len() > 0 && !facts.kept {
        r == (BulkLabelsStep::KeepKey {
            tenant_id: call.tenant_id,
            key: call.idempotency_key,
            card_id: call.card_ids@[0],
        })
    } else if first_read_fault(facts.loaded@) is Some {
        r matches BulkLabelsStep::Refuse(e) && first_read_fault(facts.loaded@) == Some(e@)
    } else if facts.loaded.len() < call.card_ids.len() {
        r == (BulkLabelsStep::LoadCard {
            card_id: call.card_ids@[facts.loaded.len() as int],
            tenant_id: call.tenant_id,
        })
    } else {
        r matches BulkLabelsStep::Answer(cards) && shows_cards(cards@, found(facts.loaded@))
    }
}

/// What a request to replace labels needs next.
pub open spec fn leads_bulk_labels(
    r: BulkLabelsStep,
    call: BulkLabelsCall,
    facts: BulkLabelsFacts,
) -> bool {
    if call.nothing_asked {
        r matches BulkLabelsStep::Answer(cards) && cards.len() == 0
    } else {
        match key_state(call.idempotency_key, facts.replay) {
            KeyView::Unknown => r == (BulkLabelsStep::FindKey {
                tenant_id: call.tenant_id,
                key: call.idempotency_key,
            }),
            KeyView::Used(_) => answers_replay(r, call, facts),
            KeyView::Fresh => replaces_labels(r, call, facts),
        }
    }
}

/// Replaces the labels of cards: what to do next, given what has been learned.
pub fn bulk_update_card_labels(call: &BulkLabelsCall, facts: &BulkLabelsFacts) -> (r:
    BulkLabelsStep)
    ensures
        leads_bulk_labels(r, *call, *facts),
{
    if call.nothing_asked {
        return BulkLabelsStep::Answer(Vec::new());
    }
    let has_key = !call.idempotency_key.as_str().is_empty();
    let mut replayed = false;
    if has_key {
        match &facts.replay {
            None => {
                return BulkLabelsStep::FindKey {
                    tenant_id: call.tenant_id.clone(),
                    key: call.idempotency_key.clone(),
                };
            },
            Some(earlier) => {
                replayed = earlier.is_some();
            },
        }
    }
    if !replayed {
        let changes = match label_changes(call, &facts.heads) {
            Ok(changes) => changes,
            Err(e) => {
                return BulkLabelsStep::Refuse(e);
            },
        };
        if facts.heads.len() < call.card_ids.len() {
            return BulkLabelsStep::FindCard {
                card_id: call.card_ids[facts.heads.len()].clone(),
                tenant_id: call.tenant_id.clone(),
            };
        }
        if !facts.stored {
            return BulkLabelsStep::Store(changes);
        }
        if has_key && call.card_ids.len() > 0 && !facts.kept {
            return BulkLabelsStep::KeepKey {
                tenant_id: call.tenant_id.clone(),
                key: call.idempotency_key.clone(),
                card_id: call.card_ids[0].clone(),
            };
        }
        if let Err(e) = check_reads(&facts.loaded) {
            return BulkLabelsStep::Refuse(e);
        }
    }
    if facts.loaded.len() < call.card_ids.len() {
        return BulkLabelsStep::LoadCard {
            card_id: call.card_ids[facts.loaded.len()].clone(),
            tenant_id: call.tenant_id.clone(),
        };
    }
    BulkLabelsStep::Answer(cards_found(&facts.loaded))
}

/// Either all cards are changed or none: where one of them is not on the board,
/// nothing is stored.
pub proof fn law_one_foreign_card_stops_all(
    r: BulkLabelsStep,
    call: BulkLabelsCall,
    facts: BulkLabelsFacts,
    i: int,
)
    requires
        replaces_labels(r, call, facts),
        0 <= i < facts.heads.len(),
        i < call.card_ids.len(),
        !is_on_board(facts.heads[i], call.board_id),
    ensures
        r is Refuse,
{
    lemma_fault_found(call, facts.heads@, 0, i);
}

proof fn lemma_fault_found(
    call: BulkLabelsCall,
    heads: Seq<Option<CardHead>>,
    from: int,
    i: int,
)
    requires
        0 <= from <= i < heads.len(),
        i < call.card_ids.len(),
        card_change_fault(call, heads, i) is Some,
    ensures
        first_change_fault(call, heads, from) is Some,
    decreases i - from,
{
    if card_change_fault(call, heads, from) is None {
        lemma_fault_found(call, heads, from + 1, i);
    }
}

/// A request sent again with its key changes no labels, and is answered the
/// cards as they are.
pub proof fn law_used_key_changes_no_labels(
    r: BulkLabelsStep,
    call: BulkLabelsCall,
    facts: BulkLabelsFacts,
    earlier: Id,
)
    requires
        leads_bulk_labels(r, call, facts),
        call.idempotency_key@.len() > 0,
        facts.replay == Some(Some(earlier)),
    ensures
        !(r is Store),
        call.nothing_asked || answers_replay(r, call, facts),
{
}

proof fn lemma_no_earlier_occurrence(ids: Seq<Id>, id: Seq<char>, from: int, to: int)
    requires
        from <= to,
        forall|j: int| from <= j < to && j >= 0 ==> (#[trigger] ids[j])@ != id,
    ensures
        occurrences(ids, id, to) == occurrences(ids, id, from),
    decreases to - from,
{
    if from < to {
        lemma_no_earlier_occurrence(ids, id, from, to - 1);
    }
}

proof fn lemma_occurrences_bound(ids: Seq<Id>, id: Seq<char>, n: int)
    requires
        0 <= n,
    ensures
        0 <= occurrences(ids, id, n) <= n,
    decreases n,
{
    if n > 0 {
        lemma_occurrences_bound(ids, id, n - 1);
    }
}

/// Every card that the request names is given exactly the labels that it names,
/// whatever the card's place in the request.
pub proof fn law_every_card_gets_the_labels(
    r: BulkLabelsStep,
    call: BulkLabelsCall,
    facts: BulkLabelsFacts,
    i: int,
)
    requires
        leads_bulk_labels(r, call, facts),
        r is Store,
        0 <= i < call.card_ids.len(),
    ensures
        r->Store_0.len() == call.card_ids.len(),
        r->Store_0[i].card_id == call.card_ids[i],
        r->Store_0[i].tenant_id == call.tenant_id,
        r->Store_0[i].label_ids.len() == call.label_ids.len(),
        forall|k: int|
            0 <= k < call.label_ids.len() ==> #[trigger] r->Store_0[i].label_ids[k]
                == call.label_ids[k],
{
    let change = r->Store_0[i];
    assert(change.label_ids@ == call.label_ids@);
    assert forall|k: int| 0 <= k < call.label_ids.len() implies #[trigger] change.label_ids[k]
        == call.label_ids[k] by {
        assert(change.label_ids@[k] == call.label_ids@[k]);
    }
}

/// Any two cards of a request are left with the same labels.
pub proof fn law_all_cards_get_the_same_labels(
    r: BulkLabelsStep,
    call: BulkLabelsCall,
    facts: BulkLabelsFacts,
    i: int,
    j: int,
)
    requires
        leads_bulk_labels(r, call, facts),
        r is Store,
        0 <= i < r->Store_0.len(),
        0 <= j < r->Store_0.len(),
    ensures
        r->Store_0[i].label_ids@ == r->Store_0[j].label_ids@,
        r->Store_0[i].label_ids@ == call.label_ids@,
{
    assert(r->Store_0[i].label_ids@ == call.label_ids@);
    assert(r->Store_0[j].label_ids@ == call.label_ids@);
}

/// Each change raises the card's revision by one: from what was found, for a
/// card that the request has not named before, and from the change before for
/// one that it names again.
pub proof fn law_each_label_change_is_one_revision(
    r: BulkLabelsStep,
    call: BulkLabelsCall,
    facts: BulkLabelsFacts,
    i: int,
    j: int,
)
    requires
        leads_bulk_labels(r, call, facts),
        r is Store,
        0 <= i < call.card_ids.len(),
        -1 <= j < i,
        forall|k: int| j < k < i && k >= 0 ==> (#[trigger] call.card_ids[k])@ != call.card_ids[i]@,
    ensures
        facts.heads[i] is Some,
        j == -1 ==> r->Store_0[i].revision == facts.heads[i]->Some_0.revision + 1,
        j >= 0 && call.card_ids[j]@ == call.card_ids[i]@ && facts.heads[j] == facts.heads[i]
            ==> r->Store_0[i].revision == r->Store_0[j].revision + 1,
{
    let ids = call.card_ids@;
    let id = ids[i]@;
    if facts.heads[i] is None {
        lemma_fault_found(call, facts.heads@, 0, i);
    }
    assert(r->Store_0[i].revision == new_revision(ids, facts.heads@, i));
    assert forall|k: int| j + 1 <= k < i && k >= 0 implies (#[trigger] ids[k])@ != id by {
        assert(call.card_ids[k]@ != id);
    }
    lemma_no_earlier_occurrence(ids, id, j + 1, i);
    if j >= 0 {
        assert(r->Store_0[j].revision == new_revision(ids, facts.heads@, j));
    }
}

/// Each change is reported on the board, with the card, its new revision and
/// all the labels.
pub proof fn law_label_changes_are_reported(
    r: BulkLabelsStep,
    call: BulkLabelsCall,
    facts: BulkLabelsFacts,
    i: int,
)
    requires
        leads_bulk_labels(r, call, facts),
        r is Store,
        0 <= i < call.card_ids.len(),
    ensures
        r->Store_0[i].event.tenant_id == call.tenant_id,
        r->Store_0[i].event.board_id == call.board_id,
        r->Store_0[i].event.event_type@ == "CardUpdated"@,
        r->Store_0[i].event.payload@ matches JsonView::Object(members) && {
            &&& members.len() == 5
            &&& members[0] == ("card_id"@, JsonView::Text(call.card_ids[i]@))
            &&& members[1] == ("board_id"@, JsonView::Text(call.board_id@))
            &&& members[2] == ("new_revision"@, JsonView::Int(r->Store_0[i].revision as int))
            &&& members[3].0 == "label_ids"@
            &&& members[3].1 matches JsonView::List(items) && items.len() == call.label_ids.len()
                && forall|k: int|
                0 <= k < items.len() ==> #[trigger] items[k] == JsonView::Text(
                    call.label_ids[k]@,
                )
            &&& members[4] == ("idempotency_key"@, JsonView::Text(call.idempotency_key@))
        },
{
    assert(is_label_change(r->Store_0[i], call, facts.heads@, i));
}

/// Labels are stored only where all cards were found on the board, and are
/// stored where they were and none has run out of revisions, unless an earlier
/// request with the key was answered.
pub proof fn law_labels_are_stored_when_all_cards_are_on_the_board(
    r: BulkLabelsStep,
    call: BulkLabelsCall,
    facts: BulkLabelsFacts,
)
    requires
        leads_bulk_labels(r, call, facts),
    ensures
        r is Store ==> {
            &&& !call.nothing_asked
            &&& call.idempotency_key@.len() == 0 || facts.replay == Some(None::<Id>)
            &&& facts.heads.len() >= call.card_ids.len()
            &&& forall|i: int|
                0 <= i < call.card_ids.len() ==> ((#[trigger] facts.heads[i]) matches Some(h)
                    && h.board_id@ == call.board_id@)
            &&& !facts.stored
        },
        ({
            &&& !call.nothing_asked
            &&& call.idempotency_key@.len() == 0 || facts.replay == Some(None::<Id>)
            &&& facts.heads.len() >= call.card_ids.len()
            &&& forall|i: int|
                0 <= i < call.card_ids.len() ==> ((#[trigger] facts.heads[i]) matches Some(h)
                    && h.board_id@ == call.board_id@ && h.revision + call.card_ids.len()
                    <= i64::MAX)
            &&& !facts.stored
        }) ==> r is Store,
{
    if r is Store {
        assert forall|i: int| 0 <= i < call.card_ids.len() implies ((
        #[trigger] facts.heads[i]) matches Some(h) && h.board_id@ == call.board_id@) by {
            if !(facts.heads[i] matches Some(h) && h.board_id@ == call.board_id@) {
                lemma_fault_found(call, facts.heads@, 0, i);
            }
        }
    }
    if forall|i: int|
        0 <= i < call.card_ids.len() && i < facts.heads.len() ==> ((
        #[trigger] facts.heads[i]) matches Some(h) && h.board_id@ == call.board_id@ && h.revision
            + call.card_ids.len() <= i64::MAX) {
        lemma_no_change_fault(call, facts.heads@, 0);
    }
}

proof fn lemma_no_change_fault(call: BulkLabelsCall, heads: Seq<Option<CardHead>>, from: int)
    requires
        0 <= from,
        forall|i: int|
            0 <= i < call.card_ids.len() && i < heads.len() ==> ((#[trigger] heads[i]) matches Some(
                h,
            ) && h.board_id@ == call.board_id@ && h.revision + call.card_ids.len() <= i64::MAX),
    ensures
        first_change_fault(call, heads, from) is None,
    decreases heads.len() - from,
{
    if from < heads.len() && from < call.card_ids.len() {
        assert(heads[from] is Some);
        lemma_occurrences_bound(call.card_ids@, call.card_ids@[from]@, from + 1);
        lemma_no_change_fault(call, heads, from + 1);
    }
}

/// The first card that is not on the board is named in the refusal.
pub proof fn law_first_foreign_card_is_named(
    r: BulkLabelsStep,
    call: BulkLabelsCall,
    facts: BulkLabelsFacts,
    i: int,
)
    requires
        leads_bulk_labels(r, call, facts),
        !call.nothing_asked,
        call.idempotency_key@.len() == 0 || facts.replay == Some(None::<Id>),
        0 <= i < facts.heads.len(),
        i < call.card_ids.len(),
        forall|k: int|
            0 <= k < i ==> ((#[trigger] facts.heads[k]) matches Some(h) && h.board_id@
                == call.board_id@ && h.revision + call.card_ids.len() <= i64::MAX),
        facts.heads[i] matches Some(h) ==> h.board_id@ != call.board_id@,
    ensures
        r matches BulkLabelsStep::Refuse(e) && e.code == Code::InvalidArgument && e.message@
            == "card "@ + call.card_ids[i]@ + " does not belong to board "@ + call.board_id@,
{
    lemma_first_fault_at(call, facts.heads@, 0, i);
}

proof fn lemma_first_fault_at(
    call: BulkLabelsCall,
    heads: Seq<Option<CardHead>>,
    from: int,
    i: int,
)
    requires
        0 <= from <= i < heads.len(),
        i < call.card_ids.len(),
        forall|k: int|
            from <= k < i ==> ((#[trigger] heads[k]) matches Some(h) && h.board_id@
                == call.board_id@ && h.revision + call.card_ids.len() <= i64::MAX),
        card_change_fault(call, heads, i) is Some,
    ensures
        first_change_fault(call, heads, from) == card_change_fault(call, heads, i),
    decreases i - from,
{
    if from < i {
        assert(heads[from] is Some);
        lemma_occurrences_bound(call.card_ids@, call.card_ids@[from]@, from + 1);
        lemma_first_fault_at(call, heads, from + 1, i);
    }
}

/// The cards that were found are kept piece by piece, in their order, and what
/// was not found is left out.
pub proof fn law_found_cards_piece_by_piece(
    loaded: Seq<CardRead>,
    more: Seq<CardRead>,
    read: CardRead,
)
    ensures
        found(loaded + more) == found(loaded) + found(more),
        found(seq![read]) == match read {
            CardRead::Found(l) => seq![l],
            _ => Seq::<LoadedCard>::empty(),
        },
    decreases more.len(),
{
    reveal_with_fuel(found, 2);
    assert(seq![read].drop_last() =~= Seq::<CardRead>::empty());
    if read is Found {
        assert(found(seq![read]) =~= seq![read->Found_0]);
    }
    if more.len() == 0 {
        assert(loaded + more =~= loaded);
    } else {
        assert((loaded + more).drop_last() =~= loaded + more.drop_last());
        law_found_cards_piece_by_piece(loaded, more.drop_last(), read);
    }
    assert(found(loaded + more) =~= found(loaded) + found(more));
}

/// Of the cards that are read to answer, the first that is not there decides how
/// the request is refused.
pub proof fn law_first_unread_card_refuses(loaded: Seq<CardRead>, i: int)
    requires
        0 <= i <= loaded.len(),
        forall|k: int| 0 <= k < i ==> (#[trigger] loaded[k]) is Found,
        i < loaded.len() ==> !(loaded[i] is Found),
    ensures
        i == loaded.len() ==> first_read_fault(loaded) is None,
        i < loaded.len() && loaded[i] is Missing ==> first_read_fault(loaded) == Some(
            StatusView { code: Code::NotFound, message: "card not found"@ },
        ),
        i < loaded.len() && loaded[i] is Failed ==> first_read_fault(loaded) == Some(
            StatusView { code: Code::Internal, message: "failed to fetch card"@ },
        ),
    decreases loaded.len(),
{
    if loaded.len() > 0 {
        let front = loaded.drop_last();
        if i == loaded.len() {
            law_first_unread_card_refuses(front, i - 1);
        } else {
            law_first_unread_card_refuses(front, i);
        }
    }
}

/// Once the labels are stored, the request keeps its key with the first card and
/// is answered all cards that it named, read one by one in their order.
pub proof fn law_bulk_request_goes_on_in_order(
    r: BulkLabelsStep,
    call: BulkLabelsCall,
    facts: BulkLabelsFacts,
)
    requires
        leads_bulk_labels(r, call, facts),
    ensures
        call.nothing_asked ==> (r matches BulkLabelsStep::Answer(cards) && cards.len() == 0),
        r matches BulkLabelsStep::FindKey { tenant_id, key } ==> tenant_id == call.tenant_id && key
            == call.idempotency_key && facts.replay is None,
        r matches BulkLabelsStep::FindCard { card_id, tenant_id } ==> {
            &&& facts.heads.len() < call.card_ids.len()
            &&& card_id == call.card_ids[facts.heads.len() as int]
            &&& tenant_id == call.tenant_id
        },
        r matches BulkLabelsStep::KeepKey { tenant_id, key, card_id } ==> {
            &&& facts.stored
            &&& tenant_id == call.tenant_id
            &&& key == call.idempotency_key
            &&& call.card_ids.len() > 0
            &&& card_id == call.card_ids[0]
        },
        r matches BulkLabelsStep::LoadCard { card_id, tenant_id } ==> {
            &&& facts.loaded.len() < call.card_ids.len()
            &&& card_id == call.card_ids[facts.loaded.len() as int]
            &&& tenant_id == call.tenant_id
        },
        r matches BulkLabelsStep::Answer(cards) && !call.nothing_asked ==> {
            &&& facts.loaded.len() >= call.card_ids.len()
            &&& r->Answer_0.len() == found(facts.loaded@).len()
            &&& forall|i: int|
                0 <= i < r->Answer_0.len() ==> shows_card(
                    #[trigger] r->Answer_0[i],
                    found(facts.loaded@)[i],
                )
        },
{
}

/// A request on the cards of a board needs the board that the call was
/// authorized for and a tenant, and is refused for the first that is missing.
pub proof fn law_board_cards_request_is_refused_in_order(ctx: RequestContext)
    ensures
        board_cards_fault(ctx) == if ctx.checked_object_id is None {
            Some(StatusView { code: Code::Internal, message: "missing CheckedObjectId extension"@ })
        } else if ctx.object() is None {
            Some(StatusView { code: Code::InvalidArgument, message: "invalid board_id"@ })
        } else if ctx.tenant() is None {
            Some(StatusView { code: Code::Unauthenticated, message: "missing tenant context"@ })
        } else {
            None
        },
{
}

} // verus!
