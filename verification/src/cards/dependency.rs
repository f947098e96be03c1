//! Dependencies between the cards of a board.
use crate::cards::model::LoadedCard;
use crate::cards::step::{answer_card, answers_card, keep_and_answer, keeps_and_answers};
use crate::cards::step::{is_on_board, on_board, refuses, CardHead, CardStep};
use crate::context::{checked_id, id_fault, object_fault, require_id, tenant_fault};
use crate::context::{tenant_id_from_request, Id, IdArg, RequestContext};
use crate::event::EventRow;
use crate::json::{fields, JsonView, ObjectBuilder};
use crate::status::{fault, fault_if, first_fault, first_of5, Code, Status, StatusView};
use vstd::prelude::*;

verus! {

/// A request to add or remove a dependency of one card on another.
#[derive(Debug)]
pub struct DependencyRequest {
    pub card_id: IdArg,
    pub depends_on_card_id: IdArg,
    pub idempotency_key: String,
}

/// A request on a dependency that may go ahead.
#[derive(Debug)]
pub struct DependencyCall {
    pub board_id: Id,
    pub tenant_id: String,
    pub card_id: Id,
    pub depends_on_id: Id,
    pub idempotency_key: String,
}

/// Why a request on a dependency is refused before anything is looked up.
pub open spec fn dependency_fault(ctx: RequestContext, req: DependencyRequest) -> Option<
    StatusView,
> {
    first_of5(
        object_fault(ctx, "invalid board_id"),
        tenant_fault(ctx),
        fault_if(
            req.idempotency_key@.len() == 0,
            Code::InvalidArgument,
            "idempotency_key is required",
        ),
        id_fault(req.card_id, "invalid card_id"),
        id_fault(req.depends_on_card_id, "invalid depends_on_card_id"),
    )
}

/// Why a request to add a dependency is refused before anything is looked up:
/// as any request on one, and where it would be of a card on itself.
pub open spec fn add_dependency_fault(ctx: RequestContext, req: DependencyRequest) -> Option<
    StatusView,
> {
    first_fault(
        dependency_fault(ctx, req),
        fault_if(
            req.card_id.id->Some_0@ == req.depends_on_card_id.id->Some_0@,
            Code::InvalidArgument,
            "a card cannot depend on itself",
        ),
    )
}

/// `call` is what the request asks for, on the board that it was authorized
/// for.
pub open spec fn is_dependency_call(
    call: DependencyCall,
    ctx: RequestContext,
    req: DependencyRequest,
) -> bool {
    &&& ctx.object() == Some(call.board_id)
    &&& ctx.tenant() == Some(call.tenant_id)
    &&& req.card_id.id == Some(call.card_id)
    &&& req.depends_on_card_id.id == Some(call.depends_on_id)
    &&& call.idempotency_key == req.idempotency_key
}

/// Checks a request to remove a dependency.
pub fn remove_card_dependency_call(ctx: &RequestContext, req: DependencyRequest) -> (r: Result<
    DependencyCall,
    Status,
>)
    ensures
        match r {
            Ok(call) => dependency_fault(*ctx, req) is None && is_dependency_call(call, *ctx, req),
            Err(e) => dependency_fault(*ctx, req) == Some(e@),
        },
{
    let board_id = checked_id(ctx, "invalid board_id")?;
    let tenant_id = tenant_id_from_request(ctx)?;
    if req.idempotency_key.as_str().is_empty() {
        return Err(Status::invalid_argument("idempotency_key is required"));
    }
    let card_id = require_id(&req.card_id, "invalid card_id")?;
    let depends_on_id = require_id(&req.depends_on_card_id, "invalid depends_on_card_id")?;
    Ok(
        DependencyCall {
            board_id,
            tenant_id,
            card_id,
            depends_on_id,
            idempotency_key: req.idempotency_key,
        },
    )
}

/// Checks a request to add a dependency.
pub fn add_card_dependency_call(ctx: &RequestContext, req: DependencyRequest) -> (r: Result<
    DependencyCall,
    Status,
>)
    ensures
        match r {
            Ok(call) => add_dependency_fault(*ctx, req) is None && is_dependency_call(
                call,
                *ctx,
                req,
            ) && call.card_id@ != call.depends_on_id@,
            Err(e) => add_dependency_fault(*ctx, req) == Some(e@),
        },
{
    let call = remove_card_dependency_call(ctx, req)?;
    if call.card_id == call.depends_on_id {
        return Err(Status::invalid_argument("a card cannot depend on itself"));
    }
    Ok(call)
}

/// A dependency to be added or removed, with all that is written together with
/// it.
#[derive(Debug)]
pub struct DependencyChange {
    pub card_id: Id,
    pub depends_on_id: Id,
    pub tenant_id: String,
    /// Whether the card depends on the other after the change.
    pub linked: bool,
    /// The card's revision after the change.
    pub revision: i64,
    pub event: EventRow,
}

/// What has been learned for a request on a dependency.
#[derive(Debug)]
pub struct DependencyFacts {
    /// The card that was answered to an earlier request with the key.
    pub replay: Option<Option<Id>>,
    /// The card, once it was looked for.
    pub head: Option<Option<CardHead>>,
    /// The card that it depends on, once that was looked for.
    pub other: Option<Option<CardHead>>,
    /// Whether the one depends on the other, once that was looked for.
    pub linked: Option<bool>,
    /// The change was stored.
    pub stored: bool,
    /// The key was kept.
    pub kept: bool,
    /// The card to answer, once it was looked for.
    pub loaded: Option<Option<LoadedCard>>,
}

/// `change` makes the dependency, where `linked`, or takes it away; it reports
/// that, and takes the card from revision `prev` to revision `new`.
pub open spec fn is_dependency_change(
    change: DependencyChange,
    call: DependencyCall,
    linked: bool,
    prev: int,
    new: int,
) -> bool {
    &&& change.card_id == call.card_id
    &&& change.depends_on_id == call.depends_on_id
    &&& change.tenant_id == call.tenant_id
    &&& change.linked == linked
    &&& change.revision == new
    &&& change.event.tenant_id == call.tenant_id
    &&& change.event.board_id == call.board_id
    &&& change.event.event_type@ == "CardUpdated"@
    &&& change.event.payload@ == fields().text("card_id", call.card_id@).text(
        "board_id",
        call.board_id@,
    ).text("depends_on_card_id", call.depends_on_id@).number("prev_revision", prev).number(
        "new_revision",
        new,
    ).text("idempotency_key", call.idempotency_key@).object()
}

fn dependency_change(call: &DependencyCall, linked: bool, prev: i64, new: i64) -> (r:
    DependencyChange)
    ensures
        is_dependency_change(r, *call, linked, prev as int, new as int),
{
    let payload = ObjectBuilder::new().put_text("card_id", &call.card_id).put_text(
        "board_id",
        &call.board_id,
    ).put_text("depends_on_card_id", &call.depends_on_id).put_int("prev_revision", prev).put_int(
        "new_revision",
        new,
    ).put_text("idempotency_key", &call.idempotency_key).build();
    DependencyChange {
        card_id: call.card_id.clone(),
        depends_on_id: call.depends_on_id.clone(),
        tenant_id: call.tenant_id.clone(),
        linked,
        revision: new,
        event: EventRow {
            tenant_id: call.tenant_id.clone(),
            board_id: call.board_id.clone(),
            event_type: "CardUpdated",
            payload,
        },
    }
}

/// What a request to add a dependency with a new key needs next: both cards are
/// looked for, and must be on the board.
pub open spec fn adds_dependency(
    r: CardStep<DependencyChange>,
    call: DependencyCall,
    facts: DependencyFacts,
) -> bool {
    let tenant_id = call.tenant_id;
    match (facts.head, facts.other) {
        (None, _) => r == (CardStep::<DependencyChange>::FindCard {
            card_id: call.card_id,
            tenant_id,
        }),
        (_, None) => r == (CardStep::<DependencyChange>::FindOther {
            card_id: call.depends_on_id,
            tenant_id,
        }),
        (Some(head), Some(other)) => if !is_on_board(head, call.board_id) || !is_on_board(
            other,
            call.board_id,
        ) {
            refuses(
                r,
                fault(Code::InvalidArgument, "both cards must belong to the authorized board"),
            )
        } else if head->Some_0.revision == i64::MAX {
            refuses(r, fault(Code::Internal, "failed to bump card revision"))
        } else if !facts.stored {
            r matches CardStep::Store(change) && is_dependency_change(
                change,
                call,
                true,
                head->Some_0.revision as int,
                head->Some_0.revision + 1,
            )
        } else {
            keeps_and_answers(
                r,
                call.card_id,
                tenant_id,
                call.idempotency_key,
                facts.kept,
                facts.loaded,
            )
        },
    }
}

/// What a request to add a dependency needs next.
pub open spec fn leads_add(
    r: CardStep<DependencyChange>,
    call: DependencyCall,
    facts: DependencyFacts,
) -> bool {
    match facts.replay {
        None => r == (CardStep::<DependencyChange>::FindKey {
            tenant_id: call.tenant_id,
            key: call.idempotency_key,
        }),
        Some(Some(earlier)) => answers_card(r, earlier, call.tenant_id, facts.loaded),
        Some(None) => adds_dependency(r, call, facts),
    }
}

/// Adds a dependency: what to do next, given what has been learned. A key that
/// was used before answers the card of that request, and nothing is stored.
pub fn add_card_dependency(call: &DependencyCall, facts: &DependencyFacts) -> (r: CardStep<
    DependencyChange,
>)
    ensures
        leads_add(r, *call, *facts),
{
    match &facts.replay {
        None => {
            return CardStep::FindKey {
                tenant_id: call.tenant_id.clone(),
                key: call.idempotency_key.clone(),
            };
        },
        Some(Some(earlier)) => {
            return answer_card(earlier, &call.tenant_id, &facts.loaded);
        },
        Some(None) => {},
    }
    let found = match &facts.head {
        None => {
            return CardStep::FindCard {
                card_id: call.card_id.clone(),
                tenant_id: call.tenant_id.clone(),
            };
        },
        Some(found) => found,
    };
    let other = match &facts.other {
        None => {
            return CardStep::FindOther {
                card_id: call.depends_on_id.clone(),
                tenant_id: call.tenant_id.clone(),
            };
        },
        Some(other) => other,
    };
    let head = match found {
        Some(head) if head.board_id == call.board_id && on_board(other, &call.board_id) => head,
        _ => {
            return CardStep::Refuse(
                Status::invalid_argument("both cards must belong to the authorized board"),
            );
        },
    };
    if head.revision == i64::MAX {
        return CardStep::Refuse(Status::internal("failed to bump card revision"));
    }
    if !facts.stored {
        return CardStep::Store(dependency_change(call, true, head.revision, head.revision + 1));
    }
    keep_and_answer(
        &call.card_id,
        &call.tenant_id,
        &call.idempotency_key,
        facts.kept,
        &facts.loaded,
    )
}

/// What a request to remove a dependency with a new key needs next. A
/// dependency that is not there leaves the card's revision as it is; the event
/// is written all the same.
pub open spec fn removes_dependency(
    r: CardStep<DependencyChange>,
    call: DependencyCall,
    facts: DependencyFacts,
) -> bool {
    let tenant_id = call.tenant_id;
    match (facts.head, facts.other, facts.linked) {
        (None, _, _) => r == (CardStep::<DependencyChange>::FindCard {
            card_id: call.card_id,
            tenant_id,
        }),
        (Some(head), _, _) if !is_on_board(head, call.board_id) => refuses(
            r,
            fault(Code::InvalidArgument, "card does not belong to the authorized board"),
        ),
        (_, None, _) => r == (CardStep::<DependencyChange>::FindOther {
            card_id: call.depends_on_id,
            tenant_id,
        }),
        (_, Some(other), _) if !is_on_board(other, call.board_id) => refuses(
            r,
            fault(
                Code::InvalidArgument,
                "dependency card does not belong to the authorized board",
            ),
        ),
        (_, _, None) => r == (CardStep::<DependencyChange>::FindDependency {
            card_id: call.card_id,
            depends_on_id: call.depends_on_id,
        }),
        (Some(head), _, Some(linked)) => {
            let revision = head->Some_0.revision;
            if linked && revision == i64::MAX {
                refuses(r, fault(Code::Internal, "failed to bump card revision"))
            } else if !facts.stored {
                r matches CardStep::Store(change) && is_dependency_change(
                    change,
                    call,
                    false,
                    revision as int,
                    if linked {
                        revision + 1
                    } else {
                        revision as int
                    },
                )
            } else {
                keeps_and_answers(
                    r,
                    call.card_id,
                    tenant_id,
                    call.idempotency_key,
                    facts.kept,
                    facts.loaded,
                )
            }
        },
    }
}

/// What a request to remove a dependency needs next.
pub open spec fn leads_remove(
    r: CardStep<DependencyChange>,
    call: DependencyCall,
    facts: DependencyFacts,
) -> bool {
    match facts.replay {
        None => r == (CardStep::<DependencyChange>::FindKey {
            tenant_id: call.tenant_id,
            key: call.idempotency_key,
        }),
        Some(Some(earlier)) => answers_card(r, earlier, call.tenant_id, facts.loaded),
        Some(None) => removes_dependency(r, call, facts),
    }
}

/// Removes a dependency: what to do next, given what has been learned. A key
/// that was used before answers the card of that request, and nothing is stored.
pub fn remove_card_dependency(call: &DependencyCall, facts: &DependencyFacts) -> (r: CardStep<
    DependencyChange,
>)
    ensures
        leads_remove(r, *call, *facts),
{
    match &facts.replay {
        None => {
            return CardStep::FindKey {
                tenant_id: call.tenant_id.clone(),
                key: call.idempotency_key.clone(),
            };
        },
        Some(Some(earlier)) => {
            return answer_card(earlier, &call.tenant_id, &facts.loaded);
        },
        Some(None) => {},
    }
    let head = match &facts.head {
        None => {
            return CardStep::FindCard {
                card_id: call.card_id.clone(),
                tenant_id: call.tenant_id.clone(),
            };
        },
        Some(Some(head)) if head.board_id == call.board_id => head,
        _ => {
            return CardStep::Refuse(
                Status::invalid_argument("card does not belong to the authorized board"),
            );
        },
    };
    match &facts.other {
        None => {
            return CardStep::FindOther {
                card_id: call.depends_on_id.clone(),
                tenant_id: call.tenant_id.clone(),
            };
        },
        Some(other) => {
            if !on_board(other, &call.board_id) {
                return CardStep::Refuse(
                    Status::invalid_argument(
                        "dependency card does not belong to the authorized board",
                    ),
                );
            }
        },
    }
    let linked = match facts.linked {
        None => {
            return CardStep::FindDependency {
                card_id: call.card_id.clone(),
                depends_on_id: call.depends_on_id.clone(),
            };
        },
        Some(linked) => linked,
    };
    if linked && head.revision == i64::MAX {
        return CardStep::Refuse(Status::internal("failed to bump card revision"));
    }
    if !facts.stored {
        let new: i64 = if linked {
            head.revision + 1
        } else {
            head.revision
        };
        return CardStep::Store(dependency_change(call, false, head.revision, new));
    }
    keep_and_answer(
        &call.card_id,
        &call.tenant_id,
        &call.idempotency_key,
        facts.kept,
        &facts.loaded,
    )
}

/// A card never depends on itself: no request that names one card twice may go
/// ahead to add a dependency.
pub proof fn law_no_card_depends_on_itself(ctx: RequestContext, req: DependencyRequest)
    requires
        req.card_id.id matches Some(a) && req.depends_on_card_id.id matches Some(b) && a@ == b@,
    ensures
        add_dependency_fault(ctx, req) is Some,
{
}

/// The dependencies between cards, each from the card to the one that it depends
/// on, after `change` is stored.
pub open spec fn edges_after(
    edges: Set<(Seq<char>, Seq<char>)>,
    change: DependencyChange,
) -> Set<(Seq<char>, Seq<char>)> {
    if change.linked {
        edges.insert((change.card_id@, change.depends_on_id@))
    } else {
        edges.remove((change.card_id@, change.depends_on_id@))
    }
}

/// `facts` tells of the two cards what is stored: the card's revision, and
/// whether it depends on the other.
pub open spec fn tells(
    facts: DependencyFacts,
    call: DependencyCall,
    edges: Set<(Seq<char>, Seq<char>)>,
    revision: int,
) -> bool {
    &&& facts.head matches Some(Some(head)) && head.revision == revision
    &&& facts.linked matches Some(linked) && linked == edges.contains(
        (call.card_id@, call.depends_on_id@),
    )
}

/// What a request to add a dependency stores makes the card depend on the other,
/// and touches no other dependency.
pub proof fn law_added_dependency_is_there(
    r: CardStep<DependencyChange>,
    call: DependencyCall,
    facts: DependencyFacts,
    edges: Set<(Seq<char>, Seq<char>)>,
    edge: (Seq<char>, Seq<char>),
)
    requires
        leads_add(r, call, facts),
        r is Store,
    ensures
        edges_after(edges, r->Store_0).contains((call.card_id@, call.depends_on_id@)),
        edge != (call.card_id@, call.depends_on_id@) ==> edges_after(edges, r->Store_0).contains(
            edge,
        ) == edges.contains(edge),
{
}

/// Removing a dependency undoes its addition: where the card did not depend on
/// the other before, the dependencies are again what they were, and the card has
/// gone up one revision more. Removing it once more is no error and changes
/// neither.
pub proof fn law_removal_undoes_addition(
    added: CardStep<DependencyChange>,
    call: DependencyCall,
    facts: DependencyFacts,
    removed: CardStep<DependencyChange>,
    removal: DependencyCall,
    learned: DependencyFacts,
    again: CardStep<DependencyChange>,
    second: DependencyCall,
    relearned: DependencyFacts,
    edges: Set<(Seq<char>, Seq<char>)>,
)
    requires
        leads_add(added, call, facts),
        added is Store,
        !edges.contains((call.card_id@, call.depends_on_id@)),
        leads_remove(removed, removal, learned),
        removed is Store,
        removal.card_id == call.card_id,
        removal.depends_on_id == call.depends_on_id,
        tells(
            learned,
            removal,
            edges_after(edges, added->Store_0),
            added->Store_0.revision as int,
        ),
        leads_remove(again, second, relearned),
        again is Store,
        second.card_id == call.card_id,
        second.depends_on_id == call.depends_on_id,
        tells(
            relearned,
            second,
            edges_after(edges_after(edges, added->Store_0), removed->Store_0),
            removed->Store_0.revision as int,
        ),
    ensures
        edges_after(edges_after(edges, added->Store_0), removed->Store_0) == edges,
        removed->Store_0.revision == added->Store_0.revision + 1,
        edges_after(edges, again->Store_0) == edges,
        again->Store_0.revision == removed->Store_0.revision,
{
    assert(edges_after(edges_after(edges, added->Store_0), removed->Store_0) =~= edges);
    assert(edges_after(edges, again->Store_0) =~= edges);
}

/// A removal is refused only where the two cards are not both on the board, or
/// the card's revision is at its last.
pub proof fn law_removal_is_granted(
    r: CardStep<DependencyChange>,
    call: DependencyCall,
    facts: DependencyFacts,
)
    requires
        leads_remove(r, call, facts),
        facts.replay == Some(None::<Id>),
        facts.head matches Some(head) && is_on_board(head, call.board_id)
            && head->Some_0.revision < i64::MAX,
        facts.other matches Some(other) && is_on_board(other, call.board_id),
        facts.linked is Some,
        !facts.stored,
    ensures
        r is Store,
{
}

/// A request sent again with its key changes no dependency: the card of the
/// first request is answered.
pub proof fn law_used_key_changes_no_dependency(
    r: CardStep<DependencyChange>,
    call: DependencyCall,
    facts: DependencyFacts,
    earlier: Id,
)
    requires
        leads_add(r, call, facts) || leads_remove(r, call, facts),
        facts.replay == Some(Some(earlier)),
    ensures
        !(r is Store),
        answers_card(r, earlier, call.tenant_id, facts.loaded),
{
}

/// A dependency is changed only between two cards of the board that the call was
/// authorized for.
pub proof fn law_dependency_stays_on_the_board(
    r: CardStep<DependencyChange>,
    call: DependencyCall,
    facts: DependencyFacts,
)
    requires
        leads_add(r, call, facts) || leads_remove(r, call, facts),
        r is Store,
    ensures
        facts.head matches Some(head) && is_on_board(head, call.board_id),
        facts.other matches Some(other) && is_on_board(other, call.board_id),
{
}

/// Adding a dependency makes the card that the request names first depend on
/// the one that it names second, not the other way round, and is one revision of
/// the first.
pub proof fn law_added_dependency_is_the_one_asked_for(
    r: CardStep<DependencyChange>,
    call: DependencyCall,
    facts: DependencyFacts,
)
    requires
        leads_add(r, call, facts),
        r is Store,
    ensures
        r->Store_0.card_id == call.card_id,
        r->Store_0.depends_on_id == call.depends_on_id,
        r->Store_0.tenant_id == call.tenant_id,
        r->Store_0.linked == true,
        facts.head matches Some(Some(_)),
        r->Store_0.revision == facts.head->Some_0->Some_0.revision + 1,
        r->Store_0.event.tenant_id == call.tenant_id,
        r->Store_0.event.board_id == call.board_id,
        r->Store_0.event.event_type@ == "CardUpdated"@,
        r->Store_0.event.payload@ matches JsonView::Object(members) && members =~= seq![
            ("card_id"@, JsonView::Text(call.card_id@)),
            ("board_id"@, JsonView::Text(call.board_id@)),
            ("depends_on_card_id"@, JsonView::Text(call.depends_on_id@)),
            ("prev_revision"@, JsonView::Int(facts.head->Some_0->Some_0.revision as int)),
            ("new_revision"@, JsonView::Int(r->Store_0.revision as int)),
            ("idempotency_key"@, JsonView::Text(call.idempotency_key@)),
        ],
{
}

/// Removing a dependency frees the card that the request names first from the
/// one that it names second, and is one revision of the first where it did
/// depend on it, and none where it did not.
pub proof fn law_removed_dependency_is_the_one_asked_for(
    r: CardStep<DependencyChange>,
    call: DependencyCall,
    facts: DependencyFacts,
)
    requires
        leads_remove(r, call, facts),
        r is Store,
    ensures
        r->Store_0.card_id == call.card_id,
        r->Store_0.depends_on_id == call.depends_on_id,
        r->Store_0.tenant_id == call.tenant_id,
        r->Store_0.linked == false,
        facts.head matches Some(Some(_)),
        r->Store_0.revision == facts.head->Some_0->Some_0.revision + if facts.linked == Some(
            true,
        ) {
            1int
        } else {
            0int
        },
        r->Store_0.event.tenant_id == call.tenant_id,
        r->Store_0.event.board_id == call.board_id,
        r->Store_0.event.event_type@ == "CardUpdated"@,
        r->Store_0.event.payload@ matches JsonView::Object(members) && members =~= seq![
            ("card_id"@, JsonView::Text(call.card_id@)),
            ("board_id"@, JsonView::Text(call.board_id@)),
            ("depends_on_card_id"@, JsonView::Text(call.depends_on_id@)),
            ("prev_revision"@, JsonView::Int(facts.head->Some_0->Some_0.revision as int)),
            ("new_revision"@, JsonView::Int(r->Store_0.revision as int)),
            ("idempotency_key"@, JsonView::Text(call.idempotency_key@)),
        ],
{
}

/// A dependency is added exactly where both cards were found on the board that
/// the call was authorized for, unless an earlier request with the key was
/// answered.
pub proof fn law_dependency_is_added_between_cards_of_the_board(
    r: CardStep<DependencyChange>,
    call: DependencyCall,
    facts: DependencyFacts,
    head: CardHead,
    other: CardHead,
)
    requires
        leads_add(r, call, facts),
    ensures
        r is Store <==> {
            &&& facts.replay == Some(None::<Id>)
            &&& facts.head matches Some(Some(h)) && h.board_id@ == call.board_id@ && h.revision
                < i64::MAX
            &&& facts.other matches Some(Some(o)) && o.board_id@ == call.board_id@
            &&& !facts.stored
        },
        facts.replay is None ==> r == (CardStep::<DependencyChange>::FindKey {
            tenant_id: call.tenant_id,
            key: call.idempotency_key,
        }),
        facts.replay == Some(None::<Id>) ==> {
            &&& facts.head is None ==> r == (CardStep::<DependencyChange>::FindCard {
                card_id: call.card_id,
                tenant_id: call.tenant_id,
            })
            &&& facts.head is Some && facts.other is None ==> r == (CardStep::<
                DependencyChange,
            >::FindOther { card_id: call.depends_on_id, tenant_id: call.tenant_id })
            &&& (facts.head == Some(None::<CardHead>) || facts.head == Some(Some(head))
                && head.board_id@ != call.board_id@) && facts.other is Some ==> refuses(
                r,
                fault(Code::InvalidArgument, "both cards must belong to the authorized board"),
            )
            &&& (facts.other == Some(None::<CardHead>) || facts.other == Some(Some(other))
                && other.board_id@ != call.board_id@) && facts.head is Some ==> refuses(
                r,
                fault(Code::InvalidArgument, "both cards must belong to the authorized board"),
            )
            &&& r is KeepKey || r is LoadCard || r is Answer ==> facts.stored && keeps_and_answers(
                r,
                call.card_id,
                call.tenant_id,
                call.idempotency_key,
                facts.kept,
                facts.loaded,
            )
        },
{
}

/// A dependency is removed exactly where both cards were found on the board that
/// the call was authorized for and it was looked up, unless an earlier request
/// with the key was answered.
pub proof fn law_dependency_is_removed_between_cards_of_the_board(
    r: CardStep<DependencyChange>,
    call: DependencyCall,
    facts: DependencyFacts,
    head: CardHead,
    other: CardHead,
)
    requires
        leads_remove(r, call, facts),
    ensures
        r is Store <==> {
            &&& facts.replay == Some(None::<Id>)
            &&& facts.head matches Some(Some(h)) && h.board_id@ == call.board_id@ && (h.revision
                < i64::MAX || facts.linked == Some(false))
            &&& facts.other matches Some(Some(o)) && o.board_id@ == call.board_id@
            &&& facts.linked is Some
            &&& !facts.stored
        },
        facts.replay is None ==> r == (CardStep::<DependencyChange>::FindKey {
            tenant_id: call.tenant_id,
            key: call.idempotency_key,
        }),
        facts.replay == Some(None::<Id>) ==> {
            &&& facts.head is None ==> r == (CardStep::<DependencyChange>::FindCard {
                card_id: call.card_id,
                tenant_id: call.tenant_id,
            })
            &&& facts.head == Some(None::<CardHead>) || facts.head == Some(Some(head))
                && head.board_id@ != call.board_id@ ==> refuses(
                r,
                fault(Code::InvalidArgument, "card does not belong to the authorized board"),
            )
            &&& facts.head == Some(Some(head)) && head.board_id@ == call.board_id@ ==> {
                &&& facts.other is None ==> r == (CardStep::<DependencyChange>::FindOther {
                    card_id: call.depends_on_id,
                    tenant_id: call.tenant_id,
                })
                &&& facts.other == Some(None::<CardHead>) || facts.other == Some(Some(other))
                    && other.board_id@ != call.board_id@ ==> refuses(
                    r,
                    fault(
                        Code::InvalidArgument,
                        "dependency card does not belong to the authorized board",
                    ),
                )
                &&& facts.other == Some(Some(other)) && other.board_id@ == call.board_id@
                    && facts.linked is None ==> r == (CardStep::<
                    DependencyChange,
                >::FindDependency { card_id: call.card_id, depends_on_id: call.depends_on_id })
            }
            &&& r is KeepKey || r is LoadCard || r is Answer ==> facts.stored && keeps_and_answers(
                r,
                call.card_id,
                call.tenant_id,
                call.idempotency_key,
                facts.kept,
                facts.loaded,
            )
        },
{
}

/// A request on a dependency needs a key and two identifiers, and one to add it
/// needs two different cards. It acts on the board that the call was authorized
/// for, and on the cards in the order of the request.
pub proof fn law_dependency_request_names_two_cards(
    ctx: RequestContext,
    req: DependencyRequest,
    call: DependencyCall,
)
    ensures
        dependency_fault(ctx, req) is None <==> {
            &&& ctx.object() is Some
            &&& ctx.tenant() is Some
            &&& req.idempotency_key@.len() > 0
            &&& req.card_id.id is Some
            &&& req.depends_on_card_id.id is Some
        },
        add_dependency_fault(ctx, req) is None <==> dependency_fault(ctx, req) is None
            && req.card_id.id->Some_0@ != req.depends_on_card_id.id->Some_0@,
        dependency_fault(ctx, req) is Some ==> add_dependency_fault(ctx, req) == dependency_fault(
            ctx,
            req,
        ),
        dependency_fault(ctx, req) is None && add_dependency_fault(ctx, req) is Some
            ==> add_dependency_fault(ctx, req) == Some(
            StatusView {
                code: Code::InvalidArgument,
                message: "a card cannot depend on itself"@,
            },
        ),
        is_dependency_call(call, ctx, req) <==> {
            &&& ctx.object() == Some(call.board_id)
            &&& ctx.tenant() == Some(call.tenant_id)
            &&& req.card_id.id == Some(call.card_id)
            &&& req.depends_on_card_id.id == Some(call.depends_on_id)
            &&& call.idempotency_key == req.idempotency_key
        },
{
}

/// A request on a dependency is refused for the first thing that is missing:
/// the board, the tenant, the key, the card, the card that it depends on.
pub proof fn law_dependency_request_is_refused_in_order(ctx: RequestContext, req: DependencyRequest)
    ensures
        dependency_fault(ctx, req) == if ctx.checked_object_id is None {
            Some(StatusView { code: Code::Internal, message: "missing CheckedObjectId extension"@ })
        } else if ctx.object() is None {
            Some(StatusView { code: Code::InvalidArgument, message: "invalid board_id"@ })
        } else if ctx.tenant() is None {
            Some(StatusView { code: Code::Unauthenticated, message: "missing tenant context"@ })
        } else if req.idempotency_key@.len() == 0 {
            Some(StatusView { code: Code::InvalidArgument, message: "idempotency_key is required"@ })
        } else if req.card_id.id is None {
            Some(StatusView { code: Code::InvalidArgument, message: "invalid card_id"@ })
        } else if req.depends_on_card_id.id is None {
            Some(StatusView { code: Code::InvalidArgument, message: "invalid depends_on_card_id"@ })
        } else {
            None
        },
{
}

} // verus!
