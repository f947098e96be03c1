//! Milestones of projects.
//!
//! Whoever may view a project sees its milestones; whoever may manage it changes
//! them. A milestone shows how many cards it has and how many of them are done.
use crate::cards::model::CardRow;
use crate::context::{id_fault, require_id, subject_fault, subject_from_request, tenant_fault};
use crate::context::{tenant_id_from_request, Id, IdArg, RequestContext};
use crate::mask::{is_masked, mask_contains};
use crate::number::{low_i32, truncate_i32};
use crate::page::lemma_filter_selects;
use crate::permission::{asks_project, project_check, PermissionCheck};
use crate::status::{fault, fault_if, first_of3, first_of4, Code, Status, StatusView};
use crate::text::opt_view;
use crate::timestamp::{opt_from_proto_ts, stored_time, Timestamp};
use vstd::prelude::*;

verus! {

/// A stored milestone.
#[derive(Debug)]
pub struct MilestoneRow {
    pub id: Id,
    pub project_id: Id,
    pub title: String,
    pub due: Option<Timestamp>,
    pub created_at: Timestamp,
    pub updated_at: Timestamp,
}

/// How many cards a milestone has, and how many of them are done.
#[derive(Debug)]
pub struct CardStats {
    pub milestone_id: Id,
    pub total: i64,
    pub completed: i64,
}

/// A milestone as it is answered.
#[derive(Debug)]
pub struct Milestone {
    pub id: Id,
    pub project_id: Id,
    pub title: String,
    pub due: Option<Timestamp>,
    pub total_cards: i32,
    pub completed_cards: i32,
    pub created_at: Timestamp,
    pub updated_at: Timestamp,
}

/// The counts of a milestone: what is listed for it first, and none where
/// nothing is.
pub open spec fn counts_of(stats: Seq<CardStats>, id: Seq<char>) -> (int, int)
    decreases stats.len(),
{
    if stats.len() == 0 {
        (0, 0)
    } else if stats[0].milestone_id@ == id {
        (low_i32(stats[0].total as int), low_i32(stats[0].completed as int))
    } else {
        counts_of(stats.drop_first(), id)
    }
}

/// `m` shows the milestone in `row` with the given counts.
pub open spec fn shows_milestone(m: Milestone, row: MilestoneRow, counts: (int, int)) -> bool {
    &&& m.id == row.id
    &&& m.project_id == row.project_id
    &&& m.title == row.title
    &&& m.due == row.due
    &&& m.total_cards == counts.0
    &&& m.completed_cards == counts.1
    &&& m.created_at == row.created_at
    &&& m.updated_at == row.updated_at
}

/// The milestone as it is answered, with the given counts.
pub fn milestone_from_row(row: &MilestoneRow, stats: (i32, i32)) -> (r: Milestone)
    ensures
        shows_milestone(r, *row, (stats.0 as int, stats.1 as int)),
{
    Milestone {
        id: row.id.clone(),
        project_id: row.project_id.clone(),
        title: row.title.clone(),
        due: row.due,
        total_cards: stats.0,
        completed_cards: stats.1,
        created_at: row.created_at,
        updated_at: row.updated_at,
    }
}

fn find_counts(stats: &Vec<CardStats>, id: &Id) -> (r: (i32, i32))
    ensures
        (r.0 as int, r.1 as int) == counts_of(stats@, id@),
{
    let mut i: usize = 0;
    assert(stats@.skip(0) =~= stats@);
    while i < stats.len()
        invariant
            i <= stats.len(),
            counts_of(stats@, id@) == counts_of(stats@.skip(i as int), id@),
        decreases stats.len() - i,
    {
        assert(stats@.skip(i as int)[0] == stats@[i as int]);
        if stats[i].milestone_id == *id {
            return (truncate_i32(stats[i].total), truncate_i32(stats[i].completed));
        }
        assert(stats@.skip(i as int).drop_first() =~= stats@.skip(i + 1));
        i += 1;
    }
    (0, 0)
}

/// The milestone as it is answered, with its counts.
pub fn milestone_with_stats(row: &MilestoneRow, stats: &Vec<CardStats>) -> (r: Milestone)
    ensures
        shows_milestone(r, *row, counts_of(stats@, row.id@)),
{
    milestone_from_row(row, find_counts(stats, &row.id))
}

/// What a request on a milestone needs next.
#[derive(Debug)]
pub enum MilestoneStep {
    /// Look for the milestone.
    FindMilestone { milestone_id: Id, tenant_id: String },
    /// Ask the permission backend.
    Check(PermissionCheck),
    Create(NewMilestone),
    Update(MilestoneUpdate),
    /// Take the milestone off all cards that have it and delete it, together.
    Delete { milestone_id: Id, tenant_id: String },
    /// Count the cards of the milestone.
    LoadStats { milestone_id: Id, tenant_id: String },
    Answer(Milestone),
    /// The request is done and has nothing to answer.
    Done,
    Refuse(Status),
}

/// A milestone to be stored.
#[derive(Debug)]
pub struct NewMilestone {
    pub id: Id,
    pub tenant_id: String,
    pub project_id: Id,
    pub title: String,
    pub due: Option<Timestamp>,
}

/// A change to a milestone.
#[derive(Debug)]
pub struct MilestoneUpdate {
    pub milestone_id: Id,
    pub tenant_id: String,
    /// The new title; none leaves it as it is.
    pub title: Option<String>,
    /// The new due date, which may be none; none at all leaves it as it is.
    pub due: Option<Option<Timestamp>>,
}

/// `r` refuses, and says exactly `f`.
pub open spec fn rejects(r: MilestoneStep, f: StatusView) -> bool {
    r matches MilestoneStep::Refuse(e) && e@ == f
}

/// A request to create a milestone that may go ahead.
#[derive(Debug)]
pub struct CreateMilestoneCall {
    pub subject: String,
    pub tenant_id: String,
    pub project_id: Id,
    pub title: String,
    pub due: Option<Timestamp>,
}

/// Why a request to create a milestone is refused before anything is looked up.
pub open spec fn create_milestone_fault(
    ctx: RequestContext,
    project_id: IdArg,
    title: String,
) -> Option<StatusView> {
    first_of4(
        subject_fault(ctx),
        tenant_fault(ctx),
        fault_if(title@.len() == 0, Code::InvalidArgument, "title is required"),
        id_fault(project_id, "invalid project_id"),
    )
}

/// Checks a request to create a milestone.
pub fn create_milestone_call(
    ctx: &RequestContext,
    project_id: &IdArg,
    title: String,
    due: Option<Timestamp>,
) -> (r: Result<CreateMilestoneCall, Status>)
    ensures
        match r {
            Ok(call) => {
                &&& create_milestone_fault(*ctx, *project_id, title) is None
                &&& ctx.subject() == Some(call.subject)
                &&& ctx.tenant() == Some(call.tenant_id)
                &&& project_id.id == Some(call.project_id)
                &&& call.title == title
                &&& call.due == stored_time(due)
            },
            Err(e) => create_milestone_fault(*ctx, *project_id, title) == Some(e@),
        },
{
    let subject = subject_from_request(ctx)?;
    let tenant_id = tenant_id_from_request(ctx)?;
    if title.as_str().is_empty() {
        return Err(Status::invalid_argument("title is required"));
    }
    let project_id = require_id(project_id, "invalid project_id")?;
    Ok(CreateMilestoneCall { subject, tenant_id, project_id, title, due: opt_from_proto_ts(due) })
}

/// Creates a milestone: what to do next, given whether the caller may and, once
/// it was stored, the milestone. A new milestone has no cards.
pub fn create_milestone(
    call: &CreateMilestoneCall,
    milestone_id: &Id,
    allowed: Option<bool>,
    stored: &Option<MilestoneRow>,
) -> (r: MilestoneStep)
    ensures
        match (allowed, *stored) {
            (None, _) => r matches MilestoneStep::Check(c) && asks_project(
                c,
                call.project_id,
                "manage",
                call.subject,
            ),
            (Some(false), _) => rejects(r, fault(Code::PermissionDenied, "permission denied")),
            (Some(true), None) => r == MilestoneStep::Create(
                NewMilestone {
                    id: *milestone_id,
                    tenant_id: call.tenant_id,
                    project_id: call.project_id,
                    title: call.title,
                    due: call.due,
                },
            ),
            (Some(true), Some(row)) => r matches MilestoneStep::Answer(m) && shows_milestone(
                m,
                row,
                (0, 0),
            ),
        },
{
    match allowed {
        None => MilestoneStep::Check(project_check(&call.project_id, "manage", &call.subject)),
        Some(false) => MilestoneStep::Refuse(Status::permission_denied("permission denied")),
        Some(true) => match stored {
            None => MilestoneStep::Create(
                NewMilestone {
                    id: milestone_id.clone(),
                    tenant_id: call.tenant_id.clone(),
                    project_id: call.project_id.clone(),
                    title: call.title.clone(),
                    due: call.due,
                },
            ),
            Some(row) => MilestoneStep::Answer(milestone_from_row(row, (0, 0))),
        },
    }
}

/// A request for the milestones of a project that may go ahead.
#[derive(Debug)]
pub struct ListMilestonesCall {
    pub tenant_id: String,
    pub project_id: Id,
    /// Whether the caller may view the project.
    pub check: PermissionCheck,
}

/// Why a request for the milestones of a project is refused before anything is
/// looked up.
pub open spec fn list_milestones_fault(ctx: RequestContext, project_id: IdArg) -> Option<
    StatusView,
> {
    first_of3(subject_fault(ctx), tenant_fault(ctx), id_fault(project_id, "invalid project_id"))
}

/// Checks a request for the milestones of a project.
pub fn list_milestones_call(ctx: &RequestContext, project_id: &IdArg) -> (r: Result<
    ListMilestonesCall,
    Status,
>)
    ensures
        match r {
            Ok(call) => {
                &&& list_milestones_fault(*ctx, *project_id) is None
                &&& ctx.tenant() == Some(call.tenant_id)
                &&& project_id.id == Some(call.project_id)
                &&& asks_project(call.check, call.project_id, "view", ctx.subject()->Some_0)
            },
            Err(e) => list_milestones_fault(*ctx, *project_id) == Some(e@),
        },
{
    let subject = subject_from_request(ctx)?;
    let tenant_id = tenant_id_from_request(ctx)?;
    let project_id = require_id(project_id, "invalid project_id")?;
    let check = project_check(&project_id, "view", &subject);
    Ok(ListMilestonesCall { tenant_id, project_id, check })
}

/// The milestones among `rows` of the project, in their order.
pub open spec fn project_milestones(rows: Seq<MilestoneRow>, project_id: Seq<char>) -> Seq<
    MilestoneRow,
> {
    rows.filter(|row: MilestoneRow| row.project_id@ == project_id)
}

/// The milestones of the project as they are answered, each with its counts.
pub fn list_milestones(rows: &Vec<MilestoneRow>, stats: &Vec<CardStats>, project_id: &Id) -> (r:
    Vec<Milestone>)
    ensures
        r.len() == project_milestones(rows@, project_id@).len(),
        forall|i: int|
            0 <= i < r.len() ==> {
                let row = project_milestones(rows@, project_id@)[i];
                shows_milestone(#[trigger] r[i], row, counts_of(stats@, row.id@))
            },
{
    let ghost keep = |row: MilestoneRow| row.project_id@ == project_id@;
    let mut r: Vec<Milestone> = Vec::new();
    let mut i: usize = 0;
    assert(rows@.take(0).filter(keep).len() == 0) by {
        reveal(Seq::filter);
    }
    while i < rows.len()
        invariant
            i <= rows.len(),
            keep == (|row: MilestoneRow| row.project_id@ == project_id@),
            r.len() == rows@.take(i as int).filter(keep).len(),
            forall|j: int|
                0 <= j < r.len() ==> {
                    let row = rows@.take(i as int).filter(keep)[j];
                    shows_milestone(#[trigger] r[j], row, counts_of(stats@, row.id@))
                },
        decreases rows.len() - i,
    {
        proof {
            assert(rows@.take(i + 1).drop_last() =~= rows@.take(i as int));
            reveal(Seq::filter);
        }
        if rows[i].project_id == *project_id {
            r.push(milestone_with_stats(&rows[i], stats));
        }
        i += 1;
    }
    assert(rows@.take(rows@.len() as int) =~= rows@);
    r
}

/// A milestone that may be acted on.
#[derive(Debug)]
pub struct MilestoneCall {
    pub subject: String,
    pub tenant_id: String,
    pub milestone_id: Id,
}

/// Why a request on a milestone is refused before anything is looked up.
pub open spec fn milestone_fault(ctx: RequestContext, milestone_id: IdArg) -> Option<StatusView> {
    first_of3(
        subject_fault(ctx),
        tenant_fault(ctx),
        id_fault(milestone_id, "invalid milestone_id"),
    )
}

/// Checks a request to read, change or delete a milestone.
pub fn milestone_call(ctx: &RequestContext, milestone_id: &IdArg) -> (r: Result<
    MilestoneCall,
    Status,
>)
    ensures
        match r {
            Ok(call) => {
                &&& milestone_fault(*ctx, *milestone_id) is None
                &&& ctx.subject() == Some(call.subject)
                &&& ctx.tenant() == Some(call.tenant_id)
                &&& milestone_id.id == Some(call.milestone_id)
            },
            Err(e) => milestone_fault(*ctx, *milestone_id) == Some(e@),
        },
{
    let subject = subject_from_request(ctx)?;
    let tenant_id = tenant_id_from_request(ctx)?;
    let milestone_id = require_id(milestone_id, "invalid milestone_id")?;
    Ok(MilestoneCall { subject, tenant_id, milestone_id })
}

/// What has been learned for a request on a milestone.
#[derive(Debug)]
pub struct MilestoneFacts {
    /// The milestone, once it was looked for.
    pub row: Option<Option<MilestoneRow>>,
    /// Whether the caller may, once that was asked.
    pub allowed: Option<bool>,
    /// The changed milestone, once the change was made.
    pub updated: Option<MilestoneRow>,
    /// The counts of its cards.
    pub stats: Option<Vec<CardStats>>,
    /// How many milestones were deleted.
    pub deleted: Option<u64>,
}

/// `r` looks for the milestone, asks whether the caller has the relation to its
/// project, and refuses where it is not found or they have not.
pub open spec fn lets_in(
    r: MilestoneStep,
    call: MilestoneCall,
    relation: &str,
    facts: MilestoneFacts,
) -> bool {
    match (facts.row, facts.allowed) {
        (None, _) => r == (MilestoneStep::FindMilestone {
            milestone_id: call.milestone_id,
            tenant_id: call.tenant_id,
        }),
        (Some(None), _) => rejects(r, fault(Code::NotFound, "milestone not found")),
        (Some(Some(row)), None) => r matches MilestoneStep::Check(c) && asks_project(
            c,
            row.project_id,
            relation,
            call.subject,
        ),
        (Some(Some(_)), Some(false)) => rejects(
            r,
            fault(Code::PermissionDenied, "permission denied"),
        ),
        (Some(Some(_)), Some(true)) => false,
    }
}

/// The milestone was found and the caller may.
pub open spec fn is_let_in(facts: MilestoneFacts) -> bool {
    facts.row matches Some(Some(_)) && facts.allowed == Some(true)
}

fn let_in(call: &MilestoneCall, relation: &'static str, facts: &MilestoneFacts) -> (r: Option<
    MilestoneStep,
>)
    ensures
        match r {
            None => is_let_in(*facts),
            Some(step) => !is_let_in(*facts) && lets_in(step, *call, relation, *facts),
        },
{
    match &facts.row {
        None => Some(
            MilestoneStep::FindMilestone {
                milestone_id: call.milestone_id.clone(),
                tenant_id: call.tenant_id.clone(),
            },
        ),
        Some(None) => Some(MilestoneStep::Refuse(Status::not_found("milestone not found"))),
        Some(Some(row)) => match facts.allowed {
            None => Some(
                MilestoneStep::Check(project_check(&row.project_id, relation, &call.subject)),
            ),
            Some(false) => Some(
                MilestoneStep::Refuse(Status::permission_denied("permission denied")),
            ),
            Some(true) => None,
        },
    }
}

/// `r` counts the milestone's cards, or answers it.
pub open spec fn answers_milestone(
    r: MilestoneStep,
    call: MilestoneCall,
    row: MilestoneRow,
    stats: Option<Vec<CardStats>>,
) -> bool {
    match stats {
        None => r == (MilestoneStep::LoadStats {
            milestone_id: row.id,
            tenant_id: call.tenant_id,
        }),
        Some(stats) => r matches MilestoneStep::Answer(m) && shows_milestone(
            m,
            row,
            counts_of(stats@, row.id@),
        ),
    }
}

fn answer_milestone(call: &MilestoneCall, row: &MilestoneRow, stats: &Option<Vec<CardStats>>) -> (r:
    MilestoneStep)
    ensures
        answers_milestone(r, *call, *row, *stats),
{
    match stats {
        None => MilestoneStep::LoadStats {
            milestone_id: row.id.clone(),
            tenant_id: call.tenant_id.clone(),
        },
        Some(stats) => MilestoneStep::Answer(milestone_with_stats(row, stats)),
    }
}

/// What a request for a milestone needs next.
pub open spec fn reads_milestone(r: MilestoneStep, call: MilestoneCall, facts: MilestoneFacts) -> bool {
    if is_let_in(facts) {
        answers_milestone(r, call, facts.row->Some_0->Some_0, facts.stats)
    } else {
        lets_in(r, call, "view", facts)
    }
}

/// Reads a milestone: what to do next, given what has been learned.
pub fn get_milestone(call: &MilestoneCall, facts: &MilestoneFacts) -> (r: MilestoneStep)
    ensures
        reads_milestone(r, *call, *facts),
{
    if let Some(step) = let_in(call, "view", facts) {
        return step;
    }
    match &facts.row {
        Some(Some(row)) => answer_milestone(call, row, &facts.stats),
        _ => MilestoneStep::Done,
    }
}

/// The change that a request asks for: the mask names what changes, and a due
/// date that is named and left out is cleared.
pub open spec fn is_milestone_update(
    u: MilestoneUpdate,
    call: MilestoneCall,
    title: String,
    due: Option<Timestamp>,
    mask: Seq<String>,
) -> bool {
    &&& u.milestone_id == call.milestone_id
    &&& u.tenant_id == call.tenant_id
    &&& u.title == if is_masked(mask, "title") {
        Some(title)
    } else {
        None
    }
    &&& u.due == if is_masked(mask, "due") {
        Some(stored_time(due))
    } else {
        None
    }
}

/// Changes a milestone: what to do next, given what has been learned. A title
/// cannot be taken away.
pub fn update_milestone(
    call: &MilestoneCall,
    title: &String,
    due: Option<Timestamp>,
    mask: &Vec<String>,
    facts: &MilestoneFacts,
) -> (r: MilestoneStep)
    ensures
        if !is_let_in(*facts) {
            lets_in(r, *call, "manage", *facts)
        } else if is_masked(mask@, "title") && title@.len() == 0 {
            rejects(r, fault(Code::InvalidArgument, "title cannot be empty"))
        } else {
            match facts.updated {
                None => r matches MilestoneStep::Update(u) && is_milestone_update(
                    u,
                    *call,
                    *title,
                    due,
                    mask@,
                ),
                Some(row) => answers_milestone(r, *call, row, facts.stats),
            }
        },
{
    if let Some(step) = let_in(call, "manage", facts) {
        return step;
    }
    let title_change = mask_contains(mask, "title");
    if title_change && title.as_str().is_empty() {
        return MilestoneStep::Refuse(Status::invalid_argument("title cannot be empty"));
    }
    match &facts.updated {
        None => MilestoneStep::Update(
            MilestoneUpdate {
                milestone_id: call.milestone_id.clone(),
                tenant_id: call.tenant_id.clone(),
                title: if title_change {
                    Some(title.clone())
                } else {
                    None
                },
                due: if mask_contains(mask, "due") {
                    Some(opt_from_proto_ts(due))
                } else {
                    None
                },
            },
        ),
        Some(row) => answer_milestone(call, row, &facts.stats),
    }
}

/// What a request to delete a milestone needs next.
pub open spec fn deletes_milestone(r: MilestoneStep, call: MilestoneCall, facts: MilestoneFacts) -> bool {
    if !is_let_in(facts) {
        lets_in(r, call, "manage", facts)
    } else {
        match facts.deleted {
            None => r == (MilestoneStep::Delete {
                milestone_id: call.milestone_id,
                tenant_id: call.tenant_id,
            }),
            Some(0) => rejects(r, fault(Code::NotFound, "milestone not found")),
            Some(_) => r is Done,
        }
    }
}

/// Deletes a milestone: what to do next, given what has been learned. The cards
/// that have it lose it together with it.
pub fn delete_milestone(call: &MilestoneCall, facts: &MilestoneFacts) -> (r: MilestoneStep)
    ensures
        deletes_milestone(r, *call, *facts),
{
    if let Some(step) = let_in(call, "manage", facts) {
        return step;
    }
    match facts.deleted {
        None => MilestoneStep::Delete {
            milestone_id: call.milestone_id.clone(),
            tenant_id: call.tenant_id.clone(),
        },
        Some(deleted) => if deleted == 0 {
            MilestoneStep::Refuse(Status::not_found("milestone not found"))
        } else {
            MilestoneStep::Done
        },
    }
}

/// Nothing of a milestone reaches a caller whom the permission backend denies:
/// reading, changing and deleting it are all refused, and nothing is written.
pub proof fn law_denied_caller_changes_nothing(
    r: MilestoneStep,
    call: MilestoneCall,
    relation: &str,
    facts: MilestoneFacts,
)
    requires
        facts.allowed == Some(false),
        lets_in(r, call, relation, facts),
    ensures
        !(r is Update) && !(r is Delete) && !(r is Answer) && !(r is LoadStats),
{
}

/// The card without the milestone: a card that has another one, or none, stays
/// as it is.
pub open spec fn without_milestone(card: CardRow, milestone_id: Seq<char>) -> CardRow {
    if opt_view(card.milestone_id) == Some(milestone_id) {
        CardRow { milestone_id: None, ..card }
    } else {
        card
    }
}

/// The milestone in the row is another one.
pub open spec fn is_another(row: MilestoneRow, milestone_id: Seq<char>) -> bool {
    row.id@ != milestone_id
}

/// The tenant's cards after step `r` is performed.
pub open spec fn cards_after(cards: Seq<CardRow>, r: MilestoneStep) -> Seq<CardRow> {
    match r {
        MilestoneStep::Delete { milestone_id, .. } => cards.map_values(
            |card: CardRow| without_milestone(card, milestone_id@),
        ),
        _ => cards,
    }
}

/// The tenant's milestones after step `r`, where it deletes one.
pub open spec fn milestones_left(rows: Seq<MilestoneRow>, r: MilestoneStep) -> Seq<MilestoneRow> {
    match r {
        MilestoneStep::Delete { milestone_id, .. } => rows.filter(
            |row: MilestoneRow| is_another(row, milestone_id@),
        ),
        _ => rows,
    }
}

/// Deleting a milestone deletes no card: a card that had the milestone has none
/// after it and is otherwise what it was, and every other card is what it was.
pub proof fn law_deletion_clears_the_milestone_off_its_cards(
    r: MilestoneStep,
    call: MilestoneCall,
    facts: MilestoneFacts,
    cards: Seq<CardRow>,
)
    requires
        deletes_milestone(r, call, facts),
        r is Delete,
    ensures
        cards_after(cards, r).len() == cards.len(),
        forall|i: int|
            0 <= i < cards.len() ==> #[trigger] cards_after(cards, r)[i] == if opt_view(
                cards[i].milestone_id,
            ) == Some(call.milestone_id@) {
                CardRow { milestone_id: None, ..cards[i] }
            } else {
                cards[i]
            },
{
}

/// A deleted milestone is gone, and a request for it is refused; every other
/// milestone is left.
pub proof fn law_deleted_milestone_is_gone(
    r: MilestoneStep,
    call: MilestoneCall,
    facts: MilestoneFacts,
    rows: Seq<MilestoneRow>,
    again: MilestoneStep,
    request: MilestoneCall,
    learned: MilestoneFacts,
    other: MilestoneRow,
)
    requires
        deletes_milestone(r, call, facts),
        r is Delete,
        reads_milestone(again, request, learned),
        request.milestone_id == call.milestone_id,
        learned.row is Some,
        learned.row matches Some(Some(row)) ==> milestones_left(rows, r).contains(row) && row.id@
            == request.milestone_id@,
    ensures
        rejects(again, fault(Code::NotFound, "milestone not found")),
        rows.contains(other) && other.id@ != call.milestone_id@ ==> milestones_left(
            rows,
            r,
        ).contains(other),
{
    let keep = |row: MilestoneRow| is_another(row, call.milestone_id@);
    let left = milestones_left(rows, r);
    if let Some(Some(row)) = learned.row {
        let i = choose|i: int| 0 <= i < left.len() && left[i] == row;
        rows.lemma_filter_pred(keep, i);
    }
    if rows.contains(other) && keep(other) {
        let i = choose|i: int| 0 <= i < rows.len() && rows[i] == other;
        rows.lemma_filter_contains(keep, i);
    }
}

/// A milestone is answered as it is stored, with the counts of its cards.
pub proof fn law_milestone_is_answered_as_stored(
    m: Milestone,
    row: MilestoneRow,
    counts: (int, int),
)
    ensures
        shows_milestone(m, row, counts) <==> {
            &&& m.id == row.id
            &&& m.project_id == row.project_id
            &&& m.title == row.title
            &&& m.due == row.due
            &&& m.total_cards == counts.0
            &&& m.completed_cards == counts.1
            &&& m.created_at == row.created_at
            &&& m.updated_at == row.updated_at
        },
{
}

/// The counts of a milestone are those that were counted for it, whatever their
/// place; where none were, it has no cards.
pub proof fn law_milestone_has_its_own_counts(stats: Seq<CardStats>, id: Seq<char>, k: int)
    requires
        0 <= k <= stats.len(),
        forall|j: int| 0 <= j < k ==> (#[trigger] stats[j]).milestone_id@ != id,
    ensures
        k == stats.len() ==> counts_of(stats, id) == (0int, 0int),
        k < stats.len() && stats[k].milestone_id@ == id && 0 <= stats[k].total <= i32::MAX
            ==> counts_of(stats, id).0 == stats[k].total,
        k < stats.len() && stats[k].milestone_id@ == id && 0 <= stats[k].completed <= i32::MAX
            ==> counts_of(stats, id).1 == stats[k].completed,
    decreases k,
{
    if k > 0 {
        let rest = stats.drop_first();
        assert forall|j: int| 0 <= j < k - 1 implies (#[trigger] rest[j]).milestone_id@ != id by {
            assert(stats[j + 1].milestone_id@ != id);
        }
        assert(stats[0].milestone_id@ != id);
        law_milestone_has_its_own_counts(rest, id, k - 1);
    }
}

/// A project's milestones are those of the project, all of them, each once and
/// in their order.
pub proof fn law_listing_leaves_out_no_milestone(rows: Seq<MilestoneRow>, project_id: Id)
    ensures
        exists|at: Seq<int>|
            {
                &&& #[trigger] at.len() == project_milestones(rows, project_id@).len()
                &&& forall|i: int, j: int|
                    0 <= i < j < at.len() ==> #[trigger] at[i] < #[trigger] at[j]
                &&& forall|k: int| #[trigger]
                    at.contains(k) <==> 0 <= k < rows.len() && rows[k].project_id@ == project_id@
                &&& forall|i: int|
                    0 <= i < at.len() ==> project_milestones(rows, project_id@)[i]
                        == rows[#[trigger] at[i]]
            },
{
    let at = lemma_filter_selects(rows, |row: MilestoneRow| row.project_id@ == project_id@);
    assert(at.len() == project_milestones(rows, project_id@).len());
}

/// A request on a milestone is let in where the milestone is there and the
/// permission backend says so of its project, of the relation that is needed and
/// of the caller.
pub proof fn law_milestone_is_asked_of_its_project(
    r: MilestoneStep,
    call: MilestoneCall,
    relation: &str,
    facts: MilestoneFacts,
    row: MilestoneRow,
    code: Code,
)
    ensures
        is_let_in(facts) <==> facts.row is Some && facts.row->Some_0 is Some && facts.allowed
            == Some(true),
        lets_in(r, call, relation, facts) ==> {
            &&& !is_let_in(facts)
            &&& facts.row is None ==> r == (MilestoneStep::FindMilestone {
                milestone_id: call.milestone_id,
                tenant_id: call.tenant_id,
            })
            &&& facts.row == Some(None::<MilestoneRow>) ==> (r matches MilestoneStep::Refuse(e)
                && e.code == Code::NotFound && e.message@ == "milestone not found"@)
            &&& facts.row == Some(Some(row)) && facts.allowed is None ==> (
            r matches MilestoneStep::Check(c) && asks_project(
                c,
                row.project_id,
                relation,
                call.subject,
            ))
            &&& facts.row == Some(Some(row)) && facts.allowed == Some(false) ==> (
            r matches MilestoneStep::Refuse(e) && e.code == Code::PermissionDenied && e.message@
                == "permission denied"@)
        },
        rejects(r, fault(code, relation)) <==> (r matches MilestoneStep::Refuse(e) && e.code
            == code && e.message@ == relation@),
{
}

/// A milestone is answered with the counts that were counted for it.
pub proof fn law_milestone_is_counted_and_answered(
    r: MilestoneStep,
    call: MilestoneCall,
    row: MilestoneRow,
    stats: Option<Vec<CardStats>>,
)
    ensures
        stats is None ==> (answers_milestone(r, call, row, stats) <==> r == (
        MilestoneStep::LoadStats { milestone_id: row.id, tenant_id: call.tenant_id })),
        stats is Some ==> (answers_milestone(r, call, row, stats) <==> (
        r matches MilestoneStep::Answer(m) && shows_milestone(
            m,
            row,
            counts_of(stats->Some_0@, row.id@),
        ))),
{
}

/// Who may view a project may read its milestones, and no one else.
pub proof fn law_viewers_read_milestones(
    r: MilestoneStep,
    call: MilestoneCall,
    facts: MilestoneFacts,
)
    ensures
        is_let_in(facts) ==> (reads_milestone(r, call, facts) <==> answers_milestone(
            r,
            call,
            facts.row->Some_0->Some_0,
            facts.stats,
        )),
        !is_let_in(facts) ==> (reads_milestone(r, call, facts) <==> lets_in(
            r,
            call,
            "view",
            facts,
        )),
{
}

/// A change to a milestone sets its title exactly where the mask names it, and
/// its due date exactly where the mask names that, each to its own value; a due
/// date that is masked and not given is taken away.
pub proof fn law_milestone_fields_are_set_from_their_own(
    u: MilestoneUpdate,
    call: MilestoneCall,
    title: String,
    due: Option<Timestamp>,
    mask: Seq<String>,
)
    requires
        is_milestone_update(u, call, title, due, mask),
    ensures
        u.milestone_id == call.milestone_id,
        u.tenant_id == call.tenant_id,
        is_masked(mask, "title") ==> u.title == Some(title),
        !is_masked(mask, "title") ==> u.title is None,
        is_masked(mask, "due") && due is None ==> u.due == Some(None::<Timestamp>),
        is_masked(mask, "due") && due is Some && 0 <= due->Some_0.seconds <= 8210266876799 && 0
            <= due->Some_0.nanos < 1_000_000_000 ==> u.due == Some(due),
        !is_masked(mask, "due") ==> u.due is None,
{
}

/// A milestone is deleted where it is there and the caller may manage its
/// project, and it is that milestone. It is not found where nothing was deleted.
pub proof fn law_milestone_is_deleted_by_managers(
    r: MilestoneStep,
    call: MilestoneCall,
    facts: MilestoneFacts,
)
    requires
        deletes_milestone(r, call, facts),
    ensures
        r is Delete <==> is_let_in(facts) && facts.deleted is None,
        r is Delete ==> r == (MilestoneStep::Delete {
            milestone_id: call.milestone_id,
            tenant_id: call.tenant_id,
        }),
        !is_let_in(facts) ==> lets_in(r, call, "manage", facts),
        is_let_in(facts) && facts.deleted is Some ==> if facts.deleted->Some_0 == 0 {
            r matches MilestoneStep::Refuse(e) && e.code == Code::NotFound && e.message@
                == "milestone not found"@
        } else {
            r is Done
        },
{
}

/// A request to create a milestone needs a caller, a tenant, a title and a
/// project, and is refused for the first that is missing.
pub proof fn law_milestone_creation_is_refused_in_order(ctx: RequestContext, project_id: IdArg, title: String)
    ensures
        create_milestone_fault(ctx, project_id, title) == if ctx.subject() is None {
            Some(StatusView { code: Code::Unauthenticated, message: "missing auth context"@ })
        } else if ctx.tenant() is None {
            Some(StatusView { code: Code::Unauthenticated, message: "missing tenant context"@ })
        } else if title@.len() == 0 {
            Some(StatusView { code: Code::InvalidArgument, message: "title is required"@ })
        } else if project_id.id is None {
            Some(StatusView { code: Code::InvalidArgument, message: "invalid project_id"@ })
        } else {
            None
        },
{
}

/// A request to list milestones needs a caller, a tenant and a project, and is
/// refused for the first that is missing.
pub proof fn law_milestone_listing_is_refused_in_order(ctx: RequestContext, project_id: IdArg)
    ensures
        list_milestones_fault(ctx, project_id) == if ctx.subject() is None {
            Some(StatusView { code: Code::Unauthenticated, message: "missing auth context"@ })
        } else if ctx.tenant() is None {
            Some(StatusView { code: Code::Unauthenticated, message: "missing tenant context"@ })
        } else if project_id.id is None {
            Some(StatusView { code: Code::InvalidArgument, message: "invalid project_id"@ })
        } else {
            None
        },
{
}

/// A request on a milestone needs a caller, a tenant and the milestone, and is
/// refused for the first that is missing.
pub proof fn law_milestone_request_is_refused_in_order(ctx: RequestContext, milestone_id: IdArg)
    ensures
        milestone_fault(ctx, milestone_id) == if ctx.subject() is None {
            Some(StatusView { code: Code::Unauthenticated, message: "missing auth context"@ })
        } else if ctx.tenant() is None {
            Some(StatusView { code: Code::Unauthenticated, message: "missing tenant context"@ })
        } else if milestone_id.id is None {
            Some(StatusView { code: Code::InvalidArgument, message: "invalid milestone_id"@ })
        } else {
            None
        },
{
}

} // verus!
