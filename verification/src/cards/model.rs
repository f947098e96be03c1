//! Cards as they are stored and as they are answered.
use crate::context::Id;
use crate::github::{link_details, shows_link, GitHubLinkDetail, LinkRow};
use crate::labels::{labels_from_rows, shows_label, Label, LabelRow};
use crate::number::{low_i32, truncate_i32, wrap_u64, wrapped_u64};
use crate::status::{fault, Code, Status};
use crate::text::{opt_view, or_empty, or_text, same_text};
use crate::timestamp::Timestamp;
use vstd::prelude::*;

verus! {

/// The number of a stored priority; 0 for one that has none.
pub open spec fn priority_number(s: Seq<char>) -> int {
    if s == "low"@ {
        1
    } else if s == "medium"@ {
        2
    } else if s == "high"@ {
        3
    } else if s == "urgent"@ {
        4
    } else {
        0
    }
}

/// The stored form of a priority; medium for a number that is none.
pub open spec fn priority_name(v: int) -> Seq<char> {
    if v == 1 {
        "low"@
    } else if v == 3 {
        "high"@
    } else if v == 4 {
        "urgent"@
    } else {
        "medium"@
    }
}

/// The number of a stored urgency; 0 for one that has none.
pub open spec fn urgency_number(s: Seq<char>) -> int {
    if s == "low"@ {
        1
    } else if s == "medium"@ {
        2
    } else if s == "high"@ {
        3
    } else if s == "critical"@ {
        4
    } else {
        0
    }
}

/// The stored form of an urgency; medium for a number that is none.
pub open spec fn urgency_name(v: int) -> Seq<char> {
    if v == 1 {
        "low"@
    } else if v == 3 {
        "high"@
    } else if v == 4 {
        "critical"@
    } else {
        "medium"@
    }
}

/// The number of a stored priority.
pub fn priority_to_i32(s: &str) -> (r: i32)
    ensures
        r == priority_number(s@),
{
    if same_text(s, "low") {
        1
    } else if same_text(s, "medium") {
        2
    } else if same_text(s, "high") {
        3
    } else if same_text(s, "urgent") {
        4
    } else {
        0
    }
}

/// The stored form of a priority.
pub fn priority_from_i32(v: i32) -> (r: &'static str)
    ensures
        r@ == priority_name(v as int),
{
    match v {
        1 => "low",
        2 => "medium",
        3 => "high",
        4 => "urgent",
        _ => "medium",
    }
}

/// The number of a stored urgency.
pub fn urgency_to_i32(s: &str) -> (r: i32)
    ensures
        r == urgency_number(s@),
{
    if same_text(s, "low") {
        1
    } else if same_text(s, "medium") {
        2
    } else if same_text(s, "high") {
        3
    } else if same_text(s, "critical") {
        4
    } else {
        0
    }
}

/// The stored form of an urgency.
pub fn urgency_from_i32(v: i32) -> (r: &'static str)
    ensures
        r@ == urgency_name(v as int),
{
    match v {
        1 => "low",
        2 => "medium",
        3 => "high",
        4 => "critical",
        _ => "medium",
    }
}

/// A priority and an urgency read back from the store are those that were
/// written; a number that is neither is read back as medium.
pub proof fn law_priority_and_urgency_round_trip(v: int)
    ensures
        priority_number(priority_name(v)) == if 1 <= v <= 4 {
            v
        } else {
            2
        },
        urgency_number(urgency_name(v)) == if 1 <= v <= 4 {
            v
        } else {
            2
        },
{
    reveal_strlit("low");
    reveal_strlit("medium");
    reveal_strlit("high");
    reveal_strlit("urgent");
    reveal_strlit("critical");
    assert("low"@.len() == 3 && "medium"@.len() == 6 && "high"@.len() == 4);
    assert("urgent"@.len() == 6 && "critical"@.len() == 8);
    assert("urgent"@[0] != "medium"@[0]);
}

/// A stored card.
#[derive(Debug)]
pub struct CardRow {
    pub id: Id,
    pub project_id: Id,
    pub board_id: Id,
    pub column_id: Id,
    pub reference: String,
    pub title: String,
    pub description: Option<String>,
    pub position: i32,
    pub priority: Option<String>,
    pub urgency: Option<String>,
    pub due_date: Option<Timestamp>,
    pub completed_at: Option<Timestamp>,
    pub blocked: bool,
    pub cover: Option<String>,
    pub milestone_id: Option<Id>,
    pub revision: i64,
    pub created_at: Timestamp,
    pub updated_at: Timestamp,
}

/// A stored item of a checklist.
#[derive(Debug)]
pub struct ChecklistRow {
    pub id: Id,
    pub text: String,
    pub done: bool,
    pub position: i32,
}

/// A stored card with all that hangs on it.
#[derive(Debug)]
pub struct LoadedCard {
    pub row: CardRow,
    pub labels: Vec<LabelRow>,
    /// The subjects assigned to the card.
    pub assignees: Vec<String>,
    pub checklist: Vec<ChecklistRow>,
    /// The GitHub issues that the card is linked to.
    pub links: Vec<LinkRow>,
    pub comments: i64,
    pub attachments: i64,
    pub depends_on: Vec<Id>,
    pub dependents: Vec<Id>,
}

/// Someone assigned to a card.
#[derive(Debug)]
pub struct Assignee {
    pub subject: String,
    pub display_name: String,
    pub avatar_url: String,
}

/// An item of a checklist as it is answered.
#[derive(Debug)]
pub struct ChecklistItem {
    pub id: Id,
    pub text: String,
    pub done: bool,
    pub position: i32,
}

/// A card as it is answered.
#[derive(Debug)]
pub struct Card {
    pub id: Id,
    pub project_id: Id,
    pub board_id: Id,
    pub column_id: Id,
    pub reference: String,
    pub title: String,
    pub description: String,
    pub priority: i32,
    pub urgency: i32,
    pub due: Option<Timestamp>,
    pub completed_at: Option<Timestamp>,
    pub blocked: bool,
    pub cover: String,
    pub milestone_id: String,
    pub position: i32,
    pub labels: Vec<Label>,
    pub assignees: Vec<Assignee>,
    pub checklist: Vec<ChecklistItem>,
    pub github_links: Vec<GitHubLinkDetail>,
    pub comments_count: i32,
    pub attachments_count: i32,
    pub revision: u64,
    pub created_at: Timestamp,
    pub updated_at: Timestamp,
    pub depends_on_card_ids: Vec<Id>,
    pub dependent_card_ids: Vec<Id>,
}

/// `a` shows that `subject` is assigned; names and pictures are not looked up.
pub open spec fn shows_assignee(a: Assignee, subject: String) -> bool {
    a.subject == subject && a.display_name@.len() == 0 && a.avatar_url@.len() == 0
}

/// `item` shows the item in `row`.
pub open spec fn shows_item(item: ChecklistItem, row: ChecklistRow) -> bool {
    item.id == row.id && item.text == row.text && item.done == row.done && item.position
        == row.position
}

/// `card` shows the stored card and what hangs on it. A card without a priority
/// or an urgency shows medium.
pub open spec fn shows_card(card: Card, loaded: LoadedCard) -> bool {
    let row = loaded.row;
    &&& card.id == row.id
    &&& card.project_id == row.project_id
    &&& card.board_id == row.board_id
    &&& card.column_id == row.column_id
    &&& card.reference == row.reference
    &&& card.title == row.title
    &&& card.description@ == or_text(opt_view(row.description), Seq::empty())
    &&& card.priority == priority_number(or_text(opt_view(row.priority), "medium"@))
    &&& card.urgency == urgency_number(or_text(opt_view(row.urgency), "medium"@))
    &&& card.due == row.due_date
    &&& card.completed_at == row.completed_at
    &&& card.blocked == row.blocked
    &&& card.cover@ == or_text(opt_view(row.cover), Seq::empty())
    &&& card.milestone_id@ == or_text(opt_view(row.milestone_id), Seq::empty())
    &&& card.position == row.position
    &&& card.labels.len() == loaded.labels.len()
    &&& forall|i: int|
        0 <= i < card.labels.len() ==> shows_label(#[trigger] card.labels[i], loaded.labels[i])
    &&& card.assignees.len() == loaded.assignees.len()
    &&& forall|i: int|
        0 <= i < card.assignees.len() ==> shows_assignee(
            #[trigger] card.assignees[i],
            loaded.assignees[i],
        )
    &&& card.checklist.len() == loaded.checklist.len()
    &&& forall|i: int|
        0 <= i < card.checklist.len() ==> shows_item(
            #[trigger] card.checklist[i],
            loaded.checklist[i],
        )
    &&& card.github_links.len() == loaded.links.len()
    &&& forall|i: int|
        0 <= i < card.github_links.len() ==> shows_link(
            #[trigger] card.github_links[i],
            loaded.links[i],
        )
    &&& card.comments_count == low_i32(loaded.comments as int)
    &&& card.attachments_count == low_i32(loaded.attachments as int)
    &&& card.revision == wrapped_u64(row.revision as int)
    &&& card.created_at == row.created_at
    &&& card.updated_at == row.updated_at
    &&& card.depends_on_card_ids@ == loaded.depends_on@
    &&& card.dependent_card_ids@ == loaded.dependents@
}

fn assignees_from_rows(rows: &Vec<String>) -> (r: Vec<Assignee>)
    ensures
        r.len() == rows.len(),
        forall|i: int| 0 <= i < rows.len() ==> shows_assignee(#[trigger] r[i], rows[i]),
{
    let mut r: Vec<Assignee> = Vec::new();
    let mut i: usize = 0;
    while i < rows.len()
        invariant
            i <= rows.len(),
            r.len() == i,
            forall|j: int| 0 <= j < i ==> shows_assignee(#[trigger] r[j], rows[j]),
        decreases rows.len() - i,
    {
        r.push(
            Assignee {
                subject: rows[i].clone(),
                display_name: String::new(),
                avatar_url: String::new(),
            },
        );
        i += 1;
    }
    r
}

/// The item of a checklist as it is answered.
pub fn checklist_item_from_row(row: &ChecklistRow) -> (r: ChecklistItem)
    ensures
        shows_item(r, *row),
{
    ChecklistItem {
        id: row.id.clone(),
        text: row.text.clone(),
        done: row.done,
        position: row.position,
    }
}

fn checklist_from_rows(rows: &Vec<ChecklistRow>) -> (r: Vec<ChecklistItem>)
    ensures
        r.len() == rows.len(),
        forall|i: int| 0 <= i < rows.len() ==> shows_item(#[trigger] r[i], rows[i]),
{
    let mut r: Vec<ChecklistItem> = Vec::new();
    let mut i: usize = 0;
    while i < rows.len()
        invariant
            i <= rows.len(),
            r.len() == i,
            forall|j: int| 0 <= j < i ==> shows_item(#[trigger] r[j], rows[j]),
        decreases rows.len() - i,
    {
        r.push(checklist_item_from_row(&rows[i]));
        i += 1;
    }
    r
}

/// Copies of the identifiers.
pub fn copy_ids(ids: &Vec<Id>) -> (r: Vec<Id>)
    ensures
        r@ == ids@,
{
    let mut r: Vec<Id> = Vec::new();
    let mut i: usize = 0;
    while i < ids.len()
        invariant
            i <= ids.len(),
            r@ == ids@.take(i as int),
        decreases ids.len() - i,
    {
        r.push(ids[i].clone());
        assert(ids@.take(i + 1) =~= ids@.take(i as int).push(ids[i as int]));
        i += 1;
    }
    assert(ids@.take(ids@.len() as int) =~= ids@);
    r
}

/// The card as it is answered.
pub fn card_from_row(loaded: &LoadedCard) -> (r: Card)
    ensures
        shows_card(r, *loaded),
{
    let row = &loaded.row;
    Card {
        id: row.id.clone(),
        project_id: row.project_id.clone(),
        board_id: row.board_id.clone(),
        column_id: row.column_id.clone(),
        reference: row.reference.clone(),
        title: row.title.clone(),
        description: or_empty(&row.description),
        priority: match &row.priority {
            Some(p) => priority_to_i32(p.as_str()),
            None => priority_to_i32("medium"),
        },
        urgency: match &row.urgency {
            Some(u) => urgency_to_i32(u.as_str()),
            None => urgency_to_i32("medium"),
        },
        due: row.due_date,
        completed_at: row.completed_at,
        blocked: row.blocked,
        cover: or_empty(&row.cover),
        milestone_id: or_empty(&row.milestone_id),
        position: row.position,
        labels: labels_from_rows(&loaded.labels),
        assignees: assignees_from_rows(&loaded.assignees),
        checklist: checklist_from_rows(&loaded.checklist),
        github_links: link_details(&loaded.links),
        comments_count: truncate_i32(loaded.comments),
        attachments_count: truncate_i32(loaded.attachments),
        revision: wrap_u64(row.revision),
        created_at: row.created_at,
        updated_at: row.updated_at,
        depends_on_card_ids: copy_ids(&loaded.depends_on),
        dependent_card_ids: copy_ids(&loaded.dependents),
    }
}

/// The card as it is answered, where it was found.
pub fn full_card(loaded: &Option<LoadedCard>) -> (r: Result<Card, Status>)
    ensures
        match (r, *loaded) {
            (Ok(card), Some(l)) => shows_card(card, l),
            (Err(e), None) => e@ == fault(Code::NotFound, "card not found"),
            _ => false,
        },
{
    match loaded {
        Some(l) => Ok(card_from_row(l)),
        None => Err(Status::not_found("card not found")),
    }
}

/// A stored comment.
#[derive(Debug)]
pub struct CommentRow {
    pub id: Id,
    pub card_id: Id,
    pub author_sub: String,
    pub body: String,
    pub created_at: Timestamp,
    pub updated_at: Timestamp,
}

/// A comment as it is answered.
#[derive(Debug)]
pub struct Comment {
    pub id: Id,
    pub card_id: Id,
    pub author_sub: String,
    pub body: String,
    pub created_at: Timestamp,
    pub updated_at: Timestamp,
}

/// `comment` shows the comment in `row`.
pub open spec fn shows_comment(comment: Comment, row: CommentRow) -> bool {
    &&& comment.id == row.id
    &&& comment.card_id == row.card_id
    &&& comment.author_sub == row.author_sub
    &&& comment.body == row.body
    &&& comment.created_at == row.created_at
    &&& comment.updated_at == row.updated_at
}

/// The comment as it is answered.
pub fn comment_from_row(row: &CommentRow) -> (r: Comment)
    ensures
        shows_comment(r, *row),
{
    Comment {
        id: row.id.clone(),
        card_id: row.card_id.clone(),
        author_sub: row.author_sub.clone(),
        body: row.body.clone(),
        created_at: row.created_at,
        updated_at: row.updated_at,
    }
}

/// A stored priority or urgency is answered by its number, and a number is
/// stored by its name; a name that is none has the number 0, and a number that
/// is none is stored as medium.
pub proof fn law_priority_and_urgency_names(s: Seq<char>, v: int)
    ensures
        s == "low"@ ==> priority_number(s) == 1 && urgency_number(s) == 1,
        s == "medium"@ ==> priority_number(s) == 2 && urgency_number(s) == 2,
        s == "high"@ ==> priority_number(s) == 3 && urgency_number(s) == 3,
        s == "urgent"@ ==> priority_number(s) == 4 && urgency_number(s) == 0,
        s == "critical"@ ==> priority_number(s) == 0 && urgency_number(s) == 4,
        s != "low"@ && s != "medium"@ && s != "high"@ && s != "urgent"@ && s != "critical"@
            ==> priority_number(s) == 0 && urgency_number(s) == 0,
        v == 1 ==> priority_name(v) == "low"@ && urgency_name(v) == "low"@,
        v == 3 ==> priority_name(v) == "high"@ && urgency_name(v) == "high"@,
        v == 4 ==> priority_name(v) == "urgent"@ && urgency_name(v) == "critical"@,
        v != 1 && v != 3 && v != 4 ==> priority_name(v) == "medium"@ && urgency_name(v)
            == "medium"@,
{
    reveal_strlit("low");
    reveal_strlit("medium");
    reveal_strlit("high");
    reveal_strlit("urgent");
    reveal_strlit("critical");
    assert("low"@.len() == 3 && "medium"@.len() == 6 && "high"@.len() == 4);
    assert("urgent"@.len() == 6 && "critical"@.len() == 8);
    assert("urgent"@[0] != "medium"@[0]);
}

/// A card is answered as it is stored: each field shows the stored field of its
/// own, what is not stored shows empty, and a card without a priority or an
/// urgency shows medium.
pub proof fn law_card_is_answered_as_stored(card: Card, loaded: LoadedCard)
    requires
        shows_card(card, loaded),
    ensures
        card.id == loaded.row.id,
        card.project_id == loaded.row.project_id,
        card.board_id == loaded.row.board_id,
        card.column_id == loaded.row.column_id,
        card.reference == loaded.row.reference,
        card.title == loaded.row.title,
        card.position == loaded.row.position,
        card.due == loaded.row.due_date,
        card.completed_at == loaded.row.completed_at,
        card.blocked == loaded.row.blocked,
        card.created_at == loaded.row.created_at,
        card.updated_at == loaded.row.updated_at,
        loaded.row.revision >= 0 ==> card.revision == loaded.row.revision,
        match loaded.row.description {
            Some(s) => card.description@ == s@,
            None => card.description@.len() == 0,
        },
        match loaded.row.cover {
            Some(s) => card.cover@ == s@,
            None => card.cover@.len() == 0,
        },
        match loaded.row.milestone_id {
            Some(s) => card.milestone_id@ == s@,
            None => card.milestone_id@.len() == 0,
        },
        match loaded.row.priority {
            Some(s) => card.priority == if s@ == "low"@ {
                1int
            } else if s@ == "medium"@ {
                2
            } else if s@ == "high"@ {
                3
            } else if s@ == "urgent"@ {
                4
            } else {
                0
            },
            None => card.priority == 2,
        },
        match loaded.row.urgency {
            Some(s) => card.urgency == if s@ == "low"@ {
                1int
            } else if s@ == "medium"@ {
                2
            } else if s@ == "high"@ {
                3
            } else if s@ == "critical"@ {
                4
            } else {
                0
            },
            None => card.urgency == 2,
        },
        0 <= loaded.comments <= i32::MAX ==> card.comments_count == loaded.comments,
        0 <= loaded.attachments <= i32::MAX ==> card.attachments_count == loaded.attachments,
        card.depends_on_card_ids@ == loaded.depends_on@,
        card.dependent_card_ids@ == loaded.dependents@,
{
    law_priority_and_urgency_names("medium"@, 2);
}

/// A card is answered with all its labels, assignees, checklist items and links,
/// in their order, each as it is stored.
pub proof fn law_card_is_answered_with_all_that_is_on_it(card: Card, loaded: LoadedCard, i: int)
    requires
        shows_card(card, loaded),
    ensures
        card.labels.len() == loaded.labels.len(),
        card.assignees.len() == loaded.assignees.len(),
        card.checklist.len() == loaded.checklist.len(),
        card.github_links.len() == loaded.links.len(),
        0 <= i < loaded.labels.len() ==> {
            &&& card.labels[i].id == loaded.labels[i].id
            &&& card.labels[i].name == loaded.labels[i].name
            &&& card.labels[i].style == loaded.labels[i].style
            &&& shows_label(card.labels[i], loaded.labels[i])
        },
        0 <= i < loaded.assignees.len() ==> {
            &&& card.assignees[i].subject == loaded.assignees[i]
            &&& card.assignees[i].display_name@.len() == 0
            &&& card.assignees[i].avatar_url@.len() == 0
        },
        0 <= i < loaded.checklist.len() ==> {
            &&& card.checklist[i].id == loaded.checklist[i].id
            &&& card.checklist[i].text == loaded.checklist[i].text
            &&& card.checklist[i].done == loaded.checklist[i].done
            &&& card.checklist[i].position == loaded.checklist[i].position
        },
        0 <= i < loaded.links.len() ==> {
            &&& card.github_links[i].id == loaded.links[i].id
            &&& card.github_links[i].issue_or_pr_number == loaded.links[i].issue_id
            &&& card.github_links[i].state == loaded.links[i].state
            &&& shows_link(card.github_links[i], loaded.links[i])
        },
{
}

/// A comment is answered as it is stored.
pub proof fn law_comment_is_answered_as_stored(comment: Comment, row: CommentRow)
    ensures
        shows_comment(comment, row) <==> {
            &&& comment.id == row.id
            &&& comment.card_id == row.card_id
            &&& comment.author_sub == row.author_sub
            &&& comment.body == row.body
            &&& comment.created_at == row.created_at
            &&& comment.updated_at == row.updated_at
        },
{
}

} // verus!
