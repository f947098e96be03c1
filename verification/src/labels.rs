//! Labels: of one project, or global to the tenant.
//!
//! A global label belongs to no project; on the wire its project is empty, and
//! every project of the tenant sees it. Whoever may view a project sees its
//! labels; whoever may manage it changes them. A global label may be changed by
//! whoever may manage at least one project of the tenant.
use crate::context::{copy_text, id_fault, require_id, subject_fault, subject_from_request};
use crate::context::{tenant_fault, tenant_id_from_request, Id, IdArg, RequestContext};
use crate::mask::{is_masked, mask_contains};
use crate::page::lemma_filter_selects;
use crate::permission::{asks_project, project_check, PermissionCheck};
use crate::status::{fault, fault_if, first_of3, first_of5, Code, Status, StatusView};
use vstd::prelude::*;

verus! {

/// A stored label. Without a project it is global.
#[derive(Debug)]
pub struct LabelRow {
    pub id: Id,
    pub project_id: Option<Id>,
    pub name: String,
    pub style: String,
}

/// A label as it is answered.
#[derive(Debug)]
pub struct Label {
    pub id: Id,
    pub project_id: String,
    pub name: String,
    pub style: String,
}

/// `label` shows the label in `row`; a global one has an empty project.
pub open spec fn shows_label(label: Label, row: LabelRow) -> bool {
    &&& label.id == row.id
    &&& match row.project_id {
        Some(p) => label.project_id == p,
        None => label.project_id@.len() == 0,
    }
    &&& label.name == row.name
    &&& label.style == row.style
}

/// The label as it is answered.
pub fn label_from_row(row: &LabelRow) -> (r: Label)
    ensures
        shows_label(r, *row),
{
    Label {
        id: row.id.clone(),
        project_id: match &row.project_id {
            Some(p) => p.clone(),
            None => String::new(),
        },
        name: row.name.clone(),
        style: row.style.clone(),
    }
}

/// The labels as they are answered.
pub fn labels_from_rows(rows: &Vec<LabelRow>) -> (r: Vec<Label>)
    ensures
        r.len() == rows.len(),
        forall|i: int| 0 <= i < rows.len() ==> shows_label(#[trigger] r[i], rows[i]),
{
    let mut r: Vec<Label> = Vec::new();
    let mut i: usize = 0;
    while i < rows.len()
        invariant
            i <= rows.len(),
            r.len() == i,
            forall|j: int| 0 <= j < i ==> shows_label(#[trigger] r[j], rows[j]),
        decreases rows.len() - i,
    {
        r.push(label_from_row(&rows[i]));
        i += 1;
    }
    r
}

/// What has been learned of a caller's permission to change labels of a scope.
#[derive(Debug)]
pub struct ScopeFacts {
    /// The projects of the tenant, where the scope is global.
    pub projects: Option<Vec<Id>>,
    /// What the permission backend answered so far, one answer per project.
    pub answers: Vec<bool>,
}

/// What it takes to know whether a caller may change labels of a scope.
#[derive(Debug)]
pub enum ScopeStep {
    /// Read the projects of the tenant.
    LoadProjects,
    Check(PermissionCheck),
    Allowed,
    Denied,
}

/// The projects that a permission is asked for: the label's own, or, for a
/// global label, all of the tenant.
pub open spec fn scope_projects(scope: Option<Id>, facts: ScopeFacts) -> Option<Seq<Id>> {
    match (scope, facts.projects) {
        (Some(p), _) => Some(seq![p]),
        (None, Some(projects)) => Some(projects@),
        (None, None) => None,
    }
}

/// One of the first `n` projects granted it.
pub open spec fn some_granted(answers: Seq<bool>, n: int) -> bool {
    exists|i: int| 0 <= i < n && i < answers.len() && #[trigger] answers[i]
}

/// Step `r` is what the answers so far lead to: the projects are asked one by
/// one, the first grant allows, and none left denies.
pub open spec fn checks_scope(
    r: ScopeStep,
    scope: Option<Id>,
    subject: String,
    facts: ScopeFacts,
) -> bool {
    match scope_projects(scope, facts) {
        None => r is LoadProjects,
        Some(projects) => if some_granted(facts.answers@, projects.len() as int) {
            r is Allowed
        } else if facts.answers.len() < projects.len() {
            r matches ScopeStep::Check(c) && asks_project(
                c,
                projects[facts.answers.len() as int],
                "manage",
                subject,
            )
        } else {
            r is Denied
        },
    }
}

fn is_granted(answers: &Vec<bool>, n: usize) -> (r: bool)
    ensures
        r == some_granted(answers@, n as int),
{
    let mut i: usize = 0;
    while i < n && i < answers.len()
        invariant
            i <= n,
            i <= answers.len(),
            forall|j: int| 0 <= j < i ==> !(#[trigger] answers[j]),
        decreases n - i,
    {
        if answers[i] {
            return true;
        }
        i += 1;
    }
    false
}

/// Whether a caller may change labels of a scope: what to do next, given what
/// has been learned.
pub fn check_label_scope_permission(scope: &Option<Id>, subject: &String, facts: &ScopeFacts) -> (r:
    ScopeStep)
    ensures
        checks_scope(r, *scope, *subject, *facts),
{
    match scope {
        Some(p) => if is_granted(&facts.answers, 1) {
            ScopeStep::Allowed
        } else if facts.answers.len() < 1 {
            ScopeStep::Check(project_check(p, "manage", subject))
        } else {
            ScopeStep::Denied
        },
        None => match &facts.projects {
            None => ScopeStep::LoadProjects,
            Some(projects) => if is_granted(&facts.answers, projects.len()) {
                ScopeStep::Allowed
            } else if facts.answers.len() < projects.len() {
                ScopeStep::Check(project_check(&projects[facts.answers.len()], "manage", subject))
            } else {
                ScopeStep::Denied
            },
        },
    }
}

/// A tenant without projects has nobody who may change its global labels.
pub proof fn law_no_project_no_global_labels(r: ScopeStep, subject: String, facts: ScopeFacts)
    requires
        checks_scope(r, None, subject, facts),
        facts.projects matches Some(projects) && projects.len() == 0,
    ensures
        r is Denied,
{
}

/// A request for the labels that a project sees that may go ahead.
#[derive(Debug)]
pub struct ListLabelsCall {
    pub tenant_id: String,
    pub project_id: Id,
    /// Whether the caller may view the project.
    pub check: PermissionCheck,
}

/// Why a request for the labels of a project is refused before anything is
/// looked up.
pub open spec fn list_labels_fault(ctx: RequestContext, project_id: IdArg) -> Option<StatusView> {
    first_of3(subject_fault(ctx), tenant_fault(ctx), id_fault(project_id, "invalid project_id"))
}

/// Checks a request for the labels that a project sees.
pub fn list_labels_call(ctx: &RequestContext, project_id: &IdArg) -> (r: Result<
    ListLabelsCall,
    Status,
>)
    ensures
        match r {
            Ok(call) => {
                &&& list_labels_fault(*ctx, *project_id) is None
                &&& ctx.tenant() == Some(call.tenant_id)
                &&& project_id.id == Some(call.project_id)
                &&& asks_project(call.check, call.project_id, "view", ctx.subject()->Some_0)
            },
            Err(e) => list_labels_fault(*ctx, *project_id) == Some(e@),
        },
{
    let subject = subject_from_request(ctx)?;
    let tenant_id = tenant_id_from_request(ctx)?;
    let project_id = require_id(project_id, "invalid project_id")?;
    let check = project_check(&project_id, "view", &subject);
    Ok(ListLabelsCall { tenant_id, project_id, check })
}

/// The project sees the label: it is its own, or global.
pub open spec fn sees_label(project_id: Id, row: LabelRow) -> bool {
    match row.project_id {
        Some(p) => p@ == project_id@,
        None => true,
    }
}

/// The labels among `rows` that the project sees, in their order.
pub open spec fn project_labels(rows: Seq<LabelRow>, project_id: Id) -> Seq<LabelRow> {
    rows.filter(|row: LabelRow| sees_label(project_id, row))
}

/// The labels among those of the tenant that the project sees, in their order.
pub fn list_labels(rows: &Vec<LabelRow>, project_id: &Id) -> (r: Vec<Label>)
    ensures
        r.len() == project_labels(rows@, *project_id).len(),
        forall|i: int|
            0 <= i < r.len() ==> shows_label(
                #[trigger] r[i],
                project_labels(rows@, *project_id)[i],
            ),
{
    let ghost keep = |row: LabelRow| sees_label(*project_id, row);
    let mut r: Vec<Label> = Vec::new();
    let mut i: usize = 0;
    assert(rows@.take(0).filter(keep).len() == 0) by {
        reveal(Seq::filter);
    }
    while i < rows.len()
        invariant
            i <= rows.len(),
            keep == (|row: LabelRow| sees_label(*project_id, row)),
            r.len() == rows@.take(i as int).filter(keep).len(),
            forall|j: int|
                0 <= j < r.len() ==> shows_label(
                    #[trigger] r[j],
                    rows@.take(i as int).filter(keep)[j],
                ),
        decreases rows.len() - i,
    {
        proof {
            assert(rows@.take(i + 1).drop_last() =~= rows@.take(i as int));
            reveal(Seq::filter);
        }
        let seen = match &rows[i].project_id {
            Some(p) => *p == *project_id,
            None => true,
        };
        if seen {
            r.push(label_from_row(&rows[i]));
        }
        i += 1;
    }
    assert(rows@.take(rows@.len() as int) =~= rows@);
    r
}

/// A global label is listed for every project.
pub proof fn law_global_label_is_seen_everywhere(rows: Seq<LabelRow>, i: int, project_id: Id)
    requires
        0 <= i < rows.len(),
        rows[i].project_id is None,
    ensures
        project_labels(rows, project_id).contains(rows[i]),
{
    let keep = |row: LabelRow| sees_label(project_id, row);
    rows.lemma_filter_contains(keep, i);
}

/// A request to create a label that may go ahead.
#[derive(Debug)]
pub struct CreateLabelCall {
    pub subject: String,
    pub tenant_id: String,
    /// The label's project; none where it is global.
    pub scope: Option<Id>,
    pub name: String,
    pub style: String,
}

/// Why a request to create a label is refused before anything is looked up. An
/// empty project stands for a global label.
pub open spec fn create_label_fault(
    ctx: RequestContext,
    project_id: IdArg,
    name: String,
    style: String,
) -> Option<StatusView> {
    first_of5(
        subject_fault(ctx),
        tenant_fault(ctx),
        fault_if(name@.len() == 0, Code::InvalidArgument, "name is required"),
        fault_if(style@.len() == 0, Code::InvalidArgument, "style is required"),
        if project_id.text@.len() == 0 {
            None
        } else {
            id_fault(project_id, "invalid project_id")
        },
    )
}

/// Checks a request to create a label.
pub fn create_label_call(ctx: &RequestContext, project_id: &IdArg, name: String, style: String) -> (r:
    Result<CreateLabelCall, Status>)
    ensures
        match r {
            Ok(call) => {
                &&& create_label_fault(*ctx, *project_id, name, style) is None
                &&& ctx.subject() == Some(call.subject)
                &&& ctx.tenant() == Some(call.tenant_id)
                &&& call.scope == if project_id.text@.len() == 0 {
                    None
                } else {
                    project_id.id
                }
                &&& call.name == name
                &&& call.style == style
            },
            Err(e) => create_label_fault(*ctx, *project_id, name, style) == Some(e@),
        },
{
    let subject = subject_from_request(ctx)?;
    let tenant_id = tenant_id_from_request(ctx)?;
    if name.as_str().is_empty() {
        return Err(Status::invalid_argument("name is required"));
    }
    if style.as_str().is_empty() {
        return Err(Status::invalid_argument("style is required"));
    }
    let scope = if project_id.text.as_str().is_empty() {
        None
    } else {
        let id = require_id(project_id, "invalid project_id")?;
        Some(id)
    };
    Ok(CreateLabelCall { subject, tenant_id, scope, name, style })
}

/// A label to be stored.
#[derive(Debug)]
pub struct NewLabel {
    pub id: Id,
    pub tenant_id: String,
    pub project_id: Option<Id>,
    pub name: String,
    pub style: String,
}

/// A change to a label. What is `None` stays as it is.
#[derive(Debug)]
pub struct LabelUpdate {
    pub label_id: Id,
    pub tenant_id: String,
    pub name: Option<String>,
    pub style: Option<String>,
}

/// What became of a label that was written.
#[derive(Debug)]
pub enum LabelReply {
    Written(LabelRow),
    /// Another label of the scope has the name.
    Taken,
    Failed,
}

/// What a request on a label needs next.
#[derive(Debug)]
pub enum LabelStep {
    /// Look for the label: its project, or that it is global.
    FindLabel { label_id: Id, tenant_id: String },
    /// Read the projects of the tenant.
    LoadProjects { tenant_id: String },
    /// Ask the permission backend.
    Check(PermissionCheck),
    Create(NewLabel),
    Update(LabelUpdate),
    Delete { label_id: Id, tenant_id: String },
    Answer(Label),
    /// The request is done and has nothing to answer.
    Done,
    Refuse(Status),
}

/// `r` refuses, and says exactly `f`.
pub open spec fn turns_down(r: LabelStep, f: StatusView) -> bool {
    r matches LabelStep::Refuse(e) && e@ == f
}

/// The caller is known to be allowed to change labels of the scope.
pub open spec fn may_change(scope: Option<Id>, facts: ScopeFacts) -> bool {
    scope_projects(scope, facts) matches Some(projects) && some_granted(
        facts.answers@,
        projects.len() as int,
    )
}

/// `r` finds out whether the caller may change labels of the scope, or refuses
/// where they may not.
pub open spec fn settles_scope(
    r: LabelStep,
    scope: Option<Id>,
    subject: String,
    tenant_id: String,
    facts: ScopeFacts,
) -> bool {
    match scope_projects(scope, facts) {
        None => r == (LabelStep::LoadProjects { tenant_id }),
        Some(projects) => if facts.answers.len() < projects.len() {
            r matches LabelStep::Check(c) && asks_project(
                c,
                projects[facts.answers.len() as int],
                "manage",
                subject,
            )
        } else {
            turns_down(r, fault(Code::PermissionDenied, "permission denied"))
        },
    }
}

fn settle_scope(
    scope: &Option<Id>,
    subject: &String,
    tenant_id: &String,
    facts: &ScopeFacts,
) -> (r: Option<LabelStep>)
    ensures
        match r {
            None => may_change(*scope, *facts),
            Some(step) => !may_change(*scope, *facts) && settles_scope(
                step,
                *scope,
                *subject,
                *tenant_id,
                *facts,
            ),
        },
{
    match check_label_scope_permission(scope, subject, facts) {
        ScopeStep::LoadProjects => Some(LabelStep::LoadProjects { tenant_id: tenant_id.clone() }),
        ScopeStep::Check(c) => Some(LabelStep::Check(c)),
        ScopeStep::Allowed => None,
        ScopeStep::Denied => Some(LabelStep::Refuse(Status::permission_denied("permission denied"))),
    }
}

/// `r` answers the label that was written, or says why it was not.
pub open spec fn answers_write(r: LabelStep, reply: LabelReply, message: &str) -> bool {
    match reply {
        LabelReply::Written(row) => r matches LabelStep::Answer(label) && shows_label(label, row),
        LabelReply::Taken => turns_down(
            r,
            fault(Code::AlreadyExists, "label with this name already exists in this scope"),
        ),
        LabelReply::Failed => turns_down(r, fault(Code::Internal, message)),
    }
}

fn answer_write(reply: &LabelReply, message: &str) -> (r: LabelStep)
    ensures
        answers_write(r, *reply, message),
{
    match reply {
        LabelReply::Written(row) => LabelStep::Answer(label_from_row(row)),
        LabelReply::Taken => LabelStep::Refuse(
            Status::new(
                Code::AlreadyExists,
                "label with this name already exists in this scope",
            ),
        ),
        LabelReply::Failed => LabelStep::Refuse(Status::internal(message)),
    }
}

/// What a request to create a label needs next.
pub open spec fn leads_label(
    r: LabelStep,
    call: CreateLabelCall,
    label_id: Id,
    scope_facts: ScopeFacts,
    reply: Option<LabelReply>,
) -> bool {
    if !may_change(call.scope, scope_facts) {
        settles_scope(r, call.scope, call.subject, call.tenant_id, scope_facts)
    } else {
        match reply {
            None => r == LabelStep::Create(
                NewLabel {
                    id: label_id,
                    tenant_id: call.tenant_id,
                    project_id: call.scope,
                    name: call.name,
                    style: call.style,
                },
            ),
            Some(reply) => answers_write(r, reply, "failed to create label"),
        }
    }
}

/// Creates a label: what to do next, given what has been learned.
pub fn create_label(
    call: &CreateLabelCall,
    label_id: &Id,
    scope_facts: &ScopeFacts,
    reply: &Option<LabelReply>,
) -> (r: LabelStep)
    ensures
        leads_label(r, *call, *label_id, *scope_facts, *reply),
{
    if let Some(step) = settle_scope(&call.scope, &call.subject, &call.tenant_id, scope_facts) {
        return step;
    }
    match reply {
        None => LabelStep::Create(
            NewLabel {
                id: label_id.clone(),
                tenant_id: call.tenant_id.clone(),
                project_id: copy_text(&call.scope),
                name: call.name.clone(),
                style: call.style.clone(),
            },
        ),
        Some(reply) => answer_write(reply, "failed to create label"),
    }
}

/// A label that may be acted on.
#[derive(Debug)]
pub struct LabelCall {
    pub subject: String,
    pub tenant_id: String,
    pub label_id: Id,
}

/// Why a request on a label is refused before anything is looked up.
pub open spec fn label_fault(ctx: RequestContext, label_id: IdArg) -> Option<StatusView> {
    first_of3(subject_fault(ctx), tenant_fault(ctx), id_fault(label_id, "invalid label_id"))
}

/// Checks a request to change or delete a label.
pub fn label_call(ctx: &RequestContext, label_id: &IdArg) -> (r: Result<LabelCall, Status>)
    ensures
        match r {
            Ok(call) => {
                &&& label_fault(*ctx, *label_id) is None
                &&& ctx.subject() == Some(call.subject)
                &&& ctx.tenant() == Some(call.tenant_id)
                &&& label_id.id == Some(call.label_id)
            },
            Err(e) => label_fault(*ctx, *label_id) == Some(e@),
        },
{
    let subject = subject_from_request(ctx)?;
    let tenant_id = tenant_id_from_request(ctx)?;
    let label_id = require_id(label_id, "invalid label_id")?;
    Ok(LabelCall { subject, tenant_id, label_id })
}

/// What has been learned for a request on a label.
#[derive(Debug)]
pub struct LabelFacts {
    /// The label's project, or none for a global label, once the label was
    /// looked for.
    pub scope: Option<Option<Option<Id>>>,
    pub permission: ScopeFacts,
    /// What became of the change.
    pub reply: Option<LabelReply>,
    /// How many labels were deleted.
    pub deleted: Option<u64>,
}

/// `r` looks for the label first, and refuses where it is not found.
pub open spec fn finds_label(
    r: LabelStep,
    call: LabelCall,
    scope: Option<Option<Option<Id>>>,
) -> bool {
    match scope {
        None => r == (LabelStep::FindLabel { label_id: call.label_id, tenant_id: call.tenant_id }),
        Some(None) => turns_down(r, fault(Code::NotFound, "label not found")),
        Some(Some(_)) => false,
    }
}

fn find_label(call: &LabelCall, scope: &Option<Option<Option<Id>>>) -> (r: Option<LabelStep>)
    ensures
        match r {
            None => scope matches Some(Some(_)),
            Some(step) => !(scope matches Some(Some(_))) && finds_label(step, *call, *scope),
        },
{
    match scope {
        None => Some(
            LabelStep::FindLabel {
                label_id: call.label_id.clone(),
                tenant_id: call.tenant_id.clone(),
            },
        ),
        Some(None) => Some(LabelStep::Refuse(Status::not_found("label not found"))),
        Some(Some(_)) => None,
    }
}

/// What a request to change a label needs next.
pub open spec fn changes_label(
    r: LabelStep,
    call: LabelCall,
    name: String,
    style: String,
    mask: Vec<String>,
    facts: LabelFacts,
) -> bool {
    match facts.scope {
        Some(Some(scope)) => if !may_change(scope, facts.permission) {
            settles_scope(r, scope, call.subject, call.tenant_id, facts.permission)
        } else {
            match facts.reply {
                None => r == LabelStep::Update(
                    LabelUpdate {
                        label_id: call.label_id,
                        tenant_id: call.tenant_id,
                        name: if is_masked(mask@, "name") {
                            Some(name)
                        } else {
                            None
                        },
                        style: if is_masked(mask@, "style") {
                            Some(style)
                        } else {
                            None
                        },
                    },
                ),
                Some(reply) => answers_write(r, reply, "failed to update label"),
            }
        },
        _ => finds_label(r, call, facts.scope),
    }
}

/// Changes a label: what to do next, given what has been learned. Only the
/// fields that the mask names change.
pub fn update_label(
    call: &LabelCall,
    name: &String,
    style: &String,
    mask: &Vec<String>,
    facts: &LabelFacts,
) -> (r: LabelStep)
    ensures
        changes_label(r, *call, *name, *style, *mask, *facts),
{
    if let Some(step) = find_label(call, &facts.scope) {
        return step;
    }
    if let Some(Some(scope)) = &facts.scope {
        if let Some(step) = settle_scope(
            scope,
            &call.subject,
            &call.tenant_id,
            &facts.permission,
        ) {
            return step;
        }
    }
    match &facts.reply {
        None => LabelStep::Update(
            LabelUpdate {
                label_id: call.label_id.clone(),
                tenant_id: call.tenant_id.clone(),
                name: if mask_contains(mask, "name") {
                    Some(name.clone())
                } else {
                    None
                },
                style: if mask_contains(mask, "style") {
                    Some(style.clone())
                } else {
                    None
                },
            },
        ),
        Some(reply) => answer_write(reply, "failed to update label"),
    }
}

/// What a request to delete a label needs next.
pub open spec fn deletes_label(r: LabelStep, call: LabelCall, facts: LabelFacts) -> bool {
    match facts.scope {
        Some(Some(scope)) => if !may_change(scope, facts.permission) {
            settles_scope(r, scope, call.subject, call.tenant_id, facts.permission)
        } else {
            match facts.deleted {
                None => r == (LabelStep::Delete {
                    label_id: call.label_id,
                    tenant_id: call.tenant_id,
                }),
                Some(0) => turns_down(r, fault(Code::NotFound, "label not found")),
                Some(_) => r is Done,
            }
        },
        _ => finds_label(r, call, facts.scope),
    }
}

/// Deletes a label: what to do next, given what has been learned. Cards lose
/// the label with it.
pub fn delete_label(call: &LabelCall, facts: &LabelFacts) -> (r: LabelStep)
    ensures
        deletes_label(r, *call, *facts),
{
    if let Some(step) = find_label(call, &facts.scope) {
        return step;
    }
    if let Some(Some(scope)) = &facts.scope {
        if let Some(step) = settle_scope(
            scope,
            &call.subject,
            &call.tenant_id,
            &facts.permission,
        ) {
            return step;
        }
    }
    match facts.deleted {
        None => LabelStep::Delete {
            label_id: call.label_id.clone(),
            tenant_id: call.tenant_id.clone(),
        },
        Some(deleted) => if deleted == 0 {
            LabelStep::Refuse(Status::not_found("label not found"))
        } else {
            LabelStep::Done
        },
    }
}

/// No label is created before the permission backend has let the caller manage
/// its project, or, for a global label, one of the tenant's.
pub proof fn law_label_creation_needs_manage(
    r: LabelStep,
    call: CreateLabelCall,
    label_id: Id,
    scope_facts: ScopeFacts,
    reply: Option<LabelReply>,
)
    requires
        leads_label(r, call, label_id, scope_facts, reply),
        r is Create,
    ensures
        may_change(call.scope, scope_facts),
{
}

/// No label is changed or deleted before the permission backend has let the
/// caller manage its project, or, for a global label, one of the tenant's.
pub proof fn law_label_change_needs_manage(
    r: LabelStep,
    call: LabelCall,
    name: String,
    style: String,
    mask: Vec<String>,
    facts: LabelFacts,
)
    requires
        changes_label(r, call, name, style, mask, facts) || deletes_label(r, call, facts),
        r is Update || r is Delete,
    ensures
        facts.scope matches Some(Some(scope)) && may_change(scope, facts.permission),
{
}

/// A label is answered as it is stored; a global one shows no project.
pub proof fn law_label_is_answered_as_stored(label: Label, row: LabelRow)
    ensures
        shows_label(label, row) <==> {
            &&& label.id == row.id
            &&& row.project_id is Some ==> label.project_id == row.project_id->Some_0
            &&& row.project_id is None ==> label.project_id@.len() == 0
            &&& label.name == row.name
            &&& label.style == row.style
        },
{
}

/// A project's labels are its own and the global ones, all of them, each once
/// and in their order, and no label of another project.
pub proof fn law_listing_leaves_out_no_label(rows: Seq<LabelRow>, project_id: Id)
    ensures
        exists|at: Seq<int>|
            {
                &&& #[trigger] at.len() == project_labels(rows, project_id).len()
                &&& forall|i: int, j: int|
                    0 <= i < j < at.len() ==> #[trigger] at[i] < #[trigger] at[j]
                &&& forall|k: int| #[trigger]
                    at.contains(k) <==> 0 <= k < rows.len() && (rows[k].project_id is None
                        || rows[k].project_id->Some_0@ == project_id@)
                &&& forall|i: int|
                    0 <= i < at.len() ==> project_labels(rows, project_id)[i]
                        == rows[#[trigger] at[i]]
            },
{
    let at = lemma_filter_selects(rows, |row: LabelRow| sees_label(project_id, row));
    assert(at.len() == project_labels(rows, project_id).len());
}

/// A label may be changed by those who may manage its project, a global one by
/// those who may manage some project of the tenant, and by no one else.
pub proof fn law_managers_change_labels(scope: Option<Id>, facts: ScopeFacts)
    ensures
        scope is Some ==> (may_change(scope, facts) <==> facts.answers.len() > 0
            && facts.answers[0]),
        scope is None && facts.projects is None ==> !may_change(scope, facts),
        scope is None && facts.projects is Some ==> (may_change(scope, facts) <==> exists|i: int|
            0 <= i < facts.answers.len() && i < facts.projects->Some_0.len()
                && #[trigger] facts.answers[i]),
{
    if scope is Some {
        if facts.answers.len() > 0 && facts.answers[0] {
            assert(facts.answers@[0]);
        }
    } else if facts.projects is Some {
        if may_change(scope, facts) {
            let i = choose|i: int|
                0 <= i < facts.projects->Some_0.len() && i < facts.answers@.len()
                    && #[trigger] facts.answers@[i];
            assert(facts.answers[i]);
        }
        if exists|i: int|
            0 <= i < facts.answers.len() && i < facts.projects->Some_0.len()
                && #[trigger] facts.answers[i] {
            let i = choose|i: int|
                0 <= i < facts.answers.len() && i < facts.projects->Some_0.len()
                    && #[trigger] facts.answers[i];
            assert(facts.answers@[i]);
        }
    }
}

/// Until it is known that the caller may change a label, the projects are gone
/// through one by one, in their order: each is asked whether the caller may
/// manage it, and where none is left the request is denied.
pub proof fn law_projects_are_asked_one_by_one(
    r: LabelStep,
    s: ScopeStep,
    scope: Option<Id>,
    subject: String,
    tenant_id: String,
    facts: ScopeFacts,
    project_id: Id,
)
    requires
        settles_scope(r, scope, subject, tenant_id, facts),
        checks_scope(s, scope, subject, facts),
    ensures
        s is Allowed <==> may_change(scope, facts),
        scope is None && facts.projects is None ==> r == (LabelStep::LoadProjects { tenant_id })
            && s is LoadProjects,
        scope == Some(project_id) && facts.answers.len() == 0 ==> {
            &&& r matches LabelStep::Check(c) && asks_project(c, project_id, "manage", subject)
            &&& s matches ScopeStep::Check(c) && asks_project(c, project_id, "manage", subject)
        },
        scope is None && facts.projects is Some && facts.answers.len()
            < facts.projects->Some_0.len() ==> {
            &&& r matches LabelStep::Check(c) && asks_project(
                c,
                facts.projects->Some_0[facts.answers.len() as int],
                "manage",
                subject,
            )
            &&& !may_change(scope, facts) ==> (s matches ScopeStep::Check(c) && asks_project(
                c,
                facts.projects->Some_0[facts.answers.len() as int],
                "manage",
                subject,
            ))
        },
        scope is Some && facts.answers.len() > 0 || scope is None && facts.projects is Some
            && facts.answers.len() >= facts.projects->Some_0.len() ==> {
            &&& r matches LabelStep::Refuse(e) && e.code == Code::PermissionDenied && e.message@
                == "permission denied"@
            &&& !may_change(scope, facts) ==> s is Denied
        },
{
    if scope is Some && facts.answers.len() == 0 {
        assert(seq![project_id][0] == project_id);
    }
}

/// A label is created where the caller may, with the name, the style and the
/// project that the request names, and is answered as it was stored.
pub proof fn law_new_label_holds_what_was_asked(
    r: LabelStep,
    call: CreateLabelCall,
    label_id: Id,
    scope_facts: ScopeFacts,
    reply: Option<LabelReply>,
)
    requires
        leads_label(r, call, label_id, scope_facts, reply),
    ensures
        r is Create <==> may_change(call.scope, scope_facts) && reply is None,
        r matches LabelStep::Create(new) ==> {
            &&& new.id == label_id
            &&& new.tenant_id == call.tenant_id
            &&& new.project_id == call.scope
            &&& new.name == call.name
            &&& new.style == call.style
        },
        !may_change(call.scope, scope_facts) ==> settles_scope(
            r,
            call.scope,
            call.subject,
            call.tenant_id,
            scope_facts,
        ),
        may_change(call.scope, scope_facts) && reply is Some ==> answers_write(
            r,
            reply->Some_0,
            "failed to create label",
        ),
{
}

/// A label that was written is answered as it was stored; one whose name is
/// taken in its scope, or that could not be written, is refused.
pub proof fn law_written_label_is_answered(
    r: LabelStep,
    reply: LabelReply,
    message: &str,
    code: Code,
)
    ensures
        reply is Written ==> (answers_write(r, reply, message) <==> (r matches LabelStep::Answer(
            label,
        ) && shows_label(label, reply->Written_0))),
        reply is Taken ==> (answers_write(r, reply, message) <==> (r matches LabelStep::Refuse(e)
            && e.code == Code::AlreadyExists && e.message@
            == "label with this name already exists in this scope"@)),
        reply is Failed ==> (answers_write(r, reply, message) <==> (r matches LabelStep::Refuse(e)
            && e.code == Code::Internal && e.message@ == message@)),
        turns_down(r, fault(code, message)) <==> (r matches LabelStep::Refuse(e) && e.code == code
            && e.message@ == message@),
{
}

/// A change to a label sets its name exactly where the mask names it, and its
/// style exactly where the mask names that, each to its own value. It is made
/// where the label is there and the caller may.
pub proof fn law_label_fields_are_set_from_their_own(
    r: LabelStep,
    call: LabelCall,
    name: String,
    style: String,
    mask: Vec<String>,
    facts: LabelFacts,
    scope: Option<Id>,
)
    requires
        changes_label(r, call, name, style, mask, facts),
    ensures
        r is Update <==> (facts.scope matches Some(Some(s)) && may_change(s, facts.permission)
            && facts.reply is None),
        r matches LabelStep::Update(u) ==> {
            &&& u.label_id == call.label_id
            &&& u.tenant_id == call.tenant_id
            &&& is_masked(mask@, "name") ==> u.name == Some(name)
            &&& !is_masked(mask@, "name") ==> u.name is None
            &&& is_masked(mask@, "style") ==> u.style == Some(style)
            &&& !is_masked(mask@, "style") ==> u.style is None
        },
        facts.scope is None ==> r == (LabelStep::FindLabel {
            label_id: call.label_id,
            tenant_id: call.tenant_id,
        }),
        facts.scope == Some(None::<Option<Id>>) ==> (r matches LabelStep::Refuse(e) && e.code
            == Code::NotFound && e.message@ == "label not found"@),
        facts.scope == Some(Some(scope)) && !may_change(scope, facts.permission) ==> settles_scope(
            r,
            scope,
            call.subject,
            call.tenant_id,
            facts.permission,
        ),
        facts.scope == Some(Some(scope)) && may_change(scope, facts.permission)
            && facts.reply is Some ==> answers_write(
            r,
            facts.reply->Some_0,
            "failed to update label",
        ),
{
}

/// A label is deleted where it is there and the caller may, and it is that
/// label. It is not found where nothing was deleted.
pub proof fn law_label_is_deleted_by_managers(
    r: LabelStep,
    call: LabelCall,
    facts: LabelFacts,
    scope: Option<Id>,
)
    requires
        deletes_label(r, call, facts),
    ensures
        r is Delete <==> (facts.scope matches Some(Some(s)) && may_change(s, facts.permission)
            && facts.deleted is None),
        r is Delete ==> r == (LabelStep::Delete {
            label_id: call.label_id,
            tenant_id: call.tenant_id,
        }),
        facts.scope is None ==> r == (LabelStep::FindLabel {
            label_id: call.label_id,
            tenant_id: call.tenant_id,
        }),
        facts.scope == Some(None::<Option<Id>>) ==> (r matches LabelStep::Refuse(e) && e.code
            == Code::NotFound && e.message@ == "label not found"@),
        facts.scope == Some(Some(scope)) && !may_change(scope, facts.permission) ==> settles_scope(
            r,
            scope,
            call.subject,
            call.tenant_id,
            facts.permission,
        ),
        facts.scope == Some(Some(scope)) && may_change(scope, facts.permission)
            && facts.deleted is Some ==> if facts.deleted->Some_0 == 0 {
            r matches LabelStep::Refuse(e) && e.code == Code::NotFound && e.message@
                == "label not found"@
        } else {
            r is Done
        },
{
}

/// A request to list labels needs a caller, a tenant and a project, and is
/// refused for the first that is missing.
pub proof fn law_label_listing_is_refused_in_order(ctx: RequestContext, project_id: IdArg)
    ensures
        list_labels_fault(ctx, project_id) == if ctx.subject() is None {
            Some(StatusView { code: Code::Unauthenticated, message: "missing auth context"@ })
        } else if ctx.tenant() is None {
            Some(StatusView { code: Code::Unauthenticated, message: "missing tenant context"@ })
        } else if project_id.id is None {
            Some(StatusView { code: Code::InvalidArgument, message: "invalid project_id"@ })
        } else {
            None
        },
{
}

/// A request to create a label needs a caller, a tenant, a name and a style, and
/// an identifier for the project where it names one. It is refused for the first
/// that is missing.
pub proof fn law_label_creation_is_refused_in_order(ctx: RequestContext, project_id: IdArg, name: String, style: String)
    ensures
        create_label_fault(ctx, project_id, name, style) == if ctx.subject() is None {
            Some(StatusView { code: Code::Unauthenticated, message: "missing auth context"@ })
        } else if ctx.tenant() is None {
            Some(StatusView { code: Code::Unauthenticated, message: "missing tenant context"@ })
        } else if name@.len() == 0 {
            Some(StatusView { code: Code::InvalidArgument, message: "name is required"@ })
        } else if style@.len() == 0 {
            Some(StatusView { code: Code::InvalidArgument, message: "style is required"@ })
        } else if project_id.text@.len() > 0 && project_id.id is None {
            Some(StatusView { code: Code::InvalidArgument, message: "invalid project_id"@ })
        } else {
            None
        },
{
}

/// A request on a label needs a caller, a tenant and the label, and is refused
/// for the first that is missing.
pub proof fn law_label_request_is_refused_in_order(ctx: RequestContext, label_id: IdArg)
    ensures
        label_fault(ctx, label_id) == if ctx.subject() is None {
            Some(StatusView { code: Code::Unauthenticated, message: "missing auth context"@ })
        } else if ctx.tenant() is None {
            Some(StatusView { code: Code::Unauthenticated, message: "missing tenant context"@ })
        } else if label_id.id is None {
            Some(StatusView { code: Code::InvalidArgument, message: "invalid label_id"@ })
        } else {
            None
        },
{
}

} // verus!
