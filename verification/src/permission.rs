//! Questions to the permission backend.
use crate::context::Id;
use crate::status::{fault, Code, Status};
use vstd::prelude::*;

verus! {

/// The kind of object that permissions on projects are held on.
pub const PERMISSION_TYPE_PROJECT: &'static str = "KanbanProject";

/// A question to the permission backend: whether the subject has the relation to
/// the object.
#[derive(Debug)]
pub struct PermissionCheck {
    pub namespace: &'static str,
    pub object_id: Id,
    pub relation: &'static str,
    pub subject: String,
}

/// `c` asks whether the subject has the relation to the project.
pub open spec fn asks_project(
    c: PermissionCheck,
    project_id: Id,
    relation: &str,
    subject: String,
) -> bool {
    c.namespace@ == PERMISSION_TYPE_PROJECT@ && c.object_id == project_id && c.relation@
        == relation@ && c.subject == subject
}

/// A question to the permission backend: which objects the subject has the
/// relation to, at most so many.
#[derive(Debug)]
pub struct ExpandQuery {
    pub namespace: &'static str,
    pub relation: &'static str,
    pub subject: String,
    pub limit: usize,
}

/// `q` asks for the objects of the namespace that the subject may view.
pub open spec fn asks_viewable(
    q: ExpandQuery,
    namespace: &str,
    subject: String,
    limit: usize,
) -> bool {
    q.namespace@ == namespace@ && q.relation@ == "view"@ && q.subject == subject && q.limit
        == limit
}

/// Asks for the objects of the namespace that the subject may view.
pub fn viewable_query(namespace: &'static str, subject: &String, limit: usize) -> (r: ExpandQuery)
    ensures
        asks_viewable(r, namespace, *subject, limit),
{
    ExpandQuery { namespace, relation: "view", subject: subject.clone(), limit }
}

/// Asks whether the subject has the relation to the project.
pub fn project_check(project_id: &Id, relation: &'static str, subject: &String) -> (r:
    PermissionCheck)
    ensures
        asks_project(r, *project_id, relation, *subject),
{
    PermissionCheck {
        namespace: PERMISSION_TYPE_PROJECT,
        object_id: project_id.clone(),
        relation,
        subject: subject.clone(),
    }
}

/// What the permission backend does not grant is denied.
pub fn require_allowed(allowed: bool) -> (r: Result<(), Status>)
    ensures
        match r {
            Ok(_) => allowed,
            Err(e) => !allowed && e@ == fault(Code::PermissionDenied, "permission denied"),
        },
{
    if allowed {
        Ok(())
    } else {
        Err(Status::permission_denied("permission denied"))
    }
}

/// A permission on a project is asked for that project, that relation and that
/// caller; what a caller may view, for that caller and that kind of object.
pub proof fn law_question_names_what_is_asked(
    c: PermissionCheck,
    project_id: Id,
    relation: &str,
    subject: String,
    q: ExpandQuery,
    namespace: &str,
    limit: usize,
)
    ensures
        asks_project(c, project_id, relation, subject) <==> {
            &&& c.namespace@ == "KanbanProject"@
            &&& c.object_id == project_id
            &&& c.relation@ == relation@
            &&& c.subject == subject
        },
        asks_viewable(q, namespace, subject, limit) <==> {
            &&& q.namespace@ == namespace@
            &&& q.relation@ == "view"@
            &&& q.subject == subject
            &&& q.limit == limit
        },
{
}

} // verus!
