use sunbeam_kanban::attachments::{
    attachment_call, confirm_upload, delete_attachment, list_attachments_by_card,
    list_attachments_call, now_plus_secs, request_presigned_download, request_presigned_upload,
    request_presigned_upload_call, secs_after, AttachmentCall, AttachmentFacts, AttachmentRow,
    AttachmentStep, StoreReply,
};
use sunbeam_kanban::auth::{AuthServiceImpl, Claims, Session};
use sunbeam_kanban::clock::millis_of;
use sunbeam_kanban::context::{AuthContext, IdArg, RequestContext};
use sunbeam_kanban::forgejo::ForgejoServiceImpl;
use sunbeam_kanban::json::{Json, Member};
use sunbeam_kanban::labels::{
    create_label, create_label_call, delete_label, label_call, list_labels, list_labels_call,
    update_label, LabelFacts, LabelReply, LabelRow, LabelStep, ScopeFacts,
};
use sunbeam_kanban::milestones::{
    create_milestone, create_milestone_call, delete_milestone, get_milestone, list_milestones,
    list_milestones_call, milestone_call, update_milestone, CardStats, MilestoneFacts,
    MilestoneRow, MilestoneStep,
};
use sunbeam_kanban::permission::require_allowed;
use sunbeam_kanban::status::{Code, Status};
use sunbeam_kanban::timestamp::Timestamp;

fn s(text: &str) -> String {
    text.to_string()
}

fn id(text: &str) -> IdArg {
    IdArg { text: s(text), id: Some(s(text)) }
}

fn no_id(text: &str) -> IdArg {
    IdArg { text: s(text), id: None }
}

fn context(object: &str) -> RequestContext {
    RequestContext {
        checked_object_id: Some(id(object)),
        auth: Some(AuthContext {
            tenant_id: Some(s("tenant-1")),
            subject: Some(s("user:test")),
            exp: None,
        }),
    }
}

fn says(e: &Status, code: Code, message: &str) {
    assert_eq!((e.code, e.message.as_str()), (code, message));
}

fn time(seconds: i64) -> Timestamp {
    Timestamp { seconds, nanos: 0 }
}

// Labels

fn label(id: &str, project: Option<&str>) -> LabelRow {
    LabelRow { id: s(id), project_id: project.map(s), name: s(id), style: s("red") }
}

fn scope(projects: Option<&[&str]>, answers: &[bool]) -> ScopeFacts {
    ScopeFacts {
        projects: projects.map(|p| p.iter().map(|x| s(x)).collect()),
        answers: answers.to_vec(),
    }
}

fn label_refusal(step: LabelStep) -> Status {
    match step {
        LabelStep::Refuse(e) => e,
        step => panic!("{step:?}"),
    }
}

#[test]
fn create_then_list_project_label() {
    let call = create_label_call(&context("x"), &id("project-1"), s("bug"), s("red")).expect("call");
    match create_label(&call, &s("l1"), &scope(None, &[]), &None) {
        LabelStep::Check(c) => assert_eq!(
            (c.namespace, c.object_id.as_str(), c.relation, c.subject.as_str()),
            ("KanbanProject", "project-1", "manage", "user:test")
        ),
        step => panic!("{step:?}"),
    }
    match create_label(&call, &s("l1"), &scope(None, &[true]), &None) {
        LabelStep::Create(new) => {
            assert_eq!((new.id.as_str(), new.project_id.as_deref()), ("l1", Some("project-1")));
        }
        step => panic!("{step:?}"),
    }
    let written = Some(LabelReply::Written(label("l1", Some("project-1"))));
    match create_label(&call, &s("l1"), &scope(None, &[true]), &written) {
        LabelStep::Answer(l) => assert_eq!(l.project_id, "project-1"),
        step => panic!("{step:?}"),
    }
    let rows = vec![label("a", Some("project-1")), label("b", Some("project-2"))];
    let listed = list_labels(&rows, &s("project-1"));
    assert_eq!(listed.len(), 1);
    assert_eq!(listed[0].id, "a");
}

#[test]
fn global_label_visible_in_other_project() {
    let rows = vec![label("g", None), label("a", Some("project-1"))];
    for project in ["project-1", "project-2"] {
        let listed = list_labels(&rows, &s(project));
        assert_eq!((listed[0].id.as_str(), listed[0].project_id.as_str()), ("g", ""));
    }
    assert_eq!(list_labels(&rows, &s("project-2")).len(), 1);
}

#[test]
fn duplicate_name_rejected_per_scope() {
    let call = create_label_call(&context("x"), &id("project-1"), s("bug"), s("red")).expect("call");
    let allowed = scope(None, &[true]);
    says(
        &label_refusal(create_label(&call, &s("l"), &allowed, &Some(LabelReply::Taken))),
        Code::AlreadyExists,
        "label with this name already exists in this scope",
    );
    says(
        &label_refusal(create_label(&call, &s("l"), &allowed, &Some(LabelReply::Failed))),
        Code::Internal,
        "failed to create label",
    );
}

#[test]
fn label_requests_are_checked() {
    let refusal = |project: IdArg, name: &str, style: &str| {
        create_label_call(&context("x"), &project, s(name), s(style)).expect_err("refused")
    };
    says(&refusal(no_id("?"), "", ""), Code::InvalidArgument, "name is required");
    says(&refusal(no_id("?"), "n", ""), Code::InvalidArgument, "style is required");
    says(&refusal(no_id("?"), "n", "s"), Code::InvalidArgument, "invalid project_id");
    says(
        &list_labels_call(&context("x"), &no_id("?")).expect_err("project"),
        Code::InvalidArgument,
        "invalid project_id",
    );
    assert_eq!(list_labels_call(&context("x"), &id("p")).expect("call").check.relation, "view");
    says(
        &label_call(&context("x"), &no_id("?")).expect_err("label"),
        Code::InvalidArgument,
        "invalid label_id",
    );
}

fn label_facts(scope_of: Option<&str>, permission: ScopeFacts) -> LabelFacts {
    LabelFacts { scope: Some(Some(scope_of.map(s))), permission, reply: None, deleted: None }
}

#[test]
fn update_label_applies_mask_and_detects_conflict() {
    let call = label_call(&context("x"), &id("l1")).expect("call");
    let mut facts = label_facts(Some("project-1"), scope(None, &[true]));
    match update_label(&call, &s("new"), &s("blue"), &vec![s("style")], &facts) {
        LabelStep::Update(u) => assert_eq!((u.name, u.style.as_deref()), (None, Some("blue"))),
        step => panic!("{step:?}"),
    }
    facts.reply = Some(LabelReply::Taken);
    says(
        &label_refusal(update_label(&call, &s("new"), &s(""), &vec![s("name")], &facts)),
        Code::AlreadyExists,
        "label with this name already exists in this scope",
    );
    facts.reply = Some(LabelReply::Failed);
    says(
        &label_refusal(update_label(&call, &s("new"), &s(""), &vec![s("name")], &facts)),
        Code::Internal,
        "failed to update label",
    );
}

#[test]
fn delete_label_cascades_card_labels() {
    let call = label_call(&context("x"), &id("l1")).expect("call");
    let mut facts = label_facts(Some("project-1"), scope(None, &[true]));
    assert!(matches!(delete_label(&call, &facts), LabelStep::Delete { .. }));
    facts.deleted = Some(1);
    assert!(matches!(delete_label(&call, &facts), LabelStep::Done));
    facts.deleted = Some(0);
    says(&label_refusal(delete_label(&call, &facts)), Code::NotFound, "label not found");
    facts.scope = None;
    assert!(matches!(delete_label(&call, &facts), LabelStep::FindLabel { .. }));
    facts.scope = Some(None);
    says(&label_refusal(delete_label(&call, &facts)), Code::NotFound, "label not found");
}

#[test]
fn unauthorized_subject_denied_read_and_write() {
    says(
        &require_allowed(false).expect_err("denied"),
        Code::PermissionDenied,
        "permission denied",
    );
    assert!(require_allowed(true).is_ok());
    let call = label_call(&context("x"), &id("l1")).expect("call");
    let facts = label_facts(Some("project-1"), scope(None, &[false]));
    for step in [
        delete_label(&call, &facts),
        update_label(&call, &s("n"), &s("s"), &vec![], &facts),
    ] {
        says(&label_refusal(step), Code::PermissionDenied, "permission denied");
    }
}

#[test]
fn global_write_requires_manage_on_some_project() {
    let call = create_label_call(&context("x"), &no_id(""), s("bug"), s("red")).expect("call");
    let next = |projects: Option<&[&str]>, answers: &[bool]| {
        create_label(&call, &s("l"), &scope(projects, answers), &None)
    };
    assert!(matches!(next(None, &[]), LabelStep::LoadProjects { .. }));
    let projects: &[&str] = &["p", "q", "r"];
    for (answers, expected) in [(vec![], "p"), (vec![false], "q"), (vec![false, false], "r")] {
        match next(Some(projects), &answers) {
            LabelStep::Check(c) => assert_eq!(c.object_id, expected),
            step => panic!("{step:?}"),
        }
    }
    match next(Some(projects), &[false, true]) {
        LabelStep::Create(new) => assert_eq!(new.project_id, None),
        step => panic!("{step:?}"),
    }
    says(
        &label_refusal(next(Some(projects), &[false, false, false])),
        Code::PermissionDenied,
        "permission denied",
    );
    says(&label_refusal(next(Some(&[]), &[])), Code::PermissionDenied, "permission denied");
}

// Milestones

fn milestone(id: &str) -> MilestoneRow {
    MilestoneRow {
        id: s(id),
        project_id: s("project-1"),
        title: s("v1"),
        due: Some(time(9)),
        created_at: time(1),
        updated_at: time(2),
    }
}

fn milestone_facts(allowed: Option<bool>) -> MilestoneFacts {
    MilestoneFacts {
        row: Some(Some(milestone("m1"))),
        allowed,
        updated: None,
        stats: None,
        deleted: None,
    }
}

fn milestone_refusal(step: MilestoneStep) -> Status {
    match step {
        MilestoneStep::Refuse(e) => e,
        step => panic!("{step:?}"),
    }
}

#[test]
fn create_then_get_milestone_with_zero_stats() {
    let call = create_milestone_call(&context("x"), &id("project-1"), s("v1"), Some(time(9)))
        .expect("call");
    match create_milestone(&call, &s("m1"), None, &None) {
        MilestoneStep::Check(c) => {
            assert_eq!((c.object_id.as_str(), c.relation), ("project-1", "manage"));
        }
        step => panic!("{step:?}"),
    }
    says(
        &milestone_refusal(create_milestone(&call, &s("m1"), Some(false), &None)),
        Code::PermissionDenied,
        "permission denied",
    );
    match create_milestone(&call, &s("m1"), Some(true), &None) {
        MilestoneStep::Create(new) => assert_eq!((new.title.as_str(), new.due), ("v1", Some(time(9)))),
        step => panic!("{step:?}"),
    }
    match create_milestone(&call, &s("m1"), Some(true), &Some(milestone("m1"))) {
        MilestoneStep::Answer(m) => assert_eq!((m.total_cards, m.completed_cards), (0, 0)),
        step => panic!("{step:?}"),
    }
    let call = milestone_call(&context("x"), &id("m1")).expect("call");
    let mut facts = milestone_facts(Some(true));
    assert!(matches!(get_milestone(&call, &facts), MilestoneStep::LoadStats { .. }));
    facts.stats = Some(vec![]);
    match get_milestone(&call, &facts) {
        MilestoneStep::Answer(m) => assert_eq!((m.total_cards, m.completed_cards), (0, 0)),
        step => panic!("{step:?}"),
    }
    says(
        &create_milestone_call(&context("x"), &no_id("?"), s(""), None).expect_err("title"),
        Code::InvalidArgument,
        "title is required",
    );
    says(
        &create_milestone_call(&context("x"), &no_id("?"), s("t"), None).expect_err("project"),
        Code::InvalidArgument,
        "invalid project_id",
    );
}

#[test]
fn list_milestones_includes_card_stats() {
    let call = list_milestones_call(&context("x"), &id("project-1")).expect("call");
    assert_eq!((call.project_id.as_str(), call.check.relation), ("project-1", "view"));
    let stats = vec![
        CardStats { milestone_id: s("m2"), total: 3, completed: 1 },
        CardStats { milestone_id: s("m9"), total: 4294967296 + 8, completed: 0 },
    ];
    let mut elsewhere = milestone("m3");
    elsewhere.project_id = s("project-2");
    let rows = vec![milestone("m1"), elsewhere, milestone("m2"), milestone("m9")];
    let listed = list_milestones(&rows, &stats, &call.project_id);
    let counts: Vec<(i32, i32)> =
        listed.iter().map(|m| (m.total_cards, m.completed_cards)).collect();
    assert_eq!(counts, vec![(0, 0), (3, 1), (8, 0)]);
}

#[test]
fn update_milestone_applies_mask() {
    let call = milestone_call(&context("x"), &id("m1")).expect("call");
    let facts = milestone_facts(Some(true));
    let update = |title: &str, due: Option<Timestamp>, mask: &[&str]| {
        let mask = mask.iter().map(|m| s(m)).collect();
        update_milestone(&call, &s(title), due, &mask, &facts)
    };
    match update("new", Some(time(5)), &["title"]) {
        MilestoneStep::Update(u) => assert_eq!((u.title.as_deref(), u.due), (Some("new"), None)),
        step => panic!("{step:?}"),
    }
    match update("", Some(time(5)), &["due"]) {
        MilestoneStep::Update(u) => assert_eq!((u.title, u.due), (None, Some(Some(time(5))))),
        step => panic!("{step:?}"),
    }
    match update("", None, &["due"]) {
        MilestoneStep::Update(u) => assert_eq!(u.due, Some(None)),
        step => panic!("{step:?}"),
    }
    match update("x", None, &[]) {
        MilestoneStep::Update(u) => assert_eq!((u.title, u.due), (None, None)),
        step => panic!("{step:?}"),
    }
    says(
        &milestone_refusal(update("", None, &["title"])),
        Code::InvalidArgument,
        "title cannot be empty",
    );
}

#[test]
fn delete_milestone_clears_cards() {
    let call = milestone_call(&context("x"), &id("m1")).expect("call");
    let mut facts = milestone_facts(Some(true));
    match delete_milestone(&call, &facts) {
        MilestoneStep::Delete { milestone_id, tenant_id } => {
            assert_eq!((milestone_id.as_str(), tenant_id.as_str()), ("m1", "tenant-1"));
        }
        step => panic!("{step:?}"),
    }
    facts.deleted = Some(1);
    assert!(matches!(delete_milestone(&call, &facts), MilestoneStep::Done));
    facts.deleted = Some(0);
    says(
        &milestone_refusal(delete_milestone(&call, &facts)),
        Code::NotFound,
        "milestone not found",
    );
    facts.row = Some(None);
    says(
        &milestone_refusal(delete_milestone(&call, &facts)),
        Code::NotFound,
        "milestone not found",
    );
    says(
        &milestone_refusal(get_milestone(&call, &facts)),
        Code::NotFound,
        "milestone not found",
    );
    facts.row = None;
    assert!(matches!(delete_milestone(&call, &facts), MilestoneStep::FindMilestone { .. }));
}

#[test]
fn unauthorized_subject_is_denied() {
    let call = milestone_call(&context("x"), &id("m1")).expect("call");
    let facts = milestone_facts(Some(false));
    for step in [
        get_milestone(&call, &facts),
        update_milestone(&call, &s(""), None, &vec![s("title")], &facts),
        delete_milestone(&call, &facts),
    ] {
        says(&milestone_refusal(step), Code::PermissionDenied, "permission denied");
    }
    match get_milestone(&call, &milestone_facts(None)) {
        MilestoneStep::Check(c) => assert_eq!(c.relation, "view"),
        step => panic!("{step:?}"),
    }
}

// Attachments

fn attachment(card: &str) -> AttachmentRow {
    AttachmentRow {
        id: s("att-1"),
        card_id: s(card),
        s3_key: s("kanban/cards/card-1/att-1/a.txt"),
        filename: s("a.txt"),
        mimetype: s("text/plain"),
        size: 12,
        uploaded_by: s("user:test"),
        created_at: time(3),
    }
}

fn attachment_facts(card: &str) -> AttachmentFacts {
    AttachmentFacts {
        row: Some(Some(attachment(card))),
        head: None,
        updated: None,
        object_deleted: false,
        deleted: false,
    }
}

fn call() -> AttachmentCall {
    attachment_call(&context("card-1"), &id("att-1")).expect("call")
}

fn attachment_refusal(step: AttachmentStep) -> Status {
    match step {
        AttachmentStep::Refuse(e) => e,
        step => panic!("{step:?}"),
    }
}

#[test]
fn request_presigned_upload_returns_signed_url() {
    let call = request_presigned_upload_call(&context("card-1"), s("a b.txt"), s("text/plain"))
        .expect("call");
    let new = request_presigned_upload(&call, &s("att-1"), &s("a_b.txt"));
    assert_eq!(new.s3_key, "kanban/cards/card-1/att-1/a_b.txt");
    assert_eq!((new.filename.as_str(), new.mimetype.as_str()), ("a_b.txt", "text/plain"));
    assert_eq!((new.size, new.uploaded_by.as_str()), (0, "user:test"));
    let refusal = |name: &str, mime: &str| {
        request_presigned_upload_call(&context("card-1"), s(name), s(mime)).expect_err("refused")
    };
    says(&refusal("", ""), Code::InvalidArgument, "filename is required");
    says(&refusal("a", ""), Code::InvalidArgument, "mime_type is required");
    let mut ctx = context("card-1");
    ctx.checked_object_id = Some(no_id("card-1"));
    says(
        &request_presigned_upload_call(&ctx, s(""), s("")).expect_err("card"),
        Code::InvalidArgument,
        "invalid card_id in x-sunbeam-object-id",
    );
}

#[test]
fn a_clock_before_the_epoch_reads_zero() {
    assert_eq!(millis_of(Some(1234)), 1234);
    assert_eq!(millis_of(None), 0);
}

#[test]
fn expiry_counts_from_now() {
    assert_eq!(secs_after(100, 20), time(120));
    assert_eq!(secs_after(u64::MAX, 20), time(-1));
    assert_eq!(secs_after(i64::MAX as u64, 1), time(i64::MIN));
    let a = now_plus_secs(0).seconds;
    let b = now_plus_secs(3600).seconds;
    assert!(a > 1_600_000_000 && (3600..3610).contains(&(b - a)));
}

#[test]
fn presigned_upload_then_confirm_then_download_round_trip() {
    let mut facts = attachment_facts("card-1");
    facts.row = None;
    assert!(matches!(confirm_upload(&call(), &facts), AttachmentStep::Find { .. }));
    facts = attachment_facts("card-1");
    match confirm_upload(&call(), &facts) {
        AttachmentStep::Head { s3_key } => assert_eq!(s3_key, "kanban/cards/card-1/att-1/a.txt"),
        step => panic!("{step:?}"),
    }
    facts.head = Some(StoreReply::Found { size: 99 });
    match confirm_upload(&call(), &facts) {
        AttachmentStep::SetSize { size, .. } => assert_eq!(size, 99),
        step => panic!("{step:?}"),
    }
    facts.updated = Some(attachment("card-1"));
    match confirm_upload(&call(), &facts) {
        AttachmentStep::Answer(a) => {
            assert_eq!((a.size_bytes, a.mime_type.as_str(), a.uploaded_at), (12, "text/plain", time(3)));
        }
        step => panic!("{step:?}"),
    }
    match request_presigned_download(&call(), &Some(Some(attachment("card-1")))) {
        AttachmentStep::Presign { s3_key } => assert_eq!(s3_key, "kanban/cards/card-1/att-1/a.txt"),
        step => panic!("{step:?}"),
    }
}

#[test]
fn confirm_upload_rejects_when_file_not_in_s3() {
    for (reply, code, message) in [
        (StoreReply::NotFound, Code::NotFound, "object not found in S3"),
        (StoreReply::Forbidden, Code::PermissionDenied, "S3 access denied"),
        (StoreReply::Http, Code::Internal, "S3 request failed"),
        (StoreReply::Unexpected, Code::Internal, "S3 unexpected response"),
    ] {
        let mut facts = attachment_facts("card-1");
        facts.head = Some(reply);
        says(&attachment_refusal(confirm_upload(&call(), &facts)), code, message);
    }
}

#[test]
fn delete_attachment_removes_from_s3_and_db() {
    let mut facts = attachment_facts("card-1");
    assert!(matches!(delete_attachment(&call(), &facts), AttachmentStep::DeleteObject { .. }));
    facts.object_deleted = true;
    assert!(matches!(delete_attachment(&call(), &facts), AttachmentStep::Delete { .. }));
    facts.deleted = true;
    assert!(matches!(delete_attachment(&call(), &facts), AttachmentStep::Done));
}

#[test]
fn list_attachments_by_card_returns_only_that_cards_rows() {
    let call = list_attachments_call(&context("card-1")).expect("call");
    assert_eq!((call.card_id.as_str(), call.tenant_id.as_str()), ("card-1", "tenant-1"));
    let rows = vec![attachment("card-1"), attachment("card-2"), attachment("card-1")];
    let listed = list_attachments_by_card(&rows, &call.card_id);
    assert_eq!(listed.len(), 2);
    assert!(listed.iter().all(|a| a.card_id == "card-1"));
    assert_eq!(listed[0].filename, "a.txt");
}

#[test]
fn confirm_upload_rejects_when_card_id_mismatches_checked_object_id() {
    let facts = attachment_facts("card-2");
    for step in [
        confirm_upload(&call(), &facts),
        delete_attachment(&call(), &facts),
        request_presigned_download(&call(), &facts.row),
    ] {
        says(
            &attachment_refusal(step),
            Code::PermissionDenied,
            "attachment does not belong to the authorized card",
        );
    }
    says(
        &attachment_refusal(request_presigned_download(&call(), &Some(None))),
        Code::NotFound,
        "attachment not found",
    );
    says(
        &attachment_call(&context("card-1"), &no_id("?")).expect_err("attachment"),
        Code::InvalidArgument,
        "invalid attachment_id",
    );
    let mut ctx = context("card-1");
    ctx.checked_object_id = None;
    says(
        &attachment_call(&ctx, &no_id("?")).expect_err("object"),
        Code::Internal,
        "missing CheckedObjectId extension",
    );
}

// Who the caller is

fn session(subject: &str, extra: Vec<(&str, Json)>) -> Option<Session> {
    let members = extra.into_iter().map(|(n, v)| Member { name: s(n), value: v }).collect();
    Some(Session {
        is_authenticated: true,
        subject: Some(s(subject)),
        claims: Some(Claims { exp: i64::MAX / 1000, extra: Json::Object(members) }),
    })
}

fn text(t: &str) -> Json {
    Json::Text(s(t))
}

#[test]
fn whoami_returns_subject_from_auth_context() {
    let me = AuthServiceImpl.who_am_i(&session("user:test-whoami", vec![])).expect("me");
    assert_eq!(me.subject, "user:test-whoami");
    assert_eq!(me.display_name, "user:test-whoami");
    assert_eq!(me.expires_at_ms, i64::MAX / 1000 * 1000);
    let bare = Some(Session { is_authenticated: true, subject: Some(s("u")), claims: None });
    let me = AuthServiceImpl.who_am_i(&bare).expect("me");
    assert_eq!((me.display_name.as_str(), me.email.as_str(), me.expires_at_ms), ("u", "", 0));
    assert!(me.roles.is_empty());
}

#[test]
fn whoami_pulls_display_name_from_claims_extra_name() {
    let me = AuthServiceImpl
        .who_am_i(&session("user:sienna", vec![("name", text("Sienna")), ("email", text("x@y"))]))
        .expect("me");
    assert_eq!(me.display_name, "Sienna");
}

#[test]
fn whoami_pulls_email_from_claims_extra_email() {
    let me = AuthServiceImpl
        .who_am_i(&session("user:sienna", vec![("email", text("sienna@r3t.io"))]))
        .expect("me");
    assert_eq!(me.email, "sienna@r3t.io");
    assert_eq!(me.display_name, "sienna");
    let me = AuthServiceImpl
        .who_am_i(&session("u", vec![("email", text("plain")), ("name", Json::Int(1))]))
        .expect("me");
    assert_eq!(me.display_name, "plain");
}

#[test]
fn whoami_lists_the_roles_that_are_texts() {
    let roles = Json::List(vec![text("admin"), Json::Int(3), text("dev")]);
    let me = AuthServiceImpl.who_am_i(&session("u", vec![("roles", roles)])).expect("me");
    assert_eq!(me.roles, vec![s("admin"), s("dev")]);
    let me = AuthServiceImpl.who_am_i(&session("u", vec![("roles", text("admin"))])).expect("me");
    assert!(me.roles.is_empty());
}

#[test]
fn whoami_returns_unauthenticated_when_no_auth_context() {
    let claims = Some(Claims { exp: i64::MAX, extra: Json::Null });
    let nobody = Some(Session { is_authenticated: false, subject: None, claims });
    says(
        &AuthServiceImpl.who_am_i(&nobody).expect_err("nobody"),
        Code::Unauthenticated,
        "not authenticated",
    );
    let nameless = Some(Session { is_authenticated: true, subject: None, claims: None });
    says(
        &AuthServiceImpl.caller(&nameless).expect_err("nameless"),
        Code::Unauthenticated,
        "not authenticated",
    );
    says(
        &AuthServiceImpl.who_am_i(&None).expect_err("missing"),
        Code::Internal,
        "AuthContext extension missing",
    );
}

#[test]
fn signal_logout_answers_the_watermark() {
    let done = AuthServiceImpl.signal_logout(s("u"), Some(77)).expect("done");
    assert_eq!((done.subject.as_str(), done.watermark_ms), ("u", 77));
    assert_eq!(AuthServiceImpl.signal_logout(s("u"), Some(u64::MAX)).expect("done").watermark_ms, -1);
    says(
        &AuthServiceImpl.signal_logout(s("u"), None).expect_err("failed"),
        Code::Internal,
        "logout watermark write failed",
    );
}

#[test]
fn forgejo_is_not_there_yet() {
    let f = ForgejoServiceImpl;
    for r in [
        f.link_issue(),
        f.unlink_issue(),
        f.list_links_by_card(),
        f.search_forgejo_issues(),
        f.resync_link(),
    ] {
        says(&r.expect_err("not there"), Code::Unimplemented, "Stage 3 stub");
    }
}
