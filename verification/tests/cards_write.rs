use sunbeam_kanban::cards::assignee::{assign_card, assign_card_call, unassign_card};
use sunbeam_kanban::cards::bulk_labels::{
    bulk_update_card_labels, bulk_update_card_labels_call, BulkLabelsCall, BulkLabelsFacts,
    BulkLabelsRequest, BulkLabelsStep, CardRead,
};
use sunbeam_kanban::cards::checklist::{
    add_checklist_item, add_checklist_item_call, checklist_item_call, remove_checklist_item,
    update_checklist_item,
};
use sunbeam_kanban::cards::comment::{
    add_comment, add_comment_call, delete_comment, delete_comment_call, edit_comment,
    edit_comment_call, AddCommentFacts, AddCommentStep,
};
use sunbeam_kanban::cards::create::{
    create_card, create_card_call, CreateCardCall, CreateCardFacts, CreateCardRequest, NewCard,
};
use sunbeam_kanban::cards::dependency::{
    add_card_dependency, add_card_dependency_call, remove_card_dependency,
    remove_card_dependency_call, DependencyFacts, DependencyRequest,
};
use sunbeam_kanban::cards::model::{
    full_card, priority_from_i32, priority_to_i32, urgency_from_i32, urgency_to_i32, CardRow,
    ChecklistRow, CommentRow, LoadedCard,
};
use sunbeam_kanban::cards::moving::{
    move_card, move_card_call, MoveCardCall, MoveCardFacts, MoveCardRequest,
};
use sunbeam_kanban::cards::reference::{allocate_card_ref, RefCounter, RefState};
use sunbeam_kanban::cards::step::{CardHead, CardStep};
use sunbeam_kanban::cards::touch::{CardChange, TouchFacts, TouchStep};
use sunbeam_kanban::cards::update::{
    card_call, delete_card, update_card, CardPatch, EnumArg, UpdateCardFacts,
};
use sunbeam_kanban::context::{AuthContext, IdArg, RequestContext};
use sunbeam_kanban::github::LinkRow;
use sunbeam_kanban::json::{Json, Member};
use sunbeam_kanban::labels::LabelRow;
use sunbeam_kanban::position::Slot;
use sunbeam_kanban::status::{Code, Status};
use sunbeam_kanban::timestamp::Timestamp;

fn s(text: &str) -> String {
    text.to_string()
}

fn id(text: &str) -> IdArg {
    IdArg { text: s(text), id: Some(s(text)) }
}

fn no_id(text: &str) -> IdArg {
    IdArg { text: s(text), id: None }
}

fn context(object: &str) -> RequestContext {
    RequestContext {
        checked_object_id: Some(id(object)),
        auth: Some(AuthContext {
            tenant_id: Some(s("tenant-1")),
            subject: Some(s("user:test")),
            exp: None,
        }),
    }
}

fn says(e: &Status, code: Code, message: &str) {
    assert_eq!((e.code, e.message.as_str()), (code, message));
}

fn slot(id: &str, position: i32) -> Slot {
    Slot { id: s(id), position }
}

fn positions(slots: &[Slot]) -> Vec<(String, i32)> {
    slots.iter().map(|x| (x.id.clone(), x.position)).collect()
}

fn at(list: &[(&str, i32)]) -> Vec<(String, i32)> {
    list.iter().map(|(id, p)| (s(id), *p)).collect()
}

fn head(column: &str, position: i32, revision: i64) -> CardHead {
    CardHead {
        board_id: s("board-1"),
        project_id: s("project-1"),
        column_id: s(column),
        position,
        revision,
    }
}

fn num(payload: &Json, name: &str) -> i64 {
    match payload.get_int(name) {
        Some(n) => n,
        None => panic!("no {name}"),
    }
}

fn txt(payload: &Json, name: &str) -> String {
    match payload.get_text(name) {
        Some(t) => t,
        None => panic!("no {name}"),
    }
}

fn card_row(id: &str) -> CardRow {
    CardRow {
        id: s(id),
        project_id: s("project-1"),
        board_id: s("board-1"),
        column_id: s("col-1"),
        reference: s("REF-001"),
        title: s("A card"),
        description: None,
        position: 3,
        priority: None,
        urgency: Some(s("critical")),
        due_date: Some(Timestamp { seconds: 5, nanos: 6 }),
        completed_at: None,
        blocked: true,
        cover: Some(s("cover")),
        milestone_id: None,
        revision: 4,
        created_at: Timestamp { seconds: 1, nanos: 0 },
        updated_at: Timestamp { seconds: 2, nanos: 0 },
    }
}

fn link(id: &str, repo: &str, title: Option<&str>) -> LinkRow {
    LinkRow {
        id: s(id),
        card_id: s("card-1"),
        repo: s(repo),
        issue_id: 7,
        state: s("open"),
        title: title.map(s),
        url: s("https://github.com/x"),
        kind: s("issue"),
        synced_at: Timestamp { seconds: 3, nanos: 0 },
    }
}

fn loaded(id: &str) -> LoadedCard {
    LoadedCard {
        row: card_row(id),
        labels: vec![
            LabelRow { id: s("l1"), project_id: Some(s("project-1")), name: s("bug"), style: s("red") },
            LabelRow { id: s("l2"), project_id: None, name: s("global"), style: s("blue") },
        ],
        assignees: vec![s("user:a")],
        checklist: vec![ChecklistRow { id: s("i1"), text: s("do"), done: true, position: 0 }],
        links: vec![link("g1", "sunbeam/kanban", Some("Crash")), link("g2", "bare", None)],
        comments: 2,
        attachments: 4294967297,
        depends_on: vec![s("card-x")],
        dependents: vec![],
    }
}

// Creating

fn create_request(position: i32, key: &str) -> CreateCardRequest {
    CreateCardRequest {
        column_id: id("col-1"),
        title: s("My card"),
        description: s(""),
        position,
        priority: 3,
        urgency: 0,
        due: None,
        milestone_id: id(""),
        idempotency_key: s(key),
    }
}

fn create_facts() -> CreateCardFacts {
    CreateCardFacts {
        replay: None,
        project: None,
        column: None,
        refs: None,
        slots: None,
        stored: false,
        kept: false,
        loaded: None,
    }
}

fn refs(next: Option<i32>) -> RefState {
    RefState {
        project_prefix: Some(s("REF")),
        counter: next.map(|n| RefCounter { prefix: s("REF"), next_seq: n }),
    }
}

fn ready(slots: Vec<Slot>, next: Option<i32>) -> CreateCardFacts {
    CreateCardFacts {
        replay: Some(None),
        project: Some(Some(s("project-1"))),
        column: Some(Some(s("board-1"))),
        refs: Some(refs(next)),
        slots: Some(slots),
        ..create_facts()
    }
}

fn create_call(req: CreateCardRequest) -> CreateCardCall {
    match create_card_call(&context("board-1"), req) {
        Ok(call) => call,
        Err(e) => panic!("{}", e.message),
    }
}

fn new_card(req: CreateCardRequest, facts: &CreateCardFacts) -> NewCard {
    match create_card(&create_call(req), &s("card-1"), facts) {
        CardStep::Store(new) => new,
        step => panic!("{step:?}"),
    }
}

#[test]
fn create_card_allocates_ref() {
    let mut next = None;
    for expected in ["REF-001", "REF-002", "REF-003"] {
        let new = new_card(create_request(0, "k"), &ready(vec![], next));
        assert_eq!(new.reference, expected);
        assert_eq!(new.revision, 0);
        next = Some(new.counter.next_seq);
    }
    assert_eq!(next, Some(4));
    let new = new_card(create_request(0, "k"), &ready(vec![], Some(1234)));
    assert_eq!(new.reference, "REF-1234");
}

#[test]
fn create_card_in_different_projects_have_independent_seqs() {
    let first = |prefix: &str| {
        allocate_card_ref(&RefState { project_prefix: Some(s(prefix)), counter: None })
            .expect("allocated")
            .reference
    };
    assert_eq!(first("PA"), "PA-001");
    assert_eq!(first("PB"), "PB-001");
}

#[test]
fn references_run_out() {
    let none = RefState { project_prefix: None, counter: None };
    says(
        &allocate_card_ref(&none).expect_err("no project"),
        Code::Internal,
        "failed to allocate card ref",
    );
    says(
        &allocate_card_ref(&refs(Some(i32::MAX))).expect_err("full"),
        Code::Internal,
        "failed to allocate card ref",
    );
    assert_eq!(allocate_card_ref(&refs(Some(-5))).expect("odd").reference, "REF--05");
    let kept = RefState {
        project_prefix: Some(s("NEW")),
        counter: Some(RefCounter { prefix: s("OLD"), next_seq: 2 }),
    };
    assert_eq!(allocate_card_ref(&kept).expect("kept").reference, "OLD-002");
}

#[test]
fn create_card_walks_through_its_steps() {
    let call = create_call(create_request(0, "key-1"));
    let card_id = s("card-1");
    let mut facts = create_facts();
    match create_card(&call, &card_id, &facts) {
        CardStep::FindKey { tenant_id, key } => {
            assert_eq!((tenant_id.as_str(), key.as_str()), ("tenant-1", "key-1"));
        }
        step => panic!("{step:?}"),
    }
    facts.replay = Some(None);
    assert!(matches!(create_card(&call, &card_id, &facts), CardStep::FindBoard { .. }));
    facts.project = Some(Some(s("project-1")));
    match create_card(&call, &card_id, &facts) {
        CardStep::FindColumn { column_id, .. } => assert_eq!(column_id, "col-1"),
        step => panic!("{step:?}"),
    }
    facts.column = Some(Some(s("board-1")));
    match create_card(&call, &card_id, &facts) {
        CardStep::LoadRefs { project_id, .. } => assert_eq!(project_id, "project-1"),
        step => panic!("{step:?}"),
    }
    facts.refs = Some(refs(None));
    assert!(matches!(create_card(&call, &card_id, &facts), CardStep::LoadSlots { .. }));
    facts.slots = Some(vec![slot("a", 0), slot("b", 4)]);
    match create_card(&call, &card_id, &facts) {
        CardStep::Store(new) => {
            assert_eq!(new.position, 5);
            assert!(new.shifted.is_none());
            assert_eq!(new.created_by, "user:test");
            assert_eq!(new.priority, "high");
            assert_eq!(new.urgency, "medium");
            assert_eq!(new.description, None);
            assert_eq!(new.milestone_id, None);
            let p = &new.event.payload;
            assert_eq!(new.event.event_type, "CardCreated");
            assert_eq!(txt(p, "card_id"), "card-1");
            assert_eq!(txt(p, "board_id"), "board-1");
            assert_eq!(txt(p, "column_id"), "col-1");
            assert_eq!(txt(p, "title"), "My card");
            assert_eq!(txt(p, "ref"), "REF-001");
            assert_eq!(num(p, "position"), 5);
            assert_eq!(txt(p, "priority"), "high");
            assert_eq!(txt(p, "urgency"), "medium");
            assert_eq!(txt(p, "idempotency_key"), "key-1");
        }
        step => panic!("{step:?}"),
    }
    facts.stored = true;
    match create_card(&call, &card_id, &facts) {
        CardStep::KeepKey { key, card_id, .. } => {
            assert_eq!((key.as_str(), card_id.as_str()), ("key-1", "card-1"));
        }
        step => panic!("{step:?}"),
    }
    facts.kept = true;
    assert!(matches!(create_card(&call, &card_id, &facts), CardStep::LoadCard { .. }));
    facts.loaded = Some(Some(loaded("card-1")));
    match create_card(&call, &card_id, &facts) {
        CardStep::Answer(card) => assert_eq!(card.id, "card-1"),
        step => panic!("{step:?}"),
    }
}

#[test]
fn create_card_replays_its_key() {
    let call = create_call(create_request(0, "key-1"));
    let mut facts = ready(vec![], None);
    facts.replay = Some(Some(s("earlier")));
    match create_card(&call, &s("card-2"), &facts) {
        CardStep::LoadCard { card_id, .. } => assert_eq!(card_id, "earlier"),
        step => panic!("{step:?}"),
    }
    facts.loaded = Some(None);
    match create_card(&call, &s("card-2"), &facts) {
        CardStep::Refuse(e) => says(&e, Code::NotFound, "card not found"),
        step => panic!("{step:?}"),
    }
}

#[test]
fn create_card_refuses() {
    let mut req = create_request(0, "");
    req.title = s("");
    says(
        &create_card_call(&context("board-1"), req).expect_err("no title"),
        Code::InvalidArgument,
        "title is required",
    );
    let mut ctx = context("board-1");
    ctx.auth = Some(AuthContext { tenant_id: Some(s("t")), subject: None, exp: None });
    says(
        &create_card_call(&ctx, create_request(0, "")).expect_err("no subject"),
        Code::Unauthenticated,
        "missing auth context",
    );
    let refusal = |req: CreateCardRequest, facts: &CreateCardFacts| {
        match create_card(&create_call(req), &s("card-1"), facts) {
            CardStep::Refuse(e) => e,
            step => panic!("{step:?}"),
        }
    };
    let mut facts = ready(vec![], None);
    facts.project = Some(None);
    says(&refusal(create_request(0, ""), &facts), Code::NotFound, "board not found");
    facts = ready(vec![], None);
    let mut req = create_request(0, "");
    req.column_id = no_id("x");
    says(&refusal(req, &facts), Code::InvalidArgument, "invalid column_id");
    for column in [None, Some(s("board-2"))] {
        facts.column = Some(column);
        says(
            &refusal(create_request(0, ""), &facts),
            Code::NotFound,
            "column not found on this board",
        );
    }
    facts = ready(vec![slot("a", i32::MAX)], None);
    says(&refusal(create_request(0, ""), &facts), Code::Internal, "failed to insert card");
    says(&refusal(create_request(7, ""), &facts), Code::Internal, "failed to shift positions");
    facts = ready(vec![], Some(i32::MAX));
    says(&refusal(create_request(0, ""), &facts), Code::Internal, "failed to allocate card ref");
}

#[test]
fn create_card_makes_room() {
    let slots = vec![slot("a", 0), slot("b", 1), slot("c", 2)];
    let new = new_card(create_request(1, ""), &ready(slots, None));
    assert_eq!(new.position, 1);
    let shifted = new.shifted.expect("shifted");
    assert_eq!(positions(&shifted), at(&[("a", 0), ("b", 2), ("c", 3)]));
}

#[test]
fn create_card_persists_urgency() {
    let mut req = create_request(0, "");
    req.urgency = 4;
    assert_eq!(new_card(req, &ready(vec![], None)).urgency, "critical");
}

#[test]
fn create_card_defaults_urgency_to_medium() {
    for number in [0, 2, 5, -1] {
        let mut req = create_request(0, "");
        req.urgency = number;
        assert_eq!(new_card(req, &ready(vec![], None)).urgency, "medium");
    }
}

#[test]
fn priority_enum_still_round_trips() {
    for n in 1..=4 {
        assert_eq!(priority_to_i32(priority_from_i32(n)), n);
        assert_eq!(urgency_to_i32(urgency_from_i32(n)), n);
    }
    assert_eq!(priority_from_i32(4), "urgent");
    assert_eq!(priority_from_i32(99), "medium");
    assert_eq!(urgency_from_i32(-1), "medium");
    assert_eq!(priority_to_i32("critical"), 0);
    assert_eq!(urgency_to_i32("urgent"), 0);
    assert_eq!(priority_to_i32("Low"), 0);
}

#[test]
fn due_dates_are_kept_only_where_they_have_a_date() {
    for (seconds, nanos, kept) in [
        (1_700_000_000, 999_999_999, true),
        (8_210_266_876_799, 0, true),
        (8_210_266_876_800, 0, false),
        (-8_334_601_228_800, 0, true),
        (-8_334_601_228_801, 0, false),
        (59, 1_500_000_000, true),
        (58, 1_500_000_000, false),
        (59, 2_000_000_000, false),
        (-1, 1_000_000_000, true),
        (0, -1, false),
        (i64::MAX, 0, false),
    ] {
        let due = Timestamp { seconds, nanos };
        let mut req = create_request(0, "");
        req.due = Some(due);
        let new = new_card(req, &ready(vec![], None));
        assert_eq!(new.due_date, if kept { Some(due) } else { None }, "{seconds} {nanos}");
    }
}

// Moving

fn move_call(to: &str, position: i32, key: &str) -> MoveCardCall {
    let req = MoveCardRequest {
        to_column_id: id(to),
        to_position: position,
        idempotency_key: s(key),
    };
    match move_card_call(&context("card-1"), req) {
        Ok(call) => call,
        Err(e) => panic!("{}", e.message),
    }
}

fn move_facts() -> MoveCardFacts {
    MoveCardFacts {
        replay: Some(None),
        head: Some(Some(head("col-1", 1, 7))),
        column: Some(Some(s("board-1"))),
        project: Some(Some(s("project-1"))),
        source: Some(vec![slot("a", 0), slot("card-1", 1), slot("c", 2), slot("d", 3)]),
        target: Some(vec![slot("x", 0), slot("y", 1)]),
        stored: false,
        kept: false,
        loaded: None,
    }
}

#[test]
fn move_card_within_same_board_succeeds() {
    match move_card(&move_call("col-2", 1, "k"), &move_facts()) {
        CardStep::Store(m) => {
            assert_eq!(m.to_column_id, "col-2");
            assert_eq!(m.to_position, 0);
            assert!(m.revision > 7, "revision must bump on move");
            assert_eq!(m.revision, 8);
            assert_eq!(positions(&m.source), at(&[("a", 0), ("card-1", 1), ("c", 1), ("d", 2)]));
            assert_eq!(positions(&m.target.expect("target")), at(&[("x", 1), ("y", 2)]));
            let p = &m.event.payload;
            assert_eq!(m.event.event_type, "CardMoved");
            assert_eq!(txt(p, "from_column"), "col-1");
            assert_eq!(txt(p, "to_column"), "col-2");
            assert_eq!(num(p, "to_position"), 0);
            assert_eq!(num(p, "prev_revision"), 7);
            assert_eq!(num(p, "new_revision"), 8);
            assert_eq!(txt(p, "idempotency_key"), "k");
        }
        step => panic!("{step:?}"),
    }
}

#[test]
fn move_card_within_its_column() {
    let moved = |to: i32| match move_card(&move_call("col-1", to, ""), &move_facts()) {
        CardStep::Store(m) => {
            assert!(m.target.is_none());
            (m.to_position, positions(&m.source))
        }
        step => panic!("{step:?}"),
    };
    assert_eq!(moved(4), (3, at(&[("a", 0), ("card-1", 1), ("c", 1), ("d", 2)])));
    assert_eq!(moved(1), (0, at(&[("a", 1), ("card-1", 1), ("c", 2), ("d", 3)])));
    assert_eq!(moved(-5), moved(1));
    assert_eq!(moved(2), (1, at(&[("a", 0), ("card-1", 1), ("c", 2), ("d", 3)])));
}

#[test]
fn move_card_to_column_on_different_project_returns_invalid_argument() {
    let mut facts = move_facts();
    facts.project = Some(Some(s("project-2")));
    match move_card(&move_call("col-2", 1, "k"), &facts) {
        CardStep::Refuse(e) => {
            says(&e, Code::InvalidArgument, "cards do not move between projects");
        }
        step => panic!("{step:?}"),
    }
}

#[test]
fn move_card_with_idempotency_key_replays_returns_same_state() {
    let call = move_call("col-2", 1, "k");
    let mut facts = move_facts();
    facts.replay = None;
    assert!(matches!(move_card(&call, &facts), CardStep::FindKey { .. }));
    facts.replay = Some(Some(s("card-9")));
    match move_card(&call, &facts) {
        CardStep::LoadCard { card_id, .. } => assert_eq!(card_id, "card-1"),
        step => panic!("{step:?}"),
    }
    facts.loaded = Some(Some(loaded("card-1")));
    assert!(matches!(move_card(&call, &facts), CardStep::Answer(_)));
}

#[test]
fn move_card_looks_things_up_in_turn() {
    let call = move_call("col-2", 1, "");
    let mut facts = MoveCardFacts {
        replay: None,
        head: None,
        column: None,
        project: None,
        source: None,
        target: None,
        stored: false,
        kept: false,
        loaded: None,
    };
    assert!(matches!(move_card(&call, &facts), CardStep::FindCard { .. }));
    facts.head = Some(Some(head("col-1", 0, 1)));
    assert!(matches!(move_card(&call, &facts), CardStep::FindColumn { .. }));
    facts.column = Some(Some(s("board-2")));
    match move_card(&call, &facts) {
        CardStep::FindBoard { board_id, .. } => assert_eq!(board_id, "board-2"),
        step => panic!("{step:?}"),
    }
    facts.project = Some(Some(s("project-1")));
    match move_card(&call, &facts) {
        CardStep::LoadSlots { column_id, .. } => assert_eq!(column_id, "col-1"),
        step => panic!("{step:?}"),
    }
    facts.source = Some(vec![]);
    match move_card(&call, &facts) {
        CardStep::LoadTargetSlots { column_id, .. } => assert_eq!(column_id, "col-2"),
        step => panic!("{step:?}"),
    }
    facts.target = Some(vec![]);
    facts.stored = true;
    assert!(matches!(move_card(&call, &facts), CardStep::LoadCard { .. }));
}

#[test]
fn move_card_refuses() {
    let refusal = |facts: &MoveCardFacts| match move_card(&move_call("col-2", 1, ""), facts) {
        CardStep::Refuse(e) => e,
        step => panic!("{step:?}"),
    };
    let mut facts = move_facts();
    facts.head = Some(None);
    says(&refusal(&facts), Code::NotFound, "card not found");
    facts = move_facts();
    facts.column = Some(None);
    says(&refusal(&facts), Code::NotFound, "target column not found");
    facts = move_facts();
    facts.project = Some(None);
    says(&refusal(&facts), Code::NotFound, "target board not found");
    facts = move_facts();
    facts.target = Some(vec![slot("x", i32::MAX)]);
    says(&refusal(&facts), Code::Internal, "failed to open target slot");
    facts = move_facts();
    facts.head = Some(Some(head("col-1", 1, i64::MAX)));
    says(&refusal(&facts), Code::Internal, "failed to place card at new position");
    let req = MoveCardRequest {
        to_column_id: no_id("x"),
        to_position: 1,
        idempotency_key: s(""),
    };
    says(
        &move_card_call(&context("card-1"), req).expect_err("no column"),
        Code::InvalidArgument,
        "invalid to_column_id",
    );
}

// Changing and deleting

fn no_enum() -> EnumArg {
    EnumArg { number: 0, name: Some(s("UNSPECIFIED")) }
}

fn patch() -> CardPatch {
    CardPatch {
        title: s(""),
        description: s(""),
        priority: no_enum(),
        urgency: no_enum(),
        due: None,
        blocked: false,
        cover: s(""),
        milestone_id: id(""),
    }
}

fn update_facts(revision: i64) -> UpdateCardFacts {
    UpdateCardFacts {
        replay: Some(None),
        head: Some(Some(head("col-1", 0, revision))),
        stored: false,
        kept: false,
        loaded: None,
    }
}

#[test]
fn update_card_bumps_revision_and_writes_event_log_row() {
    let card = card_call(&context("card-1")).expect("call");
    let mut p = patch();
    p.title = s("Updated");
    match update_card(&card, &p, &s("k"), &update_facts(0)) {
        CardStep::Store(u) => {
            assert_eq!(u.revision, 1);
            assert_eq!(u.title.as_deref(), Some("Updated"));
            assert_eq!(u.description, None);
            assert_eq!(u.priority, None);
            assert!(!u.block);
            assert_eq!(u.event.event_type, "CardUpdated");
            assert_eq!(u.event.board_id, "board-1");
            assert_eq!(num(&u.event.payload, "prev_revision"), 0);
            assert_eq!(num(&u.event.payload, "new_revision"), 1);
            let shown = u.event.payload.get("patch").expect("patch");
            assert_eq!(txt(shown, "title"), "Updated");
            assert_eq!(txt(shown, "priority"), "UNSPECIFIED");
            assert!(matches!(shown.get("blocked"), Some(Json::Bool(false))));
        }
        step => panic!("{step:?}"),
    }
}

#[test]
fn update_card_persists_urgency() {
    let card = card_call(&context("card-1")).expect("call");
    let mut p = patch();
    p.urgency = EnumArg { number: 4, name: Some(s("CRITICAL")) };
    p.priority = EnumArg { number: 77, name: None };
    p.blocked = true;
    p.milestone_id = no_id("x");
    match update_card(&card, &p, &s(""), &update_facts(0)) {
        CardStep::Store(u) => {
            assert_eq!(u.urgency, Some("critical"));
            assert_eq!(u.priority, Some("medium"));
            assert!(u.block);
            assert_eq!(u.milestone_id, None);
            let shown = u.event.payload.get("patch").expect("patch");
            assert_eq!(num(shown, "priority"), 77);
            assert_eq!(txt(shown, "urgency"), "CRITICAL");
        }
        step => panic!("{step:?}"),
    }
}

#[test]
fn update_card_refuses_and_replays() {
    let card = card_call(&context("card-1")).expect("call");
    let mut facts = update_facts(i64::MAX);
    match update_card(&card, &patch(), &s(""), &facts) {
        CardStep::Refuse(e) => says(&e, Code::Internal, "failed to update card"),
        step => panic!("{step:?}"),
    }
    facts.head = Some(None);
    match update_card(&card, &patch(), &s(""), &facts) {
        CardStep::Refuse(e) => says(&e, Code::NotFound, "card not found"),
        step => panic!("{step:?}"),
    }
    facts.replay = Some(Some(s("other")));
    match update_card(&card, &patch(), &s("k"), &facts) {
        CardStep::LoadCard { card_id, .. } => assert_eq!(card_id, "card-1"),
        step => panic!("{step:?}"),
    }
    let mut facts = update_facts(1);
    facts.stored = true;
    assert!(matches!(update_card(&card, &patch(), &s("k"), &facts), CardStep::KeepKey { .. }));
}

#[test]
fn delete_card_cascades_assignees_labels_checklist_comments() {
    let card = card_call(&context("card-1")).expect("call");
    let d = delete_card(&card, &Some(head("col-1", 0, 9))).expect("deleted");
    assert_eq!(d.card_id, "card-1");
    assert_eq!(d.event.event_type, "CardDeleted");
    assert_eq!(num(&d.event.payload, "prev_revision"), 9);
    assert_eq!(txt(&d.event.payload, "board_id"), "board-1");
    says(&delete_card(&card, &None).expect_err("gone"), Code::NotFound, "card not found");
}

// Dependencies

fn dependency(card: &str, other: &str, key: &str) -> DependencyRequest {
    DependencyRequest {
        card_id: id(card),
        depends_on_card_id: id(other),
        idempotency_key: s(key),
    }
}

fn dependency_facts() -> DependencyFacts {
    DependencyFacts {
        replay: Some(None),
        head: Some(Some(head("col-1", 0, 3))),
        other: Some(Some(head("col-1", 1, 5))),
        linked: None,
        stored: false,
        kept: false,
        loaded: None,
    }
}

#[test]
fn add_card_dependency_links_cards() {
    let call = add_card_dependency_call(&context("board-1"), dependency("a", "b", "k")).expect("call");
    match add_card_dependency(&call, &dependency_facts()) {
        CardStep::Store(change) => {
            assert_eq!((change.card_id.as_str(), change.depends_on_id.as_str()), ("a", "b"));
            assert!(change.linked);
            assert_eq!(change.revision, 4);
        }
        step => panic!("{step:?}"),
    }
}

#[test]
fn dependency_mutation_bumps_revision_and_event_log() {
    let call = add_card_dependency_call(&context("board-1"), dependency("a", "b", "k")).expect("call");
    match add_card_dependency(&call, &dependency_facts()) {
        CardStep::Store(change) => {
            let p = &change.event.payload;
            assert_eq!(change.event.event_type, "CardUpdated");
            assert_eq!(txt(p, "depends_on_card_id"), "b");
            assert_eq!(num(p, "prev_revision"), 3);
            assert_eq!(num(p, "new_revision"), 4);
            assert_eq!(txt(p, "idempotency_key"), "k");
        }
        step => panic!("{step:?}"),
    }
}

#[test]
fn remove_card_dependency_unlinks_cards() {
    let call =
        remove_card_dependency_call(&context("board-1"), dependency("a", "b", "k")).expect("call");
    let mut facts = dependency_facts();
    assert!(matches!(remove_card_dependency(&call, &facts), CardStep::FindDependency { .. }));
    for (linked, revision) in [(true, 4), (false, 3)] {
        facts.linked = Some(linked);
        match remove_card_dependency(&call, &facts) {
            CardStep::Store(change) => {
                assert_eq!((change.card_id.as_str(), change.depends_on_id.as_str()), ("a", "b"));
                assert!(!change.linked);
                assert_eq!(change.revision, revision);
                assert_eq!(num(&change.event.payload, "new_revision"), revision);
            }
            step => panic!("{step:?}"),
        }
    }
    facts.head = Some(Some(head("col-1", 0, i64::MAX)));
    assert!(matches!(remove_card_dependency(&call, &facts), CardStep::Store(_)));
    facts.linked = Some(true);
    match remove_card_dependency(&call, &facts) {
        CardStep::Refuse(e) => says(&e, Code::Internal, "failed to bump card revision"),
        step => panic!("{step:?}"),
    }
}

#[test]
fn add_card_dependency_rejects_self_dependency() {
    says(
        &add_card_dependency_call(&context("board-1"), dependency("a", "a", "k"))
            .expect_err("itself"),
        Code::InvalidArgument,
        "a card cannot depend on itself",
    );
    assert!(remove_card_dependency_call(&context("board-1"), dependency("a", "a", "k")).is_ok());
}

#[test]
fn dependency_requests_are_checked() {
    says(
        &add_card_dependency_call(&context("board-1"), dependency("a", "a", "")).expect_err("key"),
        Code::InvalidArgument,
        "idempotency_key is required",
    );
    let mut req = dependency("a", "b", "k");
    req.card_id = no_id("a");
    says(
        &add_card_dependency_call(&context("board-1"), req).expect_err("card"),
        Code::InvalidArgument,
        "invalid card_id",
    );
    let mut req = dependency("a", "b", "k");
    req.depends_on_card_id = no_id("b");
    says(
        &add_card_dependency_call(&context("board-1"), req).expect_err("other"),
        Code::InvalidArgument,
        "invalid depends_on_card_id",
    );
}

#[test]
fn add_card_dependency_rejects_cross_board() {
    let call = add_card_dependency_call(&context("board-1"), dependency("a", "b", "k")).expect("call");
    let mut elsewhere = head("col-9", 0, 1);
    elsewhere.board_id = s("board-2");
    let mut facts = dependency_facts();
    facts.other = Some(Some(elsewhere));
    match add_card_dependency(&call, &facts) {
        CardStep::Refuse(e) => {
            says(&e, Code::InvalidArgument, "both cards must belong to the authorized board");
        }
        step => panic!("{step:?}"),
    }
    match remove_card_dependency(&call, &facts) {
        CardStep::Refuse(e) => says(
            &e,
            Code::InvalidArgument,
            "dependency card does not belong to the authorized board",
        ),
        step => panic!("{step:?}"),
    }
    facts.head = Some(None);
    match remove_card_dependency(&call, &facts) {
        CardStep::Refuse(e) => {
            says(&e, Code::InvalidArgument, "card does not belong to the authorized board");
        }
        step => panic!("{step:?}"),
    }
}

#[test]
fn add_card_dependency_idempotent() {
    let call = add_card_dependency_call(&context("board-1"), dependency("a", "b", "k")).expect("call");
    let mut facts = dependency_facts();
    facts.replay = Some(Some(s("a")));
    match add_card_dependency(&call, &facts) {
        CardStep::LoadCard { card_id, .. } => assert_eq!(card_id, "a"),
        step => panic!("{step:?}"),
    }
}

// Labels of many cards

fn bulk(cards: Vec<IdArg>, key: &str) -> BulkLabelsCall {
    let req = BulkLabelsRequest {
        card_ids: cards,
        label_ids: vec![id("l1"), no_id("?"), id("l2")],
        idempotency_key: s(key),
    };
    match bulk_update_card_labels_call(&context("board-1"), req) {
        Ok(call) => call,
        Err(e) => panic!("{}", e.message),
    }
}

fn bulk_facts() -> BulkLabelsFacts {
    BulkLabelsFacts { replay: Some(None), heads: vec![], stored: false, kept: false, loaded: vec![] }
}

#[test]
fn bulk_update_card_labels_writes_event_log_per_card() {
    let call = bulk(vec![id("a"), no_id("?"), id("b"), id("a")], "k");
    let mut facts = bulk_facts();
    for expected in ["a", "b", "a"] {
        match bulk_update_card_labels(&call, &facts) {
            BulkLabelsStep::FindCard { card_id, .. } => assert_eq!(card_id, expected),
            step => panic!("{step:?}"),
        }
        facts.heads.push(Some(head("col-1", 0, 10)));
    }
    match bulk_update_card_labels(&call, &facts) {
        BulkLabelsStep::Store(changes) => {
            let told: Vec<(String, i64, i64)> = changes
                .iter()
                .map(|c| (c.card_id.clone(), c.revision, num(&c.event.payload, "new_revision")))
                .collect();
            assert_eq!(told, vec![(s("a"), 11, 11), (s("b"), 11, 11), (s("a"), 12, 12)]);
            assert_eq!(changes[0].label_ids, vec![s("l1"), s("l2")]);
            assert!(changes.iter().all(|c| c.event.event_type == "CardUpdated"));
        }
        step => panic!("{step:?}"),
    }
    facts.stored = true;
    match bulk_update_card_labels(&call, &facts) {
        BulkLabelsStep::KeepKey { card_id, .. } => assert_eq!(card_id, "a"),
        step => panic!("{step:?}"),
    }
    facts.kept = true;
    facts.loaded = vec![CardRead::Found(loaded("a"))];
    match bulk_update_card_labels(&call, &facts) {
        BulkLabelsStep::LoadCard { card_id, .. } => assert_eq!(card_id, "b"),
        step => panic!("{step:?}"),
    }
    for (read, code, message) in [
        (CardRead::Missing, Code::NotFound, "card not found"),
        (CardRead::Failed, Code::Internal, "failed to fetch card"),
    ] {
        facts.loaded.truncate(1);
        facts.loaded.push(read);
        match bulk_update_card_labels(&call, &facts) {
            BulkLabelsStep::Refuse(e) => says(&e, code, message),
            step => panic!("{step:?}"),
        }
    }
    facts.loaded = vec![CardRead::Failed, CardRead::Missing];
    match bulk_update_card_labels(&call, &facts) {
        BulkLabelsStep::Refuse(e) => says(&e, Code::Internal, "failed to fetch card"),
        step => panic!("{step:?}"),
    }
    facts.loaded = ["a", "b", "a"].map(|id| CardRead::Found(loaded(id))).into();
    match bulk_update_card_labels(&call, &facts) {
        BulkLabelsStep::Answer(cards) => assert_eq!(cards.len(), 3),
        step => panic!("{step:?}"),
    }
}

#[test]
fn bulk_labels_stop_at_a_foreign_card() {
    let call = bulk(vec![id("a"), id("b")], "");
    let mut elsewhere = head("col-9", 0, 1);
    elsewhere.board_id = s("board-2");
    for found in [None, Some(elsewhere)] {
        let mut facts = bulk_facts();
        facts.heads = vec![Some(head("col-1", 0, 1)), found];
        match bulk_update_card_labels(&call, &facts) {
            BulkLabelsStep::Refuse(e) => {
                says(&e, Code::InvalidArgument, "card b does not belong to board board-1");
            }
            step => panic!("{step:?}"),
        }
    }
    let mut facts = bulk_facts();
    facts.heads = vec![Some(head("col-1", 0, i64::MAX))];
    match bulk_update_card_labels(&call, &facts) {
        BulkLabelsStep::Refuse(e) => says(&e, Code::Internal, "failed to bump card revision"),
        step => panic!("{step:?}"),
    }
}

#[test]
fn bulk_labels_without_cards_and_with_a_used_key() {
    match bulk_update_card_labels(&bulk(vec![], "k"), &bulk_facts()) {
        BulkLabelsStep::Answer(cards) => assert!(cards.is_empty()),
        step => panic!("{step:?}"),
    }
    let call = bulk(vec![id("a"), id("b")], "k");
    let mut facts = bulk_facts();
    facts.replay = None;
    assert!(matches!(bulk_update_card_labels(&call, &facts), BulkLabelsStep::FindKey { .. }));
    facts.replay = Some(Some(s("a")));
    assert!(matches!(bulk_update_card_labels(&call, &facts), BulkLabelsStep::LoadCard { .. }));
    facts.loaded = vec![CardRead::Missing, CardRead::Found(loaded("b"))];
    assert!(matches!(bulk_update_card_labels(&call, &facts), BulkLabelsStep::Answer(_)));
    facts.loaded[0] = CardRead::Failed;
    match bulk_update_card_labels(&call, &facts) {
        BulkLabelsStep::Answer(cards) => {
            assert_eq!(cards.len(), 1);
            assert_eq!(cards[0].id, "b");
        }
        step => panic!("{step:?}"),
    }
}

// What hangs on a card

fn touch_facts(revision: i64) -> TouchFacts {
    TouchFacts {
        head: Some(Some(head("col-1", 0, revision))),
        items: None,
        item: None,
        comment: None,
        stored: false,
        loaded: None,
        written: None,
    }
}

fn patch_of(payload: &Json) -> &Json {
    match payload.get("patch") {
        Some(p) => p,
        None => panic!("no patch"),
    }
}

#[test]
fn assign_card_idempotent_on_repeat() {
    let card = assign_card_call(&context("card-1"), &s("user:a")).expect("call");
    for revision in [3, 4] {
        match assign_card(&card, &s("user:a"), &touch_facts(revision)) {
            TouchStep::Store(t) => {
                assert!(matches!(&t.change, CardChange::Assign { subject } if subject == "user:a"));
                assert_eq!(t.revision, revision + 1);
                match patch_of(&t.event.payload).get("assignees") {
                    Some(Json::List(items)) => {
                        assert!(matches!(&items[..], [Json::Text(t)] if t == "user:a"));
                    }
                    other => panic!("{other:?}"),
                }
            }
            step => panic!("{step:?}"),
        }
    }
    says(
        &assign_card_call(&context("card-1"), &s("")).expect_err("nobody"),
        Code::InvalidArgument,
        "subject is required",
    );
}

#[test]
fn unassign_card_removes_assignee() {
    let card = card_call(&context("card-1")).expect("call");
    let mut facts = touch_facts(1);
    match unassign_card(&card, &s("user:a"), &facts) {
        TouchStep::Store(t) => {
            assert!(matches!(&t.change, CardChange::Unassign { subject } if subject == "user:a"));
            assert_eq!(txt(patch_of(&t.event.payload), "unassigned"), "user:a");
        }
        step => panic!("{step:?}"),
    }
    facts.stored = true;
    assert!(matches!(unassign_card(&card, &s("user:a"), &facts), TouchStep::LoadCard { .. }));
    facts.loaded = Some(Some(loaded("card-1")));
    assert!(matches!(unassign_card(&card, &s("user:a"), &facts), TouchStep::AnswerCard(_)));
    match unassign_card(&card, &s("user:a"), &touch_facts(i64::MAX)) {
        TouchStep::Refuse(e) => says(&e, Code::Internal, "failed to bump revision"),
        step => panic!("{step:?}"),
    }
    let mut facts = touch_facts(1);
    facts.head = None;
    assert!(matches!(unassign_card(&card, &s("user:a"), &facts), TouchStep::FindCard { .. }));
    facts.head = Some(None);
    match unassign_card(&card, &s("user:a"), &facts) {
        TouchStep::Refuse(e) => says(&e, Code::NotFound, "card not found"),
        step => panic!("{step:?}"),
    }
}

#[test]
fn add_checklist_item_appends_to_position_max_plus_one() {
    let card = add_checklist_item_call(&context("card-1"), &s("do")).expect("call");
    let item = s("item-1");
    let mut facts = touch_facts(1);
    assert!(matches!(
        add_checklist_item(&card, &item, &s("do"), 0, &facts),
        TouchStep::LoadItems { .. }
    ));
    let mut added = |position: i32, items: Vec<Slot>| {
        facts.items = Some(items);
        match add_checklist_item(&card, &item, &s("do"), position, &facts) {
            TouchStep::Store(t) => match t.change {
                CardChange::AddItem { position, shifted, .. } => {
                    (position, shifted.map(|x| positions(&x)))
                }
                other => panic!("{other:?}"),
            },
            TouchStep::Refuse(e) => panic!("{}", e.message),
            step => panic!("{step:?}"),
        }
    };
    assert_eq!(added(0, vec![]), (0, None));
    assert_eq!(added(0, vec![slot("a", 0)]), (1, None));
    assert_eq!(added(0, vec![slot("a", 5), slot("b", 1)]), (6, None));
    assert_eq!(
        added(1, vec![slot("a", 0), slot("b", 1)]),
        (1, Some(at(&[("a", 0), ("b", 2)])))
    );
    for (position, message) in
        [(0, "failed to insert checklist item"), (3, "failed to shift checklist items")]
    {
        facts.items = Some(vec![slot("a", i32::MAX)]);
        match add_checklist_item(&card, &item, &s("do"), position, &facts) {
            TouchStep::Refuse(e) => says(&e, Code::Internal, message),
            step => panic!("{step:?}"),
        }
    }
    says(
        &add_checklist_item_call(&context("card-1"), &s("")).expect_err("nothing"),
        Code::InvalidArgument,
        "text is required",
    );
}

#[test]
fn update_checklist_item_persists_changes() {
    let call = checklist_item_call(&context("card-1"), &id("item-1")).expect("call");
    let mut facts = touch_facts(1);
    assert!(matches!(
        update_checklist_item(&call, &s("new"), true, &facts),
        TouchStep::FindItem { .. }
    ));
    facts.item = Some(true);
    for (sent, text) in [("new", Some(s("new"))), ("", None)] {
        match update_checklist_item(&call, &s(sent), true, &facts) {
            TouchStep::Store(t) => match t.change {
                CardChange::UpdateItem { item_id, text: kept, done } => {
                    assert_eq!((item_id.as_str(), kept, done), ("item-1", text, true));
                }
                other => panic!("{other:?}"),
            },
            step => panic!("{step:?}"),
        }
    }
    says(
        &checklist_item_call(&context("card-1"), &no_id("x")).expect_err("item"),
        Code::InvalidArgument,
        "invalid item_id",
    );
}

#[test]
fn remove_checklist_item_deletes_item() {
    let call = checklist_item_call(&context("card-1"), &id("item-1")).expect("call");
    let mut facts = touch_facts(1);
    facts.item = Some(true);
    match remove_checklist_item(&call, &facts) {
        TouchStep::Store(t) => {
            assert!(matches!(&t.change, CardChange::RemoveItem { item_id } if item_id == "item-1"));
            assert_eq!(txt(patch_of(&t.event.payload), "checklist_item_removed"), "item-1");
        }
        step => panic!("{step:?}"),
    }
    facts.stored = true;
    assert!(matches!(remove_checklist_item(&call, &facts), TouchStep::Done));
    facts.item = Some(false);
    match remove_checklist_item(&call, &facts) {
        TouchStep::Refuse(e) => says(&e, Code::NotFound, "checklist item not found on this card"),
        step => panic!("{step:?}"),
    }
}

fn comment_row(author: &str) -> CommentRow {
    CommentRow {
        id: s("comment-1"),
        card_id: s("card-1"),
        author_sub: s(author),
        body: s("hello"),
        created_at: Timestamp { seconds: 1, nanos: 0 },
        updated_at: Timestamp { seconds: 2, nanos: 0 },
    }
}

fn comment_facts() -> AddCommentFacts {
    AddCommentFacts {
        replay: None,
        cached: None,
        head: None,
        stored: false,
        kept: false,
        written: None,
    }
}

#[test]
fn add_then_edit_comment_updates_body_and_writes_event_log() {
    let call = add_comment_call(&context("card-1"), s("hello"), s("k")).expect("call");
    let comment_id = s("comment-1");
    let mut facts = comment_facts();
    assert!(matches!(add_comment(&call, &comment_id, &facts), AddCommentStep::FindKey { .. }));
    facts.replay = Some(None);
    assert!(matches!(add_comment(&call, &comment_id, &facts), AddCommentStep::FindCard { .. }));
    facts.head = Some(Some(head("col-1", 0, 2)));
    match add_comment(&call, &comment_id, &facts) {
        AddCommentStep::Store(t) => {
            match &t.change {
                CardChange::AddComment { comment_id, author_sub, body } => assert_eq!(
                    (comment_id.as_str(), author_sub.as_str(), body.as_str()),
                    ("comment-1", "user:test", "hello")
                ),
                other => panic!("{other:?}"),
            }
            assert_eq!(t.revision, 3);
            assert_eq!(txt(patch_of(&t.event.payload), "comments_count"), "+1");
            assert_eq!(txt(&t.event.payload, "idempotency_key"), "k");
        }
        step => panic!("{step:?}"),
    }
    facts.stored = true;
    match add_comment(&call, &comment_id, &facts) {
        AddCommentStep::KeepKey { payload, .. } => {
            assert_eq!(txt(&payload, "comment_id"), "comment-1");
        }
        step => panic!("{step:?}"),
    }
    facts.kept = true;
    assert!(matches!(add_comment(&call, &comment_id, &facts), AddCommentStep::LoadComment { .. }));
    facts.written = Some(comment_row("user:test"));
    match add_comment(&call, &comment_id, &facts) {
        AddCommentStep::Answer(c) => assert_eq!(c.body, "hello"),
        step => panic!("{step:?}"),
    }

    let call = edit_comment_call(&context("card-1"), &id("comment-1"), &s("new")).expect("call");
    let mut facts = touch_facts(5);
    assert!(matches!(edit_comment(&call, &s("new"), &facts), TouchStep::FindComment { .. }));
    facts.comment = Some(Some(comment_row("user:test")));
    match edit_comment(&call, &s("new"), &facts) {
        TouchStep::Store(t) => {
            assert!(matches!(&t.change, CardChange::EditComment { body, .. } if body == "new"));
            assert_eq!(txt(patch_of(&t.event.payload), "comment_edited"), "comment-1");
        }
        step => panic!("{step:?}"),
    }
    for comment in [None, Some(comment_row("user:other"))] {
        facts.comment = Some(comment);
        match edit_comment(&call, &s("new"), &facts) {
            TouchStep::Refuse(e) => says(
                &e,
                Code::PermissionDenied,
                "comment not found or not authored by you",
            ),
            step => panic!("{step:?}"),
        }
    }
}

#[test]
fn comments_are_replayed_by_their_key() {
    let call = add_comment_call(&context("card-1"), s("hello"), s("k")).expect("call");
    let kept = |value: Json| {
        Json::Object(vec![Member { name: s("comment_id"), value }])
    };
    let mut facts = comment_facts();
    facts.replay = Some(Some(kept(Json::Text(s("comment-0")))));
    match add_comment(&call, &s("comment-1"), &facts) {
        AddCommentStep::FindCached { comment_id, .. } => assert_eq!(comment_id, "comment-0"),
        step => panic!("{step:?}"),
    }
    facts.cached = Some(Some(comment_row("user:test")));
    assert!(matches!(add_comment(&call, &s("c"), &facts), AddCommentStep::Answer(_)));
    facts.cached = Some(None);
    assert!(matches!(add_comment(&call, &s("c"), &facts), AddCommentStep::FindCard { .. }));
    facts.replay = Some(Some(kept(Json::Int(1))));
    facts.cached = None;
    assert!(matches!(add_comment(&call, &s("c"), &facts), AddCommentStep::FindCard { .. }));
}

#[test]
fn comments_are_checked() {
    says(
        &add_comment_call(&context("card-1"), s(""), s("")).expect_err("empty"),
        Code::InvalidArgument,
        "body is required",
    );
    says(
        &edit_comment_call(&context("card-1"), &no_id("x"), &s("")).expect_err("comment"),
        Code::InvalidArgument,
        "invalid comment_id",
    );
    says(
        &edit_comment_call(&context("card-1"), &id("x"), &s("")).expect_err("body"),
        Code::InvalidArgument,
        "body is required",
    );
    let call = add_comment_call(&context("card-1"), s("hi"), s("")).expect("call");
    let mut facts = comment_facts();
    facts.head = Some(None);
    match add_comment(&call, &s("c"), &facts) {
        AddCommentStep::Refuse(e) => says(&e, Code::NotFound, "card not found"),
        step => panic!("{step:?}"),
    }
    facts.head = Some(Some(head("col-1", 0, i64::MAX)));
    match add_comment(&call, &s("c"), &facts) {
        AddCommentStep::Refuse(e) => says(&e, Code::Internal, "failed to bump revision"),
        step => panic!("{step:?}"),
    }
}

#[test]
fn delete_comment_rejects_when_caller_is_not_author_or_admin() {
    let call = delete_comment_call(&context("card-1"), &id("comment-1")).expect("call");
    let mut facts = touch_facts(5);
    for author in ["user:test", "user:other"] {
        facts.comment = Some(Some(comment_row(author)));
        match delete_comment(&call, &facts) {
            TouchStep::Store(t) => {
                assert!(matches!(t.change, CardChange::DeleteComment { .. }));
                assert_eq!(txt(patch_of(&t.event.payload), "comment_deleted"), "comment-1");
            }
            step => panic!("{step:?}"),
        }
    }
    facts.stored = true;
    assert!(matches!(delete_comment(&call, &facts), TouchStep::Done));
    facts.comment = Some(None);
    match delete_comment(&call, &facts) {
        TouchStep::Refuse(e) => says(&e, Code::NotFound, "comment not found on this card"),
        step => panic!("{step:?}"),
    }
}

#[test]
fn get_card_returns_created_card() {
    let card = full_card(&Some(loaded("card-1"))).expect("card");
    assert_eq!(card.id, "card-1");
    assert_eq!(card.priority, 2);
    assert_eq!(card.urgency, 4);
    assert_eq!(card.description, "");
    assert_eq!(card.cover, "cover");
    assert_eq!(card.milestone_id, "");
    assert_eq!(card.labels[0].project_id, "project-1");
    assert_eq!(card.labels[1].project_id, "");
    assert_eq!(card.assignees[0].subject, "user:a");
    assert_eq!(card.assignees[0].display_name, "");
    assert_eq!(card.checklist[0].text, "do");
    assert_eq!(card.github_links.len(), 2);
    assert_eq!(card.github_links[0].id, "g1");
    assert_eq!(card.github_links[0].repo_owner, "sunbeam");
    assert_eq!(card.github_links[0].repo_name, "kanban");
    assert_eq!(card.github_links[0].title, "Crash");
    assert_eq!(card.github_links[1].repo_owner, "bare");
    assert_eq!(card.github_links[1].title, "");
    assert_eq!(card.comments_count, 2);
    assert_eq!(card.attachments_count, 1);
    assert_eq!(card.revision, 4);
    assert_eq!(card.due, Some(Timestamp { seconds: 5, nanos: 6 }));
    assert_eq!(card.depends_on_card_ids, vec![s("card-x")]);
    let mut odd = loaded("card-1");
    odd.row.revision = -1;
    assert_eq!(full_card(&Some(odd)).expect("card").revision, u64::MAX);
}

#[test]
fn get_card_hides_card_from_other_tenant() {
    says(&full_card(&None).expect_err("hidden"), Code::NotFound, "card not found");
    let mut ctx = context("card-1");
    ctx.auth = Some(AuthContext { tenant_id: None, subject: Some(s("u")), exp: None });
    says(&card_call(&ctx).expect_err("no tenant"), Code::Unauthenticated, "missing tenant context");
}
