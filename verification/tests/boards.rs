use sunbeam_kanban::boards::columns::{
    add_column, add_column_call, column_call, column_update, move_column, move_column_call,
    remove_column, update_column, AddColumnFacts, AddColumnRequest, AddColumnStep,
    MoveColumnFacts, MoveColumnStep, NewColumn, RemoveColumnFacts, RemoveColumnStep,
};
use sunbeam_kanban::boards::model::{slug_from_name, BoardRow, ColumnRow};
use sunbeam_kanban::boards::service::{
    board_call, create_board, create_board_call, delete_board, get_board, get_board_call,
    list_boards, list_boards_call, subscribe_board, subscribe_board_call, update_board,
    update_board_call, BoardPatch, CreateBoardFacts, CreateBoardRequest, CreateBoardStep,
    GetBoardFacts, GetBoardStep, InsertReply, UpdateBoardFacts, UpdateBoardStep,
};
use sunbeam_kanban::context::{AuthContext, IdArg, RequestContext};
use sunbeam_kanban::position::Slot;
use sunbeam_kanban::status::{Code, Status};
use sunbeam_kanban::stream::{
    advance, cutover_envelope, heartbeat_envelope, new_stream, revalidate_token, EnvelopePayload,
    Outcome, Phase, StreamConfig, StreamInput, StreamItem, StreamNext, StreamState, StreamStep,
};
use sunbeam_kanban::timestamp::Timestamp;
use sunbeam_kanban::visibility::is_public_or_internal;

fn s(text: &str) -> String {
    text.to_string()
}

fn id(text: &str) -> IdArg {
    IdArg { text: s(text), id: Some(s(text)) }
}

fn no_id(text: &str) -> IdArg {
    IdArg { text: s(text), id: None }
}

fn context(object: &str) -> RequestContext {
    RequestContext {
        checked_object_id: Some(id(object)),
        auth: Some(AuthContext {
            tenant_id: Some(s("tenant-1")),
            subject: Some(s("user:test")),
            exp: None,
        }),
    }
}

fn says(e: &Status, code: Code, message: &str) {
    assert_eq!((e.code, e.message.as_str()), (code, message));
}

fn slot(id: &str, position: i32) -> Slot {
    Slot { id: s(id), position }
}

fn at(slots: &[Slot]) -> Vec<i32> {
    slots.iter().map(|x| x.position).collect()
}

fn board(id: &str, visibility: &str) -> BoardRow {
    BoardRow {
        id: s(id),
        project_id: s("project-1"),
        name: s("Sprint"),
        description: None,
        icon: Some(s("star")),
        visibility: s(visibility),
        created_at: Timestamp { seconds: 1, nanos: 0 },
        updated_at: Timestamp { seconds: 2, nanos: 0 },
    }
}

fn column(id: &str, position: i32) -> ColumnRow {
    ColumnRow {
        id: s(id),
        board_id: s("board-1"),
        title: s(id),
        accent: None,
        wip_limit: None,
        position,
        created_at: Timestamp { seconds: 1, nanos: 0 },
        updated_at: Timestamp { seconds: 2, nanos: 0 },
    }
}

fn create_request(name: &str, key: &str) -> CreateBoardRequest {
    CreateBoardRequest {
        name: s(name),
        description: s("d"),
        icon: s(""),
        visibility: s("private"),
        idempotency_key: s(key),
    }
}

fn create_facts() -> CreateBoardFacts {
    CreateBoardFacts { replay: None, cached: None, inserted: None, granted: false, kept: false }
}

#[test]
fn slugs() {
    assert_eq!(slug_from_name("My Board!"), "myboard");
    assert_eq!(slug_from_name("a-b_C 9"), "a-b_c9");
    assert_eq!(slug_from_name("ÄÖü"), "");
    assert_eq!(slug_from_name("é"), "");
    assert_eq!(slug_from_name("Café 東京 \u{1F49D} x٣"), "cafx");
    assert_eq!(slug_from_name("@[`{/:"), "");
    assert_eq!(slug_from_name("azAZ09"), "azaz09");
    assert_eq!(slug_from_name(&"X".repeat(50)), "x".repeat(40));
    assert_eq!(slug_from_name("!!!"), "");
}

#[test]
fn slug_of_a_slug_is_itself() {
    for name in ["My Board!", "a-b_C 9", "Café", ""] {
        let slug = slug_from_name(name);
        assert_eq!(slug_from_name(&slug), slug);
        assert_eq!(slug_from_name(&name.to_ascii_uppercase()), slug);
    }
    let long = slug_from_name(&"-Ab".repeat(30));
    assert_eq!(long.len(), 40);
    assert_eq!(slug_from_name(&long), long);
}

#[test]
fn create_then_get_returns_same_board() {
    let call = create_board_call(&context("project-1"), create_request("My Board", "k")).expect("call");
    let board_id = s("board-1");
    let mut facts = create_facts();
    assert!(matches!(create_board(&call, &board_id, &facts), CreateBoardStep::FindKey { .. }));
    facts.replay = Some(None);
    match create_board(&call, &board_id, &facts) {
        CreateBoardStep::Store(new) => {
            assert_eq!(new.id, "board-1");
            assert_eq!(new.project_id, "project-1");
            assert_eq!(new.tenant_id, "tenant-1");
            assert_eq!(new.slug, "myboard");
            assert_eq!(new.icon, None);
            assert_eq!(new.visibility, "private");
        }
        step => panic!("{step:?}"),
    }
    facts.inserted = Some(InsertReply::Stored(board("board-1", "private")));
    match create_board(&call, &board_id, &facts) {
        CreateBoardStep::Grant { namespace, object_id, relation, subject } => assert_eq!(
            (namespace, object_id.as_str(), relation, subject.as_str()),
            ("KanbanBoard", "board-1", "parent", "KanbanProject:project-1")
        ),
        step => panic!("{step:?}"),
    }
    facts.granted = true;
    assert!(matches!(create_board(&call, &board_id, &facts), CreateBoardStep::KeepKey { .. }));
    facts.kept = true;
    match create_board(&call, &board_id, &facts) {
        CreateBoardStep::Answer(b) => {
            assert_eq!((b.id.as_str(), b.name.as_str(), b.columns_count), ("board-1", "Sprint", 0));
            assert_eq!((b.description.as_str(), b.icon.as_str()), ("", "star"));
        }
        step => panic!("{step:?}"),
    }
}

#[test]
fn create_board_replays_and_refuses() {
    let call = create_board_call(&context("project-1"), create_request("", "k")).expect("call");
    let board_id = s("board-2");
    let mut facts = create_facts();
    facts.replay = Some(Some(s("board-1")));
    match create_board(&call, &board_id, &facts) {
        CreateBoardStep::LoadBoard { board_id, .. } => assert_eq!(board_id, "board-1"),
        step => panic!("{step:?}"),
    }
    facts.cached = Some(Some((board("board-1", "private"), 4, 9)));
    match create_board(&call, &board_id, &facts) {
        CreateBoardStep::Answer(b) => assert_eq!((b.columns_count, b.cards_count), (4, 9)),
        step => panic!("{step:?}"),
    }
    facts.cached = Some(None);
    match create_board(&call, &board_id, &facts) {
        CreateBoardStep::Refuse(e) => says(&e, Code::InvalidArgument, "name is required"),
        step => panic!("{step:?}"),
    }
    let call = create_board_call(&context("project-1"), create_request("n", "")).expect("call");
    let mut refusal = |constraint: Option<&str>| {
        facts.inserted = Some(InsertReply::Failed { constraint: constraint.map(s) });
        match create_board(&call, &board_id, &facts) {
            CreateBoardStep::Refuse(e) => e,
            step => panic!("{step:?}"),
        }
    };
    says(
        &refusal(Some("boards_project_id_slug_key")),
        Code::AlreadyExists,
        "board with that name already exists in project",
    );
    says(&refusal(Some("other")), Code::Internal, "failed to insert board");
    says(&refusal(None), Code::Internal, "failed to insert board");
}

#[test]
fn list_boards_scoped_to_project() {
    let call = list_boards_call(&context("x"), &id("project-1")).expect("call");
    assert_eq!(call.project_id, "project-1");
    assert_eq!(
        (call.query.namespace, call.query.relation, call.query.subject.as_str(), call.query.limit),
        ("KanbanBoard", "view", "user:test", 10_000)
    );
    let mut elsewhere = board("c", "public");
    elsewhere.project_id = s("project-2");
    let rows = vec![board("a", "public"), elsewhere, board("b", "internal")];
    let listed: Vec<String> =
        list_boards(rows, &call.project_id, &vec![s("c")]).into_iter().map(|b| b.id).collect();
    assert_eq!(listed, vec![s("a"), s("b")]);
    says(
        &list_boards_call(&context("x"), &no_id("p")).expect_err("project"),
        Code::InvalidArgument,
        "invalid project_id",
    );
}

#[test]
fn list_boards_returns_public_internal_for_any_authenticated_user() {
    let rows = || {
        vec![
            board("a", "private"),
            board("b", "public"),
            board("c", "internal"),
            board("d", "private"),
        ]
    };
    let ids = |allowed: Vec<String>| -> Vec<String> {
        list_boards(rows(), &s("project-1"), &allowed).into_iter().map(|b| b.id).collect()
    };
    assert_eq!(ids(vec![]), vec![s("b"), s("c")]);
    assert_eq!(ids(vec![s("d"), s("z")]), vec![s("b"), s("c"), s("d")]);
    assert!(!is_public_or_internal("Public"));
}

#[test]
fn get_board_allows_non_member_for_public_board() {
    let call = get_board_call(&context("x"), &id("board-1")).expect("call");
    let mut facts = GetBoardFacts { board: None, allowed: None, content: None };
    assert!(matches!(get_board(&call, &facts), GetBoardStep::FindBoard { .. }));
    facts.board = Some(Some(board("board-1", "public")));
    assert!(matches!(get_board(&call, &facts), GetBoardStep::LoadContent { .. }));
    facts.content = Some((vec![column("a", 0), column("b", 1)], 7));
    match get_board(&call, &facts) {
        GetBoardStep::Answer(detail) => {
            assert_eq!((detail.board.columns_count, detail.board.cards_count), (2, 7));
            assert_eq!(detail.columns[1].id, "b");
            assert_eq!(detail.columns[1].wip_limit, 0);
        }
        step => panic!("{step:?}"),
    }
}

#[test]
fn get_board_denies_non_member_for_private_board() {
    let call = get_board_call(&context("x"), &id("board-1")).expect("call");
    let mut facts = GetBoardFacts {
        board: Some(Some(board("board-1", "private"))),
        allowed: None,
        content: Some((vec![], 0)),
    };
    match get_board(&call, &facts) {
        GetBoardStep::CheckPermission { namespace, object_id, relation, subject } => assert_eq!(
            (namespace, object_id.as_str(), relation, subject.as_str()),
            ("KanbanBoard", "board-1", "view", "user:test")
        ),
        step => panic!("{step:?}"),
    }
    facts.allowed = Some(false);
    match get_board(&call, &facts) {
        GetBoardStep::Refuse(e) => says(
            &e,
            Code::PermissionDenied,
            "you do not have permission to view this board",
        ),
        step => panic!("{step:?}"),
    }
    facts.allowed = Some(true);
    assert!(matches!(get_board(&call, &facts), GetBoardStep::Answer(_)));
    facts.board = Some(None);
    match get_board(&call, &facts) {
        GetBoardStep::Refuse(e) => says(&e, Code::NotFound, "board not found"),
        step => panic!("{step:?}"),
    }
}

fn patch(name: &str, visibility: &str, mask: &[&str]) -> BoardPatch {
    BoardPatch {
        name: s(name),
        description: s(""),
        icon: s(""),
        visibility: s(visibility),
        mask: mask.iter().map(|m| s(m)).collect(),
    }
}

#[test]
fn update_board_applies_patch_fields_only() {
    let call = update_board_call(&context("board-1")).expect("call");
    let mut facts = UpdateBoardFacts { allowed: None, updated: None };
    match update_board(&call, &patch("New", "public", &["name"]), &facts) {
        UpdateBoardStep::Update(u) => {
            assert_eq!(u.name.as_deref(), Some("New"));
            assert_eq!((u.description, u.icon, u.visibility), (None, None, None));
        }
        step => panic!("{step:?}"),
    }
    facts.updated = Some(Some((board("board-1", "private"), 1, 2)));
    match update_board(&call, &patch("New", "", &[]), &facts) {
        UpdateBoardStep::Answer(b) => assert_eq!((b.columns_count, b.cards_count), (1, 2)),
        step => panic!("{step:?}"),
    }
    facts.updated = Some(None);
    match update_board(&call, &patch("New", "", &[]), &facts) {
        UpdateBoardStep::Refuse(e) => says(&e, Code::NotFound, "board not found"),
        step => panic!("{step:?}"),
    }
}

#[test]
fn update_board_visibility_requires_manage_and_persists() {
    let call = update_board_call(&context("board-1")).expect("call");
    let p = patch("", "public", &["name", "visibility"]);
    let mut facts = UpdateBoardFacts { allowed: None, updated: None };
    match update_board(&call, &p, &facts) {
        UpdateBoardStep::CheckPermission { relation, .. } => assert_eq!(relation, "manage"),
        step => panic!("{step:?}"),
    }
    facts.allowed = Some(false);
    match update_board(&call, &p, &facts) {
        UpdateBoardStep::Refuse(e) => says(
            &e,
            Code::PermissionDenied,
            "you do not have permission to change board visibility",
        ),
        step => panic!("{step:?}"),
    }
    facts.allowed = Some(true);
    match update_board(&call, &p, &facts) {
        UpdateBoardStep::Update(u) => {
            assert_eq!((u.name, u.visibility.as_deref()), (None, Some("public")));
        }
        step => panic!("{step:?}"),
    }
}

#[test]
fn delete_board_cascades_columns_and_cards() {
    let call = board_call(&context("board-1")).expect("call");
    assert_eq!((call.board_id.as_str(), call.tenant_id.as_str()), ("board-1", "tenant-1"));
    assert!(delete_board(1).is_ok());
    says(&delete_board(0).expect_err("gone"), Code::NotFound, "board not found");
}

fn add_request(position: i32, key: &str) -> AddColumnRequest {
    AddColumnRequest {
        title: s("C"),
        accent: s(""),
        wip_limit: 0,
        position,
        idempotency_key: s(key),
    }
}

fn add_facts(slots: Vec<Slot>) -> AddColumnFacts {
    AddColumnFacts { replay: Some(None), cached: None, slots: Some(slots), stored: None, kept: false }
}

fn added(position: i32, slots: Vec<Slot>) -> NewColumn {
    let call = add_column_call(&context("board-1"), add_request(position, "")).expect("call");
    match add_column(&call, &s("new"), &add_facts(slots)) {
        AddColumnStep::Store(new) => new,
        step => panic!("{step:?}"),
    }
}

#[test]
fn add_column_appends_at_end_when_position_unset() {
    let mut slots = vec![];
    for expected in 0..3 {
        let new = added(0, slots.iter().map(|x: &Slot| slot(&x.id, x.position)).collect());
        assert_eq!(new.position, expected);
        assert!(new.shifted.is_none());
        slots.push(slot("x", new.position));
    }
}

#[test]
fn add_column_shifts_when_position_in_middle() {
    let middle = added(1, vec![slot("First", 0), slot("Second", 1)]);
    assert_eq!(middle.position, 1, "inserted column should be at position 1");
    assert_eq!(at(&middle.shifted.expect("shifted")), vec![0, 2]);
}

#[test]
fn add_column_replays_keeps_and_refuses() {
    let call = add_column_call(&context("board-1"), add_request(0, "k")).expect("call");
    let column_id = s("new");
    let mut facts = add_facts(vec![]);
    facts.replay = None;
    assert!(matches!(add_column(&call, &column_id, &facts), AddColumnStep::FindKey { .. }));
    facts.replay = Some(Some(s("old")));
    assert!(matches!(add_column(&call, &column_id, &facts), AddColumnStep::FindColumn { .. }));
    facts.cached = Some(Some(column("old", 3)));
    match add_column(&call, &column_id, &facts) {
        AddColumnStep::Answer(c) => assert_eq!((c.id.as_str(), c.position), ("old", 3)),
        step => panic!("{step:?}"),
    }
    facts.cached = Some(None);
    facts.slots = None;
    assert!(matches!(add_column(&call, &column_id, &facts), AddColumnStep::LoadSlots { .. }));
    facts = add_facts(vec![]);
    facts.stored = Some(column("new", 0));
    assert!(matches!(add_column(&call, &column_id, &facts), AddColumnStep::KeepKey { .. }));
    facts.kept = true;
    assert!(matches!(add_column(&call, &column_id, &facts), AddColumnStep::Answer(_)));
    for (position, message) in
        [(0, "failed to insert column"), (2, "failed to insert column at position")]
    {
        let call = add_column_call(&context("board-1"), add_request(position, "")).expect("call");
        match add_column(&call, &column_id, &add_facts(vec![slot("x", i32::MAX)])) {
            AddColumnStep::Refuse(e) => says(&e, Code::Internal, message),
            step => panic!("{step:?}"),
        }
    }
    let mut req = add_request(0, "");
    req.title = s("");
    says(
        &add_column_call(&context("board-1"), req).expect_err("title"),
        Code::InvalidArgument,
        "title is required",
    );
    let mut req = add_request(0, "");
    req.wip_limit = 5;
    req.accent = s("red");
    let call = add_column_call(&context("board-1"), req).expect("call");
    match add_column(&call, &column_id, &add_facts(vec![])) {
        AddColumnStep::Store(new) => {
            assert_eq!((new.wip_limit, new.accent.as_deref()), (Some(5), Some("red")));
        }
        step => panic!("{step:?}"),
    }
}

#[test]
fn update_column_changes_title_and_wip() {
    let call = column_call(&context("board-1"), &id("col-1")).expect("call");
    let u = column_update(&call, &s("New"), &s(""), 3);
    assert_eq!((u.column_id.as_str(), u.board_id.as_str()), ("col-1", "board-1"));
    assert_eq!((u.title.as_deref(), u.accent, u.wip_limit), (Some("New"), None, Some(3)));
    assert_eq!(column_update(&call, &s(""), &s("x"), 0).wip_limit, None);
    let mut row = column("col-1", 0);
    row.wip_limit = Some(3);
    assert_eq!(update_column(&Some(row)).expect("column").wip_limit, 3);
    says(
        &update_column(&None).expect_err("column"),
        Code::NotFound,
        "column not found on this board",
    );
    says(
        &column_call(&context("board-1"), &no_id("x")).expect_err("id"),
        Code::InvalidArgument,
        "invalid column_id",
    );
}

#[test]
fn remove_column_deletes_cards_via_cascade() {
    let call = column_call(&context("board-1"), &id("b")).expect("call");
    let mut facts =
        RemoveColumnFacts { exists: None, deleted: None, left: None, renumbered: false };
    assert!(matches!(remove_column(&call, &facts), RemoveColumnStep::FindColumn { .. }));
    facts.exists = Some(true);
    assert!(matches!(remove_column(&call, &facts), RemoveColumnStep::Delete { .. }));
    facts.deleted = Some(1);
    assert!(matches!(remove_column(&call, &facts), RemoveColumnStep::LoadSlots { .. }));
    facts.left = Some(vec![slot("a", 0), slot("d", 3), slot("c", 2)]);
    match remove_column(&call, &facts) {
        RemoveColumnStep::Renumber(after) => assert_eq!(at(&after), vec![0, 2, 1]),
        step => panic!("{step:?}"),
    }
    facts.renumbered = true;
    assert!(matches!(remove_column(&call, &facts), RemoveColumnStep::Done));
    facts.deleted = Some(0);
    match remove_column(&call, &facts) {
        RemoveColumnStep::Refuse(e) => says(&e, Code::NotFound, "column not found"),
        step => panic!("{step:?}"),
    }
}

#[test]
fn remove_column_rejects_column_not_on_board() {
    let call = column_call(&context("board-1"), &id("b")).expect("call");
    let facts =
        RemoveColumnFacts { exists: Some(false), deleted: None, left: None, renumbered: false };
    match remove_column(&call, &facts) {
        RemoveColumnStep::Refuse(e) => says(&e, Code::NotFound, "column not found on this board"),
        step => panic!("{step:?}"),
    }
}

#[test]
fn move_column_reorders_within_board() {
    let slots = || vec![slot("A", 0), slot("B", 1), slot("C", 2), slot("D", 3)];
    let call = move_column_call(&context("board-1"), &id("D"), 1).expect("call");
    let mut facts = MoveColumnFacts { slots: None, stored: false, columns: None };
    assert!(matches!(move_column(&call, &facts), MoveColumnStep::LoadSlots { .. }));
    facts.slots = Some(slots());
    match move_column(&call, &facts) {
        MoveColumnStep::Store(after) => {
            assert_eq!(after.len(), 4);
            assert_eq!(at(&after), vec![1, 2, 3, 0]);
            let mut positions = at(&after);
            positions.sort();
            assert_eq!(positions, vec![0, 1, 2, 3], "positions must be 0-3 after move");
        }
        step => panic!("{step:?}"),
    }
    facts.stored = true;
    assert!(matches!(move_column(&call, &facts), MoveColumnStep::LoadColumns { .. }));
    facts.columns = Some(vec![column("D", 0), column("A", 1), column("B", 2), column("C", 3)]);
    match move_column(&call, &facts) {
        MoveColumnStep::Answer(columns) => {
            assert_eq!(columns.len(), 4);
            assert_eq!((columns[0].id.as_str(), columns[0].position), ("D", 0));
        }
        step => panic!("{step:?}"),
    }
    let call = move_column_call(&context("board-1"), &id("B"), 2).expect("call");
    let facts = MoveColumnFacts { slots: Some(slots()), stored: false, columns: None };
    assert!(matches!(move_column(&call, &facts), MoveColumnStep::LoadColumns { .. }));
    let call = move_column_call(&context("board-1"), &id("X"), 2).expect("call");
    match move_column(&call, &facts) {
        MoveColumnStep::Refuse(e) => says(&e, Code::NotFound, "column not found on this board"),
        step => panic!("{step:?}"),
    }
    says(
        &move_column_call(&context("board-1"), &id("B"), 0).expect_err("place"),
        Code::InvalidArgument,
        "to_position must be >= 1",
    );
}

// Live streams

fn config(visibility: &str, exp: Option<i64>) -> StreamConfig {
    let mut ctx = context("x");
    if let Some(auth) = &mut ctx.auth {
        auth.exp = exp;
    }
    let call = subscribe_board_call(&ctx, &id("board-1")).expect("call");
    subscribe_board(&call, &Some(s(visibility)), 1000).expect("config")
}

fn waiting() -> StreamState {
    StreamState { phase: Phase::Waiting, checked_at_ms: 0 }
}

fn checking(checked_at_ms: u64) -> StreamState {
    StreamState { phase: Phase::Checking, checked_at_ms }
}

fn fails_with(step: StreamStep, code: Code, message: &str) {
    assert_eq!(step.state.phase, Phase::Ended);
    assert!(matches!(step.next, StreamNext::Stop));
    match step.item {
        Some(StreamItem::Fault(e)) => says(&e, code, message),
        item => panic!("{item:?}"),
    }
}

#[test]
fn subscribe_emits_cutover_immediately_on_empty_replay() {
    let c = config("public", None);
    let step = advance(&c, &new_stream(), StreamInput::Open);
    match step.item {
        Some(StreamItem::Envelope(e)) => {
            assert_eq!(e.payload, EnvelopePayload::Cutover { last_replay_nats_seq: 0 });
            assert_eq!(e.actor_subject, "system");
            assert_eq!((e.board_id.as_str(), e.nats_seq), ("", 0));
        }
        item => panic!("{item:?}"),
    }
    match step.next {
        StreamNext::Subscribe { topic } => assert_eq!(topic, "board-1"),
        next => panic!("{next:?}"),
    }
    let step = advance(&c, &step.state, StreamInput::Subscribed { at_ms: 50 });
    assert!(step.item.is_none());
    assert_eq!(step.state, checking(50));
    let step = advance(
        &c,
        &StreamState { phase: Phase::Subscribing(0), checked_at_ms: 0 },
        StreamInput::SubscribeFailed { error: s("no nats") },
    );
    fails_with(step, Code::Internal, "subscribe: no nats");
    assert_eq!(
        cutover_envelope(9).payload,
        EnvelopePayload::Cutover { last_replay_nats_seq: 9 }
    );
}

#[test]
fn subscribe_forwards_live_event_published_to_jetstream() {
    let c = config("private", None);
    let step = advance(&c, &waiting(), StreamInput::Live(Outcome::Emit));
    assert!(matches!(step.item, Some(StreamItem::Event)));
    assert!(matches!(step.next, StreamNext::ReadClock));
    for outcome in [Outcome::Drop, Outcome::OutOfOrder] {
        let step = advance(&c, &waiting(), StreamInput::Live(outcome));
        assert!(step.item.is_none());
        assert!(matches!(step.next, StreamNext::ReadClock));
    }
    fails_with(
        advance(&c, &waiting(), StreamInput::Lagged),
        Code::ResourceExhausted,
        "stream lagged; reconnect with last seq",
    );
    let step = advance(&c, &waiting(), StreamInput::Closed);
    assert!(step.item.is_none());
    assert!(matches!(step.next, StreamNext::Stop));
}

#[test]
fn subscribe_emits_heartbeat_after_inactivity() {
    let step = advance(&config("public", None), &waiting(), StreamInput::Tick { server_time_ms: 5 });
    match step.item {
        Some(StreamItem::Envelope(e)) => {
            assert_eq!(e.payload, EnvelopePayload::Heartbeat { server_time_ms: 5 });
        }
        item => panic!("{item:?}"),
    }
    match heartbeat_envelope().payload {
        EnvelopePayload::Heartbeat { server_time_ms } => {
            assert!(server_time_ms > 1_600_000_000_000, "{server_time_ms}");
        }
        payload => panic!("{payload:?}"),
    }
}

#[test]
fn subscribe_closes_with_permission_denied_when_permission_revokes() {
    let c = config("private", None);
    let step = advance(&c, &checking(0), StreamInput::Clock { now: 0, at_ms: 999 });
    assert!(matches!(step.next, StreamNext::Wait));
    let step = advance(&c, &checking(0), StreamInput::Clock { now: 0, at_ms: 1000 });
    match &step.next {
        StreamNext::CheckPermission { namespace, object_id, relation, subject } => assert_eq!(
            (*namespace, object_id.as_str(), *relation, subject.as_str()),
            ("KanbanBoard", "board-1", "view", "user:test")
        ),
        next => panic!("{next:?}"),
    }
    let state = step.state;
    fails_with(
        advance(&c, &state, StreamInput::Revoked),
        Code::PermissionDenied,
        "permission revoked mid-stream",
    );
    fails_with(
        advance(&c, &state, StreamInput::CheckFailed),
        Code::Internal,
        "authorization check failed",
    );
    let step = advance(&c, &state, StreamInput::Granted { at_ms: 1234 });
    assert_eq!(step.state, StreamState { phase: Phase::Waiting, checked_at_ms: 1234 });
}

#[test]
fn subscribe_public_board_skips_permission_recheck() {
    for visibility in ["public", "internal"] {
        let c = config(visibility, None);
        let step = advance(&c, &checking(0), StreamInput::Clock { now: 0, at_ms: u64::MAX });
        assert!(matches!(step.next, StreamNext::Wait));
    }
}

#[test]
fn an_expired_token_ends_the_stream() {
    let c = config("public", Some(100));
    let step = advance(&c, &checking(0), StreamInput::Clock { now: 99, at_ms: 0 });
    assert!(matches!(step.next, StreamNext::Wait));
    fails_with(
        advance(&c, &checking(0), StreamInput::Clock { now: 100, at_ms: 0 }),
        Code::Unauthenticated,
        "token expired",
    );
    let auth = |exp| AuthContext { tenant_id: None, subject: None, exp };
    assert!(revalidate_token(&auth(None), i64::MAX));
    assert!(revalidate_token(&auth(Some(5)), 4));
    assert!(!revalidate_token(&auth(Some(5)), 5));
}

#[test]
fn an_ended_stream_stays_ended() {
    let c = config("public", None);
    let ended = StreamState { phase: Phase::Ended, checked_at_ms: 0 };
    for input in [StreamInput::Open, StreamInput::Live(Outcome::Emit), StreamInput::Lagged] {
        let step = advance(&c, &ended, input);
        assert_eq!(step.state.phase, Phase::Ended);
        assert!(step.item.is_none());
    }
}

#[test]
fn subscribing_is_checked() {
    let mut ctx = context("x");
    ctx.auth = None;
    says(
        &subscribe_board_call(&ctx, &id("b")).expect_err("auth"),
        Code::Unauthenticated,
        "missing auth context",
    );
    ctx.auth = Some(AuthContext { tenant_id: None, subject: None, exp: None });
    says(
        &subscribe_board_call(&ctx, &id("b")).expect_err("tenant"),
        Code::Unauthenticated,
        "missing tenant context",
    );
    ctx.auth = Some(AuthContext { tenant_id: Some(s("t")), subject: None, exp: None });
    says(
        &subscribe_board_call(&ctx, &no_id("b")).expect_err("board"),
        Code::InvalidArgument,
        "invalid board_id",
    );
    let call = subscribe_board_call(&ctx, &id("b")).expect("call");
    says(
        &subscribe_board(&call, &None, 1).expect_err("gone"),
        Code::NotFound,
        "board not found",
    );
    assert_eq!(subscribe_board(&call, &Some(s("private")), 1).expect("config").subject, "");
}
