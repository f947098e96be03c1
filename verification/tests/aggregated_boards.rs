use sunbeam_kanban::aggregated_boards::create::{
    create_aggregated_board, create_aggregated_board_call, CreateAggregateFacts,
    CreateAggregateStep, CreateAggregatedBoardRequest,
};
use sunbeam_kanban::aggregated_boards::model::{AggregatedBoardRow, SourceBoardRow};
use sunbeam_kanban::aggregated_boards::read::{
    get_aggregated_board, get_aggregated_board_call, AggregatedBoardChunk, BoardVisibility,
    GetAggregateFacts, GetAggregateStep,
};
use sunbeam_kanban::aggregated_boards::service::{
    delete_aggregated_board, delete_aggregated_board_call, list_aggregated_boards,
    list_aggregated_boards_call, subscribe_aggregated_board, subscribe_aggregated_board_call,
    update_aggregated_board, update_aggregated_board_call, UpdateAggregateFacts,
    UpdateAggregateStep,
};
use sunbeam_kanban::aggregated_boards::sources::{
    add_source_board, move_source_board, remove_source_board, source_call, SourceChange,
    SourceFacts, SourceStep,
};
use sunbeam_kanban::boards::service::BoardPatch;
use sunbeam_kanban::cards::model::{CardRow, LoadedCard};
use sunbeam_kanban::context::{AuthContext, IdArg, RequestContext};
use sunbeam_kanban::position::Slot;
use sunbeam_kanban::status::{Code, Status};
use sunbeam_kanban::stream::{
    advance, new_stream, EnvelopePayload, Phase, StreamInput, StreamItem, StreamNext, StreamState,
};
use sunbeam_kanban::timestamp::Timestamp;

fn s(text: &str) -> String {
    text.to_string()
}

fn id(text: &str) -> IdArg {
    IdArg { text: s(text), id: Some(s(text)) }
}

fn no_id(text: &str) -> IdArg {
    IdArg { text: s(text), id: None }
}

fn context(object: &str) -> RequestContext {
    RequestContext {
        checked_object_id: Some(id(object)),
        auth: Some(AuthContext {
            tenant_id: Some(s("tenant-1")),
            subject: Some(s("user:test")),
            exp: Some(1000),
        }),
    }
}

fn says(e: &Status, code: Code, message: &str) {
    assert_eq!((e.code, e.message.as_str()), (code, message));
}

fn time() -> Timestamp {
    Timestamp { seconds: 1, nanos: 2 }
}

fn aggregate(id: &str, visibility: &str) -> AggregatedBoardRow {
    AggregatedBoardRow {
        id: s(id),
        name: s("Cross-Project View"),
        description: Some(s("meta board")),
        icon: None,
        visibility: s(visibility),
        created_at: time(),
        updated_at: time(),
    }
}

fn source(id: &str, name: &str, position: i32) -> SourceBoardRow {
    SourceBoardRow {
        board_id: s(id),
        project_id: s("project-1"),
        name: s(name),
        icon: Some(s("layers")),
        position,
    }
}

fn card(id: &str, board: &str) -> LoadedCard {
    LoadedCard {
        row: CardRow {
            id: s(id),
            project_id: s("project-1"),
            board_id: s(board),
            column_id: s("col"),
            reference: s("R-001"),
            title: s("t"),
            description: None,
            position: 0,
            priority: None,
            urgency: None,
            due_date: None,
            completed_at: None,
            blocked: false,
            cover: None,
            milestone_id: None,
            revision: 0,
            created_at: time(),
            updated_at: time(),
        },
        labels: vec![],
        assignees: vec![],
        checklist: vec![],
        links: vec![],
        comments: 0,
        attachments: 0,
        depends_on: vec![],
        dependents: vec![],
    }
}

fn request(sources: Vec<IdArg>, key: &str) -> CreateAggregatedBoardRequest {
    CreateAggregatedBoardRequest {
        name: s("Cross-Project View"),
        description: s("meta board"),
        icon: s("layers"),
        visibility: s("private"),
        source_board_ids: sources,
        idempotency_key: s(key),
    }
}

fn create_facts() -> CreateAggregateFacts {
    CreateAggregateFacts { written: None, owner: None, viewer: None, stored: false, kept: false }
}

#[test]
fn create_then_get_aggregated_board() {
    let call = create_aggregated_board_call(&context("x"), request(vec![id("a"), id("b")], "k"))
        .expect("call");
    let numbered: Vec<(String, i32)> =
        call.sources.iter().map(|x| (x.id.clone(), x.position)).collect();
    assert_eq!(numbered, vec![(s("a"), 0), (s("b"), 1)]);
    let board_id = s("agg-1");
    let mut facts = create_facts();
    match create_aggregated_board(&call, &board_id, &facts) {
        CreateAggregateStep::Write(new) => {
            assert_eq!(new.id, "agg-1");
            assert_eq!(new.created_by, "user:test");
            assert_eq!(new.icon, "layers");
        }
        step => panic!("{step:?}"),
    }
    facts.written = Some(aggregate("agg-1", "private"));
    for relation_expected in ["owner", "viewer"] {
        match create_aggregated_board(&call, &board_id, &facts) {
            CreateAggregateStep::Grant { namespace, object_id, relation, subject } => assert_eq!(
                (namespace, object_id.as_str(), relation, subject.as_str()),
                ("KanbanAggregatedBoard", "agg-1", relation_expected, "user:test")
            ),
            step => panic!("{step:?}"),
        }
        if facts.owner.is_none() {
            facts.owner = Some(true);
        } else {
            facts.viewer = Some(true);
        }
    }
    match create_aggregated_board(&call, &board_id, &facts) {
        CreateAggregateStep::Store(closing) => {
            assert_eq!(closing.owner, "user:test");
            assert_eq!(closing.event.event_type, "AggregatedBoardCreated");
            assert_eq!(closing.event.payload.get_text("aggregated_board_id"), Some(s("agg-1")));
        }
        step => panic!("{step:?}"),
    }
    facts.stored = true;
    assert!(matches!(
        create_aggregated_board(&call, &board_id, &facts),
        CreateAggregateStep::KeepKey { .. }
    ));
    facts.kept = true;
    match create_aggregated_board(&call, &board_id, &facts) {
        CreateAggregateStep::Answer(b) => {
            assert_eq!((b.name.as_str(), b.description.as_str()), ("Cross-Project View", "meta board"));
            assert_eq!(b.icon, "");
        }
        step => panic!("{step:?}"),
    }
    facts.viewer = Some(false);
    match create_aggregated_board(&call, &board_id, &facts) {
        CreateAggregateStep::Refuse(e) => says(
            &e,
            Code::Internal,
            "failed to write viewer tuple to the permission backend",
        ),
        step => panic!("{step:?}"),
    }
    facts.owner = Some(false);
    match create_aggregated_board(&call, &board_id, &facts) {
        CreateAggregateStep::Refuse(e) => says(
            &e,
            Code::Internal,
            "failed to write owner tuple to the permission backend",
        ),
        step => panic!("{step:?}"),
    }
}

#[test]
fn create_aggregated_board_is_checked() {
    let refusal = |req: CreateAggregatedBoardRequest| {
        create_aggregated_board_call(&context("x"), req).expect_err("refused")
    };
    let mut req = request(vec![no_id("?")], "");
    req.name = s("");
    says(&refusal(req), Code::InvalidArgument, "name is required");
    says(
        &refusal(request(vec![id("a"), no_id("?")], "")),
        Code::InvalidArgument,
        "invalid source_board_id",
    );
    says(
        &refusal(request(vec![id("a"), id("b"), id("a"), no_id("?")], "")),
        Code::Internal,
        "failed to insert source board",
    );
}

fn list(allowed: Vec<String>) -> Vec<String> {
    let rows = vec![
        aggregate("a", "private"),
        aggregate("b", "public"),
        aggregate("c", "internal"),
    ];
    list_aggregated_boards(&rows, &allowed).into_iter().map(|b| b.id).collect()
}

#[test]
fn list_aggregated_boards_returns_visible_boards() {
    let call = list_aggregated_boards_call(&context("x")).expect("call");
    assert_eq!(call.tenant_id, "tenant-1");
    assert_eq!(
        (call.query.namespace, call.query.relation, call.query.subject.as_str(), call.query.limit),
        ("KanbanAggregatedBoard", "view", "user:test", 10_000)
    );
    assert_eq!(list(vec![s("a")]), vec![s("a"), s("b"), s("c")]);
}

#[test]
fn list_aggregated_boards_hides_boards_from_other_subject() {
    assert!(!list(vec![s("x")]).contains(&s("a")));
}

#[test]
fn list_aggregated_boards_returns_public_internal_for_any_authenticated_user() {
    assert_eq!(list(vec![]), vec![s("b"), s("c")]);
}

fn stored(
    sources: Vec<Slot>,
    board: &str,
    step: fn(&sunbeam_kanban::aggregated_boards::sources::SourceCall, i32, &SourceFacts) -> SourceStep,
    position: i32,
) -> SourceChange {
    let call = source_call(&context("agg-1"), &id(board)).expect("call");
    let facts = SourceFacts { sources: Some(sources), stored: false, board: None };
    match step(&call, position, &facts) {
        SourceStep::Store(change) => change,
        other => panic!("{other:?}"),
    }
}

/// The list in the order in which it is read back.
fn in_order(change: SourceChange) -> Vec<Slot> {
    let mut sources = change.sources;
    sources.sort_by_key(|x| x.position);
    sources
}

fn ids(sources: &[Slot]) -> Vec<String> {
    for (i, x) in sources.iter().enumerate() {
        assert_eq!(x.position, i as i32);
    }
    sources.iter().map(|x| x.id.clone()).collect()
}

fn slots(list: &[&str]) -> Vec<Slot> {
    list.iter().enumerate().map(|(i, x)| Slot { id: s(x), position: i as i32 }).collect()
}

#[test]
fn add_remove_and_move_source_boards() {
    let sources = in_order(stored(slots(&["a"]), "b", add_source_board, 1));
    assert_eq!(ids(&sources), vec![s("a"), s("b")]);
    let change = stored(sources, "c", add_source_board, 2);
    let event = change.event.as_ref().expect("event");
    assert_eq!(event.event_type, "SourceBoardAdded");
    assert_eq!(event.payload.get_text("board_id"), Some(s("c")));
    let sources = in_order(change);
    assert_eq!(ids(&sources), vec![s("a"), s("b"), s("c")]);
    let change = stored(sources, "a", move_source_board, 2);
    assert!(change.event.is_none());
    let sources = in_order(change);
    assert_eq!(ids(&sources), vec![s("b"), s("c"), s("a")]);
    let call = source_call(&context("agg-1"), &id("b")).expect("call");
    let mut facts = SourceFacts { sources: Some(sources), stored: false, board: None };
    let sources = match remove_source_board(&call, &facts) {
        SourceStep::Store(change) => {
            assert_eq!(change.removed.as_deref(), Some("b"));
            assert_eq!(change.event.as_ref().expect("event").event_type, "SourceBoardRemoved");
            in_order(change)
        }
        step => panic!("{step:?}"),
    };
    assert_eq!(ids(&sources), vec![s("c"), s("a")]);
    facts.stored = true;
    assert!(matches!(remove_source_board(&call, &facts), SourceStep::LoadBoard { .. }));
    facts.board = Some(Some(aggregate("agg-1", "private")));
    assert!(matches!(remove_source_board(&call, &facts), SourceStep::Answer(_)));
    facts.board = Some(None);
    match remove_source_board(&call, &facts) {
        SourceStep::Refuse(e) => says(&e, Code::NotFound, "aggregated board not found"),
        step => panic!("{step:?}"),
    }
}

#[test]
fn source_boards_land_where_asked() {
    let added = |list: &[&str], board: &str, position: i32| {
        ids(&in_order(stored(slots(list), board, add_source_board, position)))
    };
    assert_eq!(added(&["a", "b", "c"], "x", 1), vec![s("a"), s("x"), s("b"), s("c")]);
    assert_eq!(added(&["a", "b"], "x", 0), vec![s("a"), s("b"), s("x")]);
    assert_eq!(added(&["a", "b"], "x", -4), vec![s("a"), s("b"), s("x")]);
    assert_eq!(added(&["a", "b"], "x", 99), vec![s("a"), s("b"), s("x")]);
    assert_eq!(added(&["a", "b", "c"], "c", 1), vec![s("a"), s("c"), s("b")]);
    assert_eq!(added(&["a", "b", "c"], "a", 2), vec![s("b"), s("a"), s("c")]);
    let moved = |board: &str, to: i32| {
        ids(&in_order(stored(slots(&["a", "b", "c"]), board, move_source_board, to)))
    };
    assert_eq!(moved("c", 0), vec![s("c"), s("a"), s("b")]);
    assert_eq!(moved("a", 1), vec![s("b"), s("a"), s("c")]);
    assert_eq!(moved("a", 9), vec![s("b"), s("c"), s("a")]);
    assert_eq!(moved("a", -1), vec![s("b"), s("c"), s("a")]);
}

#[test]
fn source_requests_are_refused() {
    let call = source_call(&context("agg-1"), &id("x")).expect("call");
    let mut facts = SourceFacts { sources: None, stored: false, board: None };
    assert!(matches!(add_source_board(&call, 0, &facts), SourceStep::LoadSources { .. }));
    facts.sources = Some(slots(&["a"]));
    match move_source_board(&call, 0, &facts) {
        SourceStep::Refuse(e) => says(&e, Code::NotFound, "source board not found in aggregate"),
        step => panic!("{step:?}"),
    }
    facts.sources = Some(vec![Slot { id: s("a"), position: i32::MAX }]);
    match add_source_board(&call, 3, &facts) {
        SourceStep::Refuse(e) => says(&e, Code::Internal, "failed to shift source board positions"),
        step => panic!("{step:?}"),
    }
    says(
        &source_call(&context("agg-1"), &no_id("?")).expect_err("board"),
        Code::InvalidArgument,
        "invalid board_id",
    );
    let mut ctx = context("agg-1");
    ctx.checked_object_id = Some(no_id("?"));
    says(
        &source_call(&ctx, &id("x")).expect_err("aggregate"),
        Code::InvalidArgument,
        "invalid aggregated_board_id",
    );
}

fn facts(visibility: &str) -> GetAggregateFacts {
    GetAggregateFacts {
        board: Some(Some(aggregate("agg-1", visibility))),
        allowed: None,
        sources: Some(vec![source("a", "Source A", 0), source("b", "Source B", 1)]),
        viewable: Some(vec![]),
        visibilities: Some(vec![]),
        cards: Some(vec![]),
    }
}

fn chunks(facts: &GetAggregateFacts) -> Vec<AggregatedBoardChunk> {
    let call = get_aggregated_board_call(&context("x"), &id("agg-1")).expect("call");
    match get_aggregated_board(&call, facts) {
        GetAggregateStep::Answer(chunks) => chunks,
        step => panic!("{step:?}"),
    }
}

#[test]
fn get_aggregated_board_includes_cards() {
    let mut f = facts("public");
    f.viewable = Some(vec![s("a"), s("b")]);
    f.cards = Some((0..250).map(|i| card(&format!("c{i}"), "a")).collect());
    let chunks = chunks(&f);
    assert_eq!(chunks.len(), 1 + 2 + 2 + 3);
    match &chunks[0] {
        AggregatedBoardChunk::Metadata(b) => assert_eq!(b.id, "agg-1"),
        chunk => panic!("{chunk:?}"),
    }
    match &chunks[2] {
        AggregatedBoardChunk::SourceBoard(b) => {
            assert_eq!((b.board_id.as_str(), b.icon.as_str(), b.position), ("b", "layers", 1));
        }
        chunk => panic!("{chunk:?}"),
    }
    match &chunks[4] {
        AggregatedBoardChunk::Column(c) => {
            assert_eq!(c.id, "agg-col-b");
            assert_eq!(c.title, "Source B");
            assert_eq!(c.accent, "layers");
            assert_eq!((c.wip_limit, c.position), (0, 2));
            assert_eq!(c.source_board_id, "b");
        }
        chunk => panic!("{chunk:?}"),
    }
    let mut seen = vec![];
    let mut sizes = vec![];
    for chunk in &chunks[5..] {
        match chunk {
            AggregatedBoardChunk::CardBatch(cards) => {
                sizes.push(cards.len());
                seen.extend(cards.iter().map(|c| c.id.clone()));
            }
            chunk => panic!("{chunk:?}"),
        }
    }
    assert_eq!(sizes, vec![100, 100, 50]);
    let all: Vec<String> = (0..250).map(|i| format!("c{i}")).collect();
    assert_eq!(seen, all);
}

#[test]
fn get_aggregated_board_filters_source_boards_by_visibility() {
    let mut f = facts("public");
    f.visibilities = Some(vec![
        BoardVisibility { board_id: s("a"), visibility: s("private") },
        BoardVisibility { board_id: s("b"), visibility: s("internal") },
    ]);
    f.cards = Some(vec![card("c1", "a"), card("c2", "b")]);
    let chunks = chunks(&f);
    assert_eq!(chunks.len(), 4);
    assert!(matches!(&chunks[1], AggregatedBoardChunk::SourceBoard(b) if b.board_id == "b"));
    assert!(matches!(&chunks[2], AggregatedBoardChunk::Column(c) if c.position == 1));
    assert!(matches!(&chunks[3], AggregatedBoardChunk::CardBatch(c) if c.len() == 1 && c[0].id == "c2"));
}

#[test]
fn get_aggregated_board_allows_non_member_for_public_aggregate() {
    assert_eq!(chunks(&facts("public")).len(), 1);
    assert_eq!(chunks(&facts("internal")).len(), 1);
}

#[test]
fn get_aggregated_board_denies_non_member_for_private_aggregate() {
    let call = get_aggregated_board_call(&context("x"), &id("agg-1")).expect("call");
    let mut f = facts("private");
    match get_aggregated_board(&call, &f) {
        GetAggregateStep::CheckPermission { namespace, relation, .. } => {
            assert_eq!((namespace, relation), ("KanbanAggregatedBoard", "view"));
        }
        step => panic!("{step:?}"),
    }
    f.allowed = Some(false);
    match get_aggregated_board(&call, &f) {
        GetAggregateStep::Refuse(e) => says(
            &e,
            Code::PermissionDenied,
            "you do not have permission to view this aggregated board",
        ),
        step => panic!("{step:?}"),
    }
    f.allowed = Some(true);
    assert!(matches!(get_aggregated_board(&call, &f), GetAggregateStep::Answer(_)));
}

#[test]
fn get_aggregated_board_looks_things_up_in_turn() {
    let call = get_aggregated_board_call(&context("x"), &id("agg-1")).expect("call");
    let mut f = GetAggregateFacts {
        board: None,
        allowed: None,
        sources: None,
        viewable: None,
        visibilities: None,
        cards: None,
    };
    assert!(matches!(get_aggregated_board(&call, &f), GetAggregateStep::FindBoard { .. }));
    f.board = Some(None);
    match get_aggregated_board(&call, &f) {
        GetAggregateStep::Refuse(e) => says(&e, Code::NotFound, "aggregated board not found"),
        step => panic!("{step:?}"),
    }
    f.board = Some(Some(aggregate("agg-1", "public")));
    assert!(matches!(get_aggregated_board(&call, &f), GetAggregateStep::LoadSources { .. }));
    f.sources = Some(vec![source("a", "A", 0), source("b", "B", 1)]);
    match get_aggregated_board(&call, &f) {
        GetAggregateStep::Expand(q) => assert_eq!(
            (q.namespace, q.relation, q.subject.as_str(), q.limit),
            ("KanbanBoard", "view", "user:test", 10_000)
        ),
        step => panic!("{step:?}"),
    }
    f.viewable = Some(vec![s("b")]);
    match get_aggregated_board(&call, &f) {
        GetAggregateStep::LoadVisibilities { board_ids, .. } => {
            assert_eq!(board_ids, vec![s("a"), s("b")]);
        }
        step => panic!("{step:?}"),
    }
    f.visibilities = Some(vec![]);
    match get_aggregated_board(&call, &f) {
        GetAggregateStep::LoadCards { board_ids, .. } => assert_eq!(board_ids, vec![s("b")]),
        step => panic!("{step:?}"),
    }
    says(
        &get_aggregated_board_call(&context("x"), &no_id("?")).expect_err("board"),
        Code::InvalidArgument,
        "invalid aggregated_board_id",
    );
}

fn patch(name: &str, description: &str, mask: &[&str]) -> BoardPatch {
    BoardPatch {
        name: s(name),
        description: s(description),
        icon: s(""),
        visibility: s("public"),
        mask: mask.iter().map(|m| s(m)).collect(),
    }
}

#[test]
fn update_aggregated_board_patches_name_and_description() {
    let call = update_aggregated_board_call(&context("agg-1")).expect("call");
    let mut f = UpdateAggregateFacts { allowed: None, updated: None };
    match update_aggregated_board(&call, &patch("N", "D", &[]), &f) {
        UpdateAggregateStep::Update(u) => {
            assert_eq!((u.name.as_deref(), u.description.as_deref()), (Some("N"), Some("D")));
            assert_eq!((u.icon, u.visibility), (None, None));
            assert_eq!(u.event.event_type, "AggregatedBoardUpdated");
        }
        step => panic!("{step:?}"),
    }
    f.updated = Some(Some(aggregate("agg-1", "private")));
    assert!(matches!(
        update_aggregated_board(&call, &patch("N", "D", &[]), &f),
        UpdateAggregateStep::Answer(_)
    ));
    f.updated = Some(None);
    match update_aggregated_board(&call, &patch("N", "D", &[]), &f) {
        UpdateAggregateStep::Refuse(e) => says(&e, Code::NotFound, "aggregated board not found"),
        step => panic!("{step:?}"),
    }
}

#[test]
fn update_aggregated_board_visibility_requires_manage_and_persists() {
    let call = update_aggregated_board_call(&context("agg-1")).expect("call");
    let p = patch("", "", &["visibility"]);
    let mut f = UpdateAggregateFacts { allowed: None, updated: None };
    match update_aggregated_board(&call, &p, &f) {
        UpdateAggregateStep::CheckPermission { relation, .. } => assert_eq!(relation, "manage"),
        step => panic!("{step:?}"),
    }
    f.allowed = Some(false);
    match update_aggregated_board(&call, &p, &f) {
        UpdateAggregateStep::Refuse(e) => says(
            &e,
            Code::PermissionDenied,
            "you do not have permission to change aggregated board visibility",
        ),
        step => panic!("{step:?}"),
    }
    f.allowed = Some(true);
    match update_aggregated_board(&call, &p, &f) {
        UpdateAggregateStep::Update(u) => assert_eq!(u.visibility.as_deref(), Some("public")),
        step => panic!("{step:?}"),
    }
}

#[test]
fn delete_aggregated_board_removes_row() {
    let call = delete_aggregated_board_call(&context("agg-1")).expect("call");
    assert_eq!(call.aggregated_board_id, "agg-1");
    assert!(delete_aggregated_board(1).is_ok());
}

#[test]
fn delete_aggregated_board_returns_not_found_for_missing() {
    says(
        &delete_aggregated_board(0).expect_err("gone"),
        Code::NotFound,
        "aggregated board not found",
    );
}

#[test]
fn subscribe_aggregated_board_emits_cutover() {
    let call = subscribe_aggregated_board_call(&context("x"), &id("agg-1")).expect("call");
    let c = subscribe_aggregated_board(&call, &Some(s("private")), &vec![s("a"), s("b")], 10)
        .expect("config");
    assert!(c.is_private);
    let mut step = advance(&c, &new_stream(), StreamInput::Open);
    match &step.item {
        Some(StreamItem::Envelope(e)) => {
            assert_eq!(e.payload, EnvelopePayload::Cutover { last_replay_nats_seq: 0 });
        }
        item => panic!("{item:?}"),
    }
    for expected in ["agg-1", "a", "b"] {
        match &step.next {
            StreamNext::Subscribe { topic } => assert_eq!(topic, expected),
            next => panic!("{next:?}"),
        }
        step = advance(&c, &step.state, StreamInput::Subscribed { at_ms: 3 });
    }
    assert!(matches!(step.next, StreamNext::ReadClock));
    let state = step.state;
    let step = advance(&c, &state, StreamInput::Clock { now: 999, at_ms: 12 });
    assert!(matches!(step.next, StreamNext::Wait));
    let step = advance(&c, &state, StreamInput::Clock { now: 1000, at_ms: 12 });
    match step.item {
        Some(StreamItem::Fault(e)) => says(&e, Code::Unauthenticated, "token expired"),
        item => panic!("{item:?}"),
    }
    says(
        &subscribe_aggregated_board(&call, &None, &vec![], 10).expect_err("gone"),
        Code::NotFound,
        "aggregated board not found",
    );
    says(
        &subscribe_aggregated_board_call(&context("x"), &no_id("?")).expect_err("board"),
        Code::InvalidArgument,
        "invalid aggregated_board_id",
    );
}

#[test]
fn build_subscribe_stream_emits_heartbeat_with_short_interval() {
    let call = subscribe_aggregated_board_call(&context("x"), &id("agg-1")).expect("call");
    let c = subscribe_aggregated_board(&call, &Some(s("public")), &vec![], 10).expect("config");
    let waiting = StreamState { phase: Phase::Waiting, checked_at_ms: 0 };
    let step = advance(&c, &waiting, StreamInput::Tick { server_time_ms: 77 });
    match step.item {
        Some(StreamItem::Envelope(e)) => {
            assert_eq!(e.payload, EnvelopePayload::Heartbeat { server_time_ms: 77 });
        }
        item => panic!("{item:?}"),
    }
}
