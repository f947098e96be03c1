use sunbeam_kanban::context::{AuthContext, IdArg, RequestContext};
use sunbeam_kanban::github::{
    build_search_query, fallback_url, issue_api_url, join_repo, link_call, link_details, list_links_by_card, list_links_call,
    link_issue, link_issue_call, parse_issue_json, parse_search_item, resync_link,
    search_github_issues, search_github_issues_call, split_repo, unlink_issue, ApiReply, LinkCall,
    LinkIssueCall, LinkIssueFacts, LinkIssueRequest, LinkIssueStep, LinkRow, ResyncFacts,
    ResyncStep, SearchGithubIssuesRequest, KIND_ISSUE, KIND_PULL_REQUEST,
};
use sunbeam_kanban::json::{Json, Member};
use sunbeam_kanban::status::Code;
use sunbeam_kanban::timestamp::Timestamp;

fn text(s: &str) -> Json {
    Json::Text(s.to_string())
}

fn object(members: Vec<(&str, Json)>) -> Json {
    Json::Object(
        members
            .into_iter()
            .map(|(name, value)| Member { name: name.to_string(), value })
            .collect(),
    )
}

fn id(s: &str) -> IdArg {
    IdArg { text: s.to_string(), id: Some(s.to_string()) }
}

fn no_id(s: &str) -> IdArg {
    IdArg { text: s.to_string(), id: None }
}

fn context() -> RequestContext {
    RequestContext {
        checked_object_id: Some(id("card-1")),
        auth: Some(AuthContext {
            tenant_id: Some("tenant-1".to_string()),
            subject: Some("user:test".to_string()),
            exp: None,
        }),
    }
}

fn request(owner: &str, name: &str, number: i32) -> LinkIssueRequest {
    LinkIssueRequest { repo_owner: owner.to_string(), repo_name: name.to_string(), number }
}

fn call(number: i32) -> LinkIssueCall {
    match link_issue_call(&context(), request("sunbeam", "kanban", number)) {
        Ok(call) => call,
        Err(e) => panic!("refused: {}", e.message),
    }
}

fn row(title: Option<&str>, state: &str, kind: &str, url: &str) -> LinkRow {
    LinkRow {
        id: "link-1".to_string(),
        card_id: "card-1".to_string(),
        repo: "sunbeam/kanban".to_string(),
        issue_id: 42,
        state: state.to_string(),
        title: title.map(|t| t.to_string()),
        url: url.to_string(),
        kind: kind.to_string(),
        synced_at: Timestamp { seconds: 7, nanos: 8 },
    }
}

fn payload_text(payload: &Json, name: &str) -> String {
    match payload.get_text(name) {
        Some(s) => s,
        None => panic!("no {name}"),
    }
}

#[test]
fn split_repo_splits_owner_and_name() {
    assert_eq!(
        split_repo("sunbeam/kanban"),
        ("sunbeam".to_string(), "kanban".to_string())
    );
    assert_eq!(split_repo("bare"), ("bare".to_string(), String::new()));
}

#[test]
fn splitting_undoes_joining() {
    assert_eq!(join_repo("sunbeam", "kanban"), "sunbeam/kanban");
    assert_eq!(split_repo(&join_repo("a", "b/c")), ("a".to_string(), "b/c".to_string()));
}

#[test]
fn build_search_query_scopes_to_repo_when_named() {
    assert_eq!(
        build_search_query("sunbeam", "kanban", "login bug"),
        "login bug repo:sunbeam/kanban"
    );
}

#[test]
fn build_search_query_scopes_to_user_without_repo() {
    assert_eq!(
        build_search_query("sunbeam", "", "login bug"),
        "login bug user:sunbeam"
    );
}

#[test]
fn build_search_query_handles_empty_query_and_owner() {
    assert_eq!(
        build_search_query("sunbeam", "kanban", ""),
        "repo:sunbeam/kanban"
    );
    assert_eq!(build_search_query("", "", "anything"), "anything");
}

#[test]
fn white_space_is_what_unicode_says() {
    for c in '\0'..=char::MAX {
        let expected = matches!(
            c,
            '\u{9}'..='\u{d}' | ' ' | '\u{85}' | '\u{a0}' | '\u{1680}' | '\u{2000}'..='\u{200a}'
                | '\u{2028}' | '\u{2029}' | '\u{202f}' | '\u{205f}' | '\u{3000}'
        );
        assert_eq!(build_search_query("", "", &c.to_string()).is_empty(), expected, "{c:?}");
    }
}

#[test]
fn build_search_query_trims_white_space() {
    assert_eq!(build_search_query("o", "", " \t bug\u{3000}\n"), "bug user:o");
    assert_eq!(build_search_query("", "", " \u{a0} "), "");
}

#[test]
fn parse_issue_json_detects_pull_requests() {
    let pr = object(vec![
        ("title", text("Add feature")),
        ("state", text("closed")),
        ("html_url", text("https://github.com/o/r/pull/7")),
        (
            "pull_request",
            object(vec![("url", text("https://api.github.com/repos/o/r/pulls/7"))]),
        ),
    ]);
    let info = parse_issue_json(&pr);
    assert_eq!(info.kind, KIND_PULL_REQUEST);
    assert_eq!(info.title.as_deref(), Some("Add feature"));
    assert_eq!(info.state, "closed");
    assert_eq!(info.url.as_deref(), Some("https://github.com/o/r/pull/7"));
}

#[test]
fn parse_issue_json_defaults_missing_fields() {
    let issue = object(vec![]);
    let info = parse_issue_json(&issue);
    assert_eq!(info.kind, KIND_ISSUE);
    assert_eq!(info.title, None);
    assert_eq!(info.state, "open");
    assert_eq!(info.url, None);
}

#[test]
fn parse_issue_json_takes_only_texts() {
    let info = parse_issue_json(&object(vec![
        ("title", Json::Int(1)),
        ("state", Json::Null),
        ("html_url", Json::Bool(true)),
        ("pull_request", Json::Null),
    ]));
    assert_eq!(info.kind, KIND_PULL_REQUEST);
    assert_eq!(info.title, None);
    assert_eq!(info.state, "open");
    assert_eq!(info.url, None);
    assert_eq!(parse_issue_json(&Json::List(vec![])).kind, KIND_ISSUE);
}

#[test]
fn parse_search_item_maps_repo_from_repository_url() {
    let item = object(vec![
        ("repository_url", text("https://api.github.com/repos/sunbeam/kanban")),
        ("number", Json::Int(42)),
        ("title", text("Bug")),
        ("state", text("open")),
        ("html_url", text("https://github.com/sunbeam/kanban/issues/42")),
    ]);
    let result = parse_search_item(&item);
    assert_eq!(result.repo_owner, "sunbeam");
    assert_eq!(result.repo_name, "kanban");
    assert_eq!(result.number, 42);
    assert_eq!(result.kind, "issue");
    assert_eq!(result.title, "Bug");
    assert_eq!(result.state, "open");
    assert_eq!(result.url, "https://github.com/sunbeam/kanban/issues/42");
}

#[test]
fn parse_search_item_tolerates_missing_repository_url() {
    let item = object(vec![("number", Json::Int(1))]);
    let result = parse_search_item(&item);
    assert_eq!(result.repo_owner, "");
    assert_eq!(result.repo_name, "");
    assert_eq!(result.number, 1);
}

#[test]
fn parse_search_item_takes_the_last_repos_and_the_low_bits() {
    let result = parse_search_item(&object(vec![
        ("repository_url", text("https://x/repos/y/repos/o/r")),
        ("number", Json::Int(4294967296 + 5)),
    ]));
    assert_eq!((result.repo_owner.as_str(), result.repo_name.as_str()), ("o", "r"));
    assert_eq!(result.number, 5);
    let result = parse_search_item(&object(vec![
        ("repository_url", text("elsewhere")),
        ("number", Json::Int(2147483648)),
    ]));
    assert_eq!((result.repo_owner.as_str(), result.repo_name.as_str()), ("elsewhere", ""));
    assert_eq!(result.number, i32::MIN);
    assert_eq!(parse_search_item(&object(vec![("number", Json::Number)])).number, 0);
    assert_eq!(parse_search_item(&object(vec![("number", Json::Int(-1))])).number, -1);
}

#[test]
fn urls_are_spelled_out() {
    assert_eq!(fallback_url("o", "r", 42), "https://github.com/o/r/issues/42");
    assert_eq!(fallback_url("o", "r", i32::MIN), "https://github.com/o/r/issues/-2147483648");
    assert_eq!(
        issue_api_url("https://api.github.com//", "o", "r", 107),
        "https://api.github.com/repos/o/r/issues/107"
    );
}

#[test]
fn link_issue_checks_its_request() {
    let cases = vec![
        (request("", "r", 1), "repo_owner and repo_name are required"),
        (request("o", "", 1), "repo_owner and repo_name are required"),
        (request("o/x", "r", 1), "repo_owner and repo_name must not contain '/'"),
        (request("o", "r/", 0), "repo_owner and repo_name must not contain '/'"),
        (request("o", "r", 0), "number must be a positive issue/PR number"),
        (request("o", "r", -3), "number must be a positive issue/PR number"),
    ];
    for (req, message) in cases {
        let e = link_issue_call(&context(), req).expect_err("should be refused");
        assert_eq!(e.code, Code::InvalidArgument);
        assert_eq!(e.message, message);
    }
    let mut ctx = context();
    ctx.auth = None;
    let e = link_issue_call(&ctx, request("", "", 0)).expect_err("no tenant");
    assert_eq!((e.code, e.message.as_str()), (Code::Unauthenticated, "missing tenant context"));
    ctx.checked_object_id = Some(no_id("x"));
    let e = link_issue_call(&ctx, request("", "", 0)).expect_err("no card");
    assert_eq!((e.code, e.message.as_str()), (Code::InvalidArgument, "invalid card_id"));
    ctx.checked_object_id = None;
    let e = link_issue_call(&ctx, request("", "", 0)).expect_err("no object");
    assert_eq!((e.code, e.message.as_str()), (Code::Internal, "missing CheckedObjectId extension"));
}

#[test]
fn link_issue_creates_link_when_github_unreachable() {
    let call = call(42);
    let link_id = "link-1".to_string();
    let mut facts = LinkIssueFacts { board: None, reply: None, stored: None };
    match link_issue(&call, "http://127.0.0.1:1", &link_id, &facts) {
        LinkIssueStep::FindBoard { card_id, tenant_id } => {
            assert_eq!((card_id.as_str(), tenant_id.as_str()), ("card-1", "tenant-1"));
        }
        step => panic!("{step:?}"),
    }
    facts.board = Some(Some("board-1".to_string()));
    match link_issue(&call, "http://127.0.0.1:1", &link_id, &facts) {
        LinkIssueStep::FetchIssue { url } => {
            assert_eq!(url, "http://127.0.0.1:1/repos/sunbeam/kanban/issues/42");
        }
        step => panic!("{step:?}"),
    }
    for reply in [ApiReply::Unreachable, ApiReply::Failure, ApiReply::Undecodable] {
        facts.reply = Some(reply);
        match link_issue(&call, "http://127.0.0.1:1", &link_id, &facts) {
            LinkIssueStep::Store(link) => {
                assert_eq!(link.kind, "issue");
                assert_eq!(link.state, "open");
                assert_eq!(link.title, None);
                assert_eq!(link.url, "https://github.com/sunbeam/kanban/issues/42");
                assert_eq!(link.repo, "sunbeam/kanban");
                assert_eq!(link.issue_id, 42);
                assert_eq!(link.event.event_type, "GitHubLinkAdded");
                assert_eq!(link.event.board_id, "board-1");
                assert_eq!(link.event.tenant_id, "tenant-1");
                assert_eq!(payload_text(&link.event.payload, "card_id"), "card-1");
                assert_eq!(payload_text(&link.event.payload, "link_id"), "link-1");
                assert_eq!(payload_text(&link.event.payload, "board_id"), "board-1");
            }
            step => panic!("{step:?}"),
        }
    }
    facts.stored = Some(row(None, "open", "issue", "https://github.com/sunbeam/kanban/issues/42"));
    match link_issue(&call, "http://127.0.0.1:1", &link_id, &facts) {
        LinkIssueStep::Answer(link) => {
            assert_eq!(link.card_id, "card-1");
            assert_eq!(link.repo_owner, "sunbeam");
            assert_eq!(link.repo_name, "kanban");
            assert_eq!(link.issue_or_pr_number, 42);
            assert_eq!(link.kind, "issue");
            assert_eq!(link.state, "open");
            assert_eq!(link.title, "");
            assert_eq!(link.url, "https://github.com/sunbeam/kanban/issues/42");
            assert_eq!(link.last_synced_at, Timestamp { seconds: 7, nanos: 8 });
        }
        step => panic!("{step:?}"),
    }
}

#[test]
fn link_issue_rejects_unknown_card() {
    let facts = LinkIssueFacts { board: Some(None), reply: None, stored: None };
    match link_issue(&call(42), "http://x", &"link-1".to_string(), &facts) {
        LinkIssueStep::Refuse(e) => {
            assert_eq!((e.code, e.message.as_str()), (Code::NotFound, "card not found"));
        }
        step => panic!("{step:?}"),
    }
}

#[test]
fn list_links_by_card_returns_links_in_creation_order() {
    let mut second = row(Some("seeded"), "open", "issue", "u");
    second.id = "link-2".to_string();
    let mut foreign = row(Some("seeded"), "open", "issue", "u");
    foreign.card_id = "card-2".to_string();
    let call = list_links_call(&context()).expect("should go ahead");
    assert_eq!((call.card_id.as_str(), call.tenant_id.as_str()), ("card-1", "tenant-1"));
    let rows = vec![row(Some("seeded"), "open", "issue", "u"), foreign, second];
    assert_eq!(link_details(&rows).len(), 3);
    let links = list_links_by_card(&rows, &call.card_id);
    assert_eq!(links.len(), 2);
    assert_eq!(links[0].id, "link-1");
    assert_eq!(links[1].id, "link-2");
    assert_eq!(links[0].repo_owner, "sunbeam");
    assert_eq!(links[0].repo_name, "kanban");
    assert_eq!(links[0].issue_or_pr_number, 42);
    assert_eq!(links[0].kind, "issue");
    assert_eq!(links[0].title, "seeded");
}

#[test]
fn unlink_issue_deletes_row_and_not_found_on_replay() {
    let call = link_call(&context(), &id("link-1")).expect("should go ahead");
    assert_eq!(call.link_id, "link-1");
    assert_eq!(call.card_id, "card-1");
    assert_eq!(call.tenant_id, "tenant-1");
    assert!(unlink_issue(1).is_ok());
    let e = unlink_issue(0).expect_err("gone");
    assert_eq!((e.code, e.message.as_str()), (Code::NotFound, "github link not found"));
    let e = link_call(&context(), &no_id("x")).expect_err("no id");
    assert_eq!((e.code, e.message.as_str()), (Code::InvalidArgument, "invalid link_id"));
}

fn resync_call() -> LinkCall {
    link_call(&context(), &id("link-1")).expect("should go ahead")
}

#[test]
fn resync_link_fails_and_keeps_row_when_github_unreachable() {
    let mut facts = ResyncFacts {
        link: Some(Some(row(Some("seeded"), "open", "issue", "u"))),
        reply: None,
        board: Some(Some("board-1".to_string())),
        stored: None,
    };
    match resync_link(&resync_call(), "http://x/", &facts) {
        ResyncStep::FetchIssue { url } => {
            assert_eq!(url, "http://x/repos/sunbeam/kanban/issues/42");
        }
        step => panic!("{step:?}"),
    }
    for (reply, message) in [
        (ApiReply::Unreachable, "github api request failed"),
        (ApiReply::Failure, "github api returned a non-success status"),
        (ApiReply::Undecodable, "failed to decode github api response"),
    ] {
        facts.reply = Some(reply);
        match resync_link(&resync_call(), "http://x/", &facts) {
            ResyncStep::Refuse(e) => {
                assert_eq!((e.code, e.message.as_str()), (Code::Internal, message));
            }
            step => panic!("{step:?}"),
        }
    }
}

#[test]
fn resync_link_rejects_unknown_link() {
    let mut facts = ResyncFacts { link: None, reply: None, board: None, stored: None };
    assert!(matches!(
        resync_link(&resync_call(), "", &facts),
        ResyncStep::FindLink { .. }
    ));
    facts.link = Some(None);
    match resync_link(&resync_call(), "", &facts) {
        ResyncStep::Refuse(e) => {
            assert_eq!((e.code, e.message.as_str()), (Code::NotFound, "github link not found"));
        }
        step => panic!("{step:?}"),
    }
}

#[test]
fn link_issue_syncs_issue_fields_from_github() {
    let facts = LinkIssueFacts {
        board: Some(Some("board-1".to_string())),
        reply: Some(ApiReply::Body(object(vec![
            ("title", text("Crash on login")),
            ("state", text("closed")),
            ("html_url", text("https://github.com/sunbeam/kanban/issues/42")),
            ("number", Json::Int(42)),
        ]))),
        stored: None,
    };
    match link_issue(&call(42), "http://x", &"link-1".to_string(), &facts) {
        LinkIssueStep::Store(link) => {
            assert_eq!(link.kind, "issue");
            assert_eq!(link.title.as_deref(), Some("Crash on login"));
            assert_eq!(link.state, "closed");
            assert_eq!(link.url, "https://github.com/sunbeam/kanban/issues/42");
            assert_eq!(payload_text(&link.event.payload, "link_id"), "link-1");
        }
        step => panic!("{step:?}"),
    }
}

#[test]
fn link_issue_detects_pull_requests_from_github() {
    let facts = LinkIssueFacts {
        board: Some(Some("board-1".to_string())),
        reply: Some(ApiReply::Body(object(vec![
            ("title", text("Add OAuth login")),
            ("state", text("open")),
            ("html_url", text("https://github.com/sunbeam/kanban/pull/7")),
            ("number", Json::Int(7)),
            (
                "pull_request",
                object(vec![("url", text("https://api.github.com/repos/sunbeam/kanban/pulls/7"))]),
            ),
        ]))),
        stored: None,
    };
    match link_issue(&call(7), "http://x", &"link-1".to_string(), &facts) {
        LinkIssueStep::Store(link) => {
            assert_eq!(link.kind, "pull_request");
            assert_eq!(link.title.as_deref(), Some("Add OAuth login"));
            assert_eq!(link.state, "open");
            assert_eq!(link.url, "https://github.com/sunbeam/kanban/pull/7");
        }
        step => panic!("{step:?}"),
    }
}

#[test]
fn resync_link_updates_row_and_emits_refreshed_event() {
    let mut facts = ResyncFacts {
        link: Some(Some(row(Some("seeded"), "open", "issue", "u"))),
        reply: Some(ApiReply::Body(object(vec![
            ("title", text("Renamed title")),
            ("state", text("closed")),
            ("html_url", text("https://github.com/sunbeam/kanban/pull/42")),
            ("number", Json::Int(42)),
            (
                "pull_request",
                object(vec![("url", text("https://api.github.com/repos/sunbeam/kanban/pulls/42"))]),
            ),
        ]))),
        board: None,
        stored: None,
    };
    assert!(matches!(
        resync_link(&resync_call(), "", &facts),
        ResyncStep::FindBoard { .. }
    ));
    facts.board = Some(None);
    match resync_link(&resync_call(), "", &facts) {
        ResyncStep::Refuse(e) => {
            assert_eq!((e.code, e.message.as_str()), (Code::NotFound, "card not found"));
        }
        step => panic!("{step:?}"),
    }
    facts.board = Some(Some("board-1".to_string()));
    match resync_link(&resync_call(), "", &facts) {
        ResyncStep::Store(new) => {
            assert_eq!(new.link_id, "link-1");
            assert_eq!(new.state, "closed");
            assert_eq!(new.title.as_deref(), Some("Renamed title"));
            assert_eq!(new.kind, "pull_request");
            assert_eq!(new.url, "https://github.com/sunbeam/kanban/pull/42");
            assert_eq!(new.event.event_type, "GitHubLinkRefreshed");
            assert_eq!(payload_text(&new.event.payload, "card_id"), "card-1");
            assert_eq!(payload_text(&new.event.payload, "link_id"), "link-1");
            assert_eq!(payload_text(&new.event.payload, "board_id"), "board-1");
            assert_eq!(payload_text(&new.event.payload, "new_state"), "closed");
        }
        step => panic!("{step:?}"),
    }
    facts.stored = Some(row(Some("Renamed title"), "closed", "pull_request", "p"));
    match resync_link(&resync_call(), "", &facts) {
        ResyncStep::Answer(link) => {
            assert_eq!(link.state, "closed");
            assert_eq!(link.title, "Renamed title");
            assert_eq!(link.kind, "pull_request");
            assert_eq!(link.url, "p");
        }
        step => panic!("{step:?}"),
    }
}

fn search(limit: i32) -> SearchGithubIssuesRequest {
    SearchGithubIssuesRequest {
        repo_owner: "sunbeam".to_string(),
        repo_name: "kanban".to_string(),
        query: "crash".to_string(),
        limit,
    }
}

#[test]
fn search_github_issues_maps_results_and_clamps_limit() {
    for (limit, per_page) in [(100, "50"), (50, "50"), (7, "7"), (0, "20"), (-1, "20")] {
        let call = search_github_issues_call(&context(), &search(limit), "http://x/")
            .expect("should go ahead");
        assert_eq!(call.url, "http://x/search/issues");
        assert_eq!(call.q, "crash repo:sunbeam/kanban");
        assert_eq!(call.per_page, per_page);
    }
    let body = object(vec![
        ("total_count", Json::Int(2)),
        (
            "items",
            Json::List(vec![
                object(vec![
                    ("repository_url", text("https://api.github.com/repos/sunbeam/kanban")),
                    ("number", Json::Int(42)),
                    ("title", text("Crash on login")),
                    ("state", text("open")),
                    ("html_url", text("https://github.com/sunbeam/kanban/issues/42")),
                ]),
                object(vec![
                    ("repository_url", text("https://api.github.com/repos/sunbeam/kanban")),
                    ("number", Json::Int(43)),
                    ("title", text("Fix the crash")),
                    ("state", text("closed")),
                    ("html_url", text("https://github.com/sunbeam/kanban/pull/43")),
                    ("pull_request", object(vec![])),
                ]),
            ]),
        ),
    ]);
    let results = search_github_issues(&ApiReply::Body(body)).expect("hits");
    assert_eq!(results.len(), 2);
    assert_eq!(results[0].repo_owner, "sunbeam");
    assert_eq!(results[0].repo_name, "kanban");
    assert_eq!(results[0].number, 42);
    assert_eq!(results[0].kind, "issue");
    assert_eq!(results[0].title, "Crash on login");
    assert_eq!(results[0].state, "open");
    assert_eq!(results[0].url, "https://github.com/sunbeam/kanban/issues/42");
    assert_eq!(results[1].number, 43);
    assert_eq!(results[1].kind, "pull_request");
    assert_eq!(results[1].url, "https://github.com/sunbeam/kanban/pull/43");
    let none = search_github_issues(&ApiReply::Body(object(vec![]))).expect("no hits");
    assert_eq!(none.len(), 0);
}

#[test]
fn search_github_issues_returns_internal_on_github_error() {
    for (reply, message) in [
        (ApiReply::Unreachable, "github search request failed"),
        (ApiReply::Failure, "github search returned a non-success status"),
        (ApiReply::Undecodable, "failed to decode github search response"),
    ] {
        let e = search_github_issues(&reply).expect_err("should fail");
        assert_eq!((e.code, e.message.as_str()), (Code::Internal, message));
    }
}
