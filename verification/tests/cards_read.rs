use sunbeam_kanban::cards::model::{CardRow, CommentRow};
use sunbeam_kanban::cards::read::{
    batch_get_cards_call, keep_board_cards, list_cards_by_board, list_cards_by_board_call,
    list_comments, list_comments_call, listed_card, CardPage, ListCardsQuery, ListCardsRequest,
};
use sunbeam_kanban::context::{AuthContext, IdArg, RequestContext};
use sunbeam_kanban::page::page_limit;
use sunbeam_kanban::status::Code;
use sunbeam_kanban::text::is_behind;
use sunbeam_kanban::timestamp::Timestamp;

fn s(text: &str) -> String {
    text.to_string()
}

fn id(text: &str) -> IdArg {
    IdArg { text: s(text), id: Some(s(text)) }
}

fn no_id(text: &str) -> IdArg {
    IdArg { text: s(text), id: None }
}

fn context(object: &str) -> RequestContext {
    RequestContext {
        checked_object_id: Some(id(object)),
        auth: Some(AuthContext {
            tenant_id: Some(s("tenant-1")),
            subject: Some(s("user:test")),
            exp: None,
        }),
    }
}

fn row(id: &str, board: &str) -> CardRow {
    CardRow {
        id: s(id),
        project_id: s("project-1"),
        board_id: s(board),
        column_id: s("col-1"),
        reference: s("REF-001"),
        title: s("t"),
        description: None,
        position: 0,
        priority: None,
        urgency: None,
        due_date: None,
        completed_at: None,
        blocked: false,
        cover: None,
        milestone_id: None,
        revision: 0,
        created_at: Timestamp { seconds: 0, nanos: 0 },
        updated_at: Timestamp { seconds: 0, nanos: 0 },
    }
}

fn comment(id: &str) -> CommentRow {
    CommentRow {
        id: s(id),
        card_id: s("card-1"),
        author_sub: s("u"),
        body: s("b"),
        created_at: Timestamp { seconds: 0, nanos: 0 },
        updated_at: Timestamp { seconds: 0, nanos: 0 },
    }
}

#[test]
fn batch_get_cards_filters_by_board() {
    let ids = vec![id("a"), no_id("?"), id("b")];
    let query = batch_get_cards_call(&context("board-1"), &ids).expect("call").expect("query");
    assert_eq!(query.board_id, "board-1");
    assert_eq!(query.card_ids, vec![s("a"), s("b")]);
    let kept = keep_board_cards(
        vec![row("a", "board-1"), row("x", "board-2"), row("b", "board-1")],
        &s("board-1"),
    );
    let kept: Vec<String> = kept.into_iter().map(|r| r.id).collect();
    assert_eq!(kept, vec![s("a"), s("b")]);
    assert!(batch_get_cards_call(&context("board-1"), &vec![]).expect("call").is_none());
    let mut ctx = context("board-1");
    ctx.checked_object_id = Some(no_id("board-1"));
    let e = batch_get_cards_call(&ctx, &vec![]).expect_err("board");
    assert_eq!((e.code, e.message.as_str()), (Code::InvalidArgument, "invalid board_id"));
}

fn listing(column: IdArg, cursor: &str, limit: i32) -> ListCardsQuery {
    let cursor = if cursor.is_empty() { no_id("") } else { id(cursor) };
    let request = ListCardsRequest { column_id: column, cursor, limit };
    list_cards_by_board_call(&context("b"), &request).expect("query")
}

fn ids(page: CardPage) -> Vec<String> {
    page.rows.into_iter().map(|r| r.id).collect()
}

#[test]
fn list_cards_by_board_paginates() {
    let rows = || vec![row("a", "b"), row("b", "b"), row("c", "b")];
    let page = list_cards_by_board(rows(), &listing(no_id(""), "", 2));
    assert_eq!(page.next_cursor, "b");
    assert_eq!(ids(page), vec![s("a"), s("b")]);
    for limit in [3, 200] {
        let page = list_cards_by_board(rows(), &listing(no_id(""), "", limit));
        assert_eq!(page.rows.len(), 3);
        assert_eq!(page.next_cursor, "");
    }
}

/// The cards of the board "b", by column and position: their ids are in no order.
fn board() -> Vec<CardRow> {
    let mut rows = Vec::new();
    for (name, column) in [("k", "c1"), ("c", "c1"), ("z", "c1"), ("a", "c2"), ("m", "c2")] {
        let mut r = row(name, "b");
        r.column_id = s(column);
        rows.push(r);
    }
    rows
}

#[test]
fn pages_show_every_card_once() {
    for (column, expected) in [("", "kczam"), ("c1", "kcz"), ("c2", "am"), ("c3", "")] {
        for limit in 1..7 {
            let column = || if column.is_empty() { no_id("") } else { id(column) };
            let mut seen = String::new();
            let mut cursor = String::new();
            let mut pages = 0;
            loop {
                let page = list_cards_by_board(board(), &listing(column(), &cursor, limit));
                cursor = page.next_cursor.clone();
                pages += 1;
                seen.extend(ids(page));
                if cursor.is_empty() {
                    break;
                }
            }
            assert_eq!(seen, expected, "in pages of {limit}");
            assert!(pages == 1 || pages <= expected.len());
        }
    }
}

#[test]
fn a_page_holds_only_cards_of_the_board() {
    let mut rows = board();
    rows.insert(1, row("x", "other"));
    let page = list_cards_by_board(rows, &listing(no_id(""), "", 3));
    assert_eq!(ids(page), vec![s("k"), s("c"), s("z")]);
}

#[test]
fn a_cursor_that_is_gone_stands_for_its_id() {
    let page = list_cards_by_board(board(), &listing(no_id(""), "l", 5));
    assert_eq!(ids(page), vec![s("z"), s("m")]);
    let page = list_cards_by_board(board(), &listing(no_id(""), "zz", 5));
    assert!(ids(page).is_empty());
    assert!(is_behind("ab", "a") && is_behind("b", "ab"));
    assert!(!is_behind("a", "a") && !is_behind("a", "ab") && !is_behind("", ""));
}

#[test]
fn list_cards_by_board_checks_its_request() {
    let list = |column: IdArg, cursor: IdArg, limit: i32| {
        list_cards_by_board_call(
            &context("board-1"),
            &ListCardsRequest { column_id: column, cursor, limit },
        )
    };
    let q = list(no_id(""), no_id(""), 10).expect("all");
    assert_eq!((q.column_id, q.after, q.limit), (None, None, 10));
    let q = list(id("col"), id("card"), 500).expect("some");
    assert_eq!((q.column_id, q.after, q.limit), (Some(s("col")), Some(s("card")), 200));
    let e = list(no_id("x"), no_id("y"), 0).expect_err("column");
    assert_eq!((e.code, e.message.as_str()), (Code::InvalidArgument, "invalid column_id"));
    let e = list(id("x"), no_id("y"), 0).expect_err("cursor");
    assert_eq!((e.code, e.message.as_str()), (Code::InvalidArgument, "invalid cursor"));
}

#[test]
fn page_sizes_are_clamped() {
    for (limit, size) in [(i32::MIN, 1), (-1, 1), (0, 1), (1, 1), (200, 200), (201, 200)] {
        assert_eq!(page_limit(limit), size);
    }
}

#[test]
fn list_comments_returns_comments() {
    let q = list_comments_call(&context("card-1"), &id("c0"), 2).expect("call");
    assert_eq!((q.card_id.as_str(), &q.after, q.limit), ("card-1", &Some(s("c0")), 2));
    let e = list_comments_call(&context("card-1"), &no_id("x"), 2).expect_err("cursor");
    assert_eq!((e.code, e.message.as_str()), (Code::InvalidArgument, "invalid cursor"));
    assert!(listed_card(true).is_ok());
    let e = listed_card(false).expect_err("card");
    assert_eq!((e.code, e.message.as_str()), (Code::NotFound, "card not found"));
    let query = |cursor: IdArg| list_comments_call(&context("card-1"), &cursor, 2).expect("call");
    let rows = || vec![comment("b"), comment("a"), comment("c")];
    let page = list_comments(rows(), &query(no_id("")));
    assert_eq!(page.comments.len(), 2);
    assert_eq!(page.comments[1].id, "a");
    assert_eq!(page.next_cursor, "a");
    let page = list_comments(rows(), &query(id("a")));
    assert_eq!(page.comments.len(), 1);
    assert_eq!(page.comments[0].id, "c");
    assert_eq!(page.next_cursor, "");
    let mut other = comment("d");
    other.card_id = s("card-2");
    assert!(list_comments(vec![other], &query(no_id(""))).comments.is_empty());
}
