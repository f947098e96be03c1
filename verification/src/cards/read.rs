//! Reading cards and comments.
use crate::cards::bulk_labels::{board_cards_fault, shows_cards};
use crate::cards::model::{card_from_row, comment_from_row, shows_comment};
use crate::cards::model::{Card, CardRow, Comment, CommentRow, LoadedCard};
use crate::context::{checked_id, id_fault, object_fault, optional_id, parse_ids, parsed_ids};
use crate::context::{require_id, tenant_fault, tenant_id_from_request, Id, IdArg, RequestContext};
use crate::page::{behind, cursor_text, distinct, first_at, law_page_begins_behind_the_cursor};
use crate::page::law_walk_shows_every_row_once;
use crate::page::{lemma_filter_keeps_distinct, lemma_filter_selects, next_key, page_behind, page_limit, page_rows};
use crate::page::{page_size, walked, Listed};
use crate::status::{fault, first_of3, first_of4, Code, Status, StatusView};
use crate::text::{opt_view, sorts_behind};
use vstd::prelude::*;

verus! {

/// Cards of a board to be read.
#[derive(Debug)]
pub struct BatchQuery {
    pub board_id: Id,
    pub tenant_id: String,
    /// The cards asked for; what is not an identifier has been left out.
    pub card_ids: Vec<Id>,
}

/// Checks a request for several cards of the board that the call was authorized
/// for. Nothing needs to be read where none are asked for.
pub fn batch_get_cards_call(ctx: &RequestContext, card_ids: &Vec<IdArg>) -> (r: Result<
    Option<BatchQuery>,
    Status,
>)
    ensures
        match r {
            Ok(None) => board_cards_fault(*ctx) is None && card_ids.len() == 0,
            Ok(Some(query)) => {
                &&& board_cards_fault(*ctx) is None
                &&& card_ids.len() > 0
                &&& ctx.object() == Some(query.board_id)
                &&& ctx.tenant() == Some(query.tenant_id)
                &&& query.card_ids@ == parsed_ids(card_ids@)
            },
            Err(e) => board_cards_fault(*ctx) == Some(e@),
        },
{
    let board_id = checked_id(ctx, "invalid board_id")?;
    let tenant_id = tenant_id_from_request(ctx)?;
    if card_ids.len() == 0 {
        return Ok(None);
    }
    Ok(Some(BatchQuery { board_id, tenant_id, card_ids: parse_ids(card_ids) }))
}

/// The cards among `rows` that are on the board.
pub open spec fn of_board(rows: Seq<CardRow>, board_id: Seq<char>) -> Seq<CardRow> {
    rows.filter(|row: CardRow| row.board_id@ == board_id)
}

/// Keeps the cards that are on the board, in their order, so that a request
/// authorized for one board reads no card of another.
pub fn keep_board_cards(rows: Vec<CardRow>, board_id: &Id) -> (r: Vec<CardRow>)
    ensures
        r@ == of_board(rows@, board_id@),
{
    let ghost all = rows@;
    let ghost keep = |row: CardRow| row.board_id@ == board_id@;
    let mut r: Vec<CardRow> = Vec::new();
    assert(all.take(0).filter(keep) =~= r@) by {
        reveal(Seq::filter);
    }
    for row in it: rows
        invariant
            it.seq() == all,
            keep == (|row: CardRow| row.board_id@ == board_id@),
            r@ == all.take(it.index()).filter(keep),
    {
        proof {
            assert(all.take(it.index() + 1).drop_last() =~= all.take(it.index()));
            reveal(Seq::filter);
        }
        if row.board_id == *board_id {
            r.push(row);
        }
    }
    assert(all.take(all.len() as int) =~= all);
    r
}

/// The cards as they are answered.
pub fn cards_from_rows(loaded: &Vec<LoadedCard>) -> (r: Vec<Card>)
    ensures
        shows_cards(r@, loaded@),
{
    let mut r: Vec<Card> = Vec::new();
    let mut i: usize = 0;
    while i < loaded.len()
        invariant
            i <= loaded.len(),
            shows_cards(r@, loaded@.take(i as int)),
        decreases loaded.len() - i,
    {
        r.push(card_from_row(&loaded[i]));
        i += 1;
    }
    assert(loaded@.take(loaded@.len() as int) =~= loaded@);
    r
}

/// A request for a page of a board's cards.
#[derive(Debug)]
pub struct ListCardsRequest {
    /// Only the cards of this column, where one is named.
    pub column_id: IdArg,
    /// Only the cards behind this one, where one is named.
    pub cursor: IdArg,
    pub limit: i32,
}

/// A page of a board's cards to be read, by column and position.
#[derive(Debug)]
pub struct ListCardsQuery {
    pub board_id: Id,
    pub tenant_id: String,
    pub column_id: Option<Id>,
    /// The last card of the page before, where there is one.
    pub after: Option<Id>,
    /// How many fit on the page.
    pub limit: i32,
}

/// Why an identifier that may be left out is not one.
pub open spec fn optional_id_fault(arg: IdArg, message: &str) -> Option<StatusView> {
    if arg.text@.len() == 0 {
        None
    } else {
        id_fault(arg, message)
    }
}

fn require_if_named(arg: &IdArg, message: &str) -> (r: Result<Option<Id>, Status>)
    ensures
        match r {
            Ok(id) => optional_id_fault(*arg, message) is None && id == optional_id(*arg),
            Err(e) => optional_id_fault(*arg, message) == Some(e@),
        },
{
    if arg.text.as_str().is_empty() {
        Ok(None)
    } else {
        let id = require_id(arg, message)?;
        Ok(Some(id))
    }
}

/// Why a request for a page of cards is refused before anything is looked up.
pub open spec fn list_cards_fault(ctx: RequestContext, req: ListCardsRequest) -> Option<
    StatusView,
> {
    first_of4(
        object_fault(ctx, "invalid board_id"),
        tenant_fault(ctx),
        optional_id_fault(req.column_id, "invalid column_id"),
        optional_id_fault(req.cursor, "invalid cursor"),
    )
}

/// Checks a request for a page of the cards of the board that the call was
/// authorized for.
pub fn list_cards_by_board_call(ctx: &RequestContext, req: &ListCardsRequest) -> (r: Result<
    ListCardsQuery,
    Status,
>)
    ensures
        match r {
            Ok(q) => {
                &&& list_cards_fault(*ctx, *req) is None
                &&& ctx.object() == Some(q.board_id)
                &&& ctx.tenant() == Some(q.tenant_id)
                &&& q.column_id == optional_id(req.column_id)
                &&& q.after == optional_id(req.cursor)
                &&& q.limit == page_size(req.limit as int)
            },
            Err(e) => list_cards_fault(*ctx, *req) == Some(e@),
        },
{
    let board_id = checked_id(ctx, "invalid board_id")?;
    let tenant_id = tenant_id_from_request(ctx)?;
    let limit: i32 = page_limit(req.limit);
    let column_id = require_if_named(&req.column_id, "invalid column_id")?;
    let after = require_if_named(&req.cursor, "invalid cursor")?;
    Ok(ListCardsQuery { board_id, tenant_id, column_id, after, limit })
}

/// A page of cards, before what hangs on them is read.
#[derive(Debug)]
pub struct CardPage {
    pub rows: Vec<CardRow>,
    /// Where the next page starts; empty where this is the last.
    pub next_cursor: String,
}

impl Listed for CardRow {
    open spec fn key(&self) -> Seq<char> {
        self.id@
    }

    fn id(&self) -> (r: &Id) {
        &self.id
    }
}

/// The card is one that the query asks for: on its board, and in its column
/// where it names one.
pub open spec fn is_asked_for(row: CardRow, q: ListCardsQuery) -> bool {
    &&& row.board_id@ == q.board_id@
    &&& q.column_id matches Some(column_id) ==> row.column_id@ == column_id@
}

/// The cards among `rows` that the query lists, in their order.
pub open spec fn card_listing(rows: Seq<CardRow>, q: ListCardsQuery) -> Seq<CardRow> {
    rows.filter(|row: CardRow| is_asked_for(row, q))
}

/// `page` holds the cards of the listing behind the cursor, and the cursor of the
/// page after it.
pub open spec fn is_card_page(page: CardPage, rows: Seq<CardRow>, q: ListCardsQuery) -> bool {
    let listing = card_listing(rows, q);
    &&& page.rows@ == page_rows(listing, opt_view(q.after), q.limit as int)
    &&& page.next_cursor@ == cursor_text(next_key(listing, opt_view(q.after), q.limit as int))
}

/// The page of the cards in `rows` that the query asks for. The rows come by
/// column and position; where there are more than fit on the page, its last card
/// is where the next page starts.
pub fn list_cards_by_board(rows: Vec<CardRow>, q: &ListCardsQuery) -> (page: CardPage)
    requires
        q.limit >= 1,
    ensures
        is_card_page(page, rows@, *q),
{
    let ghost all = rows@;
    let ghost keep = |row: CardRow| is_asked_for(row, *q);
    let mut listing: Vec<CardRow> = Vec::new();
    assert(all.take(0).filter(keep) =~= listing@) by {
        reveal(Seq::filter);
    }
    for row in it: rows
        invariant
            it.seq() == all,
            keep == (|row: CardRow| is_asked_for(row, *q)),
            listing@ == all.take(it.index()).filter(keep),
    {
        proof {
            assert(all.take(it.index() + 1).drop_last() =~= all.take(it.index()));
            reveal(Seq::filter);
        }
        let in_column = match &q.column_id {
            Some(column_id) => row.column_id == *column_id,
            None => true,
        };
        if row.board_id == q.board_id && in_column {
            listing.push(row);
        }
    }
    assert(all.take(all.len() as int) =~= all);
    let (rows, next_cursor) = page_behind(listing, &q.after, q.limit);
    CardPage { rows, next_cursor }
}

/// The pages' cards, one page after the other.
pub open spec fn joined_cards(pages: Seq<CardPage>) -> Seq<CardRow>
    decreases pages.len(),
{
    if pages.len() == 0 {
        Seq::empty()
    } else {
        joined_cards(pages.drop_last()) + pages.last().rows@
    }
}

/// The cursors that the queries carry.
pub open spec fn card_cursors(queries: Seq<ListCardsQuery>) -> Seq<Option<Seq<char>>> {
    queries.map_values(|q: ListCardsQuery| opt_view(q.after))
}

/// The queries ask for the same listing in pages of the same size.
pub open spec fn same_card_listing(queries: Seq<ListCardsQuery>) -> bool {
    forall|i: int|
        0 <= i < queries.len() ==> (#[trigger] queries[i]).board_id == queries[0].board_id
            && queries[i].column_id == queries[0].column_id && queries[i].limit
            == queries[0].limit
}

proof fn lemma_joined_cards(
    queries: Seq<ListCardsQuery>,
    pages: Seq<CardPage>,
    listing: Seq<CardRow>,
    size: int,
)
    requires
        queries.len() == pages.len(),
        forall|i: int|
            0 <= i < pages.len() ==> (#[trigger] pages[i]).rows@ == page_rows(
                listing,
                opt_view(queries[i].after),
                size,
            ),
    ensures
        joined_cards(pages) == walked(listing, size, card_cursors(queries)),
    decreases pages.len(),
{
    if pages.len() > 0 {
        lemma_joined_cards(queries.drop_last(), pages.drop_last(), listing, size);
        assert(card_cursors(queries).drop_last() =~= card_cursors(queries.drop_last()));
    }
}

/// Whoever follows the cursors from the first page of a board's cards to the
/// last, while no card changes, is shown every card of the board, or of the
/// column asked for, exactly once.
pub proof fn law_pages_show_every_card_once(
    rows: Seq<CardRow>,
    queries: Seq<ListCardsQuery>,
    pages: Seq<CardPage>,
)
    requires
        distinct(rows),
        forall|i: int| 0 <= i < rows.len() ==> (#[trigger] rows[i]).id@.len() > 0,
        queries.len() == pages.len(),
        pages.len() >= 1,
        same_card_listing(queries),
        queries[0].limit >= 1,
        forall|i: int|
            0 <= i < pages.len() ==> is_card_page(#[trigger] pages[i], rows, queries[i]),
        queries[0].after is None,
        forall|i: int|
            1 <= i < pages.len() ==> opt_view((#[trigger] queries[i]).after) == Some(
                pages[i - 1].next_cursor@,
            ) && pages[i - 1].next_cursor@.len() > 0,
        pages.last().next_cursor@.len() == 0,
    ensures
        joined_cards(pages) == card_listing(rows, queries[0]),
        distinct(joined_cards(pages)),
{
    let q = queries[0];
    let listing = card_listing(rows, q);
    let size = q.limit as int;
    let cursors = card_cursors(queries);
    let keep = |row: CardRow| is_asked_for(row, q);
    lemma_filter_keeps_distinct(rows, keep);
    assert forall|i: int| 0 <= i < pages.len() implies {
        &&& (#[trigger] pages[i]).rows@ == page_rows(listing, opt_view(queries[i].after), size)
        &&& pages[i].next_cursor@ == cursor_text(next_key(listing, cursors[i], size))
    } by {
        let qi = queries[i];
        assert(is_card_page(pages[i], rows, qi));
        assert((|row: CardRow| is_asked_for(row, qi)) =~= keep);
    }
    assert forall|i: int| 1 <= i < cursors.len() implies (#[trigger] cursors[i]) is Some
        && cursors[i] == next_key(listing, cursors[i - 1], size) by {
        let before = pages[i - 1];
        assert(opt_view(queries[i].after) == Some(before.next_cursor@));
    }
    let last = pages.len() - 1;
    if next_key(listing, cursors[last], size) is Some {
        lemma_next_row_is_listed(listing, cursors[last], size);
        let k = choose|k: int|
            0 <= k < listing.len() && Some((#[trigger] listing[k]).key()) == next_key(
                listing,
                cursors[last],
                size,
            );
        assert(listing.contains(listing[k]));
        rows.lemma_filter_contains_rev(keep, listing[k]);
        assert(listing[k].id@.len() > 0);
        assert(pages[last].next_cursor@ == listing[k].id@);
    }
    law_walk_shows_every_row_once(listing, size, cursors);
    lemma_joined_cards(queries, pages, listing, size);
}

proof fn lemma_next_row_is_listed<T: Listed>(
    rows: Seq<T>,
    cursor: Option<Seq<char>>,
    size: int,
)
    requires
        size >= 1,
        next_key(rows, cursor, size) is Some,
    ensures
        exists|k: int|
            0 <= k < rows.len() && Some((#[trigger] rows[k]).key()) == next_key(rows, cursor, size),
{
    let left = behind(rows, cursor);
    let row = left[size - 1];
    match cursor {
        None => {
            assert(rows[size - 1] == row);
        },
        Some(key) => {
            if exists|k: int| first_at(rows, key, k) {
                let c = choose|k: int| first_at(rows, key, k);
                assert(rows[c + size] == row);
            } else {
                let keep = |r: T| sorts_behind(r.key(), key);
                assert(left.contains(row));
                rows.lemma_filter_contains_rev(keep, row);
                let k = choose|k: int| 0 <= k < rows.len() && rows[k] == row;
                assert(Some(rows[k].key()) == next_key(rows, cursor, size));
            }
        },
    }
}

/// A page of a card's comments to be read, oldest first.
#[derive(Debug)]
pub struct ListCommentsQuery {
    pub card_id: Id,
    pub tenant_id: String,
    /// The last comment of the page before, where there is one.
    pub after: Option<Id>,
    /// How many fit on the page.
    pub limit: i32,
}

/// Why a request for a page of comments is refused before anything is looked
/// up.
pub open spec fn list_comments_fault(ctx: RequestContext, cursor: IdArg) -> Option<StatusView> {
    first_of3(
        object_fault(ctx, "invalid card_id"),
        tenant_fault(ctx),
        optional_id_fault(cursor, "invalid cursor"),
    )
}

/// Checks a request for a page of the comments of the card that the call was
/// authorized for.
pub fn list_comments_call(ctx: &RequestContext, cursor: &IdArg, limit: i32) -> (r: Result<
    ListCommentsQuery,
    Status,
>)
    ensures
        match r {
            Ok(q) => {
                &&& list_comments_fault(*ctx, *cursor) is None
                &&& ctx.object() == Some(q.card_id)
                &&& ctx.tenant() == Some(q.tenant_id)
                &&& q.after == optional_id(*cursor)
                &&& q.limit == page_size(limit as int)
            },
            Err(e) => list_comments_fault(*ctx, *cursor) == Some(e@),
        },
{
    let card_id = checked_id(ctx, "invalid card_id")?;
    let tenant_id = tenant_id_from_request(ctx)?;
    let limit: i32 = page_limit(limit);
    let after = require_if_named(cursor, "invalid cursor")?;
    Ok(ListCommentsQuery { card_id, tenant_id, after, limit })
}

/// A card's comments are listed only where the card exists.
pub fn listed_card(exists: bool) -> (r: Result<(), Status>)
    ensures
        match r {
            Ok(_) => exists,
            Err(e) => !exists && e@ == fault(Code::NotFound, "card not found"),
        },
{
    if exists {
        Ok(())
    } else {
        Err(Status::not_found("card not found"))
    }
}

/// A page of comments as it is answered.
#[derive(Debug)]
pub struct CommentPage {
    pub comments: Vec<Comment>,
    /// Where the next page starts; empty where this is the last.
    pub next_cursor: String,
}

impl Listed for CommentRow {
    open spec fn key(&self) -> Seq<char> {
        self.id@
    }

    fn id(&self) -> (r: &Id) {
        &self.id
    }
}

/// The comments among `rows` on the card, in their order.
pub open spec fn comment_listing(rows: Seq<CommentRow>, card_id: Id) -> Seq<CommentRow> {
    rows.filter(|row: CommentRow| row.card_id@ == card_id@)
}

/// `comments` shows these stored comments, one for one.
pub open spec fn shows_comments(comments: Seq<Comment>, rows: Seq<CommentRow>) -> bool {
    &&& comments.len() == rows.len()
    &&& forall|i: int|
        0 <= i < comments.len() ==> shows_comment(#[trigger] comments[i], rows[i])
}

/// `page` shows the comments of the listing behind the cursor, and has the cursor
/// of the page after it.
pub open spec fn is_comment_page(
    page: CommentPage,
    rows: Seq<CommentRow>,
    q: ListCommentsQuery,
) -> bool {
    let listing = comment_listing(rows, q.card_id);
    &&& shows_comments(
        page.comments@,
        page_rows(listing, opt_view(q.after), q.limit as int),
    )
    &&& page.next_cursor@ == cursor_text(next_key(listing, opt_view(q.after), q.limit as int))
}

/// The page of the comments in `rows` that the query asks for. The rows come
/// oldest first; where there are more than fit on the page, its last comment is
/// where the next page starts.
pub fn list_comments(rows: Vec<CommentRow>, q: &ListCommentsQuery) -> (page: CommentPage)
    requires
        q.limit >= 1,
    ensures
        is_comment_page(page, rows@, *q),
{
    let ghost all = rows@;
    let ghost keep = |row: CommentRow| row.card_id@ == q.card_id@;
    let mut listing: Vec<CommentRow> = Vec::new();
    assert(all.take(0).filter(keep) =~= listing@) by {
        reveal(Seq::filter);
    }
    for row in it: rows
        invariant
            it.seq() == all,
            keep == (|row: CommentRow| row.card_id@ == q.card_id@),
            listing@ == all.take(it.index()).filter(keep),
    {
        proof {
            assert(all.take(it.index() + 1).drop_last() =~= all.take(it.index()));
            reveal(Seq::filter);
        }
        if row.card_id == q.card_id {
            listing.push(row);
        }
    }
    assert(all.take(all.len() as int) =~= all);
    let (rows, next_cursor) = page_behind(listing, &q.after, q.limit);
    let mut comments: Vec<Comment> = Vec::new();
    let mut i: usize = 0;
    while i < rows.len()
        invariant
            i <= rows.len(),
            comments.len() == i,
            forall|j: int| 0 <= j < i ==> shows_comment(#[trigger] comments[j], rows[j]),
        decreases rows.len() - i,
    {
        comments.push(comment_from_row(&rows[i]));
        i += 1;
    }
    CommentPage { comments, next_cursor }
}

/// The pages' comments, one page after the other.
pub open spec fn joined_comments(pages: Seq<CommentPage>) -> Seq<Comment>
    decreases pages.len(),
{
    if pages.len() == 0 {
        Seq::empty()
    } else {
        joined_comments(pages.drop_last()) + pages.last().comments@
    }
}

/// The cursors that the queries carry.
pub open spec fn comment_cursors(queries: Seq<ListCommentsQuery>) -> Seq<Option<Seq<char>>> {
    queries.map_values(|q: ListCommentsQuery| opt_view(q.after))
}

/// The queries ask for the comments of the same card in pages of the same size.
pub open spec fn same_comment_listing(queries: Seq<ListCommentsQuery>) -> bool {
    forall|i: int|
        0 <= i < queries.len() ==> (#[trigger] queries[i]).card_id == queries[0].card_id
            && queries[i].limit == queries[0].limit
}

proof fn lemma_joined_comments(
    queries: Seq<ListCommentsQuery>,
    pages: Seq<CommentPage>,
    listing: Seq<CommentRow>,
    size: int,
)
    requires
        queries.len() == pages.len(),
        forall|i: int|
            0 <= i < pages.len() ==> shows_comments(
                (#[trigger] pages[i]).comments@,
                page_rows(listing, opt_view(queries[i].after), size),
            ),
    ensures
        shows_comments(
            joined_comments(pages),
            walked(listing, size, comment_cursors(queries)),
        ),
    decreases pages.len(),
{
    if pages.len() > 0 {
        let front = pages.drop_last();
        assert forall|i: int| 0 <= i < front.len() implies shows_comments(
            (#[trigger] front[i]).comments@,
            page_rows(listing, opt_view(queries.drop_last()[i].after), size),
        ) by {
            assert(pages[i] == front[i]);
        }
        lemma_joined_comments(queries.drop_last(), front, listing, size);
        assert(comment_cursors(queries).drop_last() =~= comment_cursors(queries.drop_last()));
        let last = pages.len() - 1;
        assert(shows_comments(
            pages[last].comments@,
            page_rows(listing, opt_view(queries[last].after), size),
        ));
        let done = joined_comments(front);
        let shown = walked(listing, size, comment_cursors(queries.drop_last()));
        assert forall|i: int| 0 <= i < joined_comments(pages).len() implies shows_comment(
            #[trigger] joined_comments(pages)[i],
            walked(listing, size, comment_cursors(queries))[i],
        ) by {
            if i < done.len() {
                assert(shows_comment(done[i], shown[i]));
            } else {
                assert(shows_comment(
                    pages[last].comments@[i - done.len()],
                    page_rows(listing, opt_view(queries[last].after), size)[i - done.len()],
                ));
            }
        }
    }
}

/// Whoever follows the cursors from the first page of a card's comments to the
/// last, while no comment changes, is shown every comment of the card exactly
/// once.
pub proof fn law_pages_show_every_comment_once(
    rows: Seq<CommentRow>,
    queries: Seq<ListCommentsQuery>,
    pages: Seq<CommentPage>,
)
    requires
        distinct(rows),
        forall|i: int| 0 <= i < rows.len() ==> (#[trigger] rows[i]).id@.len() > 0,
        queries.len() == pages.len(),
        pages.len() >= 1,
        same_comment_listing(queries),
        queries[0].limit >= 1,
        forall|i: int|
            0 <= i < pages.len() ==> is_comment_page(#[trigger] pages[i], rows, queries[i]),
        queries[0].after is None,
        forall|i: int|
            1 <= i < pages.len() ==> opt_view((#[trigger] queries[i]).after) == Some(
                pages[i - 1].next_cursor@,
            ) && pages[i - 1].next_cursor@.len() > 0,
        pages.last().next_cursor@.len() == 0,
    ensures
        shows_comments(joined_comments(pages), comment_listing(rows, queries[0].card_id)),
        distinct(comment_listing(rows, queries[0].card_id)),
{
    let q = queries[0];
    let listing = comment_listing(rows, q.card_id);
    let size = q.limit as int;
    let cursors = comment_cursors(queries);
    let keep = |row: CommentRow| row.card_id@ == q.card_id@;
    lemma_filter_keeps_distinct(rows, keep);
    assert forall|i: int| 0 <= i < pages.len() implies {
        &&& shows_comments(
            (#[trigger] pages[i]).comments@,
            page_rows(listing, opt_view(queries[i].after), size),
        )
        &&& pages[i].next_cursor@ == cursor_text(next_key(listing, cursors[i], size))
    } by {
        assert(is_comment_page(pages[i], rows, queries[i]));
        assert(queries[i].card_id == q.card_id);
    }
    assert forall|i: int| 1 <= i < cursors.len() implies (#[trigger] cursors[i]) is Some
        && cursors[i] == next_key(listing, cursors[i - 1], size) by {
        let before = pages[i - 1];
        assert(opt_view(queries[i].after) == Some(before.next_cursor@));
    }
    let last = pages.len() - 1;
    if next_key(listing, cursors[last], size) is Some {
        lemma_next_row_is_listed(listing, cursors[last], size);
        let k = choose|k: int|
            0 <= k < listing.len() && Some((#[trigger] listing[k]).key()) == next_key(
                listing,
                cursors[last],
                size,
            );
        assert(listing.contains(listing[k]));
        rows.lemma_filter_contains_rev(keep, listing[k]);
        assert(listing[k].id@.len() > 0);
        assert(pages[last].next_cursor@ == listing[k].id@);
    }
    law_walk_shows_every_row_once(listing, size, cursors);
    lemma_joined_comments(queries, pages, listing, size);
}

/// The cards of a board, where it is asked for some of many, are those of that
/// board, all of them, each once and in their order.
pub proof fn law_board_cards_are_kept(rows: Seq<CardRow>, board_id: Id)
    ensures
        exists|at: Seq<int>|
            {
                &&& #[trigger] at.len() == of_board(rows, board_id@).len()
                &&& forall|i: int, j: int|
                    0 <= i < j < at.len() ==> #[trigger] at[i] < #[trigger] at[j]
                &&& forall|k: int| #[trigger]
                    at.contains(k) <==> 0 <= k < rows.len() && rows[k].board_id@ == board_id@
                &&& forall|i: int|
                    0 <= i < at.len() ==> of_board(rows, board_id@)[i] == rows[#[trigger] at[i]]
            },
{
    let at = lemma_filter_selects(rows, |row: CardRow| row.board_id@ == board_id@);
    assert(at.len() == of_board(rows, board_id@).len());
}

/// The cards that a listing goes through are those of the board and, where the
/// request names a column, of that column, all of them, each once and in their
/// order.
pub proof fn law_listing_goes_through_the_cards_asked_for(rows: Seq<CardRow>, q: ListCardsQuery)
    ensures
        exists|at: Seq<int>|
            {
                &&& #[trigger] at.len() == card_listing(rows, q).len()
                &&& forall|i: int, j: int|
                    0 <= i < j < at.len() ==> #[trigger] at[i] < #[trigger] at[j]
                &&& forall|k: int| #[trigger]
                    at.contains(k) <==> {
                        &&& 0 <= k < rows.len()
                        &&& rows[k].board_id@ == q.board_id@
                        &&& q.column_id is Some ==> rows[k].column_id@ == q.column_id->Some_0@
                    }
                &&& forall|i: int|
                    0 <= i < at.len() ==> card_listing(rows, q)[i] == rows[#[trigger] at[i]]
            },
{
    let at = lemma_filter_selects(rows, |row: CardRow| is_asked_for(row, q));
    assert(at.len() == card_listing(rows, q).len());
}

/// A page of cards holds the rows of the listing right behind the cursor, as
/// many as fit, and names the last of them where more follow.
pub proof fn law_card_page_follows_the_cursor(
    page: CardPage,
    rows: Seq<CardRow>,
    q: ListCardsQuery,
    c: int,
)
    requires
        is_card_page(page, rows, q),
        q.limit >= 1,
        -1 <= c < card_listing(rows, q).len(),
        c == -1 ==> q.after is None,
        c >= 0 ==> (q.after matches Some(after) && after@ == card_listing(rows, q)[c].id@),
        forall|j: int|
            0 <= j < c ==> (#[trigger] card_listing(rows, q)[j]).id@ != card_listing(
                rows,
                q,
            )[c].id@,
    ensures
        ({
            let listing = card_listing(rows, q);
            let left = listing.len() - c - 1;
            &&& page.rows.len() == if left > q.limit {
                q.limit as int
            } else {
                left
            }
            &&& forall|i: int|
                0 <= i < page.rows.len() ==> #[trigger] page.rows[i] == listing[c + 1 + i]
            &&& left > q.limit ==> page.next_cursor@ == listing[c + q.limit].id@
            &&& left <= q.limit ==> page.next_cursor@.len() == 0
        }),
{
    let listing = card_listing(rows, q);
    if c >= 0 {
        assert forall|j: int| 0 <= j < c implies (#[trigger] listing[j]).key()
            != listing[c].key() by {
            assert(card_listing(rows, q)[j].id@ != listing[c].id@);
        }
        law_page_begins_behind_the_cursor(listing, c, q.limit as int);
    }
    assert forall|i: int| 0 <= i < page.rows.len() implies #[trigger] page.rows[i] == listing[c
        + 1 + i] by {
        assert(page.rows@[i] == page_rows(listing, opt_view(q.after), q.limit as int)[i]);
    }
}

/// The comments that a listing goes through are those on the card, all of them,
/// each once and in their order.
pub proof fn law_listing_goes_through_the_cards_comments(rows: Seq<CommentRow>, card_id: Id)
    ensures
        exists|at: Seq<int>|
            {
                &&& #[trigger] at.len() == comment_listing(rows, card_id).len()
                &&& forall|i: int, j: int|
                    0 <= i < j < at.len() ==> #[trigger] at[i] < #[trigger] at[j]
                &&& forall|k: int| #[trigger]
                    at.contains(k) <==> 0 <= k < rows.len() && rows[k].card_id@ == card_id@
                &&& forall|i: int|
                    0 <= i < at.len() ==> comment_listing(rows, card_id)[i]
                        == rows[#[trigger] at[i]]
            },
{
    let at = lemma_filter_selects(rows, |row: CommentRow| row.card_id@ == card_id@);
    assert(at.len() == comment_listing(rows, card_id).len());
}

/// A page of comments shows the comments of the listing right behind the cursor,
/// as many as fit, each as it is stored, and names the last of them where more
/// follow.
pub proof fn law_comment_page_follows_the_cursor(
    page: CommentPage,
    rows: Seq<CommentRow>,
    q: ListCommentsQuery,
    c: int,
)
    requires
        is_comment_page(page, rows, q),
        q.limit >= 1,
        -1 <= c < comment_listing(rows, q.card_id).len(),
        c == -1 ==> q.after is None,
        c >= 0 ==> (q.after matches Some(after) && after@ == comment_listing(
            rows,
            q.card_id,
        )[c].id@),
        forall|j: int|
            0 <= j < c ==> (#[trigger] comment_listing(rows, q.card_id)[j]).id@ != comment_listing(
                rows,
                q.card_id,
            )[c].id@,
    ensures
        ({
            let listing = comment_listing(rows, q.card_id);
            let left = listing.len() - c - 1;
            &&& page.comments.len() == if left > q.limit {
                q.limit as int
            } else {
                left
            }
            &&& forall|i: int|
                0 <= i < page.comments.len() ==> {
                    &&& (#[trigger] page.comments[i]).id == listing[c + 1 + i].id
                    &&& page.comments[i].body == listing[c + 1 + i].body
                    &&& page.comments[i].author_sub == listing[c + 1 + i].author_sub
                }
            &&& left > q.limit ==> page.next_cursor@ == listing[c + q.limit].id@
            &&& left <= q.limit ==> page.next_cursor@.len() == 0
        }),
{
    let listing = comment_listing(rows, q.card_id);
    if c >= 0 {
        assert forall|j: int| 0 <= j < c implies (#[trigger] listing[j]).key()
            != listing[c].key() by {
            assert(comment_listing(rows, q.card_id)[j].id@ != listing[c].id@);
        }
        law_page_begins_behind_the_cursor(listing, c, q.limit as int);
    }
    assert forall|i: int| 0 <= i < page.comments.len() implies {
        &&& (#[trigger] page.comments[i]).id == listing[c + 1 + i].id
        &&& page.comments[i].body == listing[c + 1 + i].body
        &&& page.comments[i].author_sub == listing[c + 1 + i].author_sub
    } by {
        assert(shows_comment(
            page.comments@[i],
            page_rows(listing, opt_view(q.after), q.limit as int)[i],
        ));
    }
}

/// A filter or a cursor that is not named is no reason to refuse; one that is
/// named must be an identifier.
pub proof fn law_named_filter_must_be_an_identifier(arg: IdArg, message: &str)
    ensures
        arg.text@.len() == 0 || arg.id is Some ==> optional_id_fault(arg, message) is None,
        arg.text@.len() > 0 && arg.id is None ==> optional_id_fault(arg, message) == Some(
            StatusView { code: Code::InvalidArgument, message: message@ },
        ),
{
}

/// A request to list cards needs the board that the call was authorized for and
/// a tenant, and identifiers for the column and the cursor where it names them.
/// It is refused for the first that is missing.
pub proof fn law_card_listing_is_refused_in_order(ctx: RequestContext, req: ListCardsRequest)
    ensures
        list_cards_fault(ctx, req) == if ctx.checked_object_id is None {
            Some(StatusView { code: Code::Internal, message: "missing CheckedObjectId extension"@ })
        } else if ctx.object() is None {
            Some(StatusView { code: Code::InvalidArgument, message: "invalid board_id"@ })
        } else if ctx.tenant() is None {
            Some(StatusView { code: Code::Unauthenticated, message: "missing tenant context"@ })
        } else if req.column_id.text@.len() > 0 && req.column_id.id is None {
            Some(StatusView { code: Code::InvalidArgument, message: "invalid column_id"@ })
        } else if req.cursor.text@.len() > 0 && req.cursor.id is None {
            Some(StatusView { code: Code::InvalidArgument, message: "invalid cursor"@ })
        } else {
            None
        },
{
}

/// A request to list comments needs the card that the call was authorized for
/// and a tenant, and an identifier for the cursor where it names one. It is
/// refused for the first that is missing.
pub proof fn law_comment_listing_is_refused_in_order(ctx: RequestContext, cursor: IdArg)
    ensures
        list_comments_fault(ctx, cursor) == if ctx.checked_object_id is None {
            Some(StatusView { code: Code::Internal, message: "missing CheckedObjectId extension"@ })
        } else if ctx.object() is None {
            Some(StatusView { code: Code::InvalidArgument, message: "invalid card_id"@ })
        } else if ctx.tenant() is None {
            Some(StatusView { code: Code::Unauthenticated, message: "missing tenant context"@ })
        } else if cursor.text@.len() > 0 && cursor.id is None {
            Some(StatusView { code: Code::InvalidArgument, message: "invalid cursor"@ })
        } else {
            None
        },
{
}

} // verus!
