//! Boards and columns as they are stored and as they are answered.
use crate::context::Id;
use crate::text::{chars_of, opt_view, or_empty, or_text, text_of};
use crate::timestamp::Timestamp;
use vstd::prelude::*;

verus! {

/// The kind of object that permissions on boards are held on.
pub const PERMISSION_TYPE_BOARD: &'static str = "KanbanBoard";

/// The most boards that are looked through for those that a caller may view.
pub const MAX_VIEWABLE: usize = 10000;

/// A stored board.
#[derive(Debug)]
pub struct BoardRow {
    pub id: Id,
    pub project_id: Id,
    pub name: String,
    pub description: Option<String>,
    pub icon: Option<String>,
    pub visibility: String,
    pub created_at: Timestamp,
    pub updated_at: Timestamp,
}

/// A board as it is answered.
#[derive(Debug)]
pub struct Board {
    pub id: Id,
    pub project_id: Id,
    pub name: String,
    pub description: String,
    pub icon: String,
    pub visibility: String,
    pub created_at: Timestamp,
    pub updated_at: Timestamp,
    pub columns_count: i32,
    pub cards_count: i32,
}

/// `board` shows the board in `row` with the given counts.
pub open spec fn shows_board(
    board: Board,
    row: BoardRow,
    columns_count: i32,
    cards_count: i32,
) -> bool {
    &&& board.id == row.id
    &&& board.project_id == row.project_id
    &&& board.name == row.name
    &&& board.description@ == or_text(opt_view(row.description), Seq::empty())
    &&& board.icon@ == or_text(opt_view(row.icon), Seq::empty())
    &&& board.visibility == row.visibility
    &&& board.created_at == row.created_at
    &&& board.updated_at == row.updated_at
    &&& board.columns_count == columns_count
    &&& board.cards_count == cards_count
}

/// The board as it is answered.
pub fn board_from_row(row: &BoardRow, columns_count: i32, cards_count: i32) -> (r: Board)
    ensures
        shows_board(r, *row, columns_count, cards_count),
{
    Board {
        id: row.id.clone(),
        project_id: row.project_id.clone(),
        name: row.name.clone(),
        description: or_empty(&row.description),
        icon: or_empty(&row.icon),
        visibility: row.visibility.clone(),
        created_at: row.created_at,
        updated_at: row.updated_at,
        columns_count,
        cards_count,
    }
}

/// A stored column.
#[derive(Debug)]
pub struct ColumnRow {
    pub id: Id,
    pub board_id: Id,
    pub title: String,
    pub accent: Option<String>,
    pub wip_limit: Option<i32>,
    pub position: i32,
    pub created_at: Timestamp,
    pub updated_at: Timestamp,
}

/// A column as it is answered.
#[derive(Debug)]
pub struct Column {
    pub id: Id,
    pub board_id: Id,
    pub title: String,
    pub accent: String,
    pub wip_limit: i32,
    pub position: i32,
    pub created_at: Timestamp,
    pub updated_at: Timestamp,
}

/// `column` shows the column in `row`; without a limit it shows 0.
pub open spec fn shows_column(column: Column, row: ColumnRow) -> bool {
    &&& column.id == row.id
    &&& column.board_id == row.board_id
    &&& column.title == row.title
    &&& column.accent@ == or_text(opt_view(row.accent), Seq::empty())
    &&& column.wip_limit == match row.wip_limit {
        Some(n) => n,
        None => 0,
    }
    &&& column.position == row.position
    &&& column.created_at == row.created_at
    &&& column.updated_at == row.updated_at
}

/// The column as it is answered.
pub fn column_from_row(row: &ColumnRow) -> (r: Column)
    ensures
        shows_column(r, *row),
{
    Column {
        id: row.id.clone(),
        board_id: row.board_id.clone(),
        title: row.title.clone(),
        accent: or_empty(&row.accent),
        wip_limit: match row.wip_limit {
            Some(n) => n,
            None => 0,
        },
        position: row.position,
        created_at: row.created_at,
        updated_at: row.updated_at,
    }
}

/// `columns` shows these stored columns, one for one.
pub open spec fn shows_columns(columns: Seq<Column>, rows: Seq<ColumnRow>) -> bool {
    &&& columns.len() == rows.len()
    &&& forall|i: int| 0 <= i < rows.len() ==> shows_column(#[trigger] columns[i], rows[i])
}

/// The columns as they are answered.
pub fn columns_from_rows(rows: &Vec<ColumnRow>) -> (r: Vec<Column>)
    ensures
        shows_columns(r@, rows@),
{
    let mut r: Vec<Column> = Vec::new();
    let mut i: usize = 0;
    while i < rows.len()
        invariant
            i <= rows.len(),
            r.len() == i,
            forall|j: int| 0 <= j < i ==> shows_column(#[trigger] r[j], rows[j]),
        decreases rows.len() - i,
    {
        r.push(column_from_row(&rows[i]));
        i += 1;
    }
    r
}

/// The most characters of a slug.
pub const MAX_SLUG: usize = 40;

/// The character is a letter or a digit of ASCII.
pub open spec fn ascii_alphanumeric(c: char) -> bool {
    'a' <= c <= 'z' || 'A' <= c <= 'Z' || '0' <= c <= '9'
}

/// The character may stand in a slug: it is safe in a URL.
pub open spec fn in_slug(c: char) -> bool {
    ascii_alphanumeric(c) || c == '-' || c == '_'
}

/// A character with ASCII's upper-case letters turned into lower-case ones.
pub open spec fn ascii_lowercase(c: char) -> char {
    if 'A' <= c <= 'Z' {
        (c as u32 + 32) as char
    } else {
        c
    }
}

/// The characters of a name that may stand in a slug, in lower case.
pub open spec fn slug_chars(name: Seq<char>) -> Seq<char> {
    name.filter(|c: char| in_slug(c)).map_values(|c: char| ascii_lowercase(c))
}

/// The slug of a name.
pub open spec fn slug(name: Seq<char>) -> Seq<char> {
    if slug_chars(name).len() > MAX_SLUG {
        slug_chars(name).take(MAX_SLUG as int)
    } else {
        slug_chars(name)
    }
}

fn may_stand_in_slug(c: char) -> (r: bool)
    ensures
        r == in_slug(c),
{
    ('a' <= c && c <= 'z') || ('A' <= c && c <= 'Z') || ('0' <= c && c <= '9') || c == '-' || c
        == '_'
}

fn to_ascii_lowercase(c: char) -> (r: char)
    ensures
        r == ascii_lowercase(c),
{
    if 'A' <= c && c <= 'Z' {
        (c as u8 + 32) as char
    } else {
        c
    }
}

/// The slug of a board's name: what of it may stand in a URL, in lower case and
/// at most 40 characters long.
pub fn slug_from_name(name: &str) -> (r: String)
    ensures
        r@ == slug(name@),
{
    let chars = chars_of(name);
    let ghost keep = |c: char| in_slug(c);
    let ghost lower = |c: char| ascii_lowercase(c);
    let mut kept: Vec<char> = Vec::new();
    let mut i: usize = 0;
    assert(name@.take(0).filter(keep).map_values(lower) =~= kept@) by {
        reveal(Seq::filter);
    }
    while i < chars.len()
        invariant
            i <= chars.len(),
            chars@ == name@,
            keep == (|c: char| in_slug(c)),
            lower == (|c: char| ascii_lowercase(c)),
            kept@ == name@.take(i as int).filter(keep).map_values(lower),
        decreases chars.len() - i,
    {
        let c = chars[i];
        proof {
            let before = name@.take(i as int);
            let after = name@.take(i + 1);
            assert(after.drop_last() =~= before);
            reveal(Seq::filter);
            assert(after.filter(keep) == if keep(c) {
                before.filter(keep).push(c)
            } else {
                before.filter(keep)
            });
            assert(before.filter(keep).push(c).map_values(lower) =~= before.filter(
                keep,
            ).map_values(lower).push(lower(c)));
        }
        if may_stand_in_slug(c) {
            kept.push(to_ascii_lowercase(c));
        }
        i += 1;
    }
    assert(name@.take(name@.len() as int) =~= name@);
    let n: usize = if kept.len() > MAX_SLUG {
        MAX_SLUG
    } else {
        kept.len()
    };
    assert(kept@.subrange(0, n as int) =~= slug(name@));
    text_of(&kept, 0, n)
}

/// A slug has at most 40 characters, and each is safe in a URL: a letter from
/// `a` to `z`, a digit, `-` or `_`.
pub proof fn law_slug_is_url_safe(name: Seq<char>)
    ensures
        slug(name).len() <= MAX_SLUG,
        forall|i: int|
            0 <= i < slug(name).len() ==> {
                let c = #[trigger] slug(name)[i];
                'a' <= c <= 'z' || '0' <= c <= '9' || c == '-' || c == '_'
            },
{
    let keep = |c: char| in_slug(c);
    assert forall|i: int| 0 <= i < slug(name).len() implies {
        let c = #[trigger] slug(name)[i];
        'a' <= c <= 'z' || '0' <= c <= '9' || c == '-' || c == '_'
    } by {
        name.lemma_filter_pred(keep, i);
        assert(slug(name)[i] == ascii_lowercase(name.filter(keep)[i]));
    }
}

proof fn lemma_nothing_dropped(s: Seq<char>)
    requires
        forall|i: int| 0 <= i < s.len() ==> in_slug(#[trigger] s[i]),
    ensures
        s.filter(|c: char| in_slug(c)) == s,
    decreases s.len(),
{
    reveal(Seq::filter);
    let keep = |c: char| in_slug(c);
    if s.len() > 0 {
        lemma_nothing_dropped(s.drop_last());
        assert(keep(s.last()));
        assert(s.drop_last().push(s.last()) =~= s);
    }
}

/// A slug is its own slug.
pub proof fn law_slug_of_a_slug_is_itself(name: Seq<char>)
    ensures
        slug(slug(name)) == slug(name),
{
    law_slug_is_url_safe(name);
    let s = slug(name);
    lemma_nothing_dropped(s);
    assert(slug_chars(s) =~= s);
}

/// The two names differ at most in the case of ASCII's letters.
pub open spec fn same_but_for_case(a: Seq<char>, b: Seq<char>) -> bool {
    &&& a.len() == b.len()
    &&& forall|i: int|
        0 <= i < a.len() ==> #[trigger] ascii_lowercase(a[i]) == ascii_lowercase(b[i])
}

/// Names that differ only in the case of their letters have the same slug.
pub proof fn law_slug_ignores_case(a: Seq<char>, b: Seq<char>)
    requires
        same_but_for_case(a, b),
    ensures
        slug(a) == slug(b),
{
    lemma_slug_chars_ignore_case(a, b);
}

proof fn lemma_slug_chars_ignore_case(a: Seq<char>, b: Seq<char>)
    requires
        same_but_for_case(a, b),
    ensures
        slug_chars(a) == slug_chars(b),
    decreases a.len(),
{
    reveal(Seq::filter);
    let keep = |c: char| in_slug(c);
    let lower = |c: char| ascii_lowercase(c);
    if a.len() == 0 {
        assert(a =~= b);
    } else {
        let n = a.len() - 1;
        assert(ascii_lowercase(a[n]) == ascii_lowercase(b[n]));
        assert forall|i: int| 0 <= i < n implies #[trigger] ascii_lowercase(a.drop_last()[i])
            == ascii_lowercase(b.drop_last()[i]) by {
            assert(ascii_lowercase(a[i]) == ascii_lowercase(b[i]));
        }
        lemma_slug_chars_ignore_case(a.drop_last(), b.drop_last());
        assert(keep(a.last()) == keep(b.last()));
        assert(slug_chars(a) =~= if keep(a.last()) {
            slug_chars(a.drop_last()).push(lower(a.last()))
        } else {
            slug_chars(a.drop_last())
        });
        assert(slug_chars(b) =~= if keep(b.last()) {
            slug_chars(b.drop_last()).push(lower(b.last()))
        } else {
            slug_chars(b.drop_last())
        });
    }
}

/// A board is answered as it is stored, with the counts that were found: each
/// field shows the stored field of its own, and what is not stored shows empty.
pub proof fn law_board_is_answered_as_stored(
    board: Board,
    row: BoardRow,
    columns_count: i32,
    cards_count: i32,
)
    requires
        shows_board(board, row, columns_count, cards_count),
    ensures
        board.id == row.id,
        board.project_id == row.project_id,
        board.name == row.name,
        match row.description {
            Some(s) => board.description@ == s@,
            None => board.description@.len() == 0,
        },
        match row.icon {
            Some(s) => board.icon@ == s@,
            None => board.icon@.len() == 0,
        },
        board.visibility == row.visibility,
        board.created_at == row.created_at,
        board.updated_at == row.updated_at,
        board.columns_count == columns_count,
        board.cards_count == cards_count,
{
}

/// A column is answered as it is stored: each field shows the stored field of
/// its own, and a column without a limit shows 0.
pub proof fn law_column_is_answered_as_stored(column: Column, row: ColumnRow)
    requires
        shows_column(column, row),
    ensures
        column.id == row.id,
        column.board_id == row.board_id,
        column.title == row.title,
        match row.accent {
            Some(s) => column.accent@ == s@,
            None => column.accent@.len() == 0,
        },
        match row.wip_limit {
            Some(n) => column.wip_limit == n,
            None => column.wip_limit == 0,
        },
        column.position == row.position,
        column.created_at == row.created_at,
        column.updated_at == row.updated_at,
{
}

/// All columns are answered, each as it is stored and in their order.
pub proof fn law_all_columns_are_answered(columns: Seq<Column>, rows: Seq<ColumnRow>)
    ensures
        shows_columns(columns, rows) <==> columns.len() == rows.len() && forall|i: int|
            0 <= i < rows.len() ==> shows_column(#[trigger] columns[i], rows[i]),
{
}

/// Permissions on a board are held on its kind of object, and a caller's boards
/// are looked for up to a limit.
pub proof fn law_board_permissions()
    ensures
        PERMISSION_TYPE_BOARD@ == "KanbanBoard"@,
        MAX_VIEWABLE == 10000,
{
}

/// A slug grows with its name, character by character, up to 40: a letter goes
/// in in lower case, a digit, `-` or `_` as it is, and anything else is dropped.
pub proof fn law_slug_takes_character_by_character(name: Seq<char>, c: char)
    ensures
        slug(Seq::empty()).len() == 0,
        slug(name).len() >= 40 ==> slug(name.push(c)) == slug(name),
        slug(name).len() < 40 ==> slug(name.push(c)) == if 'A' <= c <= 'Z' {
            slug(name).push((c as u32 + 32) as char)
        } else if 'a' <= c <= 'z' || '0' <= c <= '9' || c == '-' || c == '_' {
            slug(name).push(c)
        } else {
            slug(name)
        },
{
    reveal(Seq::filter);
    let keep = |c: char| in_slug(c);
    let lower = |c: char| ascii_lowercase(c);
    let longer = name.push(c);
    assert(longer.drop_last() =~= name);
    assert(slug_chars(longer) =~= if keep(c) {
        slug_chars(name).push(lower(c))
    } else {
        slug_chars(name)
    });
    let none = Seq::<char>::empty();
    assert(none.filter(keep).len() == 0);
    assert(slug_chars(none) =~= none);
    if slug_chars(name).len() >= 40 {
        assert(slug(longer) =~= slug(name));
    }
}

} // verus!
