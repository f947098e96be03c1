//! What a request on cards needs next.
use crate::cards::model::{full_card, shows_card, Card, LoadedCard};
use crate::context::Id;
use crate::status::{fault, Code, Status, StatusView};
use vstd::prelude::*;

verus! {

/// What a request needs next. `W` is what it stores.
#[derive(Debug)]
pub enum CardStep<W> {
    /// Look for an earlier request with the key: the card it was answered.
    FindKey { tenant_id: String, key: String },
    /// Look for the board: its project.
    FindBoard { board_id: Id, tenant_id: String },
    /// Look for the column: its board.
    FindColumn { column_id: Id, tenant_id: String },
    /// Look for the card, and keep others from changing it.
    FindCard { card_id: Id, tenant_id: String },
    /// Look for the second card that the request names.
    FindOther { card_id: Id, tenant_id: String },
    /// Whether the first card depends on the second.
    FindDependency { card_id: Id, depends_on_id: Id },
    /// Read the project's references, and keep others from giving one out.
    LoadRefs { project_id: Id, tenant_id: String },
    /// Read the cards of the column that the card is in, or is put in.
    LoadSlots { column_id: Id, tenant_id: String },
    /// Read the cards of the column that the card moves to.
    LoadTargetSlots { column_id: Id, tenant_id: String },
    /// Store everything in it together.
    Store(W),
    /// Keep the key with the card that is answered.
    KeepKey { tenant_id: String, key: String, card_id: Id },
    /// Read the card to answer.
    LoadCard { card_id: Id, tenant_id: String },
    Answer(Card),
    Refuse(Status),
}

/// Where a stored card stands.
#[derive(Debug)]
pub struct CardHead {
    pub board_id: Id,
    pub project_id: Id,
    pub column_id: Id,
    pub position: i32,
    pub revision: i64,
}

/// The card was found on the board.
pub open spec fn is_on_board(head: Option<CardHead>, board_id: Id) -> bool {
    head matches Some(h) && h.board_id@ == board_id@
}

/// The card was found on the board.
pub fn on_board(head: &Option<CardHead>, board_id: &Id) -> (r: bool)
    ensures
        r == is_on_board(*head, *board_id),
{
    match head {
        Some(h) => h.board_id == *board_id,
        None => false,
    }
}

/// `r` refuses, and says exactly `f`.
pub open spec fn refuses<W>(r: CardStep<W>, f: StatusView) -> bool {
    r matches CardStep::Refuse(e) && e@ == f
}

/// `r` reads the card to answer, or answers it.
pub open spec fn answers_card<W>(
    r: CardStep<W>,
    card_id: Id,
    tenant_id: String,
    loaded: Option<Option<LoadedCard>>,
) -> bool {
    match loaded {
        None => r == (CardStep::<W>::LoadCard { card_id, tenant_id }),
        Some(None) => refuses(r, fault(Code::NotFound, "card not found")),
        Some(Some(l)) => r matches CardStep::Answer(card) && shows_card(card, l),
    }
}

/// Reads the card to answer, or answers it.
pub fn answer_card<W>(
    card_id: &Id,
    tenant_id: &String,
    loaded: &Option<Option<LoadedCard>>,
) -> (r: CardStep<W>)
    ensures
        answers_card(r, *card_id, *tenant_id, *loaded),
{
    match loaded {
        None => CardStep::LoadCard { card_id: card_id.clone(), tenant_id: tenant_id.clone() },
        Some(l) => match full_card(l) {
            Ok(card) => CardStep::Answer(card),
            Err(e) => CardStep::Refuse(e),
        },
    }
}

/// Once a request is stored: `r` keeps its key, where it has one, and then
/// answers the card.
pub open spec fn keeps_and_answers<W>(
    r: CardStep<W>,
    card_id: Id,
    tenant_id: String,
    key: String,
    kept: bool,
    loaded: Option<Option<LoadedCard>>,
) -> bool {
    if key@.len() > 0 && !kept {
        r == (CardStep::<W>::KeepKey { tenant_id, key, card_id })
    } else {
        answers_card(r, card_id, tenant_id, loaded)
    }
}

/// Keeps the key of a stored request, where it has one, and answers the card.
pub fn keep_and_answer<W>(
    card_id: &Id,
    tenant_id: &String,
    key: &String,
    kept: bool,
    loaded: &Option<Option<LoadedCard>>,
) -> (r: CardStep<W>)
    ensures
        keeps_and_answers(r, *card_id, *tenant_id, *key, kept, *loaded),
{
    if !key.as_str().is_empty() && !kept {
        return CardStep::KeepKey {
            tenant_id: tenant_id.clone(),
            key: key.clone(),
            card_id: card_id.clone(),
        };
    }
    answer_card(card_id, tenant_id, loaded)
}

/// What is known of the key that a request carries.
pub enum KeyView {
    /// It carries one, and earlier requests have not been looked through.
    Unknown,
    /// An earlier request carried it, and was answered this card.
    Used(Id),
    /// It carries none, or one that answers nothing.
    Fresh,
}

/// What is known of the key that a request carries.
pub open spec fn key_state(key: String, replay: Option<Option<Id>>) -> KeyView {
    if key@.len() == 0 {
        KeyView::Fresh
    } else {
        match replay {
            None => KeyView::Unknown,
            Some(Some(id)) => KeyView::Used(id),
            Some(None) => KeyView::Fresh,
        }
    }
}

/// A request that carries a key is looked up by it first. It is taken for a
/// repeat where an earlier one was answered, and else goes its way, as does one
/// without a key.
pub proof fn law_key_decides_repeats(key: String, replay: Option<Option<Id>>, id: Id)
    ensures
        key_state(key, replay) is Unknown <==> key@.len() > 0 && replay is None,
        key_state(key, replay) == KeyView::Used(id) <==> key@.len() > 0 && replay == Some(Some(id)),
        key_state(key, replay) is Fresh <==> key@.len() == 0 || replay == Some(None::<Id>),
{
}

/// A request is answered the card that it is on: the card is read first, and is
/// refused where it is gone.
pub proof fn law_answer_is_the_card<W>(
    r: CardStep<W>,
    card_id: Id,
    tenant_id: String,
    key: String,
    kept: bool,
    loaded: Option<Option<LoadedCard>>,
)
    requires
        keeps_and_answers(r, card_id, tenant_id, key, kept, loaded),
    ensures
        key@.len() > 0 && !kept ==> r == (CardStep::<W>::KeepKey { tenant_id, key, card_id }),
        key@.len() == 0 || kept ==> answers_card(r, card_id, tenant_id, loaded),
        r is KeepKey || (match loaded {
            None => r == (CardStep::<W>::LoadCard { card_id, tenant_id }),
            Some(None) => r matches CardStep::Refuse(e) && e.code == Code::NotFound && e.message@
                == "card not found"@,
            Some(Some(l)) => r matches CardStep::Answer(card) && card.id == l.row.id
                && shows_card(card, l),
        }),
{
}

/// A repeated request reads and answers its card alike, and stores nothing.
pub proof fn law_replay_answers_the_card<W>(
    r: CardStep<W>,
    card_id: Id,
    tenant_id: String,
    loaded: Option<Option<LoadedCard>>,
)
    requires
        answers_card(r, card_id, tenant_id, loaded),
    ensures
        match loaded {
            None => r == (CardStep::<W>::LoadCard { card_id, tenant_id }),
            Some(None) => r matches CardStep::Refuse(e) && e.code == Code::NotFound && e.message@
                == "card not found"@,
            Some(Some(l)) => r matches CardStep::Answer(card) && card.id == l.row.id
                && shows_card(card, l),
        },
{
}

/// A refusal says exactly what it is for.
pub proof fn law_refusal_says_why<W>(r: CardStep<W>, code: Code, message: &str)
    ensures
        refuses(r, fault(code, message)) <==> (r matches CardStep::Refuse(e) && e.code == code
            && e.message@ == message@),
{
}

/// A card is on a board where it was found with that board, and only there.
pub proof fn law_card_is_on_its_board(head: Option<CardHead>, board_id: Id)
    ensures
        head is None ==> !is_on_board(head, board_id),
        head matches Some(h) ==> (is_on_board(head, board_id) <==> h.board_id@ == board_id@),
{
}

} // verus!
