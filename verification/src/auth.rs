//! Who the caller is, and logging out.
use crate::json::{Json, JsonView};
use crate::number::{wrap_i64, wrapped_i64};
use crate::status::{fault, Code, Status, StatusView};
use crate::text::{or_text, split_once};
use vstd::prelude::*;

verus! {

/// The claims of a token.
#[derive(Debug)]
pub struct Claims {
    /// When the token expires, in seconds since the Unix epoch.
    pub exp: i64,
    /// The claims beyond the standard ones, as one JSON object.
    pub extra: Json,
}

/// What was found out of a caller's token.
#[derive(Debug)]
pub struct Session {
    pub is_authenticated: bool,
    pub subject: Option<String>,
    pub claims: Option<Claims>,
}

/// The caller, as it is answered.
#[derive(Debug)]
pub struct WhoAmIResponse {
    pub subject: String,
    pub display_name: String,
    pub email: String,
    pub roles: Vec<String>,
    pub expires_at_ms: i64,
}

/// A logout, as it is answered.
#[derive(Debug)]
pub struct SignalLogoutResponse {
    pub subject: String,
    pub watermark_ms: i64,
}

/// Why there is no caller.
pub open spec fn session_fault(session: Option<Session>) -> Option<StatusView> {
    match session {
        None => Some(fault(Code::Internal, "AuthContext extension missing")),
        Some(s) => if !s.is_authenticated || s.subject is None {
            Some(fault(Code::Unauthenticated, "not authenticated"))
        } else {
            None
        },
    }
}

/// What stands before the first `@`; all of it where there is none.
pub open spec fn local_part(email: Seq<char>) -> Seq<char> {
    match email.index_of_first('@') {
        Some(i) => email.take(i),
        None => email,
    }
}

/// The name to show: the name claim, else the local part of the email claim,
/// else the subject.
pub open spec fn display_name(extra: JsonView, subject: Seq<char>) -> Seq<char> {
    match (extra.text_member("name"@), extra.text_member("email"@)) {
        (Some(name), _) => name,
        (None, Some(email)) => local_part(email),
        (None, None) => subject,
    }
}

/// The texts among the items, in their order.
pub open spec fn texts(items: Seq<JsonView>) -> Seq<Seq<char>>
    decreases items.len(),
{
    if items.len() == 0 {
        Seq::empty()
    } else {
        match items.last() {
            JsonView::Text(s) => texts(items.drop_last()).push(s),
            _ => texts(items.drop_last()),
        }
    }
}

/// The roles: the texts in the list of the roles claim.
pub open spec fn roles(extra: JsonView) -> Seq<Seq<char>> {
    match extra.list_member("roles"@) {
        Some(items) => texts(items),
        None => Seq::empty(),
    }
}

/// The views of texts.
pub open spec fn text_views(v: Seq<String>) -> Seq<Seq<char>> {
    v.map_values(|s: String| s@)
}

/// `r` says who the caller is. Without claims the subject is all that is known.
pub open spec fn describes(r: WhoAmIResponse, session: Session) -> bool {
    let subject = session.subject->Some_0;
    &&& r.subject == subject
    &&& match session.claims {
        Some(claims) => {
            &&& r.display_name@ == display_name(claims.extra@, subject@)
            &&& r.email@ == or_text(claims.extra@.text_member("email"@), Seq::empty())
            &&& text_views(r.roles@) == roles(claims.extra@)
            &&& r.expires_at_ms == claims.exp * 1000
        },
        None => {
            &&& r.display_name@ == subject@
            &&& r.email@.len() == 0
            &&& r.roles.len() == 0
            &&& r.expires_at_ms == 0
        },
    }
}

fn role_texts(extra: &Json) -> (r: Vec<String>)
    ensures
        text_views(r@) == roles(extra@),
{
    let mut r: Vec<String> = Vec::new();
    assert(text_views(r@) =~= Seq::empty());
    if let Some(Json::List(items)) = extra.get("roles") {
        let ghost views = extra@.list_member("roles"@)->Some_0;
        let mut i: usize = 0;
        while i < items.len()
            invariant
                i <= items.len(),
                views.len() == items.len(),
                forall|j: int| 0 <= j < items.len() ==> #[trigger] views[j] == items[j]@,
                text_views(r@) == texts(views.take(i as int)),
            decreases items.len() - i,
        {
            assert(views.take(i + 1).drop_last() =~= views.take(i as int));
            assert(views[i as int] == items[i as int]@);
            if let Json::Text(s) = &items[i] {
                let ghost before = r@;
                r.push(s.clone());
                assert(text_views(r@) =~= text_views(before).push(s@));
            }
            i += 1;
        }
        assert(views.take(views.len() as int) =~= views);
    }
    r
}

/// The service that answers who the caller is and records logouts.
#[derive(Clone, Copy, Debug)]
pub struct AuthServiceImpl;

impl AuthServiceImpl {
    /// The caller.
    pub fn caller(&self, session: &Option<Session>) -> (r: Result<String, Status>)
        ensures
            match r {
                Ok(subject) => session_fault(*session) is None && session->Some_0.subject == Some(
                    subject,
                ),
                Err(e) => session_fault(*session) == Some(e@),
            },
    {
        match session {
            None => Err(Status::internal("AuthContext extension missing")),
            Some(s) => {
                if !s.is_authenticated {
                    return Err(Status::unauthenticated("not authenticated"));
                }
                match &s.subject {
                    Some(subject) => Ok(subject.clone()),
                    None => Err(Status::unauthenticated("not authenticated")),
                }
            },
        }
    }

    /// Says who the caller is.
    pub fn who_am_i(&self, session: &Option<Session>) -> (r: Result<WhoAmIResponse, Status>)
        requires
            session_fault(*session) is None ==> (session->Some_0.claims matches Some(c)
                ==> i64::MIN <= c.exp * 1000 <= i64::MAX),
        ensures
            match r {
                Ok(me) => session_fault(*session) is None && describes(me, session->Some_0),
                Err(e) => session_fault(*session) == Some(e@),
            },
    {
        let subject = self.caller(session)?;
        let claims = match session {
            Some(Session { claims: Some(claims), .. }) => claims,
            _ => {
                return Ok(
                    WhoAmIResponse {
                        display_name: subject.clone(),
                        subject,
                        email: String::new(),
                        roles: Vec::new(),
                        expires_at_ms: 0,
                    },
                );
            },
        };
        let email = claims.extra.get_text("email");
        let display_name: String = match (claims.extra.get_text("name"), &email) {
            (Some(name), _) => name,
            (None, Some(email)) => match split_once(email.as_str(), '@') {
                Some((local, _)) => local,
                None => email.clone(),
            },
            (None, None) => subject.clone(),
        };
        Ok(
            WhoAmIResponse {
                subject,
                display_name,
                email: match email {
                    Some(email) => email,
                    None => String::new(),
                },
                roles: role_texts(&claims.extra),
                expires_at_ms: claims.exp * 1000,
            },
        )
    }

    /// Answers a logout; `watermark` is what was recorded for the caller, none
    /// where that failed.
    pub fn signal_logout(&self, subject: String, watermark: Option<u64>) -> (r: Result<
        SignalLogoutResponse,
        Status,
    >)
        ensures
            match (r, watermark) {
                (Ok(done), Some(ms)) => done.subject == subject && done.watermark_ms == wrapped_i64(
                    ms as int,
                ),
                (Err(e), None) => e@ == fault(Code::Internal, "logout watermark write failed"),
                _ => false,
            },
    {
        match watermark {
            Some(ms) => Ok(SignalLogoutResponse { subject, watermark_ms: wrap_i64(ms) }),
            None => Err(Status::internal("logout watermark write failed")),
        }
    }
}

/// There is a caller exactly where the token is good and names one.
pub proof fn law_caller_needs_a_good_token(session: Option<Session>)
    ensures
        session_fault(session) is None <==> session is Some && session->Some_0.is_authenticated
            && session->Some_0.subject is Some,
        session is None ==> session_fault(session) == Some(
            StatusView { code: Code::Internal, message: "AuthContext extension missing"@ },
        ),
        session is Some && session_fault(session) is Some ==> session_fault(session) == Some(
            StatusView { code: Code::Unauthenticated, message: "not authenticated"@ },
        ),
{
}

/// The local part of an address is what stands in front of its first `@`, and
/// all of a text that has none.
pub proof fn law_local_part_ends_at_the_first_at(email: Seq<char>, k: int)
    requires
        0 <= k <= email.len(),
        forall|i: int| 0 <= i < k ==> #[trigger] email[i] != '@',
    ensures
        k < email.len() && email[k] == '@' ==> local_part(email) == email.take(k),
        k == email.len() ==> local_part(email) == email,
{
    email.index_of_first_ensures('@');
    if k < email.len() && email[k] == '@' {
        assert(email.contains('@'));
        let i = email.index_of_first('@')->Some_0;
        assert(i == k);
    }
}

/// The roles of a caller are the texts in the list, read piece by piece and in
/// their order; what is no text is left out.
pub proof fn law_roles_are_read_piece_by_piece(
    items: Seq<JsonView>,
    more: Seq<JsonView>,
    item: JsonView,
)
    ensures
        texts(items + more) == texts(items) + texts(more),
        texts(seq![item]) == match item {
            JsonView::Text(s) => seq![s],
            _ => Seq::<Seq<char>>::empty(),
        },
    decreases more.len(),
{
    reveal_with_fuel(texts, 2);
    assert(seq![item].drop_last() =~= Seq::<JsonView>::empty());
    if item is Text {
        assert(texts(seq![item]) =~= seq![item->Text_0]);
    }
    if more.len() == 0 {
        assert(items + more =~= items);
    } else {
        assert((items + more).drop_last() =~= items + more.drop_last());
        law_roles_are_read_piece_by_piece(items, more.drop_last(), item);
    }
    assert(texts(items + more) =~= texts(items) + texts(more));
}

/// A caller is shown by the name claim, else by the local part of the email
/// claim, else by the subject; the email claim and the roles are shown as they
/// are claimed, and the token's end in milliseconds. Without claims only the
/// subject is known.
pub proof fn law_caller_is_described_by_the_claims(r: WhoAmIResponse, session: Session)
    requires
        describes(r, session),
        session.subject is Some,
    ensures
        r.subject == session.subject->Some_0,
        session.claims is None ==> {
            &&& r.display_name@ == session.subject->Some_0@
            &&& r.email@.len() == 0
            &&& r.roles.len() == 0
            &&& r.expires_at_ms == 0
        },
        session.claims matches Some(claims) ==> {
            let (name, email) = (
                claims.extra@.text_member("name"@),
                claims.extra@.text_member("email"@),
            );
            &&& name is Some ==> r.display_name@ == name->Some_0
            &&& name is None && email is Some ==> r.display_name@ == local_part(email->Some_0)
            &&& name is None && email is None ==> r.display_name@ == session.subject->Some_0@
            &&& email is Some ==> r.email@ == email->Some_0
            &&& email is None ==> r.email@.len() == 0
            &&& r.expires_at_ms == claims.exp * 1000
            &&& claims.extra@.list_member("roles"@) is None ==> r.roles.len() == 0
            &&& claims.extra@.list_member("roles"@) is Some ==> {
                let roles = texts(claims.extra@.list_member("roles"@)->Some_0);
                &&& r.roles.len() == roles.len()
                &&& forall|i: int| 0 <= i < roles.len() ==> (#[trigger] r.roles[i])@ == roles[i]
            }
        },
{
    if let Some(claims) = session.claims {
        let shown = text_views(r.roles@);
        assert(shown == roles(claims.extra@));
        assert(shown.len() == r.roles.len());
        assert forall|i: int| 0 <= i < shown.len() implies (#[trigger] r.roles[i])@
            == shown[i] by {}
    }
}

} // verus!
