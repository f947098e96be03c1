//! Links from cards to GitHub issues and pull requests.
//!
//! A link is made with what GitHub says of the issue, or with defaults where
//! GitHub does not answer. A refresh takes what GitHub says, and changes
//! nothing where it does not answer.
use crate::context::{checked_id, id_fault, object_fault, require_id, tenant_fault};
use crate::context::{tenant_id_from_request, Id, IdArg, RequestContext};
use crate::event::EventRow;
use crate::json::{fields, Json, JsonView, ObjectBuilder};
use crate::status::{fault, fault_if, first_fault, first_of3, first_of5, require_rows, Code};
use crate::status::{Status, StatusView};
use crate::number::{low_i32, truncate_i32};
use crate::page::lemma_filter_selects;
use crate::text::{after_last, contains_char, decimal, decimal_of, opt_view, or_text, split_once};
use crate::text::{strip_end, text_after_last, trim, trim_end_matches, trimmed};
use crate::timestamp::Timestamp;
use vstd::prelude::*;
use vstd::string::*;

verus! {

pub const KIND_ISSUE: &'static str = "issue";

pub const KIND_PULL_REQUEST: &'static str = "pull_request";

pub const DEFAULT_SEARCH_LIMIT: i32 = 20;

pub const MAX_SEARCH_LIMIT: i32 = 50;

/// The owner and the name in a stored "owner/name".
pub open spec fn repo_parts(repo: Seq<char>) -> (Seq<char>, Seq<char>) {
    match repo.index_of_first('/') {
        Some(i) => (repo.take(i), repo.skip(i + 1)),
        None => (repo, Seq::empty()),
    }
}

/// The stored form of a repository's coordinates.
pub open spec fn repo_path(owner: Seq<char>, name: Seq<char>) -> Seq<char> {
    owner + "/"@ + name
}

/// Splits a stored "owner/name" into its parts.
pub fn split_repo(repo: &str) -> (r: (String, String))
    ensures
        (r.0@, r.1@) == repo_parts(repo@),
{
    match split_once(repo, '/') {
        Some(parts) => parts,
        None => (repo.to_owned(), String::new()),
    }
}

/// The stored form of a repository's coordinates.
pub fn join_repo(owner: &str, name: &str) -> (r: String)
    ensures
        r@ == repo_path(owner@, name@),
{
    let mut r: String = owner.to_owned();
    r.append("/");
    r.append(name);
    r
}

/// Splitting gives back the owner and the name that were joined, where the
/// owner holds no slash.
pub proof fn law_split_undoes_join(owner: Seq<char>, name: Seq<char>)
    requires
        !owner.contains('/'),
    ensures
        repo_parts(repo_path(owner, name)) == (owner, name),
{
    reveal_strlit("/");
    let repo = repo_path(owner, name);
    repo.index_of_first_ensures('/');
    assert(repo[owner.len() as int] == '/');
    assert(repo.contains('/'));
    let i = repo.index_of_first('/')->Some_0;
    if i < owner.len() {
        assert(owner[i] == repo[i]);
    }
    assert(i == owner.len());
    assert(repo.take(i) =~= owner);
    assert(repo.skip(i + 1) =~= name);
}

/// The scope that a search is limited to: the repository where one is named,
/// else all repositories of the owner, else everything.
pub open spec fn search_scope(owner: Seq<char>, name: Seq<char>) -> Seq<char> {
    if name.len() > 0 {
        "repo:"@ + repo_path(owner, name)
    } else if owner.len() > 0 {
        "user:"@ + owner
    } else {
        Seq::empty()
    }
}

/// The query for GitHub's search: the caller's words, then the scope.
pub fn build_search_query(repo_owner: &str, repo_name: &str, query: &str) -> (r: String)
    ensures
        r@ == trimmed(trimmed(query@) + " "@ + search_scope(repo_owner@, repo_name@)),
{
    let scope: String = if !repo_name.is_empty() {
        let mut s: String = "repo:".to_owned();
        s.append(join_repo(repo_owner, repo_name).as_str());
        s
    } else if !repo_owner.is_empty() {
        let mut s: String = "user:".to_owned();
        s.append(repo_owner);
        s
    } else {
        String::new()
    };
    let mut q: String = trim(query);
    q.append(" ");
    q.append(scope.as_str());
    trim(q.as_str())
}

/// What GitHub says of an issue or a pull request, as far as it is shown.
#[derive(Debug)]
pub struct IssueInfo {
    pub kind: &'static str,
    pub title: Option<String>,
    pub state: String,
    pub url: Option<String>,
}

/// GitHub serves pull requests as issues with a `pull_request` member.
pub open spec fn issue_kind(v: JsonView) -> Seq<char> {
    if v.member("pull_request"@) is Some {
        KIND_PULL_REQUEST@
    } else {
        KIND_ISSUE@
    }
}

/// `info` shows what the issue in `v` says; an issue without a state is open.
pub open spec fn shows_issue(info: IssueInfo, v: JsonView) -> bool {
    &&& info.kind@ == issue_kind(v)
    &&& opt_view(info.title) == v.text_member("title"@)
    &&& info.state@ == or_text(v.text_member("state"@), "open"@)
    &&& opt_view(info.url) == v.text_member("html_url"@)
}

/// Reads an issue or a pull request as GitHub answers it.
pub fn parse_issue_json(v: &Json) -> (r: IssueInfo)
    ensures
        shows_issue(r, v@),
{
    let kind = if v.get("pull_request").is_some() {
        KIND_PULL_REQUEST
    } else {
        KIND_ISSUE
    };
    let state: String = match v.get_text("state") {
        Some(s) => s,
        None => "open".to_owned(),
    };
    IssueInfo { kind, title: v.get_text("title"), state, url: v.get_text("html_url") }
}

/// One hit of a search.
#[derive(Debug)]
pub struct GitHubIssueResult {
    pub repo_owner: String,
    pub repo_name: String,
    pub number: i32,
    pub kind: String,
    pub title: String,
    pub state: String,
    pub url: String,
}

/// The repository of a search hit: what follows the last "/repos/" of its
/// `repository_url`.
pub open spec fn item_repo(v: JsonView) -> (Seq<char>, Seq<char>) {
    match v.text_member("repository_url"@) {
        Some(u) => repo_parts(after_last(u, "/repos/"@)),
        None => (Seq::empty(), Seq::empty()),
    }
}

/// `r` shows the search hit in `v`.
pub open spec fn shows_item(r: GitHubIssueResult, v: JsonView) -> bool {
    &&& (r.repo_owner@, r.repo_name@) == item_repo(v)
    &&& r.number == match v.int_member("number"@) {
        Some(n) => low_i32(n),
        None => 0,
    }
    &&& r.kind@ == issue_kind(v)
    &&& r.title@ == or_text(v.text_member("title"@), Seq::empty())
    &&& r.state@ == or_text(v.text_member("state"@), "open"@)
    &&& r.url@ == or_text(v.text_member("html_url"@), Seq::empty())
}

/// Reads one hit of GitHub's search.
pub fn parse_search_item(item: &Json) -> (r: GitHubIssueResult)
    ensures
        shows_item(r, item@),
{
    let (repo_owner, repo_name) = match item.get_text("repository_url") {
        Some(u) => split_repo(text_after_last(u.as_str(), "/repos/").as_str()),
        None => (String::new(), String::new()),
    };
    let info = parse_issue_json(item);
    let number: i32 = match item.get_int("number") {
        Some(n) => truncate_i32(n),
        None => 0,
    };
    GitHubIssueResult {
        repo_owner,
        repo_name,
        number,
        kind: info.kind.to_owned(),
        title: match info.title {
            Some(t) => t,
            None => String::new(),
        },
        state: info.state,
        url: match info.url {
            Some(u) => u,
            None => String::new(),
        },
    }
}

/// The page of an issue on github.com.
pub open spec fn issue_page(owner: Seq<char>, name: Seq<char>, number: int) -> Seq<char> {
    "https://github.com/"@ + repo_path(owner, name) + "/issues/"@ + decimal(number)
}

/// The page to show where GitHub gave none. GitHub redirects it to the pull
/// request where the number is one's.
pub fn fallback_url(repo_owner: &str, repo_name: &str, number: i32) -> (r: String)
    ensures
        r@ == issue_page(repo_owner@, repo_name@, number as int),
{
    let mut r: String = "https://github.com/".to_owned();
    r.append(join_repo(repo_owner, repo_name).as_str());
    r.append("/issues/");
    r.append(decimal_of(number as i64).as_str());
    r
}

/// Where GitHub's API serves an issue.
pub open spec fn issue_endpoint(
    base: Seq<char>,
    owner: Seq<char>,
    name: Seq<char>,
    number: int,
) -> Seq<char> {
    strip_end(base, '/') + "/repos/"@ + repo_path(owner, name) + "/issues/"@ + decimal(number)
}

/// Where GitHub's API serves an issue.
pub fn issue_api_url(base: &str, owner: &str, name: &str, number: i32) -> (r: String)
    ensures
        r@ == issue_endpoint(base@, owner@, name@, number as int),
{
    let mut r: String = trim_end_matches(base, '/');
    r.append("/repos/");
    r.append(join_repo(owner, name).as_str());
    r.append("/issues/");
    r.append(decimal_of(number as i64).as_str());
    r
}

/// The answer of GitHub's API.
#[derive(Debug)]
pub enum ApiReply {
    /// No answer came.
    Unreachable,
    /// An answer came, with a status other than success.
    Failure,
    /// The answer's body was not JSON.
    Undecodable,
    Body(Json),
}

/// Why there is no issue in the answer.
pub open spec fn issue_fault(reply: ApiReply) -> Option<StatusView> {
    match reply {
        ApiReply::Unreachable => Some(fault(Code::Internal, "github api request failed")),
        ApiReply::Failure => Some(
            fault(Code::Internal, "github api returned a non-success status"),
        ),
        ApiReply::Undecodable => Some(
            fault(Code::Internal, "failed to decode github api response"),
        ),
        ApiReply::Body(_) => None,
    }
}

/// The issue in GitHub's answer.
pub fn fetched_issue(reply: &ApiReply) -> (r: Result<IssueInfo, Status>)
    ensures
        match (r, *reply) {
            (Ok(info), ApiReply::Body(body)) => shows_issue(info, body@),
            (Ok(_), _) => false,
            (Err(e), reply) => issue_fault(reply) == Some(e@),
        },
{
    match reply {
        ApiReply::Unreachable => Err(Status::internal("github api request failed")),
        ApiReply::Failure => Err(Status::internal("github api returned a non-success status")),
        ApiReply::Undecodable => Err(Status::internal("failed to decode github api response")),
        ApiReply::Body(body) => Ok(parse_issue_json(body)),
    }
}

/// A stored link.
#[derive(Debug)]
pub struct LinkRow {
    pub id: Id,
    pub card_id: Id,
    pub repo: String,
    pub issue_id: i32,
    pub state: String,
    pub title: Option<String>,
    pub url: String,
    pub kind: String,
    pub synced_at: Timestamp,
}

/// A link as it is answered.
#[derive(Debug)]
pub struct GitHubLinkDetail {
    pub id: Id,
    pub card_id: Id,
    pub repo_owner: String,
    pub repo_name: String,
    pub issue_or_pr_number: i32,
    pub kind: String,
    pub title: String,
    pub state: String,
    pub url: String,
    pub last_synced_at: Timestamp,
}

/// `detail` shows the link in `row`.
pub open spec fn shows_link(detail: GitHubLinkDetail, row: LinkRow) -> bool {
    &&& detail.id == row.id
    &&& detail.card_id == row.card_id
    &&& (detail.repo_owner@, detail.repo_name@) == repo_parts(row.repo@)
    &&& detail.issue_or_pr_number == row.issue_id
    &&& detail.kind == row.kind
    &&& detail.title@ == or_text(opt_view(row.title), Seq::empty())
    &&& detail.state == row.state
    &&& detail.url == row.url
    &&& detail.last_synced_at == row.synced_at
}

impl LinkRow {
    /// The link as it is answered.
    pub fn to_detail(&self) -> (r: GitHubLinkDetail)
        ensures
            shows_link(r, *self),
    {
        let (repo_owner, repo_name) = split_repo(self.repo.as_str());
        GitHubLinkDetail {
            id: self.id.clone(),
            card_id: self.card_id.clone(),
            repo_owner,
            repo_name,
            issue_or_pr_number: self.issue_id,
            kind: self.kind.clone(),
            title: match &self.title {
                Some(t) => t.clone(),
                None => String::new(),
            },
            state: self.state.clone(),
            url: self.url.clone(),
            last_synced_at: self.synced_at,
        }
    }
}

/// The links as they are answered.
pub fn link_details(rows: &Vec<LinkRow>) -> (r: Vec<GitHubLinkDetail>)
    ensures
        r.len() == rows.len(),
        forall|i: int| 0 <= i < rows.len() ==> shows_link(#[trigger] r[i], rows[i]),
{
    let mut r: Vec<GitHubLinkDetail> = Vec::new();
    let mut i: usize = 0;
    while i < rows.len()
        invariant
            i <= rows.len(),
            r.len() == i,
            forall|j: int| 0 <= j < i ==> shows_link(#[trigger] r[j], rows[j]),
        decreases rows.len() - i,
    {
        r.push(rows[i].to_detail());
        i += 1;
    }
    r
}

/// A card whose links may be listed.
#[derive(Debug)]
pub struct CardLinksCall {
    pub card_id: Id,
    pub tenant_id: String,
}

/// Why a request for the links of a card is refused before anything is looked
/// up.
pub open spec fn list_links_fault(ctx: RequestContext) -> Option<StatusView> {
    first_fault(object_fault(ctx, "invalid card_id"), tenant_fault(ctx))
}

/// Checks a request for the links of the card that the call was authorized for.
pub fn list_links_call(ctx: &RequestContext) -> (r: Result<CardLinksCall, Status>)
    ensures
        match r {
            Ok(call) => {
                &&& list_links_fault(*ctx) is None
                &&& ctx.object() == Some(call.card_id)
                &&& ctx.tenant() == Some(call.tenant_id)
            },
            Err(e) => list_links_fault(*ctx) == Some(e@),
        },
{
    let card_id = checked_id(ctx, "invalid card_id")?;
    let tenant_id = tenant_id_from_request(ctx)?;
    Ok(CardLinksCall { card_id, tenant_id })
}

/// The links among `rows` of the card, in their order.
pub open spec fn card_links(rows: Seq<LinkRow>, card_id: Seq<char>) -> Seq<LinkRow> {
    rows.filter(|row: LinkRow| row.card_id@ == card_id)
}

/// The links of the card as they are answered.
pub fn list_links_by_card(rows: &Vec<LinkRow>, card_id: &Id) -> (r: Vec<GitHubLinkDetail>)
    ensures
        r.len() == card_links(rows@, card_id@).len(),
        forall|i: int|
            0 <= i < r.len() ==> shows_link(#[trigger] r[i], card_links(rows@, card_id@)[i]),
{
    let ghost keep = |row: LinkRow| row.card_id@ == card_id@;
    let mut r: Vec<GitHubLinkDetail> = Vec::new();
    let mut i: usize = 0;
    assert(rows@.take(0).filter(keep).len() == 0) by {
        reveal(Seq::filter);
    }
    while i < rows.len()
        invariant
            i <= rows.len(),
            keep == (|row: LinkRow| row.card_id@ == card_id@),
            r.len() == rows@.take(i as int).filter(keep).len(),
            forall|j: int|
                0 <= j < r.len() ==> shows_link(
                    #[trigger] r[j],
                    rows@.take(i as int).filter(keep)[j],
                ),
        decreases rows.len() - i,
    {
        proof {
            assert(rows@.take(i + 1).drop_last() =~= rows@.take(i as int));
            reveal(Seq::filter);
        }
        if rows[i].card_id == *card_id {
            r.push(rows[i].to_detail());
        }
        i += 1;
    }
    assert(rows@.take(rows@.len() as int) =~= rows@);
    r
}

/// A request to link a card to an issue.
#[derive(Debug)]
pub struct LinkIssueRequest {
    pub repo_owner: String,
    pub repo_name: String,
    pub number: i32,
}

/// A request to link a card to an issue that may go ahead.
#[derive(Debug)]
pub struct LinkIssueCall {
    pub card_id: Id,
    pub tenant_id: String,
    pub repo_owner: String,
    pub repo_name: String,
    pub number: i32,
}

/// Why a request to link is refused before anything is looked up.
pub open spec fn link_issue_fault(ctx: RequestContext, req: LinkIssueRequest) -> Option<
    StatusView,
> {
    first_of5(
        object_fault(ctx, "invalid card_id"),
        tenant_fault(ctx),
        fault_if(
            req.repo_owner@.len() == 0 || req.repo_name@.len() == 0,
            Code::InvalidArgument,
            "repo_owner and repo_name are required",
        ),
        fault_if(
            req.repo_owner@.contains('/') || req.repo_name@.contains('/'),
            Code::InvalidArgument,
            "repo_owner and repo_name must not contain '/'",
        ),
        fault_if(
            req.number <= 0,
            Code::InvalidArgument,
            "number must be a positive issue/PR number",
        ),
    )
}

/// Checks a request to link a card to an issue.
pub fn link_issue_call(ctx: &RequestContext, req: LinkIssueRequest) -> (r: Result<
    LinkIssueCall,
    Status,
>)
    ensures
        match r {
            Ok(call) => {
                &&& link_issue_fault(*ctx, req) is None
                &&& ctx.object() == Some(call.card_id)
                &&& ctx.tenant() == Some(call.tenant_id)
                &&& call.repo_owner == req.repo_owner
                &&& call.repo_name == req.repo_name
                &&& call.number == req.number
            },
            Err(e) => link_issue_fault(*ctx, req) == Some(e@),
        },
{
    let card_id = checked_id(ctx, "invalid card_id")?;
    let tenant_id = tenant_id_from_request(ctx)?;
    if req.repo_owner.as_str().is_empty() || req.repo_name.as_str().is_empty() {
        return Err(Status::invalid_argument("repo_owner and repo_name are required"));
    }
    if contains_char(req.repo_owner.as_str(), '/') || contains_char(req.repo_name.as_str(), '/') {
        return Err(Status::invalid_argument("repo_owner and repo_name must not contain '/'"));
    }
    if req.number <= 0 {
        return Err(Status::invalid_argument("number must be a positive issue/PR number"));
    }
    Ok(
        LinkIssueCall {
            card_id,
            tenant_id,
            repo_owner: req.repo_owner,
            repo_name: req.repo_name,
            number: req.number,
        },
    )
}

/// A link to be stored, with the event that reports it.
#[derive(Debug)]
pub struct NewLink {
    pub id: Id,
    pub tenant_id: String,
    pub card_id: Id,
    pub repo: String,
    pub issue_id: i32,
    pub state: String,
    pub title: Option<String>,
    pub url: String,
    pub kind: &'static str,
    pub event: EventRow,
}

/// What has been learned for a request to link.
#[derive(Debug)]
pub struct LinkIssueFacts {
    /// The card's board, once the card was looked for.
    pub board: Option<Option<Id>>,
    /// GitHub's answer.
    pub reply: Option<ApiReply>,
    /// The link as it was stored.
    pub stored: Option<LinkRow>,
}

/// What a request to link needs next.
#[derive(Debug)]
pub enum LinkIssueStep {
    /// Look for the board of the card.
    FindBoard { card_id: Id, tenant_id: String },
    /// Ask GitHub for the issue.
    FetchIssue { url: String },
    /// Store the link and its event together.
    Store(NewLink),
    Answer(GitHubLinkDetail),
    Refuse(Status),
}

/// The link is made of what GitHub says; where it does not answer, of an open
/// issue without a title.
pub open spec fn is_new_link(
    link: NewLink,
    call: LinkIssueCall,
    link_id: Id,
    board_id: Id,
    reply: ApiReply,
) -> bool {
    let page = issue_page(call.repo_owner@, call.repo_name@, call.number as int);
    &&& link.id == link_id
    &&& link.tenant_id == call.tenant_id
    &&& link.card_id == call.card_id
    &&& link.repo@ == repo_path(call.repo_owner@, call.repo_name@)
    &&& link.issue_id == call.number
    &&& match reply {
        ApiReply::Body(body) => {
            &&& link.kind@ == issue_kind(body@)
            &&& link.state@ == or_text(body@.text_member("state"@), "open"@)
            &&& opt_view(link.title) == body@.text_member("title"@)
            &&& link.url@ == or_text(body@.text_member("html_url"@), page)
        },
        _ => {
            &&& link.kind@ == KIND_ISSUE@
            &&& link.state@ == "open"@
            &&& link.title is None
            &&& link.url@ == page
        },
    }
    &&& link.event.tenant_id == call.tenant_id
    &&& link.event.board_id == board_id
    &&& link.event.event_type@ == "GitHubLinkAdded"@
    &&& link.event.payload@ == fields().text("card_id", call.card_id@).text("link_id", link_id@).text(
        "board_id",
        board_id@,
    ).object()
}

fn new_link(call: &LinkIssueCall, link_id: &Id, board_id: &Id, reply: &ApiReply) -> (r: NewLink)
    ensures
        is_new_link(r, *call, *link_id, *board_id, *reply),
{
    let page = fallback_url(call.repo_owner.as_str(), call.repo_name.as_str(), call.number);
    let (kind, state, title, url) = match fetched_issue(reply) {
        Ok(info) => (
            info.kind,
            info.state,
            info.title,
            match info.url {
                Some(u) => u,
                None => page,
            },
        ),
        Err(_) => (KIND_ISSUE, "open".to_owned(), None, page),
    };
    let payload = ObjectBuilder::new().put_text("card_id", &call.card_id).put_text(
        "link_id",
        link_id,
    ).put_text("board_id", board_id).build();
    NewLink {
        id: link_id.clone(),
        tenant_id: call.tenant_id.clone(),
        card_id: call.card_id.clone(),
        repo: join_repo(call.repo_owner.as_str(), call.repo_name.as_str()),
        issue_id: call.number,
        state,
        title,
        url,
        kind,
        event: EventRow {
            tenant_id: call.tenant_id.clone(),
            board_id: board_id.clone(),
            event_type: "GitHubLinkAdded",
            payload,
        },
    }
}

/// What a request to link needs next.
pub open spec fn leads_link(
    r: LinkIssueStep,
    call: LinkIssueCall,
    api_base_url: &str,
    link_id: Id,
    facts: LinkIssueFacts,
) -> bool {
    match (facts.board, facts.reply, facts.stored) {
        (None, _, _) => r == (LinkIssueStep::FindBoard {
            card_id: call.card_id,
            tenant_id: call.tenant_id,
        }),
        (Some(None), _, _) => r matches LinkIssueStep::Refuse(e) && e@ == fault(
            Code::NotFound,
            "card not found",
        ),
        (Some(Some(_)), None, _) => r matches LinkIssueStep::FetchIssue { url } && url@
            == issue_endpoint(
            api_base_url@,
            call.repo_owner@,
            call.repo_name@,
            call.number as int,
        ),
        (Some(Some(board_id)), Some(reply), None) => r matches LinkIssueStep::Store(link)
            && is_new_link(link, call, link_id, board_id, reply),
        (Some(Some(_)), Some(_), Some(row)) => r matches LinkIssueStep::Answer(detail)
            && shows_link(detail, row),
    }
}

/// Links a card to an issue: what to do next, given what has been learned. The
/// link is made whether or not GitHub answers.
pub fn link_issue(
    call: &LinkIssueCall,
    api_base_url: &str,
    link_id: &Id,
    facts: &LinkIssueFacts,
) -> (r: LinkIssueStep)
    ensures
        leads_link(r, *call, api_base_url, *link_id, *facts),
{
    match &facts.board {
        None => LinkIssueStep::FindBoard {
            card_id: call.card_id.clone(),
            tenant_id: call.tenant_id.clone(),
        },
        Some(None) => LinkIssueStep::Refuse(Status::not_found("card not found")),
        Some(Some(board_id)) => match &facts.reply {
            None => LinkIssueStep::FetchIssue {
                url: issue_api_url(
                    api_base_url,
                    call.repo_owner.as_str(),
                    call.repo_name.as_str(),
                    call.number,
                ),
            },
            Some(reply) => match &facts.stored {
                None => LinkIssueStep::Store(new_link(call, link_id, board_id, reply)),
                Some(row) => LinkIssueStep::Answer(row.to_detail()),
            },
        },
    }
}

/// A link of a card that may be acted on.
#[derive(Debug)]
pub struct LinkCall {
    pub link_id: Id,
    pub card_id: Id,
    pub tenant_id: String,
}

/// Why a request on a link of a card is refused before anything is looked up.
pub open spec fn link_fault(ctx: RequestContext, link_id: IdArg) -> Option<StatusView> {
    first_of3(
        object_fault(ctx, "invalid card_id"),
        tenant_fault(ctx),
        id_fault(link_id, "invalid link_id"),
    )
}

/// Checks a request to unlink or to refresh a link. The link is looked for on
/// the card that the call was authorized for.
pub fn link_call(ctx: &RequestContext, link_id: &IdArg) -> (r: Result<LinkCall, Status>)
    ensures
        match r {
            Ok(call) => {
                &&& link_fault(*ctx, *link_id) is None
                &&& ctx.object() == Some(call.card_id)
                &&& ctx.tenant() == Some(call.tenant_id)
                &&& link_id.id == Some(call.link_id)
            },
            Err(e) => link_fault(*ctx, *link_id) == Some(e@),
        },
{
    let card_id = checked_id(ctx, "invalid card_id")?;
    let tenant_id = tenant_id_from_request(ctx)?;
    let link_id = require_id(link_id, "invalid link_id")?;
    Ok(LinkCall { link_id, card_id, tenant_id })
}

/// Unlinks: `deleted` links were found and deleted.
pub fn unlink_issue(deleted: u64) -> (r: Result<(), Status>)
    ensures
        match r {
            Ok(_) => deleted > 0,
            Err(e) => deleted == 0 && e@ == fault(Code::NotFound, "github link not found"),
        },
{
    require_rows(deleted, "github link not found")
}

/// A refreshed link, with the event that reports it.
#[derive(Debug)]
pub struct LinkRefresh {
    pub link_id: Id,
    pub card_id: Id,
    pub tenant_id: String,
    pub state: String,
    pub title: Option<String>,
    pub kind: &'static str,
    pub url: String,
    pub event: EventRow,
}

/// What has been learned for a request to refresh a link.
#[derive(Debug)]
pub struct ResyncFacts {
    /// The link, once it was looked for.
    pub link: Option<Option<LinkRow>>,
    /// GitHub's answer.
    pub reply: Option<ApiReply>,
    /// The card's board, once the card was looked for.
    pub board: Option<Option<Id>>,
    /// The link as it was stored.
    pub stored: Option<LinkRow>,
}

/// What a request to refresh a link needs next.
#[derive(Debug)]
pub enum ResyncStep {
    /// Look for the link on the card.
    FindLink { link_id: Id, card_id: Id, tenant_id: String },
    /// Ask GitHub for the issue.
    FetchIssue { url: String },
    /// Look for the board of the card.
    FindBoard { card_id: Id, tenant_id: String },
    /// Store the refreshed link and its event together.
    Store(LinkRefresh),
    Answer(GitHubLinkDetail),
    Refuse(Status),
}

/// The refreshed link holds what GitHub says.
pub open spec fn is_refresh(
    new: LinkRefresh,
    call: LinkCall,
    link: LinkRow,
    body: JsonView,
    board_id: Id,
) -> bool {
    let (owner, name) = repo_parts(link.repo@);
    let state = or_text(body.text_member("state"@), "open"@);
    &&& new.link_id == call.link_id
    &&& new.card_id == call.card_id
    &&& new.tenant_id == call.tenant_id
    &&& new.state@ == state
    &&& opt_view(new.title) == body.text_member("title"@)
    &&& new.kind@ == issue_kind(body)
    &&& new.url@ == or_text(
        body.text_member("html_url"@),
        issue_page(owner, name, link.issue_id as int),
    )
    &&& new.event.tenant_id == call.tenant_id
    &&& new.event.board_id == board_id
    &&& new.event.event_type@ == "GitHubLinkRefreshed"@
    &&& new.event.payload@ == fields().text("card_id", call.card_id@).text("link_id", call.link_id@).text(
        "board_id",
        board_id@,
    ).text("new_state", state).object()
}

fn refreshed_link(call: &LinkCall, link: &LinkRow, info: IssueInfo, board_id: &Id) -> (r: LinkRefresh)
    ensures
        forall|body: JsonView|
            #[trigger] shows_issue(info, body) ==> is_refresh(r, *call, *link, body, *board_id),
{
    let (owner, name) = split_repo(link.repo.as_str());
    let url: String = match info.url {
        Some(u) => u,
        None => fallback_url(owner.as_str(), name.as_str(), link.issue_id),
    };
    let payload = ObjectBuilder::new().put_text("card_id", &call.card_id).put_text(
        "link_id",
        &call.link_id,
    ).put_text("board_id", board_id).put_text("new_state", &info.state).build();
    LinkRefresh {
        link_id: call.link_id.clone(),
        card_id: call.card_id.clone(),
        tenant_id: call.tenant_id.clone(),
        state: info.state,
        title: info.title,
        kind: info.kind,
        url,
        event: EventRow {
            tenant_id: call.tenant_id.clone(),
            board_id: board_id.clone(),
            event_type: "GitHubLinkRefreshed",
            payload,
        },
    }
}

/// What a request to refresh a link needs next.
pub open spec fn leads_resync(
    r: ResyncStep,
    call: LinkCall,
    api_base_url: &str,
    facts: ResyncFacts,
) -> bool {
    match (facts.link, facts.reply, facts.board, facts.stored) {
        (None, _, _, _) => r == (ResyncStep::FindLink {
            link_id: call.link_id,
            card_id: call.card_id,
            tenant_id: call.tenant_id,
        }),
        (Some(None), _, _, _) => r matches ResyncStep::Refuse(e) && e@ == fault(
            Code::NotFound,
            "github link not found",
        ),
        (Some(Some(link)), None, _, _) => r matches ResyncStep::FetchIssue { url } && url@
            == issue_endpoint(
            api_base_url@,
            repo_parts(link.repo@).0,
            repo_parts(link.repo@).1,
            link.issue_id as int,
        ),
        (Some(Some(link)), Some(ApiReply::Body(body)), board, stored) => match (board, stored) {
            (None, _) => r == (ResyncStep::FindBoard {
                card_id: call.card_id,
                tenant_id: call.tenant_id,
            }),
            (Some(None), _) => r matches ResyncStep::Refuse(e) && e@ == fault(
                Code::NotFound,
                "card not found",
            ),
            (Some(Some(board_id)), None) => r matches ResyncStep::Store(new) && is_refresh(
                new,
                call,
                link,
                body@,
                board_id,
            ),
            (Some(Some(_)), Some(row)) => r matches ResyncStep::Answer(detail) && shows_link(
                detail,
                row,
            ),
        },
        (Some(Some(_)), Some(reply), _, _) => r matches ResyncStep::Refuse(e) && issue_fault(
            reply,
        ) == Some(e@),
    }
}

/// Refreshes a link: what to do next, given what has been learned. Nothing is
/// stored unless GitHub answered with an issue.
pub fn resync_link(call: &LinkCall, api_base_url: &str, facts: &ResyncFacts) -> (r: ResyncStep)
    ensures
        leads_resync(r, *call, api_base_url, *facts),
{
    let link = match &facts.link {
        None => {
            return ResyncStep::FindLink {
                link_id: call.link_id.clone(),
                card_id: call.card_id.clone(),
                tenant_id: call.tenant_id.clone(),
            };
        },
        Some(None) => {
            return ResyncStep::Refuse(Status::not_found("github link not found"));
        },
        Some(Some(link)) => link,
    };
    let reply = match &facts.reply {
        None => {
            let (owner, name) = split_repo(link.repo.as_str());
            return ResyncStep::FetchIssue {
                url: issue_api_url(api_base_url, owner.as_str(), name.as_str(), link.issue_id),
            };
        },
        Some(reply) => reply,
    };
    let info = match fetched_issue(reply) {
        Ok(info) => info,
        Err(e) => {
            return ResyncStep::Refuse(e);
        },
    };
    match &facts.board {
        None => ResyncStep::FindBoard {
            card_id: call.card_id.clone(),
            tenant_id: call.tenant_id.clone(),
        },
        Some(None) => ResyncStep::Refuse(Status::not_found("card not found")),
        Some(Some(board_id)) => match &facts.stored {
            None => ResyncStep::Store(refreshed_link(call, link, info, board_id)),
            Some(row) => ResyncStep::Answer(row.to_detail()),
        },
    }
}

/// A search of GitHub's issues.
#[derive(Debug)]
pub struct SearchGithubIssuesRequest {
    pub repo_owner: String,
    pub repo_name: String,
    pub query: String,
    pub limit: i32,
}

/// The query to send to GitHub: where to, and the two parameters.
#[derive(Debug)]
pub struct SearchCall {
    pub url: String,
    pub q: String,
    pub per_page: String,
}

/// How many hits are asked for: 20 where the caller does not say, and 50 at
/// the most.
pub open spec fn search_limit(limit: int) -> int {
    if limit <= 0 {
        DEFAULT_SEARCH_LIMIT as int
    } else if limit > MAX_SEARCH_LIMIT {
        MAX_SEARCH_LIMIT as int
    } else {
        limit
    }
}

/// Checks a search and makes the query for GitHub.
pub fn search_github_issues_call(
    ctx: &RequestContext,
    req: &SearchGithubIssuesRequest,
    api_base_url: &str,
) -> (r: Result<SearchCall, Status>)
    ensures
        match r {
            Ok(call) => {
                &&& object_fault(*ctx, "invalid card_id") is None
                &&& call.url@ == strip_end(api_base_url@, '/') + "/search/issues"@
                &&& call.q@ == trimmed(
                    trimmed(req.query@) + " "@ + search_scope(req.repo_owner@, req.repo_name@),
                )
                &&& call.per_page@ == decimal(search_limit(req.limit as int))
            },
            Err(e) => object_fault(*ctx, "invalid card_id") == Some(e@),
        },
{
    let _card_id = checked_id(ctx, "invalid card_id")?;
    let limit: i32 = if req.limit <= 0 {
        DEFAULT_SEARCH_LIMIT
    } else if req.limit > MAX_SEARCH_LIMIT {
        MAX_SEARCH_LIMIT
    } else {
        req.limit
    };
    let q = build_search_query(req.repo_owner.as_str(), req.repo_name.as_str(), req.query.as_str());
    let mut url: String = trim_end_matches(api_base_url, '/');
    url.append("/search/issues");
    Ok(SearchCall { url, q, per_page: decimal_of(limit as i64) })
}

/// Why there are no hits in the answer.
pub open spec fn search_fault(reply: ApiReply) -> Option<StatusView> {
    match reply {
        ApiReply::Unreachable => Some(fault(Code::Internal, "github search request failed")),
        ApiReply::Failure => Some(
            fault(Code::Internal, "github search returned a non-success status"),
        ),
        ApiReply::Undecodable => Some(
            fault(Code::Internal, "failed to decode github search response"),
        ),
        ApiReply::Body(_) => None,
    }
}

/// The items of a search's answer; none where it has no list of them.
pub open spec fn search_items(body: JsonView) -> Seq<JsonView> {
    match body.list_member("items"@) {
        Some(items) => items,
        None => Seq::empty(),
    }
}

/// The hits in GitHub's answer, in its order.
pub fn search_github_issues(reply: &ApiReply) -> (r: Result<Vec<GitHubIssueResult>, Status>)
    ensures
        match (r, *reply) {
            (Ok(hits), ApiReply::Body(body)) => {
                &&& hits.len() == search_items(body@).len()
                &&& forall|i: int|
                    0 <= i < hits.len() ==> shows_item(#[trigger] hits[i], search_items(body@)[i])
            },
            (Ok(_), _) => false,
            (Err(e), reply) => search_fault(reply) == Some(e@),
        },
{
    let body = match reply {
        ApiReply::Unreachable => {
            return Err(Status::internal("github search request failed"));
        },
        ApiReply::Failure => {
            return Err(Status::internal("github search returned a non-success status"));
        },
        ApiReply::Undecodable => {
            return Err(Status::internal("failed to decode github search response"));
        },
        ApiReply::Body(body) => body,
    };
    let mut hits: Vec<GitHubIssueResult> = Vec::new();
    if let Some(Json::List(items)) = body.get("items") {
        let ghost views = search_items(body@);
        let mut i: usize = 0;
        while i < items.len()
            invariant
                i <= items.len(),
                views.len() == items.len(),
                forall|j: int| 0 <= j < items.len() ==> #[trigger] views[j] == items[j]@,
                hits.len() == i,
                forall|j: int| 0 <= j < i ==> shows_item(#[trigger] hits[j], views[j]),
            decreases items.len() - i,
        {
            assert(views[i as int] == items[i as int]@);
            hits.push(parse_search_item(&items[i]));
            i += 1;
        }
    }
    Ok(hits)
}

/// Linking does not depend on GitHub: where the card is there, no answer of
/// GitHub, nor its silence, keeps the link from being made.
pub proof fn law_link_does_not_need_github(
    r: LinkIssueStep,
    call: LinkIssueCall,
    api_base_url: &str,
    link_id: Id,
    facts: LinkIssueFacts,
)
    requires
        leads_link(r, call, api_base_url, link_id, facts),
        facts.board matches Some(Some(_)),
        facts.reply is Some,
    ensures
        r is Store || r is Answer,
{
}

/// A refresh that GitHub does not answer changes nothing: it is refused.
pub proof fn law_failed_fetch_refreshes_nothing(
    r: ResyncStep,
    call: LinkCall,
    api_base_url: &str,
    facts: ResyncFacts,
)
    requires
        leads_resync(r, call, api_base_url, facts),
        facts.link matches Some(Some(_)),
        facts.reply matches Some(reply) && !(reply is Body),
    ensures
        r is Refuse,
{
}

/// A repository is split at its first slash; without one it is all owner.
pub proof fn law_repository_is_split_at_the_first_slash(repo: Seq<char>, k: int)
    requires
        0 <= k <= repo.len(),
        forall|i: int| 0 <= i < k ==> #[trigger] repo[i] != '/',
    ensures
        k < repo.len() && repo[k] == '/' ==> repo_parts(repo) == (repo.take(k), repo.skip(k + 1)),
        k == repo.len() ==> repo_parts(repo) == (repo, Seq::<char>::empty()),
{
    repo.index_of_first_ensures('/');
    if k < repo.len() && repo[k] == '/' {
        assert(repo.contains('/'));
        assert(repo.index_of_first('/')->Some_0 == k);
    }
}

/// Where GitHub is asked for an issue, and where its page is, is made of the
/// repository's owner and name and the issue's number, in this order.
pub proof fn law_issue_is_found_by_repository_and_number(
    base: Seq<char>,
    owner: Seq<char>,
    name: Seq<char>,
    number: int,
)
    ensures
        repo_path(owner, name) == owner + "/"@ + name,
        issue_page(owner, name, number) == "https://github.com/"@ + (owner + "/"@ + name)
            + "/issues/"@ + decimal(number),
        issue_endpoint(base, owner, name, number) == strip_end(base, '/') + "/repos/"@ + (owner
            + "/"@ + name) + "/issues/"@ + decimal(number),
{
}

/// A search goes through the repository that is named, else through the owner's
/// repositories, else through everything. It asks for as many hits as were
/// asked for, 50 at most, and for 20 where no number is given.
pub proof fn law_search_goes_through_what_is_named(
    owner: Seq<char>,
    name: Seq<char>,
    limit: int,
)
    ensures
        name.len() > 0 ==> search_scope(owner, name) == "repo:"@ + (owner + "/"@ + name),
        name.len() == 0 && owner.len() > 0 ==> search_scope(owner, name) == "user:"@ + owner,
        name.len() == 0 && owner.len() == 0 ==> search_scope(owner, name).len() == 0,
        limit <= 0 ==> search_limit(limit) == 20,
        1 <= limit <= 50 ==> search_limit(limit) == limit,
        limit > 50 ==> search_limit(limit) == 50,
{
}

/// An issue is read from what GitHub says: the title, the state and the page
/// from the members of these names, a pull request by the member that only pull
/// requests have. One without a state is open.
pub proof fn law_issue_is_read_member_by_member(info: IssueInfo, v: JsonView)
    requires
        shows_issue(info, v),
    ensures
        v.member("pull_request"@) is Some ==> info.kind@ == "pull_request"@,
        v.member("pull_request"@) is None ==> info.kind@ == "issue"@,
        match v.text_member("title"@) {
            Some(s) => info.title is Some && info.title->Some_0@ == s,
            None => info.title is None,
        },
        info.state@ == match v.text_member("state"@) {
            Some(s) => s,
            None => "open"@,
        },
        match v.text_member("html_url"@) {
            Some(s) => info.url is Some && info.url->Some_0@ == s,
            None => info.url is None,
        },
{
}

/// A hit of a search is read from what GitHub says: its repository from what
/// follows the last "/repos/" of its address, and everything else from the
/// member of its name. What is missing shows empty, and a hit without a state is
/// open.
pub proof fn law_hit_is_read_member_by_member(r: GitHubIssueResult, v: JsonView)
    requires
        shows_item(r, v),
    ensures
        match v.text_member("repository_url"@) {
            Some(u) => (r.repo_owner@, r.repo_name@) == repo_parts(after_last(u, "/repos/"@)),
            None => r.repo_owner@.len() == 0 && r.repo_name@.len() == 0,
        },
        match v.int_member("number"@) {
            Some(n) => i32::MIN <= n <= i32::MAX ==> r.number == n,
            None => r.number == 0,
        },
        v.member("pull_request"@) is Some ==> r.kind@ == "pull_request"@,
        v.member("pull_request"@) is None ==> r.kind@ == "issue"@,
        r.title@ == match v.text_member("title"@) {
            Some(s) => s,
            None => Seq::empty(),
        },
        r.state@ == match v.text_member("state"@) {
            Some(s) => s,
            None => "open"@,
        },
        r.url@ == match v.text_member("html_url"@) {
            Some(s) => s,
            None => Seq::empty(),
        },
{
}

/// All hits in GitHub's answer count; an answer without a list of them has none.
pub proof fn law_all_hits_count(body: JsonView)
    ensures
        body.list_member("items"@) is Some ==> search_items(body) == body.list_member(
            "items"@,
        )->Some_0,
        body.list_member("items"@) is None ==> search_items(body).len() == 0,
{
}

/// An answer of GitHub is good where it has a body; every other one is refused
/// with words of its own.
pub proof fn law_failed_answers_are_told_apart(reply: ApiReply)
    ensures
        issue_fault(reply) is None <==> reply is Body,
        search_fault(reply) is None <==> reply is Body,
        reply is Unreachable ==> issue_fault(reply) == Some(
            StatusView { code: Code::Internal, message: "github api request failed"@ },
        ) && search_fault(reply) == Some(
            StatusView { code: Code::Internal, message: "github search request failed"@ },
        ),
        reply is Failure ==> issue_fault(reply) == Some(
            StatusView {
                code: Code::Internal,
                message: "github api returned a non-success status"@,
            },
        ) && search_fault(reply) == Some(
            StatusView {
                code: Code::Internal,
                message: "github search returned a non-success status"@,
            },
        ),
        reply is Undecodable ==> issue_fault(reply) == Some(
            StatusView {
                code: Code::Internal,
                message: "failed to decode github api response"@,
            },
        ) && search_fault(reply) == Some(
            StatusView {
                code: Code::Internal,
                message: "failed to decode github search response"@,
            },
        ),
{
}

/// A link is answered as it is stored, with its repository split into owner and
/// name; one without a title shows an empty one.
pub proof fn law_link_is_answered_as_stored(detail: GitHubLinkDetail, row: LinkRow)
    requires
        shows_link(detail, row),
    ensures
        detail.id == row.id,
        detail.card_id == row.card_id,
        (detail.repo_owner@, detail.repo_name@) == repo_parts(row.repo@),
        detail.issue_or_pr_number == row.issue_id,
        detail.kind == row.kind,
        match row.title {
            Some(s) => detail.title@ == s@,
            None => detail.title@.len() == 0,
        },
        detail.state == row.state,
        detail.url == row.url,
        detail.last_synced_at == row.synced_at,
{
}

/// A card's links are those of the card, all of them, each once and in their
/// order.
pub proof fn law_listing_leaves_out_no_link(rows: Seq<LinkRow>, card_id: Id)
    ensures
        exists|at: Seq<int>|
            {
                &&& #[trigger] at.len() == card_links(rows, card_id@).len()
                &&& forall|i: int, j: int|
                    0 <= i < j < at.len() ==> #[trigger] at[i] < #[trigger] at[j]
                &&& forall|k: int| #[trigger]
                    at.contains(k) <==> 0 <= k < rows.len() && rows[k].card_id@ == card_id@
                &&& forall|i: int|
                    0 <= i < at.len() ==> card_links(rows, card_id@)[i] == rows[#[trigger] at[i]]
            },
{
    let at = lemma_filter_selects(rows, |row: LinkRow| row.card_id@ == card_id@);
    assert(at.len() == card_links(rows, card_id@).len());
}

/// A new link is on the card that the call was authorized for and to the issue
/// that the request names. It says of the issue what GitHub says, and where that
/// does not answer, that it is an open issue without a title. It is reported on
/// the card's board.
pub proof fn law_new_link_says_what_github_says(
    r: LinkIssueStep,
    call: LinkIssueCall,
    api_base_url: &str,
    link_id: Id,
    facts: LinkIssueFacts,
    board_id: Id,
)
    requires
        leads_link(r, call, api_base_url, link_id, facts),
    ensures
        facts.board is None ==> r == (LinkIssueStep::FindBoard {
            card_id: call.card_id,
            tenant_id: call.tenant_id,
        }),
        facts.board == Some(None::<Id>) ==> (r matches LinkIssueStep::Refuse(e) && e.code
            == Code::NotFound && e.message@ == "card not found"@),
        facts.board == Some(Some(board_id)) ==> {
            &&& facts.reply is None ==> (r matches LinkIssueStep::FetchIssue { url } && url@
                == issue_endpoint(
                api_base_url@,
                call.repo_owner@,
                call.repo_name@,
                call.number as int,
            ))
            &&& r is Store <==> facts.reply is Some && facts.stored is None
            &&& facts.reply is Some && facts.stored is Some ==> (r matches LinkIssueStep::Answer(
                detail,
            ) && shows_link(detail, facts.stored->Some_0))
        },
        r matches LinkIssueStep::Store(link) ==> {
            let page = issue_page(call.repo_owner@, call.repo_name@, call.number as int);
            &&& link.id == link_id
            &&& link.tenant_id == call.tenant_id
            &&& link.card_id == call.card_id
            &&& link.repo@ == call.repo_owner@ + "/"@ + call.repo_name@
            &&& link.issue_id == call.number
            &&& match facts.reply->Some_0 {
                ApiReply::Body(body) => {
                    &&& link.kind@ == if body@.member("pull_request"@) is Some {
                        "pull_request"@
                    } else {
                        "issue"@
                    }
                    &&& link.state@ == match body@.text_member("state"@) {
                        Some(s) => s,
                        None => "open"@,
                    }
                    &&& match body@.text_member("title"@) {
                        Some(s) => link.title is Some && link.title->Some_0@ == s,
                        None => link.title is None,
                    }
                    &&& link.url@ == match body@.text_member("html_url"@) {
                        Some(s) => s,
                        None => page,
                    }
                },
                _ => {
                    &&& link.kind@ == "issue"@
                    &&& link.state@ == "open"@
                    &&& link.title is None
                    &&& link.url@ == page
                },
            }
            &&& link.event.tenant_id == call.tenant_id
            &&& link.event.board_id == facts.board->Some_0->Some_0
            &&& link.event.event_type@ == "GitHubLinkAdded"@
            &&& link.event.payload@ matches JsonView::Object(members) && members =~= seq![
                ("card_id"@, JsonView::Text(call.card_id@)),
                ("link_id"@, JsonView::Text(link_id@)),
                ("board_id"@, JsonView::Text(facts.board->Some_0->Some_0@)),
            ]
        },
{
}

/// A refreshed link says of its issue what GitHub says now. It is looked for on
/// the card that the call was authorized for, and GitHub is asked for the issue
/// that it is to. The change is reported on the card's board.
pub proof fn law_refreshed_link_says_what_github_says(
    r: ResyncStep,
    call: LinkCall,
    api_base_url: &str,
    facts: ResyncFacts,
    link: LinkRow,
    board_id: Id,
)
    requires
        leads_resync(r, call, api_base_url, facts),
    ensures
        facts.link is None ==> r == (ResyncStep::FindLink {
            link_id: call.link_id,
            card_id: call.card_id,
            tenant_id: call.tenant_id,
        }),
        facts.link == Some(None::<LinkRow>) ==> (r matches ResyncStep::Refuse(e) && e.code
            == Code::NotFound && e.message@ == "github link not found"@),
        facts.link == Some(Some(link)) ==> {
            let body = facts.reply is Some && facts.reply->Some_0 is Body;
            &&& facts.reply is None ==> (r matches ResyncStep::FetchIssue { url } && url@
                == issue_endpoint(
                api_base_url@,
                repo_parts(link.repo@).0,
                repo_parts(link.repo@).1,
                link.issue_id as int,
            ))
            &&& facts.reply is Some && !body ==> (r matches ResyncStep::Refuse(e) && Some(e@)
                == issue_fault(facts.reply->Some_0))
            &&& body && facts.board is None ==> r == (ResyncStep::FindBoard {
                card_id: call.card_id,
                tenant_id: call.tenant_id,
            })
            &&& body && facts.board == Some(None::<Id>) ==> (r matches ResyncStep::Refuse(e)
                && e.code == Code::NotFound && e.message@ == "card not found"@)
            &&& body && facts.board == Some(Some(board_id)) ==> {
                &&& r is Store <==> facts.stored is None
                &&& facts.stored is Some ==> (r matches ResyncStep::Answer(detail) && shows_link(
                    detail,
                    facts.stored->Some_0,
                ))
            }
        },
        r matches ResyncStep::Store(new) ==> {
            let body = facts.reply->Some_0->Body_0@;
            let row = facts.link->Some_0->Some_0;
            &&& new.link_id == call.link_id
            &&& new.card_id == call.card_id
            &&& new.tenant_id == call.tenant_id
            &&& new.kind@ == if body.member("pull_request"@) is Some {
                "pull_request"@
            } else {
                "issue"@
            }
            &&& new.state@ == match body.text_member("state"@) {
                Some(s) => s,
                None => "open"@,
            }
            &&& match body.text_member("title"@) {
                Some(s) => new.title is Some && new.title->Some_0@ == s,
                None => new.title is None,
            }
            &&& new.url@ == match body.text_member("html_url"@) {
                Some(s) => s,
                None => issue_page(
                    repo_parts(row.repo@).0,
                    repo_parts(row.repo@).1,
                    row.issue_id as int,
                ),
            }
            &&& new.event.tenant_id == call.tenant_id
            &&& new.event.board_id == facts.board->Some_0->Some_0
            &&& new.event.event_type@ == "GitHubLinkRefreshed"@
            &&& new.event.payload@ matches JsonView::Object(members) && members =~= seq![
                ("card_id"@, JsonView::Text(call.card_id@)),
                ("link_id"@, JsonView::Text(call.link_id@)),
                ("board_id"@, JsonView::Text(facts.board->Some_0->Some_0@)),
                ("new_state"@, JsonView::Text(new.state@)),
            ]
        },
{
}

/// A request for a card's links needs the card that the call was authorized for
/// and a tenant, and is refused for the first that is missing.
pub proof fn law_links_request_is_refused_in_order(ctx: RequestContext)
    ensures
        list_links_fault(ctx) == if ctx.checked_object_id is None {
            Some(StatusView { code: Code::Internal, message: "missing CheckedObjectId extension"@ })
        } else if ctx.object() is None {
            Some(StatusView { code: Code::InvalidArgument, message: "invalid card_id"@ })
        } else if ctx.tenant() is None {
            Some(StatusView { code: Code::Unauthenticated, message: "missing tenant context"@ })
        } else {
            None
        },
{
}

/// A request to link needs a card, a tenant, an owner and a name without a slash
/// and a number above 0, and is refused for the first that is missing.
pub proof fn law_link_request_is_refused_in_order(ctx: RequestContext, req: LinkIssueRequest)
    ensures
        link_issue_fault(ctx, req) == if ctx.checked_object_id is None {
            Some(StatusView { code: Code::Internal, message: "missing CheckedObjectId extension"@ })
        } else if ctx.object() is None {
            Some(StatusView { code: Code::InvalidArgument, message: "invalid card_id"@ })
        } else if ctx.tenant() is None {
            Some(StatusView { code: Code::Unauthenticated, message: "missing tenant context"@ })
        } else if req.repo_owner@.len() == 0 || req.repo_name@.len() == 0 {
            Some(StatusView { code: Code::InvalidArgument, message: "repo_owner and repo_name are required"@ })
        } else if req.repo_owner@.contains('/') || req.repo_name@.contains('/') {
            Some(StatusView { code: Code::InvalidArgument, message: "repo_owner and repo_name must not contain '/'"@ })
        } else if req.number <= 0 {
            Some(StatusView { code: Code::InvalidArgument, message: "number must be a positive issue/PR number"@ })
        } else {
            None
        },
{
}

/// A request on a link needs the card that the call was authorized for, a tenant
/// and the link, and is refused for the first that is missing.
pub proof fn law_request_on_a_link_is_refused_in_order(ctx: RequestContext, link_id: IdArg)
    ensures
        link_fault(ctx, link_id) == if ctx.checked_object_id is None {
            Some(StatusView { code: Code::Internal, message: "missing CheckedObjectId extension"@ })
        } else if ctx.object() is None {
            Some(StatusView { code: Code::InvalidArgument, message: "invalid card_id"@ })
        } else if ctx.tenant() is None {
            Some(StatusView { code: Code::Unauthenticated, message: "missing tenant context"@ })
        } else if link_id.id is None {
            Some(StatusView { code: Code::InvalidArgument, message: "invalid link_id"@ })
        } else {
            None
        },
{
}

} // verus!
