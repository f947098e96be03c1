//! Attachments of cards.
//!
//! A client asks for a place to upload to, uploads, and confirms. Every request
//! on an attachment is authorized for a card, and the attachment must belong to
//! that card.
use crate::clock::unix_millis;
use crate::context::{checked_id, checked_object_id, id_fault, object_fault, require_id};
use crate::context::{subject_fault, subject_from_request, tenant_fault, tenant_id_from_request};
use crate::context::{Id, IdArg, RequestContext};
use crate::number::{wrap_i64, wrapped_i64};
use crate::page::lemma_filter_selects;
use crate::status::{fault, fault_if, first_fault, first_of5, Code, Status, StatusView};
use crate::timestamp::Timestamp;
use vstd::prelude::*;
use vstd::string::*;

verus! {

/// A stored attachment.
#[derive(Debug)]
pub struct AttachmentRow {
    pub id: Id,
    pub card_id: Id,
    pub s3_key: String,
    pub filename: String,
    pub mimetype: String,
    pub size: i64,
    pub uploaded_by: String,
    pub created_at: Timestamp,
}

/// An attachment as it is answered.
#[derive(Debug)]
pub struct Attachment {
    pub id: Id,
    pub card_id: Id,
    pub s3_key: String,
    pub filename: String,
    pub mime_type: String,
    pub size_bytes: i64,
    pub uploaded_by: String,
    pub uploaded_at: Timestamp,
}

/// `a` shows the attachment in `row`.
pub open spec fn shows_attachment(a: Attachment, row: AttachmentRow) -> bool {
    &&& a.id == row.id
    &&& a.card_id == row.card_id
    &&& a.s3_key == row.s3_key
    &&& a.filename == row.filename
    &&& a.mime_type == row.mimetype
    &&& a.size_bytes == row.size
    &&& a.uploaded_by == row.uploaded_by
    &&& a.uploaded_at == row.created_at
}

/// The attachment as it is answered.
pub fn attachment_from_row(row: &AttachmentRow) -> (r: Attachment)
    ensures
        shows_attachment(r, *row),
{
    Attachment {
        id: row.id.clone(),
        card_id: row.card_id.clone(),
        s3_key: row.s3_key.clone(),
        filename: row.filename.clone(),
        mime_type: row.mimetype.clone(),
        size_bytes: row.size,
        uploaded_by: row.uploaded_by.clone(),
        uploaded_at: row.created_at,
    }
}

/// The attachments among `rows` of the card, in their order.
pub open spec fn card_attachments(rows: Seq<AttachmentRow>, card_id: Seq<char>) -> Seq<
    AttachmentRow,
> {
    rows.filter(|row: AttachmentRow| row.card_id@ == card_id)
}

/// The attachments of the card as they are answered.
pub fn list_attachments_by_card(rows: &Vec<AttachmentRow>, card_id: &Id) -> (r: Vec<Attachment>)
    ensures
        r.len() == card_attachments(rows@, card_id@).len(),
        forall|i: int|
            0 <= i < r.len() ==> shows_attachment(
                #[trigger] r[i],
                card_attachments(rows@, card_id@)[i],
            ),
{
    let ghost keep = |row: AttachmentRow| row.card_id@ == card_id@;
    let mut r: Vec<Attachment> = Vec::new();
    let mut i: usize = 0;
    assert(rows@.take(0).filter(keep).len() == 0) by {
        reveal(Seq::filter);
    }
    while i < rows.len()
        invariant
            i <= rows.len(),
            keep == (|row: AttachmentRow| row.card_id@ == card_id@),
            r.len() == rows@.take(i as int).filter(keep).len(),
            forall|j: int|
                0 <= j < r.len() ==> shows_attachment(
                    #[trigger] r[j],
                    rows@.take(i as int).filter(keep)[j],
                ),
        decreases rows.len() - i,
    {
        proof {
            assert(rows@.take(i + 1).drop_last() =~= rows@.take(i as int));
            reveal(Seq::filter);
        }
        if rows[i].card_id == *card_id {
            r.push(attachment_from_row(&rows[i]));
        }
        i += 1;
    }
    assert(rows@.take(rows@.len() as int) =~= rows@);
    r
}

/// The point in time `secs` seconds after `now`, both in whole seconds since
/// the Unix epoch; a sum out of range stands for the last second there is.
pub open spec fn seconds_after(now: int, secs: int) -> Timestamp {
    let sum = if now + secs > u64::MAX {
        u64::MAX as int
    } else {
        now + secs
    };
    Timestamp { seconds: wrapped_i64(sum) as i64, nanos: 0 }
}

/// The point in time `secs` seconds after `now`.
pub fn secs_after(now: u64, secs: u64) -> (r: Timestamp)
    ensures
        r == seconds_after(now as int, secs as int),
{
    Timestamp { seconds: wrap_i64(now.saturating_add(secs)), nanos: 0 }
}

/// The point in time `secs` seconds from now. The clock counts milliseconds in
/// 64 bits, so that now is never more seconds than those hold.
pub fn now_plus_secs(secs: u64) -> (r: Timestamp)
    ensures
        exists|now: u64|
            now <= u64::MAX / 1000 && r == #[trigger] seconds_after(now as int, secs as int),
{
    let now: u64 = unix_millis() / 1000;
    let r = secs_after(now, secs);
    assert(r == seconds_after(now as int, secs as int));
    r
}

/// What the object store said.
#[derive(Debug)]
pub enum StoreReply {
    /// The object is there, and so large.
    Found { size: i64 },
    NotFound,
    Forbidden,
    /// The store was not reached.
    Http,
    /// The store gave an answer that it should not give.
    Unexpected,
}

/// The refusal that an object store's answer leads to.
pub open spec fn store_fault(reply: StoreReply) -> Option<StatusView> {
    match reply {
        StoreReply::Found { .. } => None,
        StoreReply::NotFound => Some(fault(Code::NotFound, "object not found in S3")),
        StoreReply::Forbidden => Some(fault(Code::PermissionDenied, "S3 access denied")),
        StoreReply::Http => Some(fault(Code::Internal, "S3 request failed")),
        StoreReply::Unexpected => Some(fault(Code::Internal, "S3 unexpected response")),
    }
}

/// The size of the object, or the refusal that the answer leads to.
pub fn s3_err_to_status(reply: &StoreReply) -> (r: Result<i64, Status>)
    ensures
        match (r, *reply) {
            (Ok(n), StoreReply::Found { size }) => n == size,
            (Ok(_), _) => false,
            (Err(e), reply) => store_fault(reply) == Some(e@),
        },
{
    match reply {
        StoreReply::Found { size } => Ok(*size),
        StoreReply::NotFound => Err(Status::not_found("object not found in S3")),
        StoreReply::Forbidden => Err(Status::permission_denied("S3 access denied")),
        StoreReply::Http => Err(Status::internal("S3 request failed")),
        StoreReply::Unexpected => Err(Status::internal("S3 unexpected response")),
    }
}

/// A request to upload that may go ahead.
#[derive(Debug)]
pub struct UploadCall {
    pub tenant_id: String,
    pub subject: String,
    pub card_id: Id,
    pub filename: String,
    pub mime_type: String,
}

/// Why a request to upload is refused.
pub open spec fn upload_fault(
    ctx: RequestContext,
    filename: String,
    mime_type: String,
) -> Option<StatusView> {
    first_of5(
        tenant_fault(ctx),
        subject_fault(ctx),
        object_fault(ctx, "invalid card_id in x-sunbeam-object-id"),
        fault_if(filename@.len() == 0, Code::InvalidArgument, "filename is required"),
        fault_if(mime_type@.len() == 0, Code::InvalidArgument, "mime_type is required"),
    )
}

/// Checks a request to upload to the card that the call was authorized for.
pub fn request_presigned_upload_call(ctx: &RequestContext, filename: String, mime_type: String) -> (r:
    Result<UploadCall, Status>)
    ensures
        match r {
            Ok(call) => {
                &&& upload_fault(*ctx, filename, mime_type) is None
                &&& ctx.tenant() == Some(call.tenant_id)
                &&& ctx.subject() == Some(call.subject)
                &&& ctx.object() == Some(call.card_id)
                &&& call.filename == filename
                &&& call.mime_type == mime_type
            },
            Err(e) => upload_fault(*ctx, filename, mime_type) == Some(e@),
        },
{
    let tenant_id = tenant_id_from_request(ctx)?;
    let subject = subject_from_request(ctx)?;
    let card_id = checked_id(ctx, "invalid card_id in x-sunbeam-object-id")?;
    if filename.as_str().is_empty() {
        return Err(Status::invalid_argument("filename is required"));
    }
    if mime_type.as_str().is_empty() {
        return Err(Status::invalid_argument("mime_type is required"));
    }
    Ok(UploadCall { tenant_id, subject, card_id, filename, mime_type })
}

/// An attachment to be stored, before its object is there. Its size is 0 until
/// the upload is confirmed.
#[derive(Debug)]
pub struct NewAttachment {
    pub id: Id,
    pub tenant_id: String,
    pub card_id: Id,
    pub filename: String,
    pub mimetype: String,
    pub size: i64,
    pub s3_key: String,
    pub uploaded_by: String,
}

/// Where the object of an attachment is kept.
pub open spec fn object_key(card_id: Seq<char>, attachment_id: Seq<char>, filename: Seq<char>) -> Seq<
    char,
> {
    "kanban/cards/"@ + card_id + "/"@ + attachment_id + "/"@ + filename
}

/// The attachment that a request to upload makes; `safe_filename` is its file
/// name made fit for the object store.
pub fn request_presigned_upload(call: &UploadCall, attachment_id: &Id, safe_filename: &String) -> (r:
    NewAttachment)
    ensures
        r.id == *attachment_id,
        r.tenant_id == call.tenant_id,
        r.card_id == call.card_id,
        r.filename == *safe_filename,
        r.mimetype == call.mime_type,
        r.size == 0,
        r.s3_key@ == object_key(call.card_id@, attachment_id@, safe_filename@),
        r.uploaded_by == call.subject,
{
    let mut s3_key: String = "kanban/cards/".to_owned();
    s3_key.append(call.card_id.as_str());
    s3_key.append("/");
    s3_key.append(attachment_id.as_str());
    s3_key.append("/");
    s3_key.append(safe_filename.as_str());
    NewAttachment {
        id: attachment_id.clone(),
        tenant_id: call.tenant_id.clone(),
        card_id: call.card_id.clone(),
        filename: safe_filename.clone(),
        mimetype: call.mime_type.clone(),
        size: 0,
        s3_key,
        uploaded_by: call.subject.clone(),
    }
}

/// An attachment that may be acted on, where it belongs to the card.
#[derive(Debug)]
pub struct AttachmentCall {
    pub tenant_id: String,
    /// The card that the call was authorized for, as it was sent.
    pub checked_card_id: String,
    pub attachment_id: Id,
}

/// Why a request on an attachment is refused before anything is looked up.
pub open spec fn attachment_fault(ctx: RequestContext, attachment_id: IdArg) -> Option<StatusView> {
    if tenant_fault(ctx) is Some {
        tenant_fault(ctx)
    } else if ctx.checked_object_id is None {
        Some(fault(Code::Internal, "missing CheckedObjectId extension"))
    } else {
        id_fault(attachment_id, "invalid attachment_id")
    }
}

/// Checks a request on an attachment.
pub fn attachment_call(ctx: &RequestContext, attachment_id: &IdArg) -> (r: Result<
    AttachmentCall,
    Status,
>)
    ensures
        match r {
            Ok(call) => {
                &&& attachment_fault(*ctx, *attachment_id) is None
                &&& ctx.tenant() == Some(call.tenant_id)
                &&& ctx.checked_object_id->Some_0.text == call.checked_card_id
                &&& attachment_id.id == Some(call.attachment_id)
            },
            Err(e) => attachment_fault(*ctx, *attachment_id) == Some(e@),
        },
{
    let tenant_id = tenant_id_from_request(ctx)?;
    let checked = checked_object_id(ctx)?;
    let attachment_id = require_id(attachment_id, "invalid attachment_id")?;
    Ok(AttachmentCall { tenant_id, checked_card_id: checked.text, attachment_id })
}

/// What has been learned for a request on an attachment.
#[derive(Debug)]
pub struct AttachmentFacts {
    /// The attachment, once it was looked for.
    pub row: Option<Option<AttachmentRow>>,
    /// What the object store said of its object.
    pub head: Option<StoreReply>,
    /// The attachment with its size, once that was stored.
    pub updated: Option<AttachmentRow>,
    /// It was tried to delete the object.
    pub object_deleted: bool,
    /// The attachment was deleted.
    pub deleted: bool,
}

/// What a request on an attachment needs next.
#[derive(Debug)]
pub enum AttachmentStep {
    /// Look for the attachment.
    Find { attachment_id: Id, tenant_id: String },
    /// Ask the object store for the object.
    Head { s3_key: String },
    /// Store the size of the object.
    SetSize { attachment_id: Id, tenant_id: String, size: i64 },
    /// Make a link to download the object with.
    Presign { s3_key: String },
    /// Delete the object; a failure is left for later.
    DeleteObject { s3_key: String },
    /// Delete the attachment.
    Delete { attachment_id: Id, tenant_id: String },
    Answer(Attachment),
    /// The request is done and has nothing to answer.
    Done,
    Refuse(Status),
}

/// `r` refuses, and says exactly `f`.
pub open spec fn drops(r: AttachmentStep, f: StatusView) -> bool {
    r matches AttachmentStep::Refuse(e) && e@ == f
}

/// The attachment was found and belongs to the card that the call was
/// authorized for.
pub open spec fn is_of_card(row: Option<Option<AttachmentRow>>, call: AttachmentCall) -> bool {
    row matches Some(Some(a)) && a.card_id@ == call.checked_card_id@
}

/// `r` looks for the attachment, and refuses where it is not found or belongs to
/// another card.
pub open spec fn finds_attachment(
    r: AttachmentStep,
    call: AttachmentCall,
    row: Option<Option<AttachmentRow>>,
) -> bool {
    match row {
        None => r == (AttachmentStep::Find {
            attachment_id: call.attachment_id,
            tenant_id: call.tenant_id,
        }),
        Some(None) => drops(r, fault(Code::NotFound, "attachment not found")),
        Some(Some(_)) => drops(
            r,
            fault(Code::PermissionDenied, "attachment does not belong to the authorized card"),
        ),
    }
}

fn find_attachment(call: &AttachmentCall, row: &Option<Option<AttachmentRow>>) -> (r: Option<
    AttachmentStep,
>)
    ensures
        match r {
            None => is_of_card(*row, *call),
            Some(step) => !is_of_card(*row, *call) && finds_attachment(step, *call, *row),
        },
{
    match row {
        None => Some(
            AttachmentStep::Find {
                attachment_id: call.attachment_id.clone(),
                tenant_id: call.tenant_id.clone(),
            },
        ),
        Some(None) => Some(AttachmentStep::Refuse(Status::not_found("attachment not found"))),
        Some(Some(a)) => if a.card_id == call.checked_card_id {
            None
        } else {
            Some(
                AttachmentStep::Refuse(
                    Status::permission_denied("attachment does not belong to the authorized card"),
                ),
            )
        },
    }
}

/// Confirms an upload: what to do next, given what has been learned. The size
/// is that of the object in the store, and is stored only where there is one.
pub fn confirm_upload(call: &AttachmentCall, facts: &AttachmentFacts) -> (r: AttachmentStep)
    ensures
        if !is_of_card(facts.row, *call) {
            finds_attachment(r, *call, facts.row)
        } else {
            match (facts.head, facts.updated) {
                (None, _) => r == (AttachmentStep::Head {
                    s3_key: facts.row->Some_0->Some_0.s3_key,
                }),
                (Some(StoreReply::Found { size }), None) => r == (AttachmentStep::SetSize {
                    attachment_id: call.attachment_id,
                    tenant_id: call.tenant_id,
                    size,
                }),
                (Some(StoreReply::Found { .. }), Some(row)) => r matches AttachmentStep::Answer(a)
                    && shows_attachment(a, row),
                (Some(reply), _) => drops(r, store_fault(reply)->Some_0),
            }
        },
{
    if let Some(step) = find_attachment(call, &facts.row) {
        return step;
    }
    let head = match (&facts.head, &facts.row) {
        (None, Some(Some(row))) => {
            return AttachmentStep::Head { s3_key: row.s3_key.clone() };
        },
        (Some(head), _) => head,
        _ => {
            return AttachmentStep::Done;
        },
    };
    let size: i64 = match s3_err_to_status(head) {
        Ok(size) => size,
        Err(e) => {
            return AttachmentStep::Refuse(e);
        },
    };
    match &facts.updated {
        None => AttachmentStep::SetSize {
            attachment_id: call.attachment_id.clone(),
            tenant_id: call.tenant_id.clone(),
            size,
        },
        Some(row) => AttachmentStep::Answer(attachment_from_row(row)),
    }
}

/// Lets a caller download: what to do next, given what has been learned.
pub fn request_presigned_download(call: &AttachmentCall, row: &Option<Option<AttachmentRow>>) -> (r:
    AttachmentStep)
    ensures
        if !is_of_card(*row, *call) {
            finds_attachment(r, *call, *row)
        } else {
            r == (AttachmentStep::Presign { s3_key: row->Some_0->Some_0.s3_key })
        },
{
    if let Some(step) = find_attachment(call, row) {
        return step;
    }
    match row {
        Some(Some(a)) => AttachmentStep::Presign { s3_key: a.s3_key.clone() },
        _ => AttachmentStep::Done,
    }
}

/// Deletes an attachment: what to do next, given what has been learned. The
/// object goes first, and the attachment goes whether or not that worked.
pub fn delete_attachment(call: &AttachmentCall, facts: &AttachmentFacts) -> (r: AttachmentStep)
    ensures
        if !is_of_card(facts.row, *call) {
            finds_attachment(r, *call, facts.row)
        } else if !facts.object_deleted {
            r == (AttachmentStep::DeleteObject { s3_key: facts.row->Some_0->Some_0.s3_key })
        } else if !facts.deleted {
            r == (AttachmentStep::Delete {
                attachment_id: call.attachment_id,
                tenant_id: call.tenant_id,
            })
        } else {
            r is Done
        },
{
    if let Some(step) = find_attachment(call, &facts.row) {
        return step;
    }
    if !facts.object_deleted {
        if let Some(Some(row)) = &facts.row {
            return AttachmentStep::DeleteObject { s3_key: row.s3_key.clone() };
        }
    }
    if !facts.deleted {
        return AttachmentStep::Delete {
            attachment_id: call.attachment_id.clone(),
            tenant_id: call.tenant_id.clone(),
        };
    }
    AttachmentStep::Done
}

/// The body of a request cannot reach past what it was authorized for: an
/// attachment of another card is neither read, changed, downloaded nor deleted.
pub proof fn law_attachment_of_another_card_is_out_of_reach(
    r: AttachmentStep,
    call: AttachmentCall,
    row: Option<Option<AttachmentRow>>,
)
    requires
        row matches Some(Some(a)) && a.card_id@ != call.checked_card_id@,
        finds_attachment(r, call, row),
    ensures
        !is_of_card(row, call),
        drops(
            r,
            fault(Code::PermissionDenied, "attachment does not belong to the authorized card"),
        ),
{
}

/// A card whose attachments may be listed.
#[derive(Debug)]
pub struct CardAttachmentsCall {
    pub tenant_id: String,
    pub card_id: Id,
}

/// Checks a request for the attachments of the card that the call was
/// authorized for.
pub fn list_attachments_call(ctx: &RequestContext) -> (r: Result<CardAttachmentsCall, Status>)
    ensures
        match r {
            Ok(call) => {
                &&& first_fault(
                    tenant_fault(*ctx),
                    object_fault(*ctx, "invalid card_id in x-sunbeam-object-id"),
                ) is None
                &&& ctx.tenant() == Some(call.tenant_id)
                &&& ctx.object() == Some(call.card_id)
            },
            Err(e) => first_fault(
                tenant_fault(*ctx),
                object_fault(*ctx, "invalid card_id in x-sunbeam-object-id"),
            ) == Some(e@),
        },
{
    let tenant_id = tenant_id_from_request(ctx)?;
    let card_id = checked_id(ctx, "invalid card_id in x-sunbeam-object-id")?;
    Ok(CardAttachmentsCall { tenant_id, card_id })
}

/// An attachment is answered as it is stored, each field from its own.
pub proof fn law_attachment_is_answered_as_stored(a: Attachment, row: AttachmentRow)
    ensures
        shows_attachment(a, row) <==> {
            &&& a.id == row.id
            &&& a.card_id == row.card_id
            &&& a.s3_key == row.s3_key
            &&& a.filename == row.filename
            &&& a.mime_type == row.mimetype
            &&& a.size_bytes == row.size
            &&& a.uploaded_by == row.uploaded_by
            &&& a.uploaded_at == row.created_at
        },
{
}

/// A card's attachments are those of the card, all of them, each once and in
/// their order.
pub proof fn law_listing_leaves_out_no_attachment(rows: Seq<AttachmentRow>, card_id: Id)
    ensures
        exists|at: Seq<int>|
            {
                &&& #[trigger] at.len() == card_attachments(rows, card_id@).len()
                &&& forall|i: int, j: int|
                    0 <= i < j < at.len() ==> #[trigger] at[i] < #[trigger] at[j]
                &&& forall|k: int| #[trigger]
                    at.contains(k) <==> 0 <= k < rows.len() && rows[k].card_id@ == card_id@
                &&& forall|i: int|
                    0 <= i < at.len() ==> card_attachments(rows, card_id@)[i]
                        == rows[#[trigger] at[i]]
            },
{
    let at = lemma_filter_selects(rows, |row: AttachmentRow| row.card_id@ == card_id@);
    assert(at.len() == card_attachments(rows, card_id@).len());
}

/// A point in time so many seconds from now lies exactly so many seconds after
/// now, as long as those are counted without wrapping round.
pub proof fn law_time_runs_forward(now: int, secs: int)
    requires
        0 <= now,
        0 <= secs,
        now + secs <= i64::MAX,
    ensures
        seconds_after(now, secs).seconds == now + secs,
        seconds_after(now, secs).nanos == 0,
{
}

/// Beyond what 64 bits count, the point in time is the last that they count,
/// read signed.
pub proof fn law_time_saturates(now: int, secs: int)
    requires
        0 <= now <= u64::MAX,
        0 <= secs <= u64::MAX,
        now + secs > i64::MAX,
    ensures
        now + secs >= u64::MAX ==> seconds_after(now, secs).seconds == -1,
        now + secs < u64::MAX ==> seconds_after(now, secs).seconds == now + secs - u64::MAX - 1,
        seconds_after(now, secs).nanos == 0,
{
}

/// The object of an attachment is kept under its card, then the attachment, then
/// its file name. Two attachments are never kept in one place: where the
/// identifiers are equally long, the place tells card, attachment and name.
pub proof fn law_object_key_tells_what_it_holds(
    card_id: Seq<char>,
    attachment_id: Seq<char>,
    filename: Seq<char>,
    other_card: Seq<char>,
    other_id: Seq<char>,
    other_name: Seq<char>,
)
    requires
        card_id.len() == other_card.len(),
        attachment_id.len() == other_id.len(),
    ensures
        object_key(card_id, attachment_id, filename) == "kanban/cards/"@ + card_id + "/"@
            + attachment_id + "/"@ + filename,
        object_key(card_id, attachment_id, filename) == object_key(
            other_card,
            other_id,
            other_name,
        ) ==> card_id == other_card && attachment_id == other_id && filename == other_name,
{
    reveal_strlit("/");
    let (a, b) = (
        object_key(card_id, attachment_id, filename),
        object_key(other_card, other_id, other_name),
    );
    let start = "kanban/cards/"@.len() as int;
    let mid = start + card_id.len() + 1;
    let end = mid + attachment_id.len() + 1;
    assert(a.subrange(start, start + card_id.len()) =~= card_id);
    assert(b.subrange(start, start + card_id.len()) =~= other_card);
    assert(a.subrange(mid, mid + attachment_id.len()) =~= attachment_id);
    assert(b.subrange(mid, mid + attachment_id.len()) =~= other_id);
    assert(a.skip(end) =~= filename);
    assert(b.skip(end) =~= other_name);
}

/// Where the object store has the object there is nothing to refuse; every other
/// answer of it is refused with words of its own.
pub proof fn law_store_answers_are_told_apart(reply: StoreReply)
    ensures
        store_fault(reply) is None <==> reply is Found,
        reply is NotFound ==> store_fault(reply) == Some(
            StatusView { code: Code::NotFound, message: "object not found in S3"@ },
        ),
        reply is Forbidden ==> store_fault(reply) == Some(
            StatusView { code: Code::PermissionDenied, message: "S3 access denied"@ },
        ),
        reply is Http ==> store_fault(reply) == Some(
            StatusView { code: Code::Internal, message: "S3 request failed"@ },
        ),
        reply is Unexpected ==> store_fault(reply) == Some(
            StatusView { code: Code::Internal, message: "S3 unexpected response"@ },
        ),
{
}

/// An attachment is acted on where it belongs to the card that the call was
/// authorized for. It is looked for first, and refused where it is not there or
/// belongs to another card.
pub proof fn law_attachment_belongs_to_the_card(
    r: AttachmentStep,
    call: AttachmentCall,
    row: Option<Option<AttachmentRow>>,
    a: AttachmentRow,
    code: Code,
    message: &str,
)
    ensures
        is_of_card(Some(Some(a)), call) <==> a.card_id@ == call.checked_card_id@,
        !is_of_card(None, call),
        !is_of_card(Some(None), call),
        finds_attachment(r, call, None) <==> r == (AttachmentStep::Find {
            attachment_id: call.attachment_id,
            tenant_id: call.tenant_id,
        }),
        finds_attachment(r, call, Some(None)) <==> (r matches AttachmentStep::Refuse(e) && e.code
            == Code::NotFound && e.message@ == "attachment not found"@),
        finds_attachment(r, call, Some(Some(a))) <==> (r matches AttachmentStep::Refuse(e)
            && e.code == Code::PermissionDenied && e.message@
            == "attachment does not belong to the authorized card"@),
        drops(r, fault(code, message)) <==> (r matches AttachmentStep::Refuse(e) && e.code == code
            && e.message@ == message@),
{
}

/// A request to upload needs a tenant, a caller, the card that the call was
/// authorized for, a file name and a type, and is refused for the first that is
/// missing.
pub proof fn law_upload_request_is_refused_in_order(ctx: RequestContext, filename: String, mime_type: String)
    ensures
        upload_fault(ctx, filename, mime_type) == if ctx.tenant() is None {
            Some(StatusView { code: Code::Unauthenticated, message: "missing tenant context"@ })
        } else if ctx.subject() is None {
            Some(StatusView { code: Code::Unauthenticated, message: "missing auth context"@ })
        } else if ctx.checked_object_id is None {
            Some(StatusView { code: Code::Internal, message: "missing CheckedObjectId extension"@ })
        } else if ctx.object() is None {
            Some(StatusView { code: Code::InvalidArgument, message: "invalid card_id in x-sunbeam-object-id"@ })
        } else if filename@.len() == 0 {
            Some(StatusView { code: Code::InvalidArgument, message: "filename is required"@ })
        } else if mime_type@.len() == 0 {
            Some(StatusView { code: Code::InvalidArgument, message: "mime_type is required"@ })
        } else {
            None
        },
{
}

/// A request on an attachment needs a tenant, a card that the call was
/// authorized for and the attachment, and is refused for the first that is
/// missing.
pub proof fn law_attachment_request_is_refused_in_order(ctx: RequestContext, attachment_id: IdArg)
    ensures
        attachment_fault(ctx, attachment_id) == if ctx.tenant() is None {
            Some(StatusView { code: Code::Unauthenticated, message: "missing tenant context"@ })
        } else if ctx.checked_object_id is None {
            Some(StatusView { code: Code::Internal, message: "missing CheckedObjectId extension"@ })
        } else if attachment_id.id is None {
            Some(StatusView { code: Code::InvalidArgument, message: "invalid attachment_id"@ })
        } else {
            None
        },
{
}

} // verus!
