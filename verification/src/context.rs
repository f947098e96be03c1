//! Who is calling, and which object the call was authorized for.
use crate::status::{fault, fault_if, Code, Status, StatusView};
use vstd::prelude::*;

verus! {

/// The identifier of a stored object, in its canonical text form.
pub type Id = String;

/// An identifier as a request carries it: the text that was sent, and the
/// identifier it parses to, if it is one.
#[derive(Clone, Debug)]
pub struct IdArg {
    pub text: String,
    pub id: Option<Id>,
}

/// The verified claims of a caller's token, as far as the services read them.
#[derive(Clone, Debug)]
pub struct AuthContext {
    /// The tenant that the caller acts in.
    pub tenant_id: Option<String>,
    /// The caller.
    pub subject: Option<String>,
    /// When the token expires, in seconds since the Unix epoch.
    pub exp: Option<i64>,
}

/// What the layers before a service attached to a request.
#[derive(Clone, Debug)]
pub struct RequestContext {
    /// The object that the permission check in front of the service passed on.
    pub checked_object_id: Option<IdArg>,
    pub auth: Option<AuthContext>,
}

impl RequestContext {
    /// The caller's tenant, where there is one.
    pub open spec fn tenant(self) -> Option<String> {
        match self.auth {
            Some(a) => a.tenant_id,
            None => None,
        }
    }

    /// The caller, where the token names one.
    pub open spec fn subject(self) -> Option<String> {
        match self.auth {
            Some(a) => a.subject,
            None => None,
        }
    }

    /// The object that the call was authorized for, where it is an identifier.
    pub open spec fn object(self) -> Option<Id> {
        match self.checked_object_id {
            Some(arg) => arg.id,
            None => None,
        }
    }
}

/// Why the object that the call was authorized for is not an identifier.
pub open spec fn object_fault(ctx: RequestContext, message: &str) -> Option<StatusView> {
    match ctx.checked_object_id {
        Some(arg) => id_fault(arg, message),
        None => Some(fault(Code::Internal, "missing CheckedObjectId extension")),
    }
}

/// Why the text is not an identifier.
pub open spec fn id_fault(arg: IdArg, message: &str) -> Option<StatusView> {
    fault_if(arg.id is None, Code::InvalidArgument, message)
}

/// Why there is no tenant to act in.
pub open spec fn tenant_fault(ctx: RequestContext) -> Option<StatusView> {
    fault_if(ctx.tenant() is None, Code::Unauthenticated, "missing tenant context")
}

/// Why there is no caller.
pub open spec fn subject_fault(ctx: RequestContext) -> Option<StatusView> {
    fault_if(ctx.subject() is None, Code::Unauthenticated, "missing auth context")
}

/// The object that the call was authorized for, as it was sent.
pub fn checked_object_id(ctx: &RequestContext) -> (r: Result<IdArg, Status>)
    ensures
        match r {
            Ok(arg) => ctx.checked_object_id == Some(arg),
            Err(e) => ctx.checked_object_id is None && e@ == fault(
                Code::Internal,
                "missing CheckedObjectId extension",
            ),
        },
{
    match &ctx.checked_object_id {
        Some(arg) => Ok(copy_id_arg(arg)),
        None => Err(Status::internal("missing CheckedObjectId extension")),
    }
}

/// The caller.
pub fn subject_from_request(ctx: &RequestContext) -> (r: Result<String, Status>)
    ensures
        match r {
            Ok(subject) => ctx.subject() == Some(subject),
            Err(e) => subject_fault(*ctx) == Some(e@),
        },
{
    if let Some(auth) = &ctx.auth {
        if let Some(subject) = &auth.subject {
            return Ok(subject.clone());
        }
    }
    Err(Status::unauthenticated("missing auth context"))
}

/// The tenant that the caller acts in.
pub fn tenant_id_from_request(ctx: &RequestContext) -> (r: Result<String, Status>)
    ensures
        match r {
            Ok(tenant) => ctx.tenant() == Some(tenant),
            Err(e) => tenant_fault(*ctx) == Some(e@),
        },
{
    if let Some(auth) = &ctx.auth {
        if let Some(tenant) = &auth.tenant_id {
            return Ok(tenant.clone());
        }
    }
    Err(Status::unauthenticated("missing tenant context"))
}

/// The identifier that `arg` parses to, or `message` as an invalid argument.
pub fn require_id(arg: &IdArg, message: &str) -> (r: Result<Id, Status>)
    ensures
        match r {
            Ok(id) => arg.id == Some(id),
            Err(e) => id_fault(*arg, message) == Some(e@),
        },
{
    match &arg.id {
        Some(id) => Ok(id.clone()),
        None => Err(Status::invalid_argument(message)),
    }
}

/// The object that the call was authorized for, or `message` where it is not an
/// identifier.
pub fn checked_id(ctx: &RequestContext, message: &str) -> (r: Result<Id, Status>)
    ensures
        match r {
            Ok(id) => ctx.object() == Some(id),
            Err(e) => object_fault(*ctx, message) == Some(e@),
        },
{
    match checked_object_id(ctx) {
        Ok(arg) => require_id(&arg, message),
        Err(e) => Err(e),
    }
}

/// An optional identifier: none where it is left out or is not one.
pub open spec fn optional_id(arg: IdArg) -> Option<Id> {
    if arg.text@.len() == 0 {
        None
    } else {
        arg.id
    }
}

/// An optional identifier.
pub fn optional_id_of(arg: &IdArg) -> (r: Option<Id>)
    ensures
        r == optional_id(*arg),
{
    if arg.text.as_str().is_empty() {
        None
    } else {
        match &arg.id {
            Some(id) => Some(id.clone()),
            None => None,
        }
    }
}

/// The identifiers among what was sent, in their order; what is none is left
/// out.
pub open spec fn parsed_ids(args: Seq<IdArg>) -> Seq<Id>
    decreases args.len(),
{
    if args.len() == 0 {
        Seq::empty()
    } else {
        match args.last().id {
            Some(id) => parsed_ids(args.drop_last()).push(id),
            None => parsed_ids(args.drop_last()),
        }
    }
}

/// The identifiers among what was sent.
pub fn parse_ids(args: &Vec<IdArg>) -> (r: Vec<Id>)
    ensures
        r@ == parsed_ids(args@),
{
    let mut r: Vec<Id> = Vec::new();
    let mut i: usize = 0;
    while i < args.len()
        invariant
            i <= args.len(),
            r@ == parsed_ids(args@.take(i as int)),
        decreases args.len() - i,
    {
        assert(args@.take(i + 1).drop_last() =~= args@.take(i as int));
        if let Some(id) = &args[i].id {
            r.push(id.clone());
        }
        i += 1;
    }
    assert(args@.take(args@.len() as int) =~= args@);
    r
}

/// A copy of an optional text.
pub fn copy_text(text: &Option<String>) -> (r: Option<String>)
    ensures
        r == *text,
{
    match text {
        Some(t) => Some(t.clone()),
        None => None,
    }
}

/// A copy of a request's identifier.
pub fn copy_id_arg(arg: &IdArg) -> (r: IdArg)
    ensures
        r == *arg,
{
    IdArg { text: arg.text.clone(), id: copy_text(&arg.id) }
}

/// A call names its tenant and its caller by its token alone, and its object by
/// what was authorized alone. What is missing is refused, each with its own
/// words.
pub proof fn law_missing_context_is_refused(ctx: RequestContext, message: &str)
    ensures
        ctx.tenant() is Some <==> (ctx.auth matches Some(a) && a.tenant_id is Some),
        ctx.subject() is Some <==> (ctx.auth matches Some(a) && a.subject is Some),
        ctx.auth matches Some(a) ==> ctx.tenant() == a.tenant_id && ctx.subject() == a.subject,
        ctx.checked_object_id matches Some(arg) ==> ctx.object() == arg.id,
        ctx.checked_object_id is None ==> ctx.object() is None,
        tenant_fault(ctx) == if ctx.tenant() is Some {
            None
        } else {
            Some(
                StatusView {
                    code: Code::Unauthenticated,
                    message: "missing tenant context"@,
                },
            )
        },
        subject_fault(ctx) == if ctx.subject() is Some {
            None
        } else {
            Some(StatusView { code: Code::Unauthenticated, message: "missing auth context"@ })
        },
        object_fault(ctx, message) == if ctx.checked_object_id is None {
            Some(
                StatusView {
                    code: Code::Internal,
                    message: "missing CheckedObjectId extension"@,
                },
            )
        } else if ctx.object() is None {
            Some(StatusView { code: Code::InvalidArgument, message: message@ })
        } else {
            None
        },
{
}

/// What is not an identifier is refused, where an identifier is needed; where
/// it is not, it counts as none.
pub proof fn law_no_identifier_is_refused(arg: IdArg, message: &str)
    ensures
        arg.id is Some ==> id_fault(arg, message) is None,
        arg.id is None ==> id_fault(arg, message) == Some(
            StatusView { code: Code::InvalidArgument, message: message@ },
        ),
        arg.text@.len() == 0 ==> optional_id(arg) is None,
        arg.text@.len() > 0 ==> optional_id(arg) == arg.id,
{
}

/// Every identifier in a list is kept, whatever its place.
pub proof fn law_parsed_ids_are_the_identifiers(args: Seq<IdArg>, id: Id)
    ensures
        parsed_ids(args).contains(id) <==> exists|i: int|
            0 <= i < args.len() && #[trigger] args[i].id == Some(id),
        parsed_ids(args).len() <= args.len(),
    decreases args.len(),
{
    if args.len() > 0 {
        let front = args.drop_last();
        law_parsed_ids_are_the_identifiers(front, id);
        let kept = parsed_ids(front);
        if parsed_ids(args).contains(id) {
            let k = choose|k: int| 0 <= k < parsed_ids(args).len() && parsed_ids(args)[k] == id;
            if k < kept.len() {
                assert(kept[k] == id);
                let i = choose|i: int| 0 <= i < front.len() && #[trigger] front[i].id == Some(id);
                assert(args[i].id == Some(id));
            } else {
                assert(args[args.len() - 1].id == Some(id));
            }
        }
        if exists|i: int| 0 <= i < args.len() && #[trigger] args[i].id == Some(id) {
            let i = choose|i: int| 0 <= i < args.len() && #[trigger] args[i].id == Some(id);
            if i < front.len() {
                assert(front[i].id == Some(id));
                let k = choose|k: int| 0 <= k < kept.len() && kept[k] == id;
                assert(parsed_ids(args)[k] == id);
            } else {
                assert(parsed_ids(args)[kept.len() as int] == id);
            }
        }
    }
}

/// Where everything in a list is an identifier, all are kept, in their order.
pub proof fn law_all_identifiers_are_kept(args: Seq<IdArg>)
    requires
        forall|i: int| 0 <= i < args.len() ==> (#[trigger] args[i]).id is Some,
    ensures
        parsed_ids(args).len() == args.len(),
        forall|i: int| 0 <= i < args.len() ==> args[i].id == Some(#[trigger] parsed_ids(args)[i]),
    decreases args.len(),
{
    if args.len() > 0 {
        let front = args.drop_last();
        assert forall|i: int| 0 <= i < front.len() implies (#[trigger] front[i]).id is Some by {
            assert(args[i].id is Some);
        }
        law_all_identifiers_are_kept(front);
        assert forall|i: int| 0 <= i < args.len() implies args[i].id == Some(
            #[trigger] parsed_ids(args)[i],
        ) by {
            if i < front.len() {
                assert(front[i].id == Some(parsed_ids(front)[i]));
            }
        }
    }
}

/// Lists of identifiers are read piece by piece: what stands behind does not
/// change what is kept of what stands before.
pub proof fn law_parsed_ids_piece_by_piece(args: Seq<IdArg>, more: Seq<IdArg>, arg: IdArg)
    ensures
        parsed_ids(args + more) == parsed_ids(args) + parsed_ids(more),
        parsed_ids(seq![arg]) == match arg.id {
            Some(id) => seq![id],
            None => Seq::<Id>::empty(),
        },
    decreases more.len(),
{
    reveal_with_fuel(parsed_ids, 2);
    assert(seq![arg].drop_last() =~= Seq::<IdArg>::empty());
    if arg.id is Some {
        assert(parsed_ids(seq![arg]) =~= seq![arg.id->Some_0]);
    }
    if more.len() == 0 {
        assert(args + more =~= args);
    } else {
        assert((args + more).drop_last() =~= args + more.drop_last());
        law_parsed_ids_piece_by_piece(args, more.drop_last(), arg);
    }
    assert(parsed_ids(args + more) =~= parsed_ids(args) + parsed_ids(more));
}

} // verus!
