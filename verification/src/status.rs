//! The status a refused or failed call is answered with.
use vstd::prelude::*;

verus! {

/// The kinds of failure a call can end in.
#[derive(Clone, Copy, Debug, PartialEq, Eq, Structural)]
pub enum Code {
    InvalidArgument,
    NotFound,
    AlreadyExists,
    PermissionDenied,
    Unauthenticated,
    ResourceExhausted,
    Unimplemented,
    Internal,
}

/// A failure: its kind and the message for the caller.
#[derive(Clone, Debug)]
pub struct Status {
    pub code: Code,
    pub message: String,
}

/// What a `Status` says.
pub struct StatusView {
    pub code: Code,
    pub message: Seq<char>,
}

impl View for Status {
    type V = StatusView;

    open spec fn view(&self) -> StatusView {
        StatusView { code: self.code, message: self.message@ }
    }
}

/// The status with the given kind and message.
pub open spec fn fault(code: Code, message: &str) -> StatusView {
    StatusView { code, message: message@ }
}

/// The fault `f` where `cond` holds.
pub open spec fn fault_if(cond: bool, code: Code, message: &str) -> Option<StatusView> {
    if cond {
        Some(fault(code, message))
    } else {
        None
    }
}

/// The first of two faults, in the order in which they are looked for.
pub open spec fn first_fault(a: Option<StatusView>, b: Option<StatusView>) -> Option<StatusView> {
    if a is Some {
        a
    } else {
        b
    }
}

/// The first of three faults.
pub open spec fn first_of3(
    a: Option<StatusView>,
    b: Option<StatusView>,
    c: Option<StatusView>,
) -> Option<StatusView> {
    first_fault(a, first_fault(b, c))
}

/// The first of four faults.
pub open spec fn first_of4(
    a: Option<StatusView>,
    b: Option<StatusView>,
    c: Option<StatusView>,
    d: Option<StatusView>,
) -> Option<StatusView> {
    first_fault(a, first_of3(b, c, d))
}

/// The first of five faults.
pub open spec fn first_of5(
    a: Option<StatusView>,
    b: Option<StatusView>,
    c: Option<StatusView>,
    d: Option<StatusView>,
    e: Option<StatusView>,
) -> Option<StatusView> {
    first_fault(a, first_of4(b, c, d, e))
}

/// The outcome `r` is a refusal that says exactly `f`.
pub open spec fn refused<T>(r: Result<T, Status>, f: StatusView) -> bool {
    r is Err && r->Err_0@ == f
}

impl Status {
    /// A status of the given kind.
    pub fn new(code: Code, message: &str) -> (r: Status)
        ensures
            r@ == fault(code, message),
    {
        Status { code, message: message.to_owned() }
    }

    pub fn invalid_argument(message: &str) -> (r: Status)
        ensures
            r@ == fault(Code::InvalidArgument, message),
    {
        Status::new(Code::InvalidArgument, message)
    }

    pub fn not_found(message: &str) -> (r: Status)
        ensures
            r@ == fault(Code::NotFound, message),
    {
        Status::new(Code::NotFound, message)
    }

    pub fn permission_denied(message: &str) -> (r: Status)
        ensures
            r@ == fault(Code::PermissionDenied, message),
    {
        Status::new(Code::PermissionDenied, message)
    }

    pub fn unauthenticated(message: &str) -> (r: Status)
        ensures
            r@ == fault(Code::Unauthenticated, message),
    {
        Status::new(Code::Unauthenticated, message)
    }

    pub fn internal(message: &str) -> (r: Status)
        ensures
            r@ == fault(Code::Internal, message),
    {
        Status::new(Code::Internal, message)
    }
}

/// Some row was changed, or `message` says that there was none.
pub fn require_rows(rows: u64, message: &str) -> (r: Result<(), Status>)
    ensures
        match r {
            Ok(_) => rows > 0,
            Err(e) => rows == 0 && e@ == fault(Code::NotFound, message),
        },
{
    if rows == 0 {
        Err(Status::not_found(message))
    } else {
        Ok(())
    }
}

/// A refusal says its code and its words, and nothing else.
pub proof fn law_fault_says_code_and_words(status: Status, code: Code, message: &str)
    ensures
        status@ == fault(code, message) <==> status.code == code && status.message@ == message@,
        fault_if(true, code, message) == Some(StatusView { code, message: message@ }),
        fault_if(false, code, message) is None,
{
}

/// Of several refusals the first one counts, and a request goes ahead only
/// where there is none.
pub proof fn law_first_refusal_counts(
    a: Option<StatusView>,
    b: Option<StatusView>,
    c: Option<StatusView>,
    d: Option<StatusView>,
    e: Option<StatusView>,
)
    ensures
        a is Some ==> first_of5(a, b, c, d, e) == a,
        a is None && b is Some ==> first_of5(a, b, c, d, e) == b,
        a is None && b is None && c is Some ==> first_of5(a, b, c, d, e) == c,
        a is None && b is None && c is None && d is Some ==> first_of5(a, b, c, d, e) == d,
        a is None && b is None && c is None && d is None ==> first_of5(a, b, c, d, e) == e,
        first_of4(a, b, c, d) == first_of5(a, b, c, d, None),
        first_of3(a, b, c) == first_of5(a, b, c, None, None),
        first_fault(a, b) == first_of5(a, b, None, None, None),
{
}

/// A request that is refused is not answered, and says exactly what for.
pub proof fn law_refused_is_not_answered<T>(r: Result<T, Status>, code: Code, message: &str)
    ensures
        refused(r, fault(code, message)) <==> (r matches Err(e) && e.code == code && e.message@
            == message@),
{
}

} // verus!
