//! Links from cards to Forgejo issues, which are not offered yet.
use crate::status::{fault, refused, Code, Status};
use vstd::prelude::*;

verus! {

/// The service for links to Forgejo. It answers nothing but that it is not
/// there yet.
#[derive(Clone, Copy, Debug)]
pub struct ForgejoServiceImpl;

impl ForgejoServiceImpl {
    pub fn link_issue(&self) -> (r: Result<(), Status>)
        ensures
            refused(r, fault(Code::Unimplemented, "Stage 3 stub")),
    {
        Err(Status::new(Code::Unimplemented, "Stage 3 stub"))
    }

    pub fn unlink_issue(&self) -> (r: Result<(), Status>)
        ensures
            refused(r, fault(Code::Unimplemented, "Stage 3 stub")),
    {
        Err(Status::new(Code::Unimplemented, "Stage 3 stub"))
    }

    pub fn list_links_by_card(&self) -> (r: Result<(), Status>)
        ensures
            refused(r, fault(Code::Unimplemented, "Stage 3 stub")),
    {
        Err(Status::new(Code::Unimplemented, "Stage 3 stub"))
    }

    pub fn search_forgejo_issues(&self) -> (r: Result<(), Status>)
        ensures
            refused(r, fault(Code::Unimplemented, "Stage 3 stub")),
    {
        Err(Status::new(Code::Unimplemented, "Stage 3 stub"))
    }

    pub fn resync_link(&self) -> (r: Result<(), Status>)
        ensures
            refused(r, fault(Code::Unimplemented, "Stage 3 stub")),
    {
        Err(Status::new(Code::Unimplemented, "Stage 3 stub"))
    }
}

} // verus!
