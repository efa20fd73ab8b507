//! What the handlers share: the start of the plans that begin with the role of
//! the caller, and how a statement of the store that failed is reported.

use vstd::prelude::*;
use vstd::string::StringExecFns;
use crate::access::{
    Access, Operation, PrincipalFault, decision, principal_error, refusal, role_text,
};
use crate::error::{AppError, ErrorView, unexpected_reply};
use crate::models::{Id, OrganizationMember};
use crate::store::protocol::{Fault, Progress, Reply, Statement, fault_of};

verus! {

/// The error for a fault while something was tried: the detail of a failed
/// statement stays out of the message.
pub open spec fn failure_while(fault: Fault, doing: Seq<char>) -> ErrorView {
    match fault {
        Fault::Failed(_) => ErrorView::DatabaseError(doing),
        Fault::Unexpected => unexpected_reply(),
    }
}

/// The error for a fault, with the text of a failed statement as the message.
pub open spec fn failure_with_text(fault: Fault) -> ErrorView {
    match fault {
        Fault::Failed(text) => ErrorView::DatabaseError(text@),
        Fault::Unexpected => unexpected_reply(),
    }
}

/// The error for a fault, as a failure of the driver of the store.
pub open spec fn driver_failure(fault: Fault) -> ErrorView {
    match fault {
        Fault::Failed(text) => ErrorView::Database(text@),
        Fault::Unexpected => unexpected_reply(),
    }
}

/// The error for a fault while something was tried.
pub fn failed_while(fault: Fault, doing: &str) -> (error: AppError)
    ensures
        error@ == failure_while(fault, doing@),
{
    match fault {
        Fault::Failed(_) => AppError::DatabaseError(String::from_str(doing)),
        Fault::Unexpected => AppError::unexpected(),
    }
}

/// The error for a fault, with the text of a failed statement as the message.
pub fn failed_with_text(fault: Fault) -> (error: AppError)
    ensures
        error@ == failure_with_text(fault),
{
    match fault {
        Fault::Failed(text) => AppError::DatabaseError(text),
        Fault::Unexpected => AppError::unexpected(),
    }
}

/// The error for a fault, as a failure of the driver of the store.
pub fn failed_in_driver(fault: Fault) -> (error: AppError)
    ensures
        error@ == driver_failure(fault),
{
    match fault {
        Fault::Failed(text) => AppError::Database(text),
        Fault::Unexpected => AppError::unexpected(),
    }
}

/// The role of a membership that was looked up.
pub open spec fn role_of_member(member: Option<OrganizationMember>) -> Option<String> {
    match member {
        Some(m) => Some(m.role),
        None => None,
    }
}

/// The role of a membership that was looked up.
pub fn member_role(member: &Option<OrganizationMember>) -> (role: Option<String>)
    ensures
        role == role_of_member(*member),
{
    match member {
        Some(m) => Some(m.role.clone()),
        None => None,
    }
}

/// The common start of the plans that begin with the role of the caller: a
/// caller without identifier is refused; with no reply yet, the role is asked
/// for by a statement that `asks` accepts; a role that does not permit the
/// operation ends the request; a permitted caller goes on as `then` says.
pub open spec fn gated<T>(
    step: Result<Progress<T>, AppError>,
    user_id: Option<Id>,
    op: Operation,
    replies: Seq<Reply>,
    doing: Seq<char>,
    asks: spec_fn(Statement, Id) -> bool,
    then: spec_fn(Id) -> bool,
) -> bool {
    match user_id {
        None => step matches Err(e) && e@ == principal_error(PrincipalFault::Authentication),
        Some(uid) => if replies.len() == 0 {
            step matches Ok(Progress::Ask(statement)) && asks(statement, uid)
        } else {
            match replies[0] {
                Reply::Role(role) => if decision(op, role_text(role)) != Access::Permitted {
                    step matches Err(e) && e@ == refusal(op, role_text(role))
                } else {
                    then(uid)
                },
                other => step matches Err(e) && e@ == failure_while(fault_of(other), doing),
            }
        },
    }
}

} // verus!
