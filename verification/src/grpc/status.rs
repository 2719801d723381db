//! gRPC statuses.

use vstd::prelude::*;

verus! {

#[verifier::external_type_specification]
#[verifier::external_body]
pub struct ExStatus(tonic::Status);

/// The status that `tonic::Status::unauthenticated` makes from a message.
pub uninterp spec fn unauthenticated(message: Seq<char>) -> tonic::Status;

/// The status that `tonic::Status::not_found` makes from a message.
pub uninterp spec fn not_found(message: Seq<char>) -> tonic::Status;

/// The status that `tonic::Status::internal` makes from a message.
pub uninterp spec fn internal(message: Seq<char>) -> tonic::Status;

/// The status that `tonic::Status::unimplemented` makes from a message.
pub uninterp spec fn unimplemented(message: Seq<char>) -> tonic::Status;

/// `tonic::Status::unauthenticated`: a status with code `Unauthenticated` and the message.
#[verifier::external_body]
pub(crate) fn status_unauthenticated(message: String) -> (r: tonic::Status)
    ensures
        r == unauthenticated(message@),
{
    tonic::Status::unauthenticated(message)
}

/// `tonic::Status::not_found`: a status with code `NotFound` and the message.
#[verifier::external_body]
pub(crate) fn status_not_found(message: String) -> (r: tonic::Status)
    ensures
        r == not_found(message@),
{
    tonic::Status::not_found(message)
}

/// `tonic::Status::internal`: a status with code `Internal` and the message.
#[verifier::external_body]
pub(crate) fn status_internal(message: String) -> (r: tonic::Status)
    ensures
        r == internal(message@),
{
    tonic::Status::internal(message)
}

/// `tonic::Status::unimplemented`: a status with code `Unimplemented` and the message.
#[verifier::external_body]
pub(crate) fn status_unimplemented(message: String) -> (r: tonic::Status)
    ensures
        r == unimplemented(message@),
{
    tonic::Status::unimplemented(message)
}

} // verus!
