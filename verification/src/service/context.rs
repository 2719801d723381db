//! The caller of a request, as services see it.

use vstd::prelude::*;

use crate::grpc::status::{status_unauthenticated, unauthenticated};
use crate::grpc::{parse_i64, parse_i64_spec, read_user_id_entry, user_id_entry_read};

verus! {

/// Why a request carries no usable caller.
#[derive(Debug, Clone, Copy, PartialEq, Eq, Structural)]
pub enum ContextError {
    /// The `x-user-id` entry is not visible ASCII or not a number.
    Malformed,
    /// The request has no `x-user-id` entry.
    NotFound,
}

impl ContextError {
    /// The status a request without a usable caller is answered with.
    pub fn into_status(self) -> (r: tonic::Status)
        ensures
            r == unauthenticated("Unauthenticated"@),
    {
        status_unauthenticated(String::from_str("Unauthenticated"))
    }
}

/// The caller of a request.
#[derive(Debug, Clone, Copy)]
pub struct Context {
    user_id: i64,
}

impl Context {
    /// The caller's identifier.
    pub closed spec fn user_id_view(&self) -> i64 {
        self.user_id
    }

    pub fn user_id(&self) -> (r: i64)
        ensures
            r == self.user_id_view(),
    {
        self.user_id
    }

    /// What an `x-user-id` entry gives: `NotFound` when the entry is missing, `Malformed` when
    /// its value is not visible ASCII or not a decimal number, else the caller it names.
    pub open spec fn from_header_outcome(
        header: Option<Result<String, tonic::metadata::errors::ToStrError>>,
        r: Result<Context, ContextError>,
    ) -> bool {
        match header {
            None => r == Err::<Context, ContextError>(ContextError::NotFound),
            Some(Err(_)) => r == Err::<Context, ContextError>(ContextError::Malformed),
            Some(Ok(text)) => match parse_i64_spec(text@) {
                Some(v) => r matches Ok(c) && c.user_id_view() == v,
                None => r == Err::<Context, ContextError>(ContextError::Malformed),
            },
        }
    }

    /// The caller that an `x-user-id` entry names: `NotFound` when the entry is missing,
    /// `Malformed` when its value is not visible ASCII or not a decimal number.
    pub fn from_header(header: Option<Result<String, tonic::metadata::errors::ToStrError>>) -> (r: Result<
        Context,
        ContextError,
    >)
        ensures
            Self::from_header_outcome(header, r),
    {
        match header {
            None => Err(ContextError::NotFound),
            Some(Err(_)) => Err(ContextError::Malformed),
            Some(Ok(text)) => match parse_i64(text.as_str()) {
                Some(user_id) => Ok(Context { user_id }),
                None => Err(ContextError::Malformed),
            },
        }
    }

    /// The caller of a request, read from its `x-user-id` metadata: what `from_header` gives
    /// for the entry that the request carries.
    pub fn from_request<T>(r: &tonic::Request<T>) -> (res: Result<Context, ContextError>)
        ensures
            exists|entry: Option<Result<String, tonic::metadata::errors::ToStrError>>|
                Self::from_header_outcome(entry, res),
            exists|entry: Option<Result<String, tonic::metadata::errors::ToStrError>>|
                #[trigger] user_id_entry_read(r, entry) && Self::from_header_outcome(entry, res),
    {
        let entry = read_user_id_entry(r);
        let ghost e = entry;
        let res = Self::from_header(entry);
        assert(Self::from_header_outcome(e, res));
        res
    }
}

} // verus!
