//! The caller's identity, taken from the `user_uuid` header that the gateway sets.
use vstd::prelude::*;
use vstd::string::*;
use crate::api::errors::{bad_request_problem, unauthorized_problem, AppError};
use crate::ids::{lemma_hyphenated_reads_back, parse_uuid, uuid_hyphenated, uuid_parse};

verus! {

/// The authenticated caller.
#[derive(Debug, Clone, Copy, PartialEq, Eq, Structural)]
pub struct UserUuid(pub u128);

impl UserUuid {
    /// Reads the caller from the header value (`None` when the header is
    /// absent or not visible ASCII): a missing header is `401`, a value that
    /// is not a UUID is `400`.
    pub fn from_header(raw: Option<&str>) -> (r: Result<UserUuid, AppError>)
        ensures
            raw is None ==> (r matches Err(e) && e@ == unauthorized_problem("missing user_uuid header"@)),
            raw matches Some(s) ==> match uuid_parse(s@) {
                Some(v) => r == Ok::<UserUuid, AppError>(UserUuid(v)),
                None => r matches Err(e) && e@ == bad_request_problem(
                    "invalid user_uuid header: not a valid UUID"@,
                ),
            },
            // a header written as the hyphenated text of an id gives that id
            raw matches Some(s) ==> forall|v: u128|
                #[trigger] uuid_hyphenated(v) == s@ ==> r == Ok::<UserUuid, AppError>(UserUuid(v)),
    {
        proof {
            // the hyphenated text of every id parses back to it
            assert forall|v: u128| uuid_parse(#[trigger] uuid_hyphenated(v)) == Some(v) by {
                lemma_hyphenated_reads_back(v);
            }
        }
        match raw {
            None => Err(AppError::unauthorized(String::from_str("missing user_uuid header"))),
            Some(s) => match parse_uuid(s) {
                Some(v) => Ok(UserUuid(v)),
                None => Err(AppError::bad_request(String::from_str("invalid user_uuid header: not a valid UUID"))),
            },
        }
    }
}

} // verus!
