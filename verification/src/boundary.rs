//! The gateway boundary and process startup: translation between typed
//! results and the transport, and the startup recovery decision.
//!
//! The transport layer reads the persisted record (if any) at process start
//! and hands its raw text here; it encodes every typed response with the
//! status code and message these functions fix.

use vstd::prelude::*;
use crate::api::{ErrorView, GatewayError, Response, ResponseView};
use crate::codec::{parse_credentials, spec_parse};
use crate::credentials::Credentials;

verus! {

/// What loading the persisted record yielded.
pub enum LoadOutcome {
    /// No record exists: a normal, expected state (first run).
    NoRecord,
    /// A record exists but cannot be parsed; treated as no usable
    /// credentials rather than as a fatal error.
    Invalid,
    /// A well-formed record was read back.
    Loaded(Credentials),
}

/// Interprets what the storage layer read at process start.  A missing file
/// is a normal first-run state; a record that exists but does not parse
/// counts as no usable credentials, and startup proceeds unauthenticated.
pub fn interpret_config(raw: Option<&str>) -> (r: LoadOutcome)
    ensures
        raw is None ==> r is NoRecord,
        raw matches Some(s) ==> match r {
            LoadOutcome::Loaded(c) => spec_parse(s@) == Some(c@),
            LoadOutcome::Invalid => spec_parse(s@) is None,
            LoadOutcome::NoRecord => false,
        },
{
    match raw {
        None => LoadOutcome::NoRecord,
        Some(s) => match parse_credentials(s) {
            Ok(c) => LoadOutcome::Loaded(c),
            Err(_) => LoadOutcome::Invalid,
        },
    }
}

/// The startup recovery decision: attempt one automatic login exactly when a
/// well-formed record was loaded, and with its credentials.
pub fn startup_credentials(loaded: LoadOutcome) -> (r: Option<Credentials>)
    ensures
        match loaded {
            LoadOutcome::Loaded(c) => r matches Some(rc) && rc@ == c@,
            LoadOutcome::NoRecord => r is None,
            LoadOutcome::Invalid => r is None,
        },
{
    match loaded {
        LoadOutcome::Loaded(c) => Some(c),
        LoadOutcome::NoRecord => None,
        LoadOutcome::Invalid => None,
    }
}

/// The HTTP status of a typed response: success is 200, a rejected login is
/// 403, and both session absence and hub trouble are 500, told apart by the
/// message.
pub open spec fn spec_status(r: ResponseView) -> u16 {
    match r {
        ResponseView::LoginOk => 200,
        ResponseView::LoginRejected => 403,
        ResponseView::Listing(_) => 200,
        ResponseView::ActionOk => 200,
        ResponseView::Failed(_) => 500,
    }
}

/// The status code the transport answers with for a typed response.
pub fn status_of(r: &Response) -> (code: u16)
    ensures
        code == spec_status(r@),
{
    match r {
        Response::LoginOk => 200,
        Response::LoginRejected => 403,
        Response::Listing(_) => 200,
        Response::ActionOk => 200,
        Response::Failed(_) => 500,
    }
}

/// The message line of a failure, keeping session absence distinct from hub
/// trouble so a client knows whether to log in again or to retry.
pub fn describe_error(e: &GatewayError) -> (m: String)
    ensures
        e@ is NotAuthenticated ==> m@ == "Not logged in"@,
        e@ matches ErrorView::Hub(t) ==> m@ == t,
{
    match e {
        GatewayError::NotAuthenticated => String::from_str("Not logged in"),
        GatewayError::Hub(f) => f.message.clone(),
    }
}

} // verus!
