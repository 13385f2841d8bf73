//! How a request can fail.

use vstd::prelude::*;

verus! {

/// Why a request ended without a forecast. The two classes stay apart all the
/// way to the caller, which answers each with a status of its own.
///
/// A store that refuses an insert is no such reason: the request goes on with
/// the coordinates it has.
#[derive(Clone, Copy, Debug, PartialEq, Eq, Structural)]
pub enum RequestError {
    /// The city could not be located: the geocoding service found no
    /// candidate, or the coordinate store could not be read.
    NotFound,
    /// The geocoding service or the forecast service could not be reached, or
    /// its answer could not be read.
    UpstreamFailure,
}

impl RequestError {
    /// The HTTP status that answers a request which failed this way.
    pub open spec fn status_spec(self) -> u16 {
        match self {
            RequestError::NotFound => 404,
            RequestError::UpstreamFailure => 500,
        }
    }

    /// The HTTP status that answers a request which failed this way: 404 where
    /// the city could not be located, 500 where a service failed.
    #[verifier::when_used_as_spec(status_spec)]
    pub fn status(self) -> (code: u16)
        ensures
            code == self.status_spec(),
    {
        match self {
            RequestError::NotFound => 404,
            RequestError::UpstreamFailure => 500,
        }
    }
}

/// A failure that is known by its message alone.
#[derive(Debug, PartialEq, Eq)]
pub struct StrError(pub String);

impl View for StrError {
    type V = Seq<char>;

    open spec fn view(&self) -> Seq<char> {
        self.0@
    }
}

impl StrError {
    /// The message, as the failure is displayed.
    pub fn message(&self) -> (text: String)
        ensures
            text@ == self@,
    {
        self.0.clone()
    }
}

/// The address of the database, given what the setting `DATABASE_URL` holds:
/// the setting's value, or the failure to report where it is not set.
pub fn database_url(setting: Option<String>) -> (address: Result<String, StrError>)
    ensures
        match setting {
            Some(value) => address == Ok::<String, StrError>(value),
            None => address is Err && address->Err_0@ == "DATABASE_URL must be set"@,
        },
{
    match setting {
        Some(value) => Ok(value),
        None => Err(StrError(String::from_str("DATABASE_URL must be set"))),
    }
}

} // verus!
