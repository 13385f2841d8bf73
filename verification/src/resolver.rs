//! The coordinate resolver: a cache-aside lookup of a city's coordinates.
//!
//! The resolver asks the coordinate store first. Only when the store has no
//! entry does it ask the geocoding service, and what the service found is
//! written back to the store before it is returned.
//!
//! The resolver itself reaches neither the store nor the service. It is a
//! machine whose state is the request it waits on: [`start`] gives the first
//! request, the caller performs it and hands the reply to [`step`], which
//! gives the next request or the result.

use vstd::prelude::*;
use crate::coordinates::{LatLong, GeoResponse, first_candidate};
use crate::error::RequestError;

verus! {

/// How the store answered an insert.
#[derive(Clone, Copy, Debug, PartialEq, Eq, Structural)]
pub enum PersistOutcome {
    /// The entry was written.
    Stored,
    /// The store already held an entry for the city and kept it.
    DuplicateIgnored,
    /// The store could not write.
    Failed,
}

/// What the resolver asks of a collaborator.
#[derive(Debug, PartialEq, Eq)]
pub enum ResolveRequest {
    /// Ask the store for the entry of `city`.
    Lookup { city: String },
    /// Ask the geocoding service for the candidates of `city`.
    Geocode { city: String },
    /// Ask the store to insert `coordinates` under `city`.
    Persist { city: String, coordinates: LatLong },
}

/// What a [`ResolveRequest`] holds.
pub enum ResolveRequestView {
    Lookup { city: Seq<char> },
    Geocode { city: Seq<char> },
    Persist { city: Seq<char>, coordinates: LatLong },
}

impl View for ResolveRequest {
    type V = ResolveRequestView;

    open spec fn view(&self) -> ResolveRequestView {
        match *self {
            ResolveRequest::Lookup { city } => ResolveRequestView::Lookup { city: city@ },
            ResolveRequest::Geocode { city } => ResolveRequestView::Geocode { city: city@ },
            ResolveRequest::Persist { city, coordinates } => ResolveRequestView::Persist {
                city: city@,
                coordinates,
            },
        }
    }
}

/// A collaborator's reply to a [`ResolveRequest`].
#[derive(Debug, PartialEq, Eq)]
pub enum ResolveReply {
    /// The store holds these coordinates for the city.
    Found(LatLong),
    /// The store holds no entry for the city.
    Missing,
    /// The store could not be read.
    LookupFailed,
    /// The geocoding service answered with these candidates.
    Candidates(GeoResponse),
    /// The geocoding service could not be reached, or its answer not read.
    GeocodeFailed,
    /// The store answered the insert.
    Persisted(PersistOutcome),
}

/// What a [`ResolveReply`] holds.
pub enum ResolveReplyView {
    Found(LatLong),
    Missing,
    LookupFailed,
    Candidates(Seq<LatLong>),
    GeocodeFailed,
    Persisted(PersistOutcome),
}

impl View for ResolveReply {
    type V = ResolveReplyView;

    open spec fn view(&self) -> ResolveReplyView {
        match *self {
            ResolveReply::Found(coordinates) => ResolveReplyView::Found(coordinates),
            ResolveReply::Missing => ResolveReplyView::Missing,
            ResolveReply::LookupFailed => ResolveReplyView::LookupFailed,
            ResolveReply::Candidates(response) => ResolveReplyView::Candidates(response@),
            ResolveReply::GeocodeFailed => ResolveReplyView::GeocodeFailed,
            ResolveReply::Persisted(outcome) => ResolveReplyView::Persisted(outcome),
        }
    }
}

/// Where the resolver stands after a reply.
#[derive(Debug, PartialEq, Eq)]
pub enum ResolveStep {
    /// The resolver waits on this request.
    Ask(ResolveRequest),
    /// The resolver has ended, with the coordinates or the reason it has none.
    Done(Result<LatLong, RequestError>),
}

/// What a [`ResolveStep`] holds.
pub enum ResolveStepView {
    Ask(ResolveRequestView),
    Done(Result<LatLong, RequestError>),
}

impl View for ResolveStep {
    type V = ResolveStepView;

    open spec fn view(&self) -> ResolveStepView {
        match *self {
            ResolveStep::Ask(request) => ResolveStepView::Ask(request@),
            ResolveStep::Done(result) => ResolveStepView::Done(result),
        }
    }
}

/// The request a resolver for `city` begins with: a lookup in the store.
pub open spec fn first_request(city: Seq<char>) -> ResolveRequestView {
    ResolveRequestView::Lookup { city }
}

/// Where a resolver that waits on `pending` stands once `reply` has come.
///
/// - After a lookup: the stored coordinates end the run; a missing entry leads
///   to the geocoding service; a store that cannot be read ends the run with
///   [`RequestError::NotFound`].
/// - After geocoding: the first candidate is kept and goes to the store; no
///   candidate ends the run with [`RequestError::NotFound`]; a failed call
///   ends it with [`RequestError::UpstreamFailure`].
/// - After the insert: the run ends with the geocoded coordinates, whatever
///   the store answered.
/// - A reply to another request than `pending` changes nothing.
pub open spec fn next(pending: ResolveRequestView, reply: ResolveReplyView) -> ResolveStepView {
    match (pending, reply) {
        (ResolveRequestView::Lookup { .. }, ResolveReplyView::Found(coordinates)) => {
            ResolveStepView::Done(Ok(coordinates))
        },
        (ResolveRequestView::Lookup { city }, ResolveReplyView::Missing) => {
            ResolveStepView::Ask(ResolveRequestView::Geocode { city })
        },
        (ResolveRequestView::Lookup { .. }, ResolveReplyView::LookupFailed) => {
            ResolveStepView::Done(Err(RequestError::NotFound))
        },
        (ResolveRequestView::Geocode { city }, ResolveReplyView::Candidates(candidates)) => {
            match first_candidate(candidates) {
                Some(coordinates) => ResolveStepView::Ask(
                    ResolveRequestView::Persist { city, coordinates },
                ),
                None => ResolveStepView::Done(Err(RequestError::NotFound)),
            }
        },
        (ResolveRequestView::Geocode { .. }, ResolveReplyView::GeocodeFailed) => {
            ResolveStepView::Done(Err(RequestError::UpstreamFailure))
        },
        (ResolveRequestView::Persist { coordinates, .. }, ResolveReplyView::Persisted(_)) => {
            ResolveStepView::Done(Ok(coordinates))
        },
        _ => ResolveStepView::Ask(pending),
    }
}

/// Begins to resolve `city`: the store is asked first.
pub fn start(city: String) -> (request: ResolveRequest)
    ensures
        request@ == first_request(city@),
{
    ResolveRequest::Lookup { city }
}

/// Takes the reply to `pending` and gives the next request, or the result.
///
/// The caller performs each request it is given and hands its reply back,
/// until the step is [`ResolveStep::Done`]. See [`next`] for what is decided.
pub fn step(pending: ResolveRequest, reply: ResolveReply) -> (then: ResolveStep)
    ensures
        then@ == next(pending@, reply@),
{
    match pending {
        ResolveRequest::Lookup { city } => match reply {
            ResolveReply::Found(coordinates) => ResolveStep::Done(Ok(coordinates)),
            ResolveReply::Missing => ResolveStep::Ask(ResolveRequest::Geocode { city }),
            ResolveReply::LookupFailed => ResolveStep::Done(Err(RequestError::NotFound)),
            _ => ResolveStep::Ask(ResolveRequest::Lookup { city }),
        },
        ResolveRequest::Geocode { city } => match reply {
            ResolveReply::Candidates(response) => match response.first() {
                Some(coordinates) => ResolveStep::Ask(
                    ResolveRequest::Persist { city, coordinates },
                ),
                None => ResolveStep::Done(Err(RequestError::NotFound)),
            },
            ResolveReply::GeocodeFailed => ResolveStep::Done(
                Err(RequestError::UpstreamFailure),
            ),
            _ => ResolveStep::Ask(ResolveRequest::Geocode { city }),
        },
        ResolveRequest::Persist { city, coordinates } => match reply {
            ResolveReply::Persisted(_) => ResolveStep::Done(Ok(coordinates)),
            _ => ResolveStep::Ask(ResolveRequest::Persist { city, coordinates }),
        },
    }
}

} // verus!
