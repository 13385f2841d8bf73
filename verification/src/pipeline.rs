//! The request pipeline: from a city's name to the display of its forecast.
//!
//! A request is served in three steps, each of which needs what the one before
//! gave: the city's coordinates are resolved, the forecast for them is
//! fetched, and the display is composed. The first failure ends the request;
//! nothing partial is returned.
//!
//! Like the resolver, the pipeline is a machine whose state is the request it
//! waits on: [`start`] gives the first one, [`step`] takes each reply.

use vstd::prelude::*;
use crate::coordinates::LatLong;
use crate::error::RequestError;
use crate::forecast::{WeatherDisplay, WeatherDisplayView, WeatherResponse, WeatherResponseView, compose};

verus! {

/// What a caller asks for: the forecast of the city of this name. The name is
/// taken as it comes and is never looked into.
#[derive(Debug, PartialEq, Eq)]
pub struct WeatherQuery {
    pub city: String,
}

impl View for WeatherQuery {
    type V = Seq<char>;

    open spec fn view(&self) -> Seq<char> {
        self.city@
    }
}

/// What the pipeline asks of a collaborator.
#[derive(Debug, PartialEq, Eq)]
pub enum PipelineRequest {
    /// Resolve the coordinates of `city`, as [`crate::resolver`] decides.
    Resolve { city: String },
    /// Ask the forecast service for the hourly series at `coordinates`.
    Fetch { city: String, coordinates: LatLong },
}

/// What a [`PipelineRequest`] holds.
pub enum PipelineRequestView {
    Resolve { city: Seq<char> },
    Fetch { city: Seq<char>, coordinates: LatLong },
}

impl View for PipelineRequest {
    type V = PipelineRequestView;

    open spec fn view(&self) -> PipelineRequestView {
        match *self {
            PipelineRequest::Resolve { city } => PipelineRequestView::Resolve { city: city@ },
            PipelineRequest::Fetch { city, coordinates } => PipelineRequestView::Fetch {
                city: city@,
                coordinates,
            },
        }
    }
}

/// A collaborator's reply to a [`PipelineRequest`].
#[derive(Debug, PartialEq, Eq)]
pub enum PipelineReply {
    /// The resolver has ended with this result.
    Resolved(Result<LatLong, RequestError>),
    /// The forecast service answered with this series.
    Forecast(WeatherResponse),
    /// The forecast service could not be reached, or its answer not read.
    ForecastFailed,
}

/// What a [`PipelineReply`] holds.
pub enum PipelineReplyView {
    Resolved(Result<LatLong, RequestError>),
    Forecast(WeatherResponseView),
    ForecastFailed,
}

impl View for PipelineReply {
    type V = PipelineReplyView;

    open spec fn view(&self) -> PipelineReplyView {
        match *self {
            PipelineReply::Resolved(result) => PipelineReplyView::Resolved(result),
            PipelineReply::Forecast(response) => PipelineReplyView::Forecast(response@),
            PipelineReply::ForecastFailed => PipelineReplyView::ForecastFailed,
        }
    }
}

/// Where the pipeline stands after a reply.
#[derive(Debug, PartialEq, Eq)]
pub enum PipelineStep {
    /// The pipeline waits on this request.
    Ask(PipelineRequest),
    /// The request has ended, with the display or the reason there is none.
    Done(Result<WeatherDisplay, RequestError>),
}

/// What a [`PipelineStep`] holds.
pub enum PipelineStepView {
    Ask(PipelineRequestView),
    Done(Result<WeatherDisplayView, RequestError>),
}

impl View for PipelineStep {
    type V = PipelineStepView;

    open spec fn view(&self) -> PipelineStepView {
        match *self {
            PipelineStep::Ask(request) => PipelineStepView::Ask(request@),
            PipelineStep::Done(Ok(display)) => PipelineStepView::Done(Ok(display@)),
            PipelineStep::Done(Err(error)) => PipelineStepView::Done(Err(error)),
        }
    }
}

/// The request a pipeline for `city` begins with: resolving the coordinates.
pub open spec fn first_request(city: Seq<char>) -> PipelineRequestView {
    PipelineRequestView::Resolve { city }
}

/// Where a pipeline that waits on `pending` stands once `reply` has come.
///
/// - After resolving: the coordinates lead to the forecast service; a failure
///   ends the request with the resolver's own error, unchanged.
/// - After fetching: the series is composed into the display of the city that
///   was asked for, which ends the request; a failed call ends it with
///   [`RequestError::UpstreamFailure`].
/// - A reply to another request than `pending` changes nothing.
pub open spec fn next(pending: PipelineRequestView, reply: PipelineReplyView) -> PipelineStepView {
    match (pending, reply) {
        (PipelineRequestView::Resolve { city }, PipelineReplyView::Resolved(Ok(coordinates))) => {
            PipelineStepView::Ask(PipelineRequestView::Fetch { city, coordinates })
        },
        (PipelineRequestView::Resolve { .. }, PipelineReplyView::Resolved(Err(error))) => {
            PipelineStepView::Done(Err(error))
        },
        (PipelineRequestView::Fetch { city, .. }, PipelineReplyView::Forecast(response)) => {
            PipelineStepView::Done(Ok(compose(city, response)))
        },
        (PipelineRequestView::Fetch { .. }, PipelineReplyView::ForecastFailed) => {
            PipelineStepView::Done(Err(RequestError::UpstreamFailure))
        },
        _ => PipelineStepView::Ask(pending),
    }
}

/// Begins to serve `query`: the city's coordinates are resolved first.
pub fn start(query: WeatherQuery) -> (request: PipelineRequest)
    ensures
        request@ == first_request(query@),
{
    PipelineRequest::Resolve { city: query.city }
}

/// Takes the reply to `pending` and gives the next request, or the result.
///
/// The caller performs each request it is given and hands its reply back,
/// until the step is [`PipelineStep::Done`]. See [`next`] for what is decided.
pub fn step(pending: PipelineRequest, reply: PipelineReply) -> (then: PipelineStep)
    ensures
        then@ == next(pending@, reply@),
{
    match pending {
        PipelineRequest::Resolve { city } => match reply {
            PipelineReply::Resolved(Ok(coordinates)) => PipelineStep::Ask(
                PipelineRequest::Fetch { city, coordinates },
            ),
            PipelineReply::Resolved(Err(error)) => PipelineStep::Done(Err(error)),
            _ => PipelineStep::Ask(PipelineRequest::Resolve { city }),
        },
        PipelineRequest::Fetch { city, coordinates } => match reply {
            PipelineReply::Forecast(response) => PipelineStep::Done(
                Ok(WeatherDisplay::new(city, response)),
            ),
            PipelineReply::ForecastFailed => PipelineStep::Done(
                Err(RequestError::UpstreamFailure),
            ),
            _ => PipelineStep::Ask(PipelineRequest::Fetch { city, coordinates }),
        },
    }
}

} // verus!
