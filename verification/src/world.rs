//! A model of the collaborators, and what holds of every run against it.
//!
//! [`crate::resolver`] and [`crate::pipeline`] decide one step at a time. This
//! module says what those steps add up to: it models the coordinate store and
//! the two services as a [`World`], lets the world answer each request that a
//! machine asks, and proves what is asked and what comes out, for every world.

use vstd::prelude::*;
use crate::coordinates::{LatLong, first_candidate};
use crate::error::RequestError;
use crate::forecast::{WeatherDisplayView, WeatherResponseView, compose};
use crate::pipeline::{PipelineReplyView, PipelineRequestView, PipelineStepView};
use crate::resolver::{PersistOutcome, ResolveReplyView, ResolveRequestView, ResolveStepView};

verus! {

/// The collaborators of a request, as far as a request can tell them apart.
pub struct World {
    /// The entries of the coordinate store, by city name.
    pub store: Map<Seq<char>, LatLong>,
    /// Whether the store answers a lookup.
    pub readable: bool,
    /// Whether the store takes an insert.
    pub writable: bool,
    /// The geocoding service: the candidates for a city name, or `None` where
    /// the call fails.
    pub geocoder: spec_fn(Seq<char>) -> Option<Seq<LatLong>>,
    /// The forecast service: the series for a point, or `None` where the call
    /// fails.
    pub forecaster: spec_fn(LatLong) -> Option<WeatherResponseView>,
}

impl World {
    /// How the store answers an insert under `city`: it keeps an entry that it
    /// already holds.
    pub open spec fn insert_outcome(self, city: Seq<char>) -> PersistOutcome {
        if !self.writable {
            PersistOutcome::Failed
        } else if self.store.contains_key(city) {
            PersistOutcome::DuplicateIgnored
        } else {
            PersistOutcome::Stored
        }
    }

    /// The reply of this world to a request of the resolver.
    pub open spec fn reply_to(self, request: ResolveRequestView) -> ResolveReplyView {
        match request {
            ResolveRequestView::Lookup { city } => {
                if !self.readable {
                    ResolveReplyView::LookupFailed
                } else if self.store.contains_key(city) {
                    ResolveReplyView::Found(self.store[city])
                } else {
                    ResolveReplyView::Missing
                }
            },
            ResolveRequestView::Geocode { city } => {
                match (self.geocoder)(city) {
                    Some(candidates) => ResolveReplyView::Candidates(candidates),
                    None => ResolveReplyView::GeocodeFailed,
                }
            },
            ResolveRequestView::Persist { city, .. } => {
                ResolveReplyView::Persisted(self.insert_outcome(city))
            },
        }
    }

    /// This world once it has answered a request of the resolver: only an
    /// insert that the store took changes it.
    pub open spec fn after(self, request: ResolveRequestView) -> World {
        match request {
            ResolveRequestView::Persist { city, coordinates } => {
                if self.insert_outcome(city) == PersistOutcome::Stored {
                    World { store: self.store.insert(city, coordinates), ..self }
                } else {
                    self
                }
            },
            _ => self,
        }
    }

    /// Whether the store agrees with the geocoding service: every entry is the
    /// candidate that the service ranks first for the entry's city.
    pub open spec fn store_agrees_with_geocoder(self) -> bool {
        forall|city: Seq<char>| #[trigger]
            self.store.contains_key(city) ==> {
                &&& (self.geocoder)(city) is Some
                &&& first_candidate((self.geocoder)(city)->Some_0) == Some(self.store[city])
            }
    }

    /// The run of a resolver that waits on `pending`, to its end: each request
    /// is answered by the world as it then is.
    pub open spec fn resolve_from(self, pending: ResolveRequestView) -> Resolution
        decreases requests_ahead(pending),
    {
        match crate::resolver::next(pending, self.reply_to(pending)) {
            ResolveStepView::Done(result) => Resolution {
                asked: seq![pending],
                result,
                world: self.after(pending),
            },
            ResolveStepView::Ask(then) => {
                let rest = self.after(pending).resolve_from(then);
                Resolution { asked: seq![pending] + rest.asked, ..rest }
            },
        }
    }

    /// The run of a resolver for `city` in this world.
    pub open spec fn resolve(self, city: Seq<char>) -> Resolution {
        self.resolve_from(crate::resolver::first_request(city))
    }

    /// The reply of this world to a request of the pipeline. Coordinates are
    /// resolved by a run of the resolver.
    pub open spec fn serve(self, request: PipelineRequestView) -> PipelineReplyView {
        match request {
            PipelineRequestView::Resolve { city } => {
                PipelineReplyView::Resolved(self.resolve(city).result)
            },
            PipelineRequestView::Fetch { coordinates, .. } => {
                match (self.forecaster)(coordinates) {
                    Some(response) => PipelineReplyView::Forecast(response),
                    None => PipelineReplyView::ForecastFailed,
                }
            },
        }
    }

    /// This world once it has answered a request of the pipeline.
    pub open spec fn served(self, request: PipelineRequestView) -> World {
        match request {
            PipelineRequestView::Resolve { city } => self.resolve(city).world,
            PipelineRequestView::Fetch { .. } => self,
        }
    }

    /// The run of a pipeline that waits on `pending`, to its end.
    pub open spec fn handle_from(self, pending: PipelineRequestView) -> Handling
        decreases stages_ahead(pending),
    {
        match crate::pipeline::next(pending, self.serve(pending)) {
            PipelineStepView::Done(result) => Handling {
                asked: seq![pending],
                result,
                world: self.served(pending),
            },
            PipelineStepView::Ask(then) => {
                let rest = self.served(pending).handle_from(then);
                Handling { asked: seq![pending] + rest.asked, ..rest }
            },
        }
    }

    /// The run of a pipeline for `city` in this world.
    pub open spec fn handle(self, city: Seq<char>) -> Handling {
        self.handle_from(crate::pipeline::first_request(city))
    }
}

/// A run of the resolver.
pub struct Resolution {
    /// The requests that were asked, in order.
    pub asked: Seq<ResolveRequestView>,
    /// What the run ended with.
    pub result: Result<LatLong, RequestError>,
    /// The world after the run.
    pub world: World,
}

/// A run of the pipeline.
pub struct Handling {
    /// The requests that were asked, in order.
    pub asked: Seq<PipelineRequestView>,
    /// What the run ended with.
    pub result: Result<WeatherDisplayView, RequestError>,
    /// The world after the run.
    pub world: World,
}

/// How many requests can still follow `pending` in a run of the resolver.
pub open spec fn requests_ahead(pending: ResolveRequestView) -> nat {
    match pending {
        ResolveRequestView::Lookup { .. } => 2,
        ResolveRequestView::Geocode { .. } => 1,
        ResolveRequestView::Persist { .. } => 0,
    }
}

/// How many requests can still follow `pending` in a run of the pipeline.
pub open spec fn stages_ahead(pending: PipelineRequestView) -> nat {
    match pending {
        PipelineRequestView::Resolve { .. } => 1,
        PipelineRequestView::Fetch { .. } => 0,
    }
}

/// How often `asked` calls the geocoding service.
pub open spec fn geocoder_calls(asked: Seq<ResolveRequestView>) -> nat
    decreases asked.len(),
{
    if asked.len() == 0 {
        0
    } else {
        let here: nat = if asked[0] is Geocode { 1 } else { 0 };
        here + geocoder_calls(asked.skip(1))
    }
}

/// How often `asked` writes to the coordinate store.
pub open spec fn store_writes(asked: Seq<ResolveRequestView>) -> nat
    decreases asked.len(),
{
    if asked.len() == 0 {
        0
    } else {
        let here: nat = if asked[0] is Persist { 1 } else { 0 };
        here + store_writes(asked.skip(1))
    }
}

/// Every run of the resolver, case by case: what is asked, what comes out,
/// and what the store holds afterwards.
///
/// A run asks three requests at most: the lookup; the geocoding service, only
/// if the store could be read and held no entry; the insert, only if the
/// service found a candidate. The store takes the first candidate where it is
/// writable, and is left as it was on every other run.
pub proof fn resolve_cases(world: World, city: Seq<char>)
    ensures
        ({
            let run = world.resolve(city);
            let lookup = ResolveRequestView::Lookup { city };
            let geocode = ResolveRequestView::Geocode { city };
            if !world.readable {
                &&& run.asked == seq![lookup]
                &&& run.result == Err::<LatLong, RequestError>(RequestError::NotFound)
                &&& run.world == world
            } else if world.store.contains_key(city) {
                &&& run.asked == seq![lookup]
                &&& run.result == Ok::<LatLong, RequestError>(world.store[city])
                &&& run.world == world
            } else {
                match (world.geocoder)(city) {
                    None => {
                        &&& run.asked == seq![lookup, geocode]
                        &&& run.result == Err::<LatLong, RequestError>(
                            RequestError::UpstreamFailure,
                        )
                        &&& run.world == world
                    },
                    Some(candidates) => match first_candidate(candidates) {
                        None => {
                            &&& run.asked == seq![lookup, geocode]
                            &&& run.result == Err::<LatLong, RequestError>(RequestError::NotFound)
                            &&& run.world == world
                        },
                        Some(coordinates) => {
                            &&& run.asked == seq![
                                lookup,
                                geocode,
                                ResolveRequestView::Persist { city, coordinates },
                            ]
                            &&& run.result == Ok::<LatLong, RequestError>(coordinates)
                            &&& run.world == if world.writable {
                                World { store: world.store.insert(city, coordinates), ..world }
                            } else {
                                world
                            }
                        },
                    },
                }
            }
        }),
{
    reveal_with_fuel(World::resolve_from, 3);
    let run = world.resolve(city);
    let lookup = ResolveRequestView::Lookup { city };
    let geocode = ResolveRequestView::Geocode { city };
    if world.readable && !world.store.contains_key(city) {
        match (world.geocoder)(city) {
            None => {
                assert(run.asked =~= seq![lookup, geocode]);
            },
            Some(candidates) => match first_candidate(candidates) {
                None => {
                    assert(run.asked =~= seq![lookup, geocode]);
                },
                Some(coordinates) => {
                    assert(run.asked =~= seq![
                        lookup,
                        geocode,
                        ResolveRequestView::Persist { city, coordinates },
                    ]);
                },
            },
        }
    } else {
        assert(run.asked =~= seq![lookup]);
    }
}

/// The counts of a run of at most three requests, one request at a time.
proof fn count_short_runs(asked: Seq<ResolveRequestView>)
    requires
        asked.len() <= 3,
    ensures
        geocoder_calls(asked) == (if asked.len() > 0 && asked[0] is Geocode { 1nat } else { 0nat })
            + (if asked.len() > 1 && asked[1] is Geocode { 1nat } else { 0nat })
            + (if asked.len() > 2 && asked[2] is Geocode { 1nat } else { 0nat }),
        store_writes(asked) == (if asked.len() > 0 && asked[0] is Persist { 1nat } else { 0nat })
            + (if asked.len() > 1 && asked[1] is Persist { 1nat } else { 0nat })
            + (if asked.len() > 2 && asked[2] is Persist { 1nat } else { 0nat }),
    decreases asked.len(),
{
    if asked.len() > 0 {
        count_short_runs(asked.skip(1));
    }
}

/// A city that the store holds is served from the store: the geocoding
/// service is never called and nothing is written, and where the store can be
/// read the result is the stored entry.
pub proof fn stored_city_skips_geocoder(world: World, city: Seq<char>)
    requires
        world.store.contains_key(city),
    ensures
        geocoder_calls(world.resolve(city).asked) == 0,
        store_writes(world.resolve(city).asked) == 0,
        world.resolve(city).world == world,
        world.readable ==> world.resolve(city).result == Ok::<LatLong, RequestError>(
            world.store[city],
        ),
{
    resolve_cases(world, city);
    count_short_runs(world.resolve(city).asked);
}

/// A city that a readable store does not hold is sent to the geocoding
/// service exactly once. Where the service finds a candidate and the store
/// takes the insert, the next run for the same city is served from the store:
/// it gives the same coordinates and does not call the service again.
pub proof fn missing_city_is_geocoded_once(world: World, city: Seq<char>)
    requires
        world.readable,
        !world.store.contains_key(city),
    ensures
        geocoder_calls(world.resolve(city).asked) == 1,
        world.writable && (world.geocoder)(city) is Some && (world.geocoder)(city)->Some_0.len() > 0
            ==> {
            let first = world.resolve(city);
            let second = first.world.resolve(city);
            &&& first.result == Ok::<LatLong, RequestError>((world.geocoder)(city)->Some_0[0])
            &&& second.result == first.result
            &&& geocoder_calls(second.asked) == 0
            &&& second.world == first.world
        },
{
    resolve_cases(world, city);
    let first = world.resolve(city);
    count_short_runs(first.asked);
    if world.writable && (world.geocoder)(city) is Some && (world.geocoder)(city)->Some_0.len() > 0 {
        assert(first.world.store.contains_key(city));
        stored_city_skips_geocoder(first.world, city);
    }
}

/// Where the geocoding service finds no candidate, nothing is written: the
/// store is left as it was, and a run that reached the service ends with
/// [`RequestError::NotFound`].
pub proof fn unknown_city_is_not_stored(world: World, city: Seq<char>)
    requires
        (world.geocoder)(city) is Some,
        (world.geocoder)(city)->Some_0.len() == 0,
    ensures
        store_writes(world.resolve(city).asked) == 0,
        world.resolve(city).world == world,
        world.readable && !world.store.contains_key(city) ==> world.resolve(city).result
            == Err::<LatLong, RequestError>(RequestError::NotFound),
{
    resolve_cases(world, city);
    count_short_runs(world.resolve(city).asked);
}

/// The store never comes to disagree with the geocoding service, and while
/// they agree the store cannot be told from the service: a run that can read
/// the store ends with the candidate that the service ranks first for the
/// city, whether it came from the store or from the service.
pub proof fn store_stays_in_agreement(world: World, city: Seq<char>)
    requires
        world.store_agrees_with_geocoder(),
    ensures
        world.resolve(city).world.store_agrees_with_geocoder(),
        world.readable ==> world.resolve(city).result == match (world.geocoder)(city) {
            None => Err::<LatLong, RequestError>(RequestError::UpstreamFailure),
            Some(candidates) => match first_candidate(candidates) {
                None => Err(RequestError::NotFound),
                Some(coordinates) => Ok(coordinates),
            },
        },
{
    resolve_cases(world, city);
    let after = world.resolve(city).world;
    assert forall|other: Seq<char>| #[trigger] after.store.contains_key(other) implies {
        &&& (after.geocoder)(other) is Some
        &&& first_candidate((after.geocoder)(other)->Some_0) == Some(after.store[other])
    } by {
        if other != city {
            assert(world.store.contains_key(other));
        }
    }
}

/// Two requests for one city that both miss the store do no harm to each
/// other. Both are sent to the geocoding service and both go on to insert what
/// it found. The store takes the first insert and answers the second as a
/// duplicate, which it ignores; each request ends with the coordinates it
/// geocoded, and the store holds one entry for the city.
pub proof fn concurrent_misses_both_succeed(world: World, city: Seq<char>, coordinates: LatLong)
    requires
        world.readable,
        world.writable,
        !world.store.contains_key(city),
        (world.geocoder)(city) is Some,
        first_candidate((world.geocoder)(city)->Some_0) == Some(coordinates),
    ensures
        ({
            let lookup = ResolveRequestView::Lookup { city };
            let geocode = ResolveRequestView::Geocode { city };
            let persist = ResolveRequestView::Persist { city, coordinates };
            let once = world.after(persist);
            let twice = once.after(persist);
            &&& world.after(lookup) == world
            &&& crate::resolver::next(lookup, world.reply_to(lookup)) == ResolveStepView::Ask(
                geocode,
            )
            &&& world.after(geocode) == world
            &&& crate::resolver::next(geocode, world.reply_to(geocode)) == ResolveStepView::Ask(
                persist,
            )
            &&& world.reply_to(persist) == ResolveReplyView::Persisted(PersistOutcome::Stored)
            &&& once.reply_to(persist) == ResolveReplyView::Persisted(
                PersistOutcome::DuplicateIgnored,
            )
            &&& crate::resolver::next(persist, world.reply_to(persist)) == ResolveStepView::Done(
                Ok(coordinates),
            )
            &&& crate::resolver::next(persist, once.reply_to(persist)) == ResolveStepView::Done(
                Ok(coordinates),
            )
            &&& once.store == world.store.insert(city, coordinates)
            &&& twice == once
        }),
{
}

/// Every run of the pipeline, case by case.
///
/// The coordinates are resolved first. The forecast service is asked only once
/// they are there, and for them. A request fails as the resolver failed, or
/// with [`RequestError::UpstreamFailure`] where the forecast service failed,
/// and else ends with the display composed for the city from the series that
/// the service gave. The pipeline itself leaves the store alone.
pub proof fn handle_cases(world: World, city: Seq<char>)
    ensures
        world.handle(city).world == world.resolve(city).world,
        world.handle(city).asked == match world.resolve(city).result {
            Err(_) => seq![PipelineRequestView::Resolve { city }],
            Ok(coordinates) => seq![
                PipelineRequestView::Resolve { city },
                PipelineRequestView::Fetch { city, coordinates },
            ],
        },
        world.handle(city).result == match world.resolve(city).result {
            Err(error) => Err::<WeatherDisplayView, RequestError>(error),
            Ok(coordinates) => match (world.forecaster)(coordinates) {
                None => Err(RequestError::UpstreamFailure),
                Some(response) => Ok(compose(city, response)),
            },
        },
{
    reveal_with_fuel(World::handle_from, 2);
    resolve_cases(world, city);
    let run = world.handle(city);
    match world.resolve(city).result {
        Err(_) => {
            assert(run.asked =~= seq![PipelineRequestView::Resolve { city }]);
        },
        Ok(coordinates) => {
            assert(run.asked =~= seq![
                PipelineRequestView::Resolve { city },
                PipelineRequestView::Fetch { city, coordinates },
            ]);
        },
    }
}

/// A store that refuses the insert does not cost the request its display.
/// Where the city has to be geocoded and the insert of what was found fails,
/// the request still ends with the display of the forecast that the service
/// gave for the geocoded coordinates.
pub proof fn failed_write_still_displays(
    world: World,
    city: Seq<char>,
    coordinates: LatLong,
    response: WeatherResponseView,
)
    requires
        world.readable,
        !world.store.contains_key(city),
        (world.geocoder)(city) is Some,
        first_candidate((world.geocoder)(city)->Some_0) == Some(coordinates),
        !world.writable,
        (world.forecaster)(coordinates) == Some(response),
    ensures
        store_writes(world.resolve(city).asked) == 1,
        world.insert_outcome(city) == PersistOutcome::Failed,
        world.resolve(city).result == Ok::<LatLong, RequestError>(coordinates),
        world.handle(city).result == Ok::<WeatherDisplayView, RequestError>(
            compose(city, response),
        ),
{
    resolve_cases(world, city);
    count_short_runs(world.resolve(city).asked);
    handle_cases(world, city);
}

} // verus!
