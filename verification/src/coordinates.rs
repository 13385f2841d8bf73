//! Geographic coordinates and the geocoding service's answer.

use vstd::prelude::*;

verus! {

/// A point on Earth, as a latitude and a longitude in degrees.
///
/// Each field holds the 64 bits of an IEEE 754 double-precision number, so a
/// value passes through the library unchanged, bit for bit. Two points are
/// equal when their bits are.
#[derive(Clone, Copy, Debug, PartialEq, Eq, Structural)]
pub struct LatLong {
    pub latitude: u64,
    pub longitude: u64,
}

/// The geocoding service's answer to a search: the candidates in the order the
/// service ranked them. An empty list means that nothing matched.
#[derive(Debug, PartialEq, Eq)]
pub struct GeoResponse {
    pub results: Vec<LatLong>,
}

impl View for GeoResponse {
    type V = Seq<LatLong>;

    open spec fn view(&self) -> Seq<LatLong> {
        self.results@
    }
}

impl GeoResponse {
    /// The candidate the service ranked first, if it found any.
    pub fn first(&self) -> (candidate: Option<LatLong>)
        ensures
            candidate == first_candidate(self@),
    {
        if self.results.len() == 0 {
            None
        } else {
            Some(self.results[0])
        }
    }
}

/// The first of `candidates`, or `None` when there is none.
pub open spec fn first_candidate(candidates: Seq<LatLong>) -> Option<LatLong> {
    if candidates.len() == 0 {
        None
    } else {
        Some(candidates[0])
    }
}

} // verus!
