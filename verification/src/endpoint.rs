//! The addresses of the two services that a request is sent to.

use vstd::prelude::*;

verus! {

/// The address that searches the geocoding service for `city`: one candidate
/// at most, in English, as JSON. The name is put in as it is.
pub open spec fn geocoding_url(city: Seq<char>) -> Seq<char> {
    "https://geocoding-api.open-meteo.com/v1/search?name="@ + city
        + "&count=1&language=en&format=json"@
}

/// The address that asks the forecast service for the hourly temperature, two
/// metres above ground, at the point whose latitude and longitude are written
/// as `latitude` and `longitude`.
pub open spec fn forecast_url(latitude: Seq<char>, longitude: Seq<char>) -> Seq<char> {
    "https://api.open-meteo.com/v1/forecast?latitude="@ + latitude + "&longitude="@ + longitude
        + "&hourly=temperature_2m"@
}

/// The address that searches the geocoding service for `city`.
pub fn geocoding_endpoint(city: &str) -> (url: String)
    ensures
        url@ == geocoding_url(city@),
{
    let mut url = String::from_str("https://geocoding-api.open-meteo.com/v1/search?name=");
    url.append(city);
    url.append("&count=1&language=en&format=json");
    url
}

/// The address that asks the forecast service for the point whose latitude
/// and longitude are written, in decimal, as `latitude` and `longitude`.
pub fn forecast_endpoint(latitude: &str, longitude: &str) -> (url: String)
    ensures
        url@ == forecast_url(latitude@, longitude@),
{
    let mut url = String::from_str("https://api.open-meteo.com/v1/forecast?latitude=");
    url.append(latitude);
    url.append("&longitude=");
    url.append(longitude);
    url.append("&hourly=temperature_2m");
    url
}

} // verus!
