//! Service addresses, statuses and startup failures.

use city_weather::endpoint::{forecast_endpoint, geocoding_endpoint};
use city_weather::error::{database_url, RequestError, StrError};

#[test]
fn geocoding_address_carries_the_city() {
    assert_eq!(
        geocoding_endpoint("Paris"),
        "https://geocoding-api.open-meteo.com/v1/search?name=Paris&count=1&language=en&format=json"
    );
}

#[test]
fn geocoding_address_takes_the_city_as_is() {
    assert_eq!(
        geocoding_endpoint("New York"),
        "https://geocoding-api.open-meteo.com/v1/search?name=New York&count=1&language=en&format=json"
    );
    assert_eq!(
        geocoding_endpoint(""),
        "https://geocoding-api.open-meteo.com/v1/search?name=&count=1&language=en&format=json"
    );
}

#[test]
fn forecast_address_carries_the_point() {
    let latitude = 48.8566f64.to_string();
    let longitude = 2.3522f64.to_string();
    assert_eq!(
        forecast_endpoint(&latitude, &longitude),
        "https://api.open-meteo.com/v1/forecast?latitude=48.8566&longitude=2.3522&hourly=temperature_2m"
    );
    assert_eq!(
        forecast_endpoint(&(-33.0f64).to_string(), &151.25f64.to_string()),
        "https://api.open-meteo.com/v1/forecast?latitude=-33&longitude=151.25&hourly=temperature_2m"
    );
}

#[test]
fn each_failure_has_its_own_status() {
    assert_eq!(RequestError::NotFound.status(), 404);
    assert_eq!(RequestError::UpstreamFailure.status(), 500);
    assert_ne!(RequestError::NotFound.status(), RequestError::UpstreamFailure.status());
}

#[test]
fn database_address_is_the_setting() {
    assert_eq!(
        database_url(Some("postgres://localhost/weather".to_string())),
        Ok("postgres://localhost/weather".to_string())
    );
    assert_eq!(database_url(Some(String::new())), Ok(String::new()));
}

#[test]
fn missing_database_setting_is_reported() {
    let failure = database_url(None).unwrap_err();
    assert_eq!(failure, StrError("DATABASE_URL must be set".to_string()));
    assert_eq!(failure.message(), "DATABASE_URL must be set");
}

#[test]
fn failure_is_displayed_by_its_message() {
    assert_eq!(StrError("connection refused".to_string()).message(), "connection refused");
    assert_eq!(StrError(String::new()).message(), "");
}
