//! The composition of a series into display rows.

use city_weather::coordinates::{GeoResponse, LatLong};
use city_weather::forecast::{Forecast, Hourly, WeatherDisplay, WeatherResponse};

fn response(time: &[&str], temperatures: &[f64]) -> WeatherResponse {
    WeatherResponse {
        latitude: 48.8566f64.to_bits(),
        longitude: 2.3522f64.to_bits(),
        timezone: "GMT".to_string(),
        hourly: Hourly {
            time: time.iter().map(|hour| hour.to_string()).collect(),
            temperature_2m: temperatures.iter().map(|reading| reading.to_string()).collect(),
        },
    }
}

fn row(date: &str, temperature: &str) -> Forecast {
    Forecast { date: date.to_string(), temperature: temperature.to_string() }
}

#[test]
fn rows_pair_each_hour_with_its_temperature() {
    let display = WeatherDisplay::new(
        "Paris".to_string(),
        response(&["2024-01-01T00:00", "2024-01-01T01:00"], &[5.0, 4.5]),
    );
    assert_eq!(
        display,
        WeatherDisplay {
            city: "Paris".to_string(),
            forecasts: vec![row("2024-01-01T00:00", "5"), row("2024-01-01T01:00", "4.5")],
        }
    );
}

#[test]
fn rows_keep_the_order_of_the_series() {
    let display = WeatherDisplay::new(
        "Oslo".to_string(),
        response(&["c", "a", "b", "a"], &[-3.25, 0.0, 12.0, -0.5]),
    );
    assert_eq!(
        display.forecasts,
        vec![row("c", "-3.25"), row("a", "0"), row("b", "12"), row("a", "-0.5")]
    );
}

#[test]
fn more_hours_than_temperatures_drops_the_late_hours() {
    let display =
        WeatherDisplay::new("Paris".to_string(), response(&["h0", "h1", "h2"], &[1.5, 2.5]));
    assert_eq!(display.forecasts, vec![row("h0", "1.5"), row("h1", "2.5")]);
}

#[test]
fn more_temperatures_than_hours_drops_the_late_temperatures() {
    let display =
        WeatherDisplay::new("Paris".to_string(), response(&["h0"], &[1.5, 2.5, 3.5]));
    assert_eq!(display.forecasts, vec![row("h0", "1.5")]);
}

#[test]
fn empty_series_gives_no_rows() {
    let none: [f64; 0] = [];
    assert!(WeatherDisplay::new("Paris".to_string(), response(&[], &none)).forecasts.is_empty());
    assert!(WeatherDisplay::new("Paris".to_string(), response(&["h0"], &none)).forecasts.is_empty());
    assert!(WeatherDisplay::new("Paris".to_string(), response(&[], &[1.5])).forecasts.is_empty());
}

#[test]
fn row_count_is_the_shorter_length() {
    for hours in 0..5usize {
        for readings in 0..5usize {
            let time: Vec<String> = (0..hours).map(|i| format!("h{}", i)).collect();
            let temperature_2m: Vec<String> = (0..readings).map(|i| format!("{}", i)).collect();
            let display = WeatherDisplay::new(
                "Paris".to_string(),
                WeatherResponse {
                    latitude: 0,
                    longitude: 0,
                    timezone: String::new(),
                    hourly: Hourly { time, temperature_2m },
                },
            );
            assert_eq!(display.forecasts.len(), hours.min(readings));
            for (i, forecast) in display.forecasts.iter().enumerate() {
                assert_eq!(forecast.date, format!("h{}", i));
                assert_eq!(forecast.temperature, format!("{}", i));
            }
        }
    }
}

#[test]
fn city_is_shown_as_it_was_asked() {
    let display = WeatherDisplay::new("Sao Paulo ".to_string(), response(&[], &[]));
    assert_eq!(display.city, "Sao Paulo ");
    let display = WeatherDisplay::new(String::new(), response(&["h0"], &[1.0]));
    assert_eq!(display.city, "");
    assert_eq!(display.forecasts, vec![row("h0", "1")]);
}

#[test]
fn first_candidate_is_the_one_ranked_first() {
    let first = LatLong { latitude: 1, longitude: 2 };
    let second = LatLong { latitude: 3, longitude: 4 };
    assert_eq!(GeoResponse { results: Vec::new() }.first(), None);
    assert_eq!(GeoResponse { results: vec![first] }.first(), Some(first));
    assert_eq!(GeoResponse { results: vec![second, first] }.first(), Some(second));
}

#[test]
fn coordinates_keep_every_bit() {
    for degrees in [48.8566f64, -95.5555, 0.0, -0.0, 2.3522, 180.0, 1e-300] {
        let held = LatLong { latitude: degrees.to_bits(), longitude: (-degrees).to_bits() };
        assert_eq!(f64::from_bits(held.latitude).to_bits(), degrees.to_bits());
        assert_eq!(f64::from_bits(held.longitude).to_bits(), (-degrees).to_bits());
    }
}
