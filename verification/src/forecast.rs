//! The forecast service's answer and its composition into display rows.

use vstd::prelude::*;

verus! {

/// The hourly series of a forecast: two parallel lists. `time[i]` is the hour
/// that `temperature_2m[i]` was forecast for; each temperature is held as the
/// text it is displayed with.
#[derive(Debug, PartialEq, Eq)]
pub struct Hourly {
    pub time: Vec<String>,
    pub temperature_2m: Vec<String>,
}

/// What an [`Hourly`] holds.
pub struct HourlyView {
    pub time: Seq<Seq<char>>,
    pub temperature_2m: Seq<Seq<char>>,
}

impl View for Hourly {
    type V = HourlyView;

    open spec fn view(&self) -> HourlyView {
        HourlyView {
            time: self.time@.map_values(|s: String| s@),
            temperature_2m: self.temperature_2m@.map_values(|s: String| s@),
        }
    }
}

/// The forecast service's answer for one point. `latitude` and `longitude`
/// hold bits as the fields of [`crate::coordinates::LatLong`] do.
#[derive(Debug, PartialEq, Eq)]
pub struct WeatherResponse {
    pub latitude: u64,
    pub longitude: u64,
    pub timezone: String,
    pub hourly: Hourly,
}

/// What a [`WeatherResponse`] holds.
pub struct WeatherResponseView {
    pub latitude: u64,
    pub longitude: u64,
    pub timezone: Seq<char>,
    pub hourly: HourlyView,
}

impl View for WeatherResponse {
    type V = WeatherResponseView;

    open spec fn view(&self) -> WeatherResponseView {
        WeatherResponseView {
            latitude: self.latitude,
            longitude: self.longitude,
            timezone: self.timezone@,
            hourly: self.hourly@,
        }
    }
}

/// One row of the display: an hour and the temperature forecast for it.
#[derive(Debug, PartialEq, Eq)]
pub struct Forecast {
    pub date: String,
    pub temperature: String,
}

/// What a [`Forecast`] holds.
pub struct ForecastView {
    pub date: Seq<char>,
    pub temperature: Seq<char>,
}

impl View for Forecast {
    type V = ForecastView;

    open spec fn view(&self) -> ForecastView {
        ForecastView { date: self.date@, temperature: self.temperature@ }
    }
}

/// The forecast for a city, ready to be rendered.
#[derive(Debug, PartialEq, Eq)]
pub struct WeatherDisplay {
    pub city: String,
    pub forecasts: Vec<Forecast>,
}

/// What a [`WeatherDisplay`] holds.
pub struct WeatherDisplayView {
    pub city: Seq<char>,
    pub forecasts: Seq<ForecastView>,
}

impl View for WeatherDisplay {
    type V = WeatherDisplayView;

    open spec fn view(&self) -> WeatherDisplayView {
        WeatherDisplayView {
            city: self.city@,
            forecasts: self.forecasts@.map_values(|f: Forecast| f@),
        }
    }
}

/// The rows of a series: hour `i` beside temperature `i`, in the order of the
/// series, for as many hours as both lists have.
pub open spec fn rows(hourly: HourlyView) -> Seq<ForecastView> {
    Seq::new(
        vstd::math::min(hourly.time.len() as int, hourly.temperature_2m.len() as int) as nat,
        |i: int| ForecastView { date: hourly.time[i], temperature: hourly.temperature_2m[i] },
    )
}

/// The display of `response` for `city`.
pub open spec fn compose(city: Seq<char>, response: WeatherResponseView) -> WeatherDisplayView {
    WeatherDisplayView { city, forecasts: rows(response.hourly) }
}

impl WeatherDisplay {
    /// Composes the display of `response` for `city`.
    ///
    /// Row `i` pairs hour `i` with temperature `i`. Where one list of the series
    /// is longer than the other, what it holds beyond the shorter one's length
    /// is dropped. Nothing else of `response` is shown.
    pub fn new(city: String, response: WeatherResponse) -> (display: WeatherDisplay)
        ensures
            display@ == compose(city@, response@),
            display.city@ == city@,
            display.forecasts.len() == vstd::math::min(
                response.hourly.time.len() as int,
                response.hourly.temperature_2m.len() as int,
            ),
            forall|i: int|
                0 <= i < display.forecasts.len() ==> {
                    &&& (#[trigger] display.forecasts[i]).date@ == response.hourly.time[i]@
                    &&& display.forecasts[i].temperature@ == response.hourly.temperature_2m[i]@
                },
    {
        let hours = response.hourly.time.len();
        let readings = response.hourly.temperature_2m.len();
        let count = if hours <= readings { hours } else { readings };
        let mut forecasts: Vec<Forecast> = Vec::new();
        let mut i: usize = 0;
        while i < count
            invariant
                i <= count,
                count <= response.hourly.time.len(),
                count <= response.hourly.temperature_2m.len(),
                forecasts.len() == i,
                forall|k: int|
                    0 <= k < i ==> {
                        &&& (#[trigger] forecasts[k]).date@ == response.hourly.time[k]@
                        &&& forecasts[k].temperature@ == response.hourly.temperature_2m[k]@
                    },
            decreases count - i,
        {
            forecasts.push(
                Forecast {
                    date: response.hourly.time[i].clone(),
                    temperature: response.hourly.temperature_2m[i].clone(),
                },
            );
            i += 1;
        }
        let display = WeatherDisplay { city, forecasts };
        assert(display@.forecasts =~= rows(response@.hourly));
        display
    }
}

} // verus!
