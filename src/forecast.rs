use vstd::prelude::*;

use crate::error::WeatherError;

verus! {

/// One hourly forecast record. Values are fixed-point hundredths: the
/// temperature in hundredths of a degree Celsius, the precipitation in
/// hundredths of a millimetre.
#[derive(Clone, Copy, Debug, PartialEq, Eq, Structural)]
pub struct ForecastPoint {
    /// Instant air temperature; a record without it is malformed.
    pub air_temperature: Option<i32>,
    /// Precipitation over the next hour; absent means no rain.
    pub precipitation_amount: Option<i32>,
}

/// The forecast time series; index 0 is the current hour.
pub struct ForecastSeries {
    pub points: Vec<ForecastPoint>,
}

/// The aggregate over the first `hours` points of a series. The mean
/// temperature is the exact quotient `temperature_sum / hours`.
#[derive(Clone, Copy, Debug, PartialEq, Eq, Structural)]
pub struct ForecastSummary {
    pub hours: usize,
    pub temperature_sum: i128,
    pub total_precipitation: i128,
}

/// Temperature of a point, in hundredths of a degree; zero where it is absent.
pub open spec fn temperature_of(p: ForecastPoint) -> int {
    match p.air_temperature {
        Some(t) => t as int,
        None => 0,
    }
}

/// Precipitation of a point, in hundredths of a millimetre; absent counts as zero.
pub open spec fn precipitation_of(p: ForecastPoint) -> int {
    match p.precipitation_amount {
        Some(a) => a as int,
        None => 0,
    }
}

/// Sum of the temperatures of the first `n` points.
pub open spec fn temperature_sum(points: Seq<ForecastPoint>, n: int) -> int
    decreases n,
{
    if n <= 0 {
        0
    } else {
        temperature_sum(points, n - 1) + temperature_of(points[n - 1])
    }
}

/// Sum of the precipitation amounts of the first `n` points.
pub open spec fn precipitation_sum(points: Seq<ForecastPoint>, n: int) -> int
    decreases n,
{
    if n <= 0 {
        0
    } else {
        precipitation_sum(points, n - 1) + precipitation_of(points[n - 1])
    }
}

/// Every one of the first `n` points that the series holds carries a
/// temperature.
pub open spec fn temperatures_present(points: Seq<ForecastPoint>, n: int) -> bool {
    forall|i: int| 0 <= i < n && i < points.len() ==> (#[trigger] points[i]).air_temperature is Some
}

/// What aggregating the first `n` points of `points` gives. A count of zero
/// is rejected first; then a missing temperature among the first `n` points;
/// then a count beyond the series' length. Points past the first `n` are not
/// consumed, so a missing temperature there is no error.
pub open spec fn summary_of(points: Seq<ForecastPoint>, n: int) -> Result<ForecastSummary, WeatherError> {
    if n <= 0 {
        Err(WeatherError::InvalidHourCount)
    } else if !temperatures_present(points, n) {
        Err(WeatherError::ForecastParseError)
    } else if n > points.len() {
        Err(WeatherError::InsufficientForecastData)
    } else {
        Ok(ForecastSummary {
            hours: n as usize,
            temperature_sum: temperature_sum(points, n) as i128,
            total_precipitation: precipitation_sum(points, n) as i128,
        })
    }
}

/// Each partial sum of `n` values of type `i32` lies within `n` times the
/// type's bounds.
proof fn lemma_sums_bounded(points: Seq<ForecastPoint>, n: int)
    requires
        0 <= n <= points.len(),
    ensures
        -2147483648 * n <= temperature_sum(points, n) <= 2147483647 * n,
        -2147483648 * n <= precipitation_sum(points, n) <= 2147483647 * n,
    decreases n,
{
    if n > 0 {
        lemma_sums_bounded(points, n - 1);
    }
}

/// Both partial sums over the first `n` points depend on those points alone.
proof fn lemma_sums_of_prefix(a: Seq<ForecastPoint>, b: Seq<ForecastPoint>, n: int)
    requires
        0 <= n <= a.len(),
        n <= b.len(),
        a.take(n) == b.take(n),
    ensures
        temperature_sum(a, n) == temperature_sum(b, n),
        precipitation_sum(a, n) == precipitation_sum(b, n),
    decreases n,
{
    if n > 0 {
        assert(a[n - 1] == a.take(n)[n - 1]);
        assert(b[n - 1] == b.take(n)[n - 1]);
        assert(a.take(n - 1) == a.take(n).take(n - 1));
        assert(b.take(n - 1) == b.take(n).take(n - 1));
        lemma_sums_of_prefix(a, b, n - 1);
    }
}

/// Aggregating the first `n` points of a series gives the same result after
/// the points past the first `n` are reordered: the mean temperature and
/// total precipitation are those of the first `n` points and no others.
pub proof fn law_tail_order_irrelevant(
    a: Seq<ForecastPoint>,
    b: Seq<ForecastPoint>,
    n: int,
)
    requires
        0 < n <= a.len(),
        b.len() == a.len(),
        b.take(n) == a.take(n),
        b.skip(n).to_multiset() == a.skip(n).to_multiset(),
    ensures
        summary_of(a, n) == summary_of(b, n),
{
    lemma_sums_of_prefix(a, b, n);
    assert(temperatures_present(a, n) == temperatures_present(b, n)) by {
        assert forall|i: int| 0 <= i < n implies a[i] == b[i] by {
            assert(a[i] == a.take(n)[i]);
            assert(b[i] == b.take(n)[i]);
        }
    }
}

/// Over points that carry no precipitation amount, the total precipitation
/// of every successful aggregate is zero.
pub proof fn law_no_precipitation_is_zero(points: Seq<ForecastPoint>, n: int)
    requires
        forall|i: int| 0 <= i < points.len() ==> (#[trigger] points[i]).precipitation_amount is None,
    ensures
        summary_of(points, n) is Ok ==> summary_of(points, n)->Ok_0.total_precipitation == 0,
{
    if 0 < n <= points.len() {
        lemma_no_precipitation_sum(points, n);
    }
}

proof fn lemma_no_precipitation_sum(points: Seq<ForecastPoint>, n: int)
    requires
        0 <= n <= points.len(),
        forall|i: int| 0 <= i < points.len() ==> (#[trigger] points[i]).precipitation_amount is None,
    ensures
        precipitation_sum(points, n) == 0,
    decreases n,
{
    if n > 0 {
        lemma_no_precipitation_sum(points, n - 1);
    }
}

impl View for ForecastSeries {
    type V = Seq<ForecastPoint>;

    open spec fn view(&self) -> Seq<ForecastPoint> {
        self.points@
    }
}

impl ForecastSeries {
    /// Wraps a list of points, index 0 being the current hour.
    pub fn new(points: Vec<ForecastPoint>) -> (r: ForecastSeries)
        ensures
            r@ == points@,
    {
        ForecastSeries { points }
    }

    /// Number of hourly points in the series.
    pub fn len(&self) -> (r: usize)
        ensures
            r == self@.len(),
    {
        self.points.len()
    }

    /// Aggregates the first `hours` points: the sum of their temperatures
    /// (whose quotient by `hours` is the mean) and the sum of their
    /// precipitation amounts, an absent amount counting as zero.
    /// Zero hours give `InvalidHourCount`. Otherwise a missing temperature
    /// among the first `hours` points gives `ForecastParseError`, and after
    /// that more hours than points give `InsufficientForecastData`. Points
    /// past the first `hours` are not read.
    pub fn summarize(&self, hours: usize) -> (r: Result<ForecastSummary, WeatherError>)
        ensures
            r == summary_of(self@, hours as int),
            hours == 0 <==> r == Err::<ForecastSummary, WeatherError>(WeatherError::InvalidHourCount),
            0 < hours ==> (r == Err::<ForecastSummary, WeatherError>(
                WeatherError::ForecastParseError,
            ) <==> exists|i: int|
                0 <= i < hours && i < self@.len() && (#[trigger] self@[i]).air_temperature is None),
            r == Err::<ForecastSummary, WeatherError>(WeatherError::InsufficientForecastData)
                <==> hours > self@.len() && temperatures_present(self@, hours as int),
            r is Ok ==> r->Ok_0.hours == hours
                && r->Ok_0.temperature_sum == temperature_sum(self@, hours as int)
                && r->Ok_0.total_precipitation == precipitation_sum(self@, hours as int),
    {
        if hours == 0 {
            return Err(WeatherError::InvalidHourCount);
        }
        let len = self.points.len();
        let scan: usize = if hours < len {
            hours
        } else {
            len
        };
        let mut temperatures: i128 = 0;
        let mut rain: i128 = 0;
        let mut i: usize = 0;
        while i < scan
            invariant
                0 <= i <= scan <= len,
                len == self@.len(),
                scan == hours || scan == len,
                scan <= hours,
                temperatures == temperature_sum(self@, i as int),
                rain == precipitation_sum(self@, i as int),
                temperatures_present(self@, i as int),
            decreases scan - i,
        {
            let p = self.points[i];
            proof {
                lemma_sums_bounded(self@, i as int);
            }
            match p.air_temperature {
                Some(t) => {
                    temperatures = temperatures + t as i128;
                },
                None => {
                    return Err(WeatherError::ForecastParseError);
                },
            }
            if let Some(a) = p.precipitation_amount {
                rain = rain + a as i128;
            }
            i = i + 1;
        }
        if hours > len {
            return Err(WeatherError::InsufficientForecastData);
        }
        Ok(ForecastSummary { hours, temperature_sum: temperatures, total_precipitation: rain })
    }
}

} // verus!
