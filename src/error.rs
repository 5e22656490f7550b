use vstd::prelude::*;

verus! {

/// Every way a run can fail; each one is terminal.
#[derive(Clone, Copy, Debug, PartialEq, Eq, Structural)]
pub enum WeatherError {
    /// The hour-count argument is missing or is not a decimal number.
    InvalidArgument,
    /// The geolocation service could not be reached.
    LocationFetchError,
    /// The geolocation response is not the expected JSON document.
    LocationParseError,
    /// The `loc` field does not hold two comma-separated coordinates.
    LocationFormatError,
    /// The forecast service could not be reached.
    ForecastFetchError,
    /// The forecast response does not match the forecast schema.
    ForecastParseError,
    /// Zero hours were requested.
    InvalidHourCount,
    /// More hours were requested than the forecast holds.
    InsufficientForecastData,
}

/// The process exit code that belongs to each error kind.
pub open spec fn exit_code_of(e: WeatherError) -> i32 {
    match e {
        WeatherError::InvalidArgument => 2,
        WeatherError::LocationFetchError => 3,
        WeatherError::LocationParseError => 4,
        WeatherError::LocationFormatError => 5,
        WeatherError::ForecastFetchError => 6,
        WeatherError::ForecastParseError => 7,
        WeatherError::InvalidHourCount => 8,
        WeatherError::InsufficientForecastData => 9,
    }
}

/// The message that names the stage at which each error kind arises.
pub open spec fn message_of(e: WeatherError) -> Seq<char> {
    match e {
        WeatherError::InvalidArgument => "expected one decimal argument: the number of hours"@,
        WeatherError::LocationFetchError => "failed to fetch the current location"@,
        WeatherError::LocationParseError => "failed to parse the location response"@,
        WeatherError::LocationFormatError => "location is not of the form lat,lon"@,
        WeatherError::ForecastFetchError => "failed to fetch the weather forecast"@,
        WeatherError::ForecastParseError => "failed to parse the weather forecast"@,
        WeatherError::InvalidHourCount => "the number of hours must be at least one"@,
        WeatherError::InsufficientForecastData => "the forecast covers fewer hours than requested"@,
    }
}

impl WeatherError {
    /// Exit code that the command-line entry point reports for this error;
    /// distinct for each kind and never zero.
    pub fn exit_code(&self) -> (r: i32)
        ensures
            r == exit_code_of(*self),
            r != 0,
    {
        match self {
            WeatherError::InvalidArgument => 2,
            WeatherError::LocationFetchError => 3,
            WeatherError::LocationParseError => 4,
            WeatherError::LocationFormatError => 5,
            WeatherError::ForecastFetchError => 6,
            WeatherError::ForecastParseError => 7,
            WeatherError::InvalidHourCount => 8,
            WeatherError::InsufficientForecastData => 9,
        }
    }

    /// A short description of the stage that failed.
    pub fn message(&self) -> (r: &'static str)
        ensures
            r@ == message_of(*self),
    {
        match self {
            WeatherError::InvalidArgument => {
                "expected one decimal argument: the number of hours"
            },
            WeatherError::LocationFetchError => {
                "failed to fetch the current location"
            },
            WeatherError::LocationParseError => {
                "failed to parse the location response"
            },
            WeatherError::LocationFormatError => {
                "location is not of the form lat,lon"
            },
            WeatherError::ForecastFetchError => {
                "failed to fetch the weather forecast"
            },
            WeatherError::ForecastParseError => {
                "failed to parse the weather forecast"
            },
            WeatherError::InvalidHourCount => {
                "the number of hours must be at least one"
            },
            WeatherError::InsufficientForecastData => {
                "the forecast covers fewer hours than requested"
            },
        }
    }
}

} // verus!
