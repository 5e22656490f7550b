use weather_cli::{parse_hours, Config, WeatherError};

fn args(v: &[&str]) -> Vec<String> {
    v.iter().map(|s| s.to_string()).collect()
}

#[test]
fn hours_from_second_argument() {
    let c = Config::new(&args(&["weather", "12"])).unwrap();
    assert_eq!(c.hours, 12);
    let c = Config::new(&args(&["weather", "3", "ignored"])).unwrap();
    assert_eq!(c.hours, 3);
}

#[test]
fn missing_argument_rejected() {
    assert!(matches!(Config::new(&args(&["weather"])), Err(WeatherError::InvalidArgument)));
    assert!(matches!(Config::new(&args(&[])), Err(WeatherError::InvalidArgument)));
}

#[test]
fn non_numeric_argument_rejected() {
    assert!(matches!(Config::new(&args(&["weather", "soon"])), Err(WeatherError::InvalidArgument)));
}

#[test]
fn zero_hours_is_read() {
    assert_eq!(Config::new(&args(&["weather", "0"])).unwrap().hours, 0);
}

#[test]
fn parse_hours_cases() {
    assert_eq!(parse_hours("7"), Ok(7));
    assert_eq!(parse_hours("+7"), Ok(7));
    assert_eq!(parse_hours("0042"), Ok(42));
    assert_eq!(parse_hours(&usize::MAX.to_string()), Ok(usize::MAX));
    assert_eq!(parse_hours(""), Err(WeatherError::InvalidArgument));
    assert_eq!(parse_hours("+"), Err(WeatherError::InvalidArgument));
    assert_eq!(parse_hours("-1"), Err(WeatherError::InvalidArgument));
    assert_eq!(parse_hours("1 2"), Err(WeatherError::InvalidArgument));
    assert_eq!(parse_hours("++1"), Err(WeatherError::InvalidArgument));
    assert_eq!(parse_hours("4x"), Err(WeatherError::InvalidArgument));
}

#[test]
fn parse_hours_overflow_rejected() {
    let too_big = format!("{}0", usize::MAX);
    assert_eq!(parse_hours(&too_big), Err(WeatherError::InvalidArgument));
    assert_eq!(parse_hours("99999999999999999999999"), Err(WeatherError::InvalidArgument));
}

#[test]
fn error_exit_codes_distinct() {
    let all = [
        WeatherError::InvalidArgument,
        WeatherError::LocationFetchError,
        WeatherError::LocationParseError,
        WeatherError::LocationFormatError,
        WeatherError::ForecastFetchError,
        WeatherError::ForecastParseError,
        WeatherError::InvalidHourCount,
        WeatherError::InsufficientForecastData,
    ];
    for (i, a) in all.iter().enumerate() {
        assert_ne!(a.exit_code(), 0);
        assert!(!a.message().is_empty());
        for b in all.iter().skip(i + 1) {
            assert_ne!(a.exit_code(), b.exit_code());
        }
    }
}

#[test]
fn error_messages_name_the_stage() {
    assert_eq!(WeatherError::LocationFormatError.message(), "location is not of the form lat,lon");
    assert_eq!(WeatherError::ForecastParseError.message(), "failed to parse the weather forecast");
    assert_eq!(WeatherError::InvalidHourCount.message(), "the number of hours must be at least one");
    assert_ne!(WeatherError::LocationFetchError.message(), WeatherError::ForecastFetchError.message());
}
