//! Reads an hour count, resolves "lat,lon" coordinates, and aggregates an
//! hourly weather forecast into its mean temperature and total precipitation.

pub mod config;
pub mod error;
pub mod forecast;
pub mod location;

pub use config::{parse_hours, Config};
pub use error::WeatherError;
pub use forecast::{ForecastPoint, ForecastSeries, ForecastSummary};
pub use location::Location;
