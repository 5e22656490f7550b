use vstd::prelude::*;
use vstd::string::*;

use crate::error::WeatherError;

verus! {

/// The address of the hourly forecast service, up to the latitude value.
pub const FORECAST_ENDPOINT: &'static str = "https://api.met.no/weatherapi/locationforecast/2.0/compact?lat=";

/// Coordinates as the geolocation service wrote them; passed on verbatim.
pub struct Location {
    pub lat: String,
    pub lon: String,
}

/// Index of the first comma in `s` at or after `start`, or `s.len()` if there
/// is none.
pub open spec fn comma_from(s: Seq<char>, start: int) -> int
    decreases s.len() - start,
{
    if start < 0 || start >= s.len() {
        s.len() as int
    } else if s[start] == ',' {
        start
    } else {
        comma_from(s, start + 1)
    }
}

proof fn lemma_comma_from_range(s: Seq<char>, start: int)
    requires
        0 <= start <= s.len(),
    ensures
        start <= comma_from(s, start) <= s.len(),
        comma_from(s, start) < s.len() ==> s[comma_from(s, start)] == ',',
    decreases s.len() - start,
{
    if start < s.len() && s[start] != ',' {
        lemma_comma_from_range(s, start + 1);
    }
}

/// The URL of the forecast for the given coordinate texts.
pub open spec fn forecast_url_of(lat: Seq<char>, lon: Seq<char>) -> Seq<char> {
    FORECAST_ENDPOINT@ + lat + "&lon="@ + lon
}

/// Finds the first comma in `s` at or after `start`.
fn find_comma(s: &str, start: usize) -> (r: usize)
    requires
        start <= s@.len(),
    ensures
        r == comma_from(s@, start as int),
{
    let n = s.unicode_len();
    let mut i: usize = start;
    while i < n
        invariant
            n == s@.len(),
            start <= i <= n,
            comma_from(s@, start as int) == comma_from(s@, i as int),
        decreases n - i,
    {
        if s.get_char(i) == ',' {
            return i;
        }
        i = i + 1;
    }
    i
}

impl Location {
    /// Reads the coordinates from the `loc` field of a geolocation response,
    /// a `"lat,lon"` text. The latitude is the text before the first comma,
    /// the longitude the text after it up to the next comma or the end.
    /// A text without a comma gives `LocationFormatError`.
    pub fn parse(loc: &str) -> (r: Result<Location, WeatherError>)
        ensures
            r is Err <==> comma_from(loc@, 0) == loc@.len(),
            r is Err ==> r->Err_0 == WeatherError::LocationFormatError,
            r is Ok ==> ({
                let k = comma_from(loc@, 0);
                &&& r->Ok_0.lat@ == loc@.subrange(0, k)
                &&& r->Ok_0.lon@ == loc@.subrange(k + 1, comma_from(loc@, k + 1))
            }),
    {
        let n = loc.unicode_len();
        let k = find_comma(loc, 0);
        proof {
            lemma_comma_from_range(loc@, 0);
        }
        if k == n {
            return Err(WeatherError::LocationFormatError);
        }
        let e = find_comma(loc, k + 1);
        proof {
            lemma_comma_from_range(loc@, k + 1);
        }
        let lat = loc.substring_char(0, k).to_owned();
        let lon = loc.substring_char(k + 1, e).to_owned();
        Ok(Location { lat, lon })
    }

    /// The URL of the hourly forecast for these coordinates, which stand in
    /// it unchanged.
    pub fn forecast_url(&self) -> (r: String)
        ensures
            r@ == forecast_url_of(self.lat@, self.lon@),
    {
        let mut url = String::from_str(FORECAST_ENDPOINT);
        url.append(self.lat.as_str());
        url.append("&lon=");
        url.append(self.lon.as_str());
        url
    }
}

} // verus!
