use vstd::prelude::*;

verus! {

/// The query URL for one lookup: the fixed endpoint, the city and the
/// country code joined by a comma, metric units, and the API key.
pub open spec fn request_url(city: Seq<char>, country: Seq<char>, key: Seq<char>) -> Seq<char> {
    "https://api.openweathermap.org/data/2.5/weather?q="@ + city + ","@ + country
        + "&units=metric&appid="@ + key
}

/// Builds the query URL for one lookup.
pub fn build_url(city: &str, country: &str, key: &str) -> (r: String)
    ensures
        r@ == request_url(city@, country@, key@),
{
    let mut s = "https://api.openweathermap.org/data/2.5/weather?q=".to_owned();
    s.append(city);
    s.append(",");
    s.append(country);
    s.append("&units=metric&appid=");
    s.append(key);
    proof {
        assert(s@ =~= request_url(city@, country@, key@));
    }
    s
}

} // verus!
