use vstd::prelude::*;

verus! {

/// The sky condition that the weather service reports with a current reading.
#[derive(Clone, Debug, Default, PartialEq, Eq)]
pub struct Condition {
    pub text: String,
    pub icon: String,
    pub code: i64,
}

/// The address of the current-weather query for a postal code.
pub open spec fn request_url_text(key: Seq<char>, zip: Seq<char>) -> Seq<char> {
    "http://api.weatherapi.com/v1/current.json?key="@ + key + "&q="@ + zip + "&aqi=no"@
}

/// The address that asks the weather service for the current weather at
/// `zip`, with the account key `key` and without air-quality data.
pub fn request_url(key: &str, zip: &str) -> (r: String)
    ensures
        r@ == request_url_text(key@, zip@),
{
    let mut r = String::from_str("http://api.weatherapi.com/v1/current.json?key=");
    r.append(key);
    r.append("&q=");
    r.append(zip);
    r.append("&aqi=no");
    r
}

} // verus!
