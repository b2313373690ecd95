//! The request that asks the upstream provider for the weather of a city.

use vstd::prelude::*;
use vstd::string::StringExecFns;

verus! {

/// The address of the upstream request for `city` with the credential
/// `api_key`. Both are put in as they are given.
pub open spec fn request_url(api_key: Seq<char>, city: Seq<char>) -> Seq<char> {
    "https://api.weatherapi.com/v1/current.json?key="@ + api_key + "&q="@ + city + "&aqi=no"@
}

/// Builds the address of the upstream request.
pub fn upstream_url(api_key: &str, city: &str) -> (url: String)
    ensures
        url@ == request_url(api_key@, city@),
{
    let mut url = String::from_str("https://api.weatherapi.com/v1/current.json?key=");
    url.append(api_key);
    url.append("&q=");
    url.append(city);
    url.append("&aqi=no");
    url
}

} // verus!
