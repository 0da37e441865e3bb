//! Building the URL under which the image service serves a country's flag.

use vstd::prelude::*;

verus! {

use vstd::string::StringExecFns;

/// The URL of the 20-pixel-wide PNG flag for `country_code`:
/// the service root, the size segment, then `<code>.png`.
pub fn create_flag_url(country_code: &str) -> (url: String)
    ensures
        url@ == "https://flagcdn.com/w20/"@ + country_code@ + ".png"@,
{
    let mut url = String::new();
    url.append("https://flagcdn.com/w20/");
    url.append(country_code);
    url.append(".png");
    proof {
        assert(url@ =~= "https://flagcdn.com/w20/"@ + country_code@ + ".png"@);
    }
    url
}

} // verus!
