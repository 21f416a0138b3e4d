//! The request to the upstream API, which knows where on disk a movie or an
//! episode lies: its address, and the key that it is sent with.

use crate::text::{split, split_text, texts};
use vstd::prelude::*;
use vstd::string::*;

verus! {

/// The address of the API where none is configured.
pub open spec fn default_api_url() -> Seq<char> {
    "http://back:5000"@
}

/// The key sent to the API: the first of the configured keys, which are
/// listed with commas between.
pub open spec fn first_key(keys: Seq<char>) -> Seq<char> {
    split_text(keys, ","@)[0]
}

/// The address of a resource: the address of the API, the kind of the
/// resource and its slug, with a `/` between.
pub open spec fn resource_address(api_url: Seq<char>, resource: Seq<char>, slug: Seq<char>) -> Seq<
    char,
> {
    api_url + "/"@ + resource + "/"@ + slug
}

/// The address of the API: the configured one, else the default.
pub fn get_api_url(configured: Option<String>) -> (url: String)
    ensures
        url@ == match configured {
            Some(u) => u@,
            None => default_api_url(),
        },
{
    match configured {
        Some(url) => url,
        None => "http://back:5000".to_owned(),
    }
}

/// The key to send to the API, from the configured list of keys.
pub fn get_api_key(keys: &str) -> (key: String)
    ensures
        key@ == first_key(keys@),
{
    proof {
        reveal_strlit(",");
    }
    let parts = split(keys, ",");
    assert(texts(parts@).len() > 0);
    assert(texts(parts@)[0] == parts@[0]@);
    parts[0].clone()
}

/// The address at which the API resolves a resource.
pub fn get_resource_url(api_url: &str, resource: &str, slug: &str) -> (url: String)
    ensures
        url@ == resource_address(api_url@, resource@, slug@),
{
    let mut url = api_url.to_owned();
    url.append("/");
    url.append(resource);
    url.append("/");
    url.append(slug);
    url
}

} // verus!
