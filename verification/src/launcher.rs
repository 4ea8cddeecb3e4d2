//! The browser launcher: a request to open a URL with the operating system's
//! registered default handler. The URL is opaque to this crate: nothing
//! validates or rewrites it, and no input is rejected. Whether the launch
//! succeeds is never reported back; the host discards the outcome.

use vstd::prelude::*;

verus! {

/// One launch attempt: the URL exactly as the caller gave it.
pub struct LaunchRequest {
    url: String,
}

impl LaunchRequest {
    /// The characters of the URL this request carries.
    pub closed spec fn url_view(&self) -> Seq<char> {
        self.url@
    }

    /// Accepts any URL string, including an empty or malformed one, and
    /// carries it unchanged: the launcher has no validation step.
    pub fn new(url: String) -> (r: Self)
        ensures
            r.url_view() == url@,
    {
        LaunchRequest { url }
    }

    /// The URL to hand to the default handler, unchanged.
    pub fn url(&self) -> (u: &String)
        ensures
            u@ == self.url_view(),
    {
        &self.url
    }
}

} // verus!
