//! Request-correlation core: decides, for one inbound request, whether it
//! gets a correlation identifier and which one — the metrics endpoint is
//! passed through untagged, an identifier already carried by the request is
//! kept, and a request without one gets a freshly generated identifier that
//! is echoed on the response.

use vstd::prelude::*;

verus! {

/// The policy deciding request-correlation handling.
pub struct RequestIdMiddleware;

/// The per-request outcome of the policy: the identifier the request and
/// its response are tagged with, or nothing for an untagged pass-through.
pub struct RequestIdMiddlewareService {
    request_id: Option<String>,
}

/// Relies on `uuid::Uuid::new_v4` and its `Display` form: a fresh random
/// version-4 UUID renders as 36 ASCII characters in hyphenated form.
/// Nothing more is promised of the value: it is random.
#[verifier::external_body]
fn fresh_request_id() -> (r: String)
    ensures
        r@.len() == 36,
{
    uuid::Uuid::new_v4().to_string()
}

impl RequestIdMiddlewareService {
    /// The identifier this request is tagged with, if any.
    pub closed spec fn request_id_view(&self) -> Option<Seq<char>> {
        match self.request_id {
            Option::Some(s) => Option::Some(s@),
            Option::None => Option::None,
        }
    }

    /// Returns the identifier to stamp on the request and response headers,
    /// or nothing for an untagged pass-through.
    pub fn request_id(&self) -> (r: Option<&String>)
        ensures
            match r {
                Option::Some(s) => self.request_id_view() == Option::Some(s@),
                Option::None => self.request_id_view() is None,
            },
    {
        match &self.request_id {
            Option::Some(s) => Option::Some(s),
            Option::None => Option::None,
        }
    }

    /// Whether this request is tagged at all.
    pub fn tags_request(&self) -> (r: bool)
        ensures
            r == (self.request_id_view() is Some),
    {
        self.request_id.is_some()
    }
}

impl RequestIdMiddleware {
    /// Decides the correlation handling for one request: the metrics path
    /// is passed through untagged; any other request keeps the identifier
    /// it already carries, and is given a fresh 36-character one when it
    /// carries none.
    pub fn route(path: &String, incoming: Option<String>) -> (r: RequestIdMiddlewareService)
        ensures
            path@ == "/metrics"@ ==> r.request_id_view() is None,
            path@ != "/metrics"@ ==> match incoming {
                Option::Some(s) => r.request_id_view() == Option::Some(s@),
                Option::None => {
                    &&& r.request_id_view() is Some
                    &&& r.request_id_view().unwrap().len() == 36
                },
            },
    {
        let metrics_path: String = "/metrics".to_owned();
        if *path == metrics_path {
            RequestIdMiddlewareService { request_id: Option::None }
        } else {
            match incoming {
                Option::Some(s) => RequestIdMiddlewareService { request_id: Option::Some(s) },
                Option::None => RequestIdMiddlewareService {
                    request_id: Option::Some(fresh_request_id()),
                },
            }
        }
    }
}

} // verus!
