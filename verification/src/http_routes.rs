//! Routing of the front end's HTTP requests.
use vstd::prelude::*;

verus! {

/// The endpoints of the front end.
#[derive(Debug, Clone, Copy, PartialEq, Eq, Structural)]
pub enum Endpoint {
    /// `/payments`: submit a payment.
    Payments,
    /// `/payments-summary`: the per-processor summary.
    Summary,
    /// Any other path.
    Unknown,
}

/// The HTTP methods the routing tells apart.
#[derive(Debug, Clone, Copy, PartialEq, Eq, Structural)]
pub enum HttpMethod {
    Get,
    Post,
    Other,
}

/// The endpoint a path names.
pub open spec fn endpoint_spec(path: Seq<char>) -> Endpoint {
    if path == "/payments"@ {
        Endpoint::Payments
    } else if path == "/payments-summary"@ {
        Endpoint::Summary
    } else {
        Endpoint::Unknown
    }
}

/// The endpoint a request's path names.
pub fn endpoint_of(path: &str) -> (endpoint: Endpoint)
    ensures
        endpoint == endpoint_spec(path@),
{
    let path = path.to_owned();
    if path == "/payments".to_owned() {
        Endpoint::Payments
    } else if path == "/payments-summary".to_owned() {
        Endpoint::Summary
    } else {
        Endpoint::Unknown
    }
}

/// Payments are submitted with `POST`, the summary is read with `GET`.
pub fn accepts(endpoint: Endpoint, method: HttpMethod) -> (ok: bool)
    ensures
        ok == match endpoint {
            Endpoint::Payments => method == HttpMethod::Post,
            Endpoint::Summary => method == HttpMethod::Get,
            Endpoint::Unknown => false,
        },
{
    match endpoint {
        Endpoint::Payments => match method {
            HttpMethod::Post => true,
            _ => false,
        },
        Endpoint::Summary => match method {
            HttpMethod::Get => true,
            _ => false,
        },
        Endpoint::Unknown => false,
    }
}

} // verus!
