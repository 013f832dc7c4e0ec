//! Controller entry points for the two notification endpoints.
//!
//! Each function is a pure translation layer: it hands the decoded request to
//! the registry and turns the registry's answer into a transport response,
//! with no business logic of its own. A registry error short-circuits to a
//! failure response without further processing. The transport layer itself
//! (HTTP routing, JSON coding) lives outside the library and exchanges plain
//! values with these functions.

use crate::registry::Registry;
use crate::registry::RegistryError;
use crate::subscriber::Subscriber;
use vstd::prelude::*;

verus! {

/// What the transport layer sends back: on success the affected record with
/// an HTTP status code and, for a newly created resource, a location hint;
/// on failure the registry's error with the status code it maps to.
pub enum Response {
    Success { status: u16, body: Subscriber, location: Option<String> },
    Failure { status: u16, error: RegistryError },
}

/// The HTTP status code that each registry error maps to.
pub open spec fn error_status(e: RegistryError) -> int {
    match e {
        RegistryError::NotFound => 404,
        RegistryError::Conflict => 409,
    }
}

/// The code of `error_status`, for the transport layer.
pub fn error_code(e: RegistryError) -> (c: u16)
    ensures
        c == error_status(e),
{
    match e {
        RegistryError::NotFound => 404,
        RegistryError::Conflict => 409,
    }
}

/// `POST /subscribe/<product_type>`, after the body has been decoded to a
/// `Subscriber`: registers the subscriber and answers `201 Created` with the
/// stored record and a location hint, or propagates the registry's refusal.
pub fn subscribe(registry: &mut Registry, product_type: &String, subscriber: Subscriber) -> (r:
    Response)
    requires
        old(registry).wf(),
    ensures
        final(registry).wf(),
        !old(registry)@.contains_key((product_type@, subscriber.url@)) ==> final(registry)@ == old(
            registry,
        )@.insert((product_type@, subscriber.url@), subscriber.name@) && (r matches
            Response::Success { status, body, location } && status == 201 && body.url@
            == subscriber.url@ && body.name@ == subscriber.name@ && (location matches Some(l) && l@
            == "/"@)),
        old(registry)@.contains_key((product_type@, subscriber.url@)) ==> final(registry)@ == old(
            registry,
        )@ && (r matches Response::Failure { status, error } && status == 409 && error
            == RegistryError::Conflict),
{
    match registry.subscribe(product_type, subscriber) {
        Ok(stored) => Response::Success {
            status: 201,
            body: stored,
            location: Some("/".to_owned()),
        },
        Err(e) => Response::Failure { status: error_code(e), error: e },
    }
}

/// `POST /unsubscribe/<product_type>?<url>`: removes the subscriber
/// registered under `(product_type, url)` and answers `200 OK` with the
/// removed record, or propagates the registry's refusal.
pub fn unsubscribe(registry: &mut Registry, product_type: &String, url: &String) -> (r: Response)
    requires
        old(registry).wf(),
    ensures
        final(registry).wf(),
        old(registry)@.contains_key((product_type@, url@)) ==> final(registry)@ == old(
            registry,
        )@.remove((product_type@, url@)) && (r matches Response::Success {
            status,
            body,
            location,
        } && status == 200 && body.url@ == url@ && body.name@ == old(registry)@.index(
            (product_type@, url@),
        ) && location is None),
        !old(registry)@.contains_key((product_type@, url@)) ==> final(registry)@ == old(registry)@
            && (r matches Response::Failure { status, error } && status == 404 && error
            == RegistryError::NotFound),
{
    match registry.unsubscribe(product_type, url) {
        Ok(removed) => Response::Success { status: 200, body: removed, location: None },
        Err(e) => Response::Failure { status: error_code(e), error: e },
    }
}

} // verus!
