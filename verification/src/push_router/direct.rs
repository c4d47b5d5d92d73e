//! Routing to the worker that the request names.

use vstd::prelude::*;

use crate::protocols::PreprocessedRequest;
use crate::push_router::error::RouteError;

verus! {

/// Reads the worker from each request's routing hints and routes directly to it,
/// for use where an external router selects workers.
pub struct DirectRoutingRouter<P> {
    pub inner: P,
}

impl<P> DirectRoutingRouter<P> {
    /// A router that sends requests by way of `inner`.
    pub fn new(inner: P) -> (router: DirectRoutingRouter<P>)
        ensures
            router.inner == inner,
    {
        DirectRoutingRouter { inner }
    }

    /// The worker that the request names, which it must.
    pub fn get_worker_id(request: &PreprocessedRequest) -> (worker_id: Result<u64, RouteError>)
        ensures
            match named_worker(*request) {
                Some(named) => worker_id == Ok::<u64, RouteError>(named),
                None => worker_id matches Err(RouteError::WorkerIdRequired),
            },
    {
        let named = match &request.routing {
            Some(routing) => match routing.decode_worker_id {
                Some(worker_id) => Some(worker_id),
                None => routing.backend_instance_id,
            },
            None => None,
        };
        match named {
            Some(worker_id) => Ok(worker_id),
            None => Err(RouteError::WorkerIdRequired),
        }
    }
}

/// The worker that the request names: that for decoding before that of the
/// backend.
pub open spec fn named_worker(request: PreprocessedRequest) -> Option<u64> {
    match request.routing {
        Some(routing) => if routing.decode_worker_id is Some {
            routing.decode_worker_id
        } else {
            routing.backend_instance_id
        },
        None => None,
    }
}

} // verus!
