//! The two placeholder endpoint handlers behind `/mpi`.
//!
//! Each handler ignores the request entirely and unconditionally
//! returns status 200 with a fixed plain-text body and a matching
//! `Content-Length`. Neither can fail on any input.

use vstd::prelude::*;

use crate::http::{Request, Response, ResponseSpec, text_response, text_response_spec};

verus! {

/// The exact response of the `GET /mpi` handler.
pub open spec fn mpi_get_spec() -> ResponseSpec {
    text_response_spec("MPI_GET"@)
}

/// The exact response of the `POST /mpi` handler.
pub open spec fn mpi_set_spec() -> ResponseSpec {
    text_response_spec("MPI_SET"@)
}

/// Handler for `GET /mpi`: always the fixed `MPI_GET` body, with
/// status 200, `text/plain`, and `Content-Length` 7. The request is
/// ignored.
pub fn mpi_get(_req: &Request) -> (r: Response)
    ensures
        r@ == mpi_get_spec(),
{
    text_response("MPI_GET")
}

/// Handler for `POST /mpi`: always the fixed `MPI_SET` body, with
/// status 200, `text/plain`, and `Content-Length` 7. The request is
/// ignored.
pub fn mpi_set(_req: &Request) -> (r: Response)
    ensures
        r@ == mpi_set_spec(),
{
    text_response("MPI_SET")
}

} // verus!
