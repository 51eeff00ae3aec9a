use vstd::prelude::*;

pub mod models;
pub mod store;
pub mod laws;

verus! {

/// Plain-text banner served by the health-check route.
pub fn banner() -> (r: &'static str)
    ensures
        r@ == "REST API in Rust!"@,
{
    "REST API in Rust!"
}

} // verus!
