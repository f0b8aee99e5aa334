use vstd::prelude::*;

verus! {

/// This flag shows if a Service Request is needed after the byte is processed.
///
/// If [`ServiceRequest::Required`] is used, it will turn on Serial Poll mode
/// on the GRiD Compass. This is needed for very long requests like reading and writing.
#[derive(Clone, Copy, Debug, PartialEq, Eq, Structural)]
pub enum ServiceRequest {
    NotRequired,
    Required,
}

} // verus!
