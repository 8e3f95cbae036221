use vstd::prelude::*;

verus! {

/// The kinds of failure a request can end in, each distinguishable by the
/// caller: image preprocessing, transport (network/timeout), a non-2xx HTTP
/// status (with the status code and the raw body kept verbatim), and a
/// response that could not be decoded.
#[derive(Debug, Clone, PartialEq, Eq)]
pub enum LensError {
    ImagePreprocessing { message: String },
    Transport { message: String },
    Service { status: u16, body: String },
    Decode { message: String },
}

/// An HTTP status in the 2xx range counts as success.
pub open spec fn is_success_status(status: u16) -> bool {
    200 <= status < 300
}

/// Classifies a transport outcome: a 2xx status is `Ok`, any other status
/// becomes a `Service` error carrying the original status code and the
/// response body text unchanged.
pub fn check_status(status: u16, body: String) -> (r: Result<(), LensError>)
    ensures
        is_success_status(status) <==> r is Ok,
        !is_success_status(status) ==> r == Err::<(), LensError>((LensError::Service {
            status,
            body,
        })),
{
    if 200 <= status && status < 300 {
        Ok(())
    } else {
        Err(LensError::Service { status, body })
    }
}

} // verus!
