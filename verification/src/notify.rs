use vstd::prelude::*;

use crate::errors::DeliveryError;

verus! {

/// Seconds allowed for one delivery attempt before it counts as failed.
pub const DELIVERY_TIMEOUT_SECS: u64 = 30;

/// Relies on reqwest's blocking client: an HTTP POST of `body` to `url`
/// with the JSON content type and a bounded timeout (redirects are
/// followed per the client's default policy). Returns the status code of
/// the final response, or `Transport` when none arrived (connection
/// failure or timeout). Nothing is assumed about which outcome occurs.
///
/// The client is built without a TLS backend, so only plain-http callback
/// addresses are reachable; an `https` address fails as `Transport` and
/// is retried like any other delivery failure.
///
/// Blocking call: reqwest's blocking client panics when used from inside
/// an async runtime, so call this — and `deliver` — from a plain thread,
/// as the scheduler's runner does.
#[verifier::external_body]
fn post_json(url: &str, body: &str) -> (r: Result<u16, DeliveryError>)
    ensures
        r matches Err(e) ==> e == DeliveryError::Transport,
{
    let built = reqwest::blocking::Client::builder().timeout(std::time::Duration::from_secs(
        DELIVERY_TIMEOUT_SECS,
    )).build();
    let client = match built {
        Ok(c) => c,
        Err(_) => return Err(DeliveryError::Transport),
    };
    let sent = client.post(url).header("content-type", "application/json").body(
        body.to_string(),
    ).send();
    match sent {
        Ok(resp) => Ok(resp.status().as_u16()),
        Err(_) => Err(DeliveryError::Transport),
    }
}

/// Success of a delivery attempt: any status in the 2xx range.
pub fn status_is_success(status: u16) -> (r: bool)
    ensures
        r <==> 200 <= status < 300,
{
    200 <= status && status < 300
}

/// The completion rule for one delivery attempt, judged on the transport
/// outcome: a received 2xx status is success, any other received status
/// is refusal carrying that status, and a transport failure is handed
/// through unchanged.
pub fn classify_response(post: Result<u16, DeliveryError>) -> (r: Result<(), DeliveryError>)
    ensures
        post matches Ok(s) ==> if 200 <= s < 300 {
            r == Ok::<(), DeliveryError>(())
        } else {
            r == Err::<(), DeliveryError>(DeliveryError::UnsuccessfulStatus(s))
        },
        post matches Err(e) ==> r == Err::<(), DeliveryError>(e),
{
    match post {
        Ok(s) => {
            if status_is_success(s) {
                Ok(())
            } else {
                Err(DeliveryError::UnsuccessfulStatus(s))
            }
        },
        Err(e) => Err(e),
    }
}

/// Deliver the serialized peaks to the callback address: one bounded
/// delivery attempt, no retry within it, judged by `classify_response`.
/// `Ok` exactly when a response with a success status arrived; no
/// response is `Err(Transport)`, and a response outside the success range
/// is `Err(UnsuccessfulStatus)` carrying its status. The attempt never
/// panics: every failure is reported as a value. Blocking: see
/// `post_json` — not to be called from inside an async runtime.
pub fn deliver(url: &str, payload: &str) -> (r: Result<(), DeliveryError>)
    ensures
        r matches Err(DeliveryError::UnsuccessfulStatus(s)) ==> !(200 <= s < 300),
{
    classify_response(post_json(url, payload))
}

} // verus!
