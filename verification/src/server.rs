//! The behaviour of the four HTTP endpoints, as a pure decision over the
//! configuration, the current artifact content and the coordinator. The
//! unverified shell routes requests here and writes the decided response
//! out; for the artifact endpoint it reads the persistent file first and
//! hands the bytes in.

use vstd::prelude::*;
use vstd::string::*;
use crate::config::Config;
use crate::coordinator::{Coordinator, TriggerOutcome};

verus! {

/// The four requests the proxy answers.
pub enum HttpRequest {
    /// Liveness check of the channel.
    ChannelHome,
    /// The current persistent artifact.
    ChannelArtifact,
    /// The configured upstream URL.
    Upstream,
    /// Ask for an update run.
    TriggerUpdate,
}

/// A response body.
pub enum HttpBody {
    Empty,
    Text { text: String },
    Bytes { bytes: Vec<u8> },
}

/// A decided response: status code and body.
pub struct HttpResponse {
    pub status: u16,
    pub body: HttpBody,
}

/// Decides the response for one request, and, for the update endpoint,
/// reports whether its trigger started a job, so the shell knows to run
/// one. The liveness check answers 200 with an empty body; the artifact
/// endpoint serves the complete current artifact, or 404 while none has
/// been published yet; the upstream endpoint answers the configured URL;
/// the update endpoint triggers the coordinator and always answers 202
/// at once, whether the trigger started a job or was coalesced. Only the
/// update endpoint touches the coordinator.
pub fn handle_request(
    cfg: &Config,
    artifact: Option<Vec<u8>>,
    coord: &mut Coordinator,
    req: &HttpRequest,
) -> (r: (HttpResponse, Option<TriggerOutcome>))
    ensures
        !(req is TriggerUpdate) ==> *final(coord) == *old(coord) && r.1 is None,
        req is ChannelHome ==> r.0.status == 200 && r.0.body is Empty,
        req is ChannelArtifact ==> (match artifact {
            Some(data) => r.0.status == 200 && (r.0.body matches HttpBody::Bytes { bytes }
                && bytes@ == data@),
            None => r.0.status == 404 && r.0.body is Empty,
        }),
        req is Upstream ==> r.0.status == 200 && (r.0.body matches HttpBody::Text { text }
            && text@ == cfg.upstream_channel_url@),
        req is TriggerUpdate ==> r.0.status == 202 && r.0.body is Empty && *final(coord)
            == Coordinator::trigger_model(*old(coord)).0 && (r.1 matches Some(outcome)
            && (outcome is Started) == Coordinator::trigger_model(*old(coord)).1),
{
    match req {
        HttpRequest::ChannelHome => (HttpResponse { status: 200, body: HttpBody::Empty }, None),
        HttpRequest::ChannelArtifact => match artifact {
            Some(bytes) => (HttpResponse { status: 200, body: HttpBody::Bytes { bytes } }, None),
            None => (HttpResponse { status: 404, body: HttpBody::Empty }, None),
        },
        HttpRequest::Upstream => (
            HttpResponse {
                status: 200,
                body: HttpBody::Text { text: cfg.upstream_channel_url.clone() },
            },
            None,
        ),
        HttpRequest::TriggerUpdate => {
            let outcome = coord.trigger();
            (HttpResponse { status: 202, body: HttpBody::Empty }, Some(outcome))
        },
    }
}

/// The fixed address the HTTP server binds to.
pub fn bind_address() -> (r: String)
    ensures
        r@ == "0.0.0.0:8000"@,
{
    "0.0.0.0:8000".to_owned()
}

/// Startup: trigger the one automatic run, and name the address to serve
/// on. The trigger follows the coordinator's single-flight discipline.
pub fn main_inner(coord: &mut Coordinator) -> (r: (TriggerOutcome, String))
    ensures
        *final(coord) == Coordinator::trigger_model(*old(coord)).0,
        (r.0 is Started) == Coordinator::trigger_model(*old(coord)).1,
        r.1@ == "0.0.0.0:8000"@,
{
    let outcome = coord.trigger();
    (outcome, bind_address())
}

} // verus!
