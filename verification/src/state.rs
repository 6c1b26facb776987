//! What every page handler of the console shares, and the console's health reply.
use vstd::prelude::*;
use vstd::string::*;
use crate::client::mkube::MkubeClient;
use crate::client::client_address;

verus! {

/// The body of the console's health reply.
pub const HEALTHZ_BODY: &'static str = r#"{"status":"ok","service":"console"}"#;

/// The state shared by the page handlers: the mkube address that the pages' scripts call,
/// as it was given, and a client of that API.
#[derive(Debug, Clone)]
pub struct AppState {
    pub mkube_url: String,
    pub mkube: MkubeClient,
}

impl AppState {
    /// The state of a console that serves pages for the mkube API at `mkube_url`.
    pub fn new(mkube_url: String) -> (state: Self)
        ensures
            state.mkube_url@ == mkube_url@,
            state.mkube.base_url@ == client_address(mkube_url@),
    {
        let mkube = MkubeClient::new(mkube_url.as_str());
        AppState { mkube, mkube_url }
    }
}

/// The body of the reply to `GET /healthz`.
pub fn healthz() -> (body: &'static str)
    ensures
        body@ == HEALTHZ_BODY@,
{
    HEALTHZ_BODY
}

/// The health reply says that the service `console` is up: it is the JSON object
/// `{"status":"ok","service":"console"}`.
pub proof fn lemma_healthz_reports_ok()
    ensures
        HEALTHZ_BODY@ == "{\"status\":\"ok\",\"service\":\"console\"}"@,
{
}

} // verus!
