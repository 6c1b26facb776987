//! The client of the stormd API that manages the processes of one node, and the objects
//! that it returns.
use vstd::prelude::*;
use vstd::string::*;
use crate::client::{client_address, ApiRequest, RequestView, HttpMethod, ReplyFormat, join_url};
use crate::text::trim_end_slashes;

verus! {

/// A process that stormd manages.
#[derive(Debug, Clone)]
pub struct Process {
    pub name: Option<String>,
    pub state: Option<String>,
    pub pid: Option<i64>,
    pub exit_code: Option<i64>,
    pub restarts: Option<i64>,
    pub uptime: Option<String>,
    pub last_restart: Option<String>,
}

/// Figures about stormd and its processes.
#[derive(Debug, Clone)]
pub struct Stats {
    pub uptime: Option<String>,
    pub processes: Option<i64>,
    pub running: Option<i64>,
    pub total_restarts: Option<i64>,
    pub memory: Option<serde_json::Value>,
    pub container_name: Option<String>,
}

/// One sample of the memory use of a node.
#[derive(Debug, Clone)]
pub struct MemoryPoint {
    pub timestamp: Option<String>,
    pub rss: Option<u64>,
    pub vms: Option<u64>,
}

/// A mounted file system of a node, with its use in bytes.
#[derive(Debug, Clone)]
pub struct Mount {
    pub device: Option<String>,
    pub mount_point: Option<String>,
    pub fs_type: Option<String>,
    pub total: Option<u64>,
    pub used: Option<u64>,
    pub available: Option<u64>,
}

/// The label that stormd's error messages start with.
pub const STORMD_LABEL: &'static str = "stormd ";

/// How long a request to stormd may take, in seconds.
pub const STORMD_TIMEOUT_SECS: u64 = 5;

/// The path of the process `name`.
pub open spec fn process_path(name: Seq<char>) -> Seq<char> {
    "/api/v1/processes/"@ + name
}

/// The request of `StormdClient::list_processes` for a client of the API at `base`.
pub open spec fn list_processes_request(base: Seq<char>) -> RequestView {
    RequestView::fetch(base + "/api/v1/processes"@, ReplyFormat::Json, STORMD_LABEL@)
}

/// The request of `StormdClient::stats` for a client of the API at `base`.
pub open spec fn stats_request(base: Seq<char>) -> RequestView {
    RequestView::fetch(base + "/api/v1/stats"@, ReplyFormat::Json, STORMD_LABEL@)
}

/// The request of `StormdClient::memory_history` for a client of the API at `base`.
pub open spec fn memory_history_request(base: Seq<char>) -> RequestView {
    RequestView::fetch(base + "/api/v1/memory/history"@, ReplyFormat::Json, STORMD_LABEL@)
}

/// The request of `StormdClient::list_mounts` for a client of the API at `base`.
pub open spec fn list_mounts_request(base: Seq<char>) -> RequestView {
    RequestView::fetch(base + "/api/v1/mounts"@, ReplyFormat::Json, STORMD_LABEL@)
}

/// The request of `StormdClient::restart_process` for a client of the API at `base`.
pub open spec fn restart_process_request(base: Seq<char>, name: Seq<char>) -> RequestView {
    RequestView::command(HttpMethod::Post, base + (process_path(name) + "/restart"@))
}

/// The request of `StormdClient::start_process` for a client of the API at `base`.
pub open spec fn start_process_request(base: Seq<char>, name: Seq<char>) -> RequestView {
    RequestView::command(HttpMethod::Post, base + (process_path(name) + "/start"@))
}

/// The request of `StormdClient::stop_process` for a client of the API at `base`.
pub open spec fn stop_process_request(base: Seq<char>, name: Seq<char>) -> RequestView {
    RequestView::command(HttpMethod::Post, base + (process_path(name) + "/stop"@))
}

/// The client of the stormd API at `base_url`.
#[derive(Debug, Clone)]
pub struct StormdClient {
    /// The API's address, with no trailing `/`.
    pub base_url: String,
}

impl StormdClient {
    /// A client of the API at `base_url`; trailing slashes of the address are dropped.
    pub fn new(base_url: &str) -> (client: Self)
        ensures
            client.base_url@ == client_address(base_url@),
    {
        StormdClient { base_url: trim_end_slashes(base_url) }
    }

    /// The address of `path` on the API.
    pub fn url(&self, path: &str) -> (url: String)
        ensures
            url@ == self.base_url@ + path@,
    {
        join_url(self.base_url.as_str(), path)
    }

    /// A `GET` of `path` whose reply is read as JSON.
    fn get_json(&self, path: &str) -> (request: ApiRequest)
        ensures
            request@ == RequestView::fetch(self.base_url@ + path@, ReplyFormat::Json, STORMD_LABEL@),
    {
        ApiRequest {
            method: HttpMethod::Get,
            url: self.url(path),
            content_type: None,
            json_body: None,
            reply: ReplyFormat::Json,
            error_label: Some(String::from_str(STORMD_LABEL)),
        }
    }

    /// A `POST` to `action`, a path below the process `name`, whose reply is ignored.
    fn process_action(&self, name: &str, action: &str) -> (request: ApiRequest)
        ensures
            request@ == RequestView::command(HttpMethod::Post, self.base_url@ + (process_path(name@) + action@)),
    {
        let mut path = String::from_str("/api/v1/processes/");
        path.append(name);
        path.append(action);
        ApiRequest {
            method: HttpMethod::Post,
            url: self.url(path.as_str()),
            content_type: None,
            json_body: None,
            reply: ReplyFormat::Ignored,
            error_label: None,
        }
    }

    /// Lists the processes (`GET /api/v1/processes`).
    pub fn list_processes(&self) -> (request: ApiRequest)
        ensures
            request@ == list_processes_request(self.base_url@),
    {
        self.get_json("/api/v1/processes")
    }

    /// Asks for stormd's figures (`GET /api/v1/stats`).
    pub fn stats(&self) -> (request: ApiRequest)
        ensures
            request@ == stats_request(self.base_url@),
    {
        self.get_json("/api/v1/stats")
    }

    /// Asks for the memory history of the node (`GET /api/v1/memory/history`).
    pub fn memory_history(&self) -> (request: ApiRequest)
        ensures
            request@ == memory_history_request(self.base_url@),
    {
        self.get_json("/api/v1/memory/history")
    }

    /// Lists the mounted file systems (`GET /api/v1/mounts`).
    pub fn list_mounts(&self) -> (request: ApiRequest)
        ensures
            request@ == list_mounts_request(self.base_url@),
    {
        self.get_json("/api/v1/mounts")
    }

    /// Restarts the process `name` (`POST /api/v1/processes/{name}/restart`).
    pub fn restart_process(&self, name: &str) -> (request: ApiRequest)
        ensures
            request@ == restart_process_request(self.base_url@, name@),
    {
        self.process_action(name, "/restart")
    }

    /// Starts the process `name` (`POST /api/v1/processes/{name}/start`).
    pub fn start_process(&self, name: &str) -> (request: ApiRequest)
        ensures
            request@ == start_process_request(self.base_url@, name@),
    {
        self.process_action(name, "/start")
    }

    /// Stops the process `name` (`POST /api/v1/processes/{name}/stop`).
    pub fn stop_process(&self, name: &str) -> (request: ApiRequest)
        ensures
            request@ == stop_process_request(self.base_url@, name@),
    {
        self.process_action(name, "/stop")
    }
}

/// Each listing of stormd is a `GET` of its fixed path below the client's address, read as
/// JSON, whose failures are named by the failed step after the label `stormd `.
pub proof fn lemma_stormd_fixed_requests(base: Seq<char>)
    ensures
        list_processes_request(base).method == HttpMethod::Get,
        list_processes_request(base).url == base + "/api/v1/processes"@,
        list_processes_request(base).reply == ReplyFormat::Json,
        list_processes_request(base).error_label == Some("stormd "@),
        stats_request(base).method == HttpMethod::Get,
        stats_request(base).url == base + "/api/v1/stats"@,
        stats_request(base).reply == ReplyFormat::Json,
        stats_request(base).error_label == Some("stormd "@),
        memory_history_request(base).method == HttpMethod::Get,
        memory_history_request(base).url == base + "/api/v1/memory/history"@,
        memory_history_request(base).reply == ReplyFormat::Json,
        memory_history_request(base).error_label == Some("stormd "@),
        list_mounts_request(base).method == HttpMethod::Get,
        list_mounts_request(base).url == base + "/api/v1/mounts"@,
        list_mounts_request(base).reply == ReplyFormat::Json,
        list_mounts_request(base).error_label == Some("stormd "@),
{
}

/// Restarting, starting and stopping the process `name` are `POST`s to
/// `/api/v1/processes/{name}/restart`, `/start` and `/stop`, three different addresses, whose
/// replies are ignored and whose failures are reported bare.
pub proof fn lemma_process_actions(base: Seq<char>, name: Seq<char>)
    ensures
        restart_process_request(base, name).method == HttpMethod::Post,
        start_process_request(base, name).method == HttpMethod::Post,
        stop_process_request(base, name).method == HttpMethod::Post,
        restart_process_request(base, name).url == base + "/api/v1/processes/"@ + name + "/restart"@,
        start_process_request(base, name).url == base + "/api/v1/processes/"@ + name + "/start"@,
        stop_process_request(base, name).url == base + "/api/v1/processes/"@ + name + "/stop"@,
        restart_process_request(base, name).reply == ReplyFormat::Ignored,
        start_process_request(base, name).reply == ReplyFormat::Ignored,
        stop_process_request(base, name).reply == ReplyFormat::Ignored,
        restart_process_request(base, name).error_label is None,
        start_process_request(base, name).error_label is None,
        stop_process_request(base, name).error_label is None,
        restart_process_request(base, name).url != start_process_request(base, name).url,
        restart_process_request(base, name).url != stop_process_request(base, name).url,
        start_process_request(base, name).url != stop_process_request(base, name).url,
{
    let head = base + process_path(name);
    reveal_strlit("/restart");
    reveal_strlit("/start");
    reveal_strlit("/stop");
    let r = restart_process_request(base, name).url;
    let a = start_process_request(base, name).url;
    let o = stop_process_request(base, name).url;
    assert(r =~= head + "/restart"@);
    assert(a =~= head + "/start"@);
    assert(o =~= head + "/stop"@);
    assert(r.len() != a.len());
    assert(r.len() != o.len());
    assert(a.len() != o.len());
}

} // verus!
