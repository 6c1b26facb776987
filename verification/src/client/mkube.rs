//! The client of the mkube API, and the objects that it returns.
use vstd::prelude::*;
use vstd::string::*;
use crate::client::{
    client_address,
    ApiRequest, RequestView, HttpMethod, ReplyFormat, namespaced_path, namespace_path,
    namespaced_path_text, namespace_path_text, join_url, copy_json,
};
use crate::text::trim_end_slashes;

verus! {
/// The reply of the health endpoint.
#[derive(Debug, Clone)]
pub struct HealthResponse {
    pub status: Option<String>,
    pub version: Option<String>,
    pub commit: Option<String>,
}

/// A node of the cluster.
#[derive(Debug, Clone)]
pub struct Node {
    pub metadata: Option<Metadata>,
    pub status: Option<NodeStatus>,
}

/// What a node reports about itself.
#[derive(Debug, Clone)]
pub struct NodeStatus {
    pub addresses: Option<Vec<NodeAddress>>,
    pub node_info: Option<NodeInfo>,
    pub conditions: Option<Vec<NodeCondition>>,
}

/// One address of a node, such as its `InternalIP`.
#[derive(Debug, Clone)]
pub struct NodeAddress {
    pub addr_type: Option<String>,
    pub address: Option<String>,
}

/// The system a node runs.
#[derive(Debug, Clone)]
pub struct NodeInfo {
    pub architecture: Option<String>,
    pub operating_system: Option<String>,
    pub kubelet_version: Option<String>,
}

/// One condition of a node, such as `Ready`.
#[derive(Debug, Clone)]
pub struct NodeCondition {
    pub cond_type: Option<String>,
    pub status: Option<String>,
    pub last_heartbeat: Option<String>,
}

/// The metadata of an object: its name, namespace, labels and annotations.
#[derive(Debug, Clone)]
pub struct Metadata {
    pub name: Option<String>,
    pub namespace: Option<String>,
    pub labels: Option<serde_json::Value>,
    pub annotations: Option<serde_json::Value>,
    pub creation_timestamp: Option<String>,
}

/// A pod.
#[derive(Debug, Clone)]
pub struct Pod {
    pub metadata: Option<Metadata>,
    pub spec: Option<PodSpec>,
    pub status: Option<PodStatus>,
}

/// What a pod runs and where.
#[derive(Debug, Clone)]
pub struct PodSpec {
    pub containers: Option<Vec<Container>>,
    pub volumes: Option<Vec<serde_json::Value>>,
    pub node_name: Option<String>,
}

/// A container of a pod.
#[derive(Debug, Clone)]
pub struct Container {
    pub name: Option<String>,
    pub image: Option<String>,
    pub ports: Option<Vec<serde_json::Value>>,
    pub volume_mounts: Option<Vec<serde_json::Value>>,
}

/// The state of a pod.
#[derive(Debug, Clone)]
pub struct PodStatus {
    pub phase: Option<String>,
    pub pod_ip: Option<String>,
    pub start_time: Option<String>,
    pub container_statuses: Option<Vec<ContainerStatus>>,
    pub conditions: Option<Vec<serde_json::Value>>,
}

/// The state of one container of a pod.
#[derive(Debug, Clone)]
pub struct ContainerStatus {
    pub name: Option<String>,
    pub ready: Option<bool>,
    pub restart_count: Option<i64>,
    pub state: Option<serde_json::Value>,
}

/// A deployment.
#[derive(Debug, Clone)]
pub struct Deployment {
    pub metadata: Option<Metadata>,
    pub spec: Option<serde_json::Value>,
    pub status: Option<serde_json::Value>,
}

/// A network managed by mkube.
#[derive(Debug, Clone)]
pub struct Network {
    pub metadata: Option<Metadata>,
    pub spec: Option<serde_json::Value>,
    pub status: Option<serde_json::Value>,
}

/// A bare metal host.
#[derive(Debug, Clone)]
pub struct BareMetalHost {
    pub metadata: Option<Metadata>,
    pub spec: Option<serde_json::Value>,
    pub status: Option<serde_json::Value>,
}

/// An event of the cluster.
#[derive(Debug, Clone)]
pub struct Event {
    pub metadata: Option<Metadata>,
    pub involved_object: Option<serde_json::Value>,
    pub reason: Option<String>,
    pub message: Option<String>,
    pub event_type: Option<String>,
    pub last_timestamp: Option<String>,
    pub count: Option<i64>,
}

/// A persistent volume claim.
#[derive(Debug, Clone)]
pub struct PVC {
    pub metadata: Option<Metadata>,
    pub spec: Option<serde_json::Value>,
    pub status: Option<serde_json::Value>,
}

/// An iSCSI CD-ROM image.
#[derive(Debug, Clone)]
pub struct ISCSICdrom {
    pub metadata: Option<Metadata>,
    pub spec: Option<serde_json::Value>,
    pub status: Option<serde_json::Value>,
}

/// An iSCSI disk.
#[derive(Debug, Clone)]
pub struct ISCSIDisk {
    pub metadata: Option<Metadata>,
    pub spec: Option<serde_json::Value>,
    pub status: Option<serde_json::Value>,
}

/// A job.
#[derive(Debug, Clone)]
pub struct Job {
    pub metadata: Option<Metadata>,
    pub spec: Option<serde_json::Value>,
    pub status: Option<serde_json::Value>,
}

/// A runner of jobs.
#[derive(Debug, Clone)]
pub struct JobRunner {
    pub metadata: Option<Metadata>,
    pub spec: Option<serde_json::Value>,
    pub status: Option<serde_json::Value>,
}

/// A list of objects as the API returns it.
#[derive(Debug, Clone)]
pub struct ItemList<T> {
    pub items: Option<Vec<T>>,
}

/// The result of the cluster's consistency checks.
#[derive(Debug, Clone)]
pub struct ConsistencyReport {
    pub summary: Option<serde_json::Value>,
    pub checks: Option<serde_json::Value>,
}

/// A boot configuration of bare metal hosts: kernel, initrd, iPXE script, command line.
#[derive(Debug, Clone)]
pub struct BootConfig {
    pub metadata: Option<Metadata>,
    pub spec: Option<serde_json::Value>,
    pub status: Option<serde_json::Value>,
}

/// An image registry: its address, mirrors and images.
#[derive(Debug, Clone)]
pub struct Registry {
    pub metadata: Option<Metadata>,
    pub spec: Option<serde_json::Value>,
    pub status: Option<serde_json::Value>,
}

/// The label that mkube's error messages start with (none: they start with the failed step).
pub const MKUBE_LABEL: &'static str = "";

/// The content type of a JSON merge patch.
pub const MERGE_PATCH: &'static str = "application/merge-patch+json";

/// How long a request to mkube may take, in seconds.
pub const MKUBE_TIMEOUT_SECS: u64 = 10;

/// The request of `MkubeClient::healthz` for a client of the API at `base`.
pub open spec fn healthz_request(base: Seq<char>) -> RequestView {
    RequestView::fetch(base + "/healthz"@, ReplyFormat::Json, MKUBE_LABEL@)
}

/// The request of `MkubeClient::list_nodes` for a client of the API at `base`.
pub open spec fn list_nodes_request(base: Seq<char>) -> RequestView {
    RequestView::fetch(base + "/api/v1/nodes"@, ReplyFormat::Json, MKUBE_LABEL@)
}

/// The request of `MkubeClient::list_pods` for a client of the API at `base`.
pub open spec fn list_pods_request(base: Seq<char>) -> RequestView {
    RequestView::fetch(base + "/api/v1/pods"@, ReplyFormat::Json, MKUBE_LABEL@)
}

/// The request of `MkubeClient::get_pod` for a client of the API at `base`.
pub open spec fn get_pod_request(base: Seq<char>, ns: Seq<char>, name: Seq<char>) -> RequestView {
    RequestView::fetch(base + namespaced_path(ns, "pods"@, name), ReplyFormat::Json, MKUBE_LABEL@)
}

/// The request of `MkubeClient::get_pod_logs` for a client of the API at `base`.
pub open spec fn get_pod_logs_request(base: Seq<char>, ns: Seq<char>, name: Seq<char>) -> RequestView {
    RequestView::fetch(base + (namespaced_path(ns, "pods"@, name) + "/log"@), ReplyFormat::Text, MKUBE_LABEL@)
}

/// The request of `MkubeClient::delete_pod` for a client of the API at `base`.
pub open spec fn delete_pod_request(base: Seq<char>, ns: Seq<char>, name: Seq<char>) -> RequestView {
    RequestView::command(HttpMethod::Delete, base + namespaced_path(ns, "pods"@, name))
}

/// The request of `MkubeClient::list_deployments` for a client of the API at `base`.
pub open spec fn list_deployments_request(base: Seq<char>) -> RequestView {
    RequestView::fetch(base + "/api/v1/deployments"@, ReplyFormat::Json, MKUBE_LABEL@)
}

/// The request of `MkubeClient::get_deployment` for a client of the API at `base`.
pub open spec fn get_deployment_request(base: Seq<char>, ns: Seq<char>, name: Seq<char>) -> RequestView {
    RequestView::fetch(base + namespaced_path(ns, "deployments"@, name), ReplyFormat::Json, MKUBE_LABEL@)
}

/// The request of `MkubeClient::delete_deployment` for a client of the API at `base`.
pub open spec fn delete_deployment_request(base: Seq<char>, ns: Seq<char>, name: Seq<char>) -> RequestView {
    RequestView::command(HttpMethod::Delete, base + namespaced_path(ns, "deployments"@, name))
}

/// The request of `MkubeClient::list_networks` for a client of the API at `base`.
pub open spec fn list_networks_request(base: Seq<char>) -> RequestView {
    RequestView::fetch(base + "/api/v1/networks"@, ReplyFormat::Json, MKUBE_LABEL@)
}

/// The request of `MkubeClient::get_network` for a client of the API at `base`.
pub open spec fn get_network_request(base: Seq<char>, name: Seq<char>) -> RequestView {
    RequestView::fetch(base + ("/api/v1/networks/"@ + name), ReplyFormat::Json, MKUBE_LABEL@)
}

/// The request of `MkubeClient::smoketest_network` for a client of the API at `base`.
pub open spec fn smoketest_network_request(base: Seq<char>, name: Seq<char>) -> RequestView {
    RequestView {
        method: HttpMethod::Post,
        url: base + ("/api/v1/networks/"@ + name + "/smoketest"@),
        content_type: None,
        json_body: None,
        reply: ReplyFormat::Json,
        error_label: None,
    }
}

/// The request of `MkubeClient::list_dns_records` for a client of the API at `base`.
pub open spec fn list_dns_records_request(base: Seq<char>, net: Seq<char>) -> RequestView {
    RequestView::fetch(base + namespace_path(net, "dnsrecords"@), ReplyFormat::Json, MKUBE_LABEL@)
}

/// The request of `MkubeClient::list_dhcp_pools` for a client of the API at `base`.
pub open spec fn list_dhcp_pools_request(base: Seq<char>, net: Seq<char>) -> RequestView {
    RequestView::fetch(base + namespace_path(net, "dhcppools"@), ReplyFormat::Json, MKUBE_LABEL@)
}

/// The request of `MkubeClient::list_dhcp_reservations` for a client of the API at `base`.
pub open spec fn list_dhcp_reservations_request(base: Seq<char>, net: Seq<char>) -> RequestView {
    RequestView::fetch(base + namespace_path(net, "dhcpreservations"@), ReplyFormat::Json, MKUBE_LABEL@)
}

/// The request of `MkubeClient::list_dhcp_leases` for a client of the API at `base`.
pub open spec fn list_dhcp_leases_request(base: Seq<char>, net: Seq<char>) -> RequestView {
    RequestView::fetch(base + namespace_path(net, "dhcpleases"@), ReplyFormat::Json, MKUBE_LABEL@)
}

/// The request of `MkubeClient::list_dns_forwarders` for a client of the API at `base`.
pub open spec fn list_dns_forwarders_request(base: Seq<char>, net: Seq<char>) -> RequestView {
    RequestView::fetch(base + namespace_path(net, "dnsforwarders"@), ReplyFormat::Json, MKUBE_LABEL@)
}

/// The request of `MkubeClient::list_bmh` for a client of the API at `base`.
pub open spec fn list_bmh_request(base: Seq<char>) -> RequestView {
    RequestView::fetch(base + "/api/v1/baremetalhosts"@, ReplyFormat::Json, MKUBE_LABEL@)
}

/// The request of `MkubeClient::get_bmh` for a client of the API at `base`.
pub open spec fn get_bmh_request(base: Seq<char>, ns: Seq<char>, name: Seq<char>) -> RequestView {
    RequestView::fetch(base + namespaced_path(ns, "baremetalhosts"@, name), ReplyFormat::Json, MKUBE_LABEL@)
}

/// The request of `MkubeClient::patch_bmh` for a client of the API at `base`.
pub open spec fn patch_bmh_request(base: Seq<char>, ns: Seq<char>, name: Seq<char>, patch: serde_json::Value) -> RequestView {
    RequestView {
        method: HttpMethod::Patch,
        url: base + namespaced_path(ns, "baremetalhosts"@, name),
        content_type: Some(MERGE_PATCH@),
        json_body: Some(patch),
        reply: ReplyFormat::Ignored,
        error_label: None,
    }
}

/// The request of `MkubeClient::list_bootconfigs` for a client of the API at `base`.
pub open spec fn list_bootconfigs_request(base: Seq<char>) -> RequestView {
    RequestView::fetch(base + "/api/v1/bootconfigs"@, ReplyFormat::Json, MKUBE_LABEL@)
}

/// The request of `MkubeClient::get_bootconfig` for a client of the API at `base`.
pub open spec fn get_bootconfig_request(base: Seq<char>, ns: Seq<char>, name: Seq<char>) -> RequestView {
    RequestView::fetch(base + namespaced_path(ns, "bootconfigs"@, name), ReplyFormat::Json, MKUBE_LABEL@)
}

/// The request of `MkubeClient::delete_bootconfig` for a client of the API at `base`.
pub open spec fn delete_bootconfig_request(base: Seq<char>, ns: Seq<char>, name: Seq<char>) -> RequestView {
    RequestView::command(HttpMethod::Delete, base + namespaced_path(ns, "bootconfigs"@, name))
}

/// The request of `MkubeClient::list_registries` for a client of the API at `base`.
pub open spec fn list_registries_request(base: Seq<char>) -> RequestView {
    RequestView::fetch(base + "/api/v1/registries"@, ReplyFormat::Json, MKUBE_LABEL@)
}

/// The request of `MkubeClient::get_registry` for a client of the API at `base`.
pub open spec fn get_registry_request(base: Seq<char>, ns: Seq<char>, name: Seq<char>) -> RequestView {
    RequestView::fetch(base + namespaced_path(ns, "registries"@, name), ReplyFormat::Json, MKUBE_LABEL@)
}

/// The request of `MkubeClient::delete_registry` for a client of the API at `base`.
pub open spec fn delete_registry_request(base: Seq<char>, ns: Seq<char>, name: Seq<char>) -> RequestView {
    RequestView::command(HttpMethod::Delete, base + namespaced_path(ns, "registries"@, name))
}

/// The request of `MkubeClient::list_pvcs` for a client of the API at `base`.
pub open spec fn list_pvcs_request(base: Seq<char>) -> RequestView {
    RequestView::fetch(base + "/api/v1/persistentvolumeclaims"@, ReplyFormat::Json, MKUBE_LABEL@)
}

/// The request of `MkubeClient::list_iscsi_cdroms` for a client of the API at `base`.
pub open spec fn list_iscsi_cdroms_request(base: Seq<char>) -> RequestView {
    RequestView::fetch(base + "/api/v1/iscsi-cdroms"@, ReplyFormat::Json, MKUBE_LABEL@)
}

/// The request of `MkubeClient::list_iscsi_disks` for a client of the API at `base`.
pub open spec fn list_iscsi_disks_request(base: Seq<char>) -> RequestView {
    RequestView::fetch(base + "/api/v1/iscsi-disks"@, ReplyFormat::Json, MKUBE_LABEL@)
}

/// The request of `MkubeClient::get_disk_capacity` for a client of the API at `base`.
pub open spec fn get_disk_capacity_request(base: Seq<char>) -> RequestView {
    RequestView::fetch(base + "/api/v1/iscsi-disks/capacity"@, ReplyFormat::Json, MKUBE_LABEL@)
}

/// The request of `MkubeClient::list_jobs` for a client of the API at `base`.
pub open spec fn list_jobs_request(base: Seq<char>) -> RequestView {
    RequestView::fetch(base + "/api/v1/namespaces/default/jobs"@, ReplyFormat::Json, MKUBE_LABEL@)
}

/// The request of `MkubeClient::list_job_runners` for a client of the API at `base`.
pub open spec fn list_job_runners_request(base: Seq<char>) -> RequestView {
    RequestView::fetch(base + "/api/v1/jobrunners"@, ReplyFormat::Json, MKUBE_LABEL@)
}

/// The request of `MkubeClient::get_job_queue` for a client of the API at `base`.
pub open spec fn get_job_queue_request(base: Seq<char>) -> RequestView {
    RequestView::fetch(base + "/api/v1/jobqueue"@, ReplyFormat::Json, MKUBE_LABEL@)
}

/// The request of `MkubeClient::get_job_logs` for a client of the API at `base`.
pub open spec fn get_job_logs_request(base: Seq<char>, ns: Seq<char>, name: Seq<char>) -> RequestView {
    RequestView::fetch(base + (namespaced_path(ns, "jobs"@, name) + "/logs"@), ReplyFormat::Text, MKUBE_LABEL@)
}

/// The request of `MkubeClient::cancel_job` for a client of the API at `base`.
pub open spec fn cancel_job_request(base: Seq<char>, ns: Seq<char>, name: Seq<char>) -> RequestView {
    RequestView::command(HttpMethod::Post, base + (namespaced_path(ns, "jobs"@, name) + "/cancel"@))
}

/// The request of `MkubeClient::list_events` for a client of the API at `base`.
pub open spec fn list_events_request(base: Seq<char>) -> RequestView {
    RequestView::fetch(base + "/api/v1/events"@, ReplyFormat::Json, MKUBE_LABEL@)
}

/// The request of `MkubeClient::consistency` for a client of the API at `base`.
pub open spec fn consistency_request(base: Seq<char>) -> RequestView {
    RequestView::fetch(base + "/api/v1/consistency"@, ReplyFormat::Json, MKUBE_LABEL@)
}

/// The request of `MkubeClient::lifecycle_stats` for a client of the API at `base`.
pub open spec fn lifecycle_stats_request(base: Seq<char>) -> RequestView {
    RequestView::fetch(base + "/api/v1/lifecycle/stats"@, ReplyFormat::Json, MKUBE_LABEL@)
}

/// The client of the mkube API at `base_url`.
#[derive(Debug, Clone)]
pub struct MkubeClient {
    /// The API's address, with no trailing `/`.
    pub base_url: String,
}

impl MkubeClient {
    /// A client of the API at `base_url`; trailing slashes of the address are dropped.
    pub fn new(base_url: &str) -> (client: Self)
        ensures
            client.base_url@ == client_address(base_url@),
    {
        MkubeClient { base_url: trim_end_slashes(base_url) }
    }

    /// The address of `path` on the API.
    pub fn url(&self, path: &str) -> (url: String)
        ensures
            url@ == self.base_url@ + path@,
    {
        join_url(self.base_url.as_str(), path)
    }

    /// A `GET` of `path` whose reply is read as JSON.
    fn get_json(&self, path: &str) -> (request: ApiRequest)
        ensures
            request@ == RequestView::fetch(self.base_url@ + path@, ReplyFormat::Json, MKUBE_LABEL@),
    {
        ApiRequest {
            method: HttpMethod::Get,
            url: self.url(path),
            content_type: None,
            json_body: None,
            reply: ReplyFormat::Json,
            error_label: Some(String::from_str(MKUBE_LABEL)),
        }
    }

    /// A `GET` of `path` whose reply is read as text.
    fn get_text(&self, path: &str) -> (request: ApiRequest)
        ensures
            request@ == RequestView::fetch(self.base_url@ + path@, ReplyFormat::Text, MKUBE_LABEL@),
    {
        ApiRequest {
            method: HttpMethod::Get,
            url: self.url(path),
            content_type: None,
            json_body: None,
            reply: ReplyFormat::Text,
            error_label: Some(String::from_str(MKUBE_LABEL)),
        }
    }

    /// A request by `method` to `path` whose reply is ignored.
    fn command(&self, method: HttpMethod, path: &str) -> (request: ApiRequest)
        ensures
            request@ == RequestView::command(method, self.base_url@ + path@),
    {
        ApiRequest {
            method,
            url: self.url(path),
            content_type: None,
            json_body: None,
            reply: ReplyFormat::Ignored,
            error_label: None,
        }
    }

    /// Asks for the health of mkube (`GET /healthz`).
    pub fn healthz(&self) -> (request: ApiRequest)
        ensures
            request@ == healthz_request(self.base_url@),
    {
        self.get_json("/healthz")
    }

    /// Lists the nodes (`GET /api/v1/nodes`).
    pub fn list_nodes(&self) -> (request: ApiRequest)
        ensures
            request@ == list_nodes_request(self.base_url@),
    {
        self.get_json("/api/v1/nodes")
    }

    /// Lists the pods of all namespaces (`GET /api/v1/pods`).
    pub fn list_pods(&self) -> (request: ApiRequest)
        ensures
            request@ == list_pods_request(self.base_url@),
    {
        self.get_json("/api/v1/pods")
    }

    /// Fetches one pod (`GET /api/v1/namespaces/{ns}/pods/{name}`).
    pub fn get_pod(&self, ns: &str, name: &str) -> (request: ApiRequest)
        ensures
            request@ == get_pod_request(self.base_url@, ns@, name@),
    {
        let mut path = namespaced_path_text(ns, "pods", name);
        self.get_json(path.as_str())
    }

    /// Fetches the log of one pod, as text (`GET /api/v1/namespaces/{ns}/pods/{name}/log`).
    pub fn get_pod_logs(&self, ns: &str, name: &str) -> (request: ApiRequest)
        ensures
            request@ == get_pod_logs_request(self.base_url@, ns@, name@),
    {
        let mut path = namespaced_path_text(ns, "pods", name);
        path.append("/log");
        self.get_text(path.as_str())
    }

    /// Deletes one pod (`DELETE /api/v1/namespaces/{ns}/pods/{name}`).
    pub fn delete_pod(&self, ns: &str, name: &str) -> (request: ApiRequest)
        ensures
            request@ == delete_pod_request(self.base_url@, ns@, name@),
    {
        let mut path = namespaced_path_text(ns, "pods", name);
        self.command(HttpMethod::Delete, path.as_str())
    }

    /// Lists the deployments (`GET /api/v1/deployments`).
    pub fn list_deployments(&self) -> (request: ApiRequest)
        ensures
            request@ == list_deployments_request(self.base_url@),
    {
        self.get_json("/api/v1/deployments")
    }

    /// Fetches one deployment (`GET /api/v1/namespaces/{ns}/deployments/{name}`).
    pub fn get_deployment(&self, ns: &str, name: &str) -> (request: ApiRequest)
        ensures
            request@ == get_deployment_request(self.base_url@, ns@, name@),
    {
        let mut path = namespaced_path_text(ns, "deployments", name);
        self.get_json(path.as_str())
    }

    /// Deletes one deployment (`DELETE /api/v1/namespaces/{ns}/deployments/{name}`).
    pub fn delete_deployment(&self, ns: &str, name: &str) -> (request: ApiRequest)
        ensures
            request@ == delete_deployment_request(self.base_url@, ns@, name@),
    {
        let mut path = namespaced_path_text(ns, "deployments", name);
        self.command(HttpMethod::Delete, path.as_str())
    }

    /// Lists the networks (`GET /api/v1/networks`).
    pub fn list_networks(&self) -> (request: ApiRequest)
        ensures
            request@ == list_networks_request(self.base_url@),
    {
        self.get_json("/api/v1/networks")
    }

    /// Fetches one network (`GET /api/v1/networks/{name}`).
    pub fn get_network(&self, name: &str) -> (request: ApiRequest)
        ensures
            request@ == get_network_request(self.base_url@, name@),
    {
        let mut path = String::from_str("/api/v1/networks/");
        path.append(name);
        self.get_json(path.as_str())
    }

    /// Runs the smoke test of one network and reads its JSON report
    /// (`POST /api/v1/networks/{name}/smoketest`); failures are reported bare.
    pub fn smoketest_network(&self, name: &str) -> (request: ApiRequest)
        ensures
            request@ == smoketest_network_request(self.base_url@, name@),
    {
        let mut path = String::from_str("/api/v1/networks/");
        path.append(name);
        path.append("/smoketest");
        ApiRequest {
            method: HttpMethod::Post,
            url: self.url(path.as_str()),
            content_type: None,
            json_body: None,
            reply: ReplyFormat::Json,
            error_label: None,
        }
    }

    /// Lists the DNS records of a network (`GET /api/v1/namespaces/{net}/dnsrecords`).
    pub fn list_dns_records(&self, net: &str) -> (request: ApiRequest)
        ensures
            request@ == list_dns_records_request(self.base_url@, net@),
    {
        let path = namespace_path_text(net, "dnsrecords");
        self.get_json(path.as_str())
    }

    /// Lists the DHCP pools of a network (`GET /api/v1/namespaces/{net}/dhcppools`).
    pub fn list_dhcp_pools(&self, net: &str) -> (request: ApiRequest)
        ensures
            request@ == list_dhcp_pools_request(self.base_url@, net@),
    {
        let path = namespace_path_text(net, "dhcppools");
        self.get_json(path.as_str())
    }

    /// Lists the DHCP reservations of a network (`GET /api/v1/namespaces/{net}/dhcpreservations`).
    pub fn list_dhcp_reservations(&self, net: &str) -> (request: ApiRequest)
        ensures
            request@ == list_dhcp_reservations_request(self.base_url@, net@),
    {
        let path = namespace_path_text(net, "dhcpreservations");
        self.get_json(path.as_str())
    }

    /// Lists the DHCP leases of a network (`GET /api/v1/namespaces/{net}/dhcpleases`).
    pub fn list_dhcp_leases(&self, net: &str) -> (request: ApiRequest)
        ensures
            request@ == list_dhcp_leases_request(self.base_url@, net@),
    {
        let path = namespace_path_text(net, "dhcpleases");
        self.get_json(path.as_str())
    }

    /// Lists the DNS forwarders of a network (`GET /api/v1/namespaces/{net}/dnsforwarders`).
    pub fn list_dns_forwarders(&self, net: &str) -> (request: ApiRequest)
        ensures
            request@ == list_dns_forwarders_request(self.base_url@, net@),
    {
        let path = namespace_path_text(net, "dnsforwarders");
        self.get_json(path.as_str())
    }

    /// Lists the bare metal hosts (`GET /api/v1/baremetalhosts`).
    pub fn list_bmh(&self) -> (request: ApiRequest)
        ensures
            request@ == list_bmh_request(self.base_url@),
    {
        self.get_json("/api/v1/baremetalhosts")
    }

    /// Fetches one bare metal host (`GET /api/v1/namespaces/{ns}/baremetalhosts/{name}`).
    pub fn get_bmh(&self, ns: &str, name: &str) -> (request: ApiRequest)
        ensures
            request@ == get_bmh_request(self.base_url@, ns@, name@),
    {
        let mut path = namespaced_path_text(ns, "baremetalhosts", name);
        self.get_json(path.as_str())
    }

    /// Applies the JSON merge patch `patch` to one bare metal host
    /// (`PATCH /api/v1/namespaces/{ns}/baremetalhosts/{name}`, sent as
    /// `application/merge-patch+json`); failures are reported bare.
    pub fn patch_bmh(&self, ns: &str, name: &str, patch: &serde_json::Value) -> (request: ApiRequest)
        ensures
            request@ == patch_bmh_request(self.base_url@, ns@, name@, *patch),
    {
        let path = namespaced_path_text(ns, "baremetalhosts", name);
        ApiRequest {
            method: HttpMethod::Patch,
            url: self.url(path.as_str()),
            content_type: Some(String::from_str(MERGE_PATCH)),
            json_body: Some(copy_json(patch)),
            reply: ReplyFormat::Ignored,
            error_label: None,
        }
    }

    /// Lists the boot configurations (`GET /api/v1/bootconfigs`).
    pub fn list_bootconfigs(&self) -> (request: ApiRequest)
        ensures
            request@ == list_bootconfigs_request(self.base_url@),
    {
        self.get_json("/api/v1/bootconfigs")
    }

    /// Fetches one boot configuration (`GET /api/v1/namespaces/{ns}/bootconfigs/{name}`).
    pub fn get_bootconfig(&self, ns: &str, name: &str) -> (request: ApiRequest)
        ensures
            request@ == get_bootconfig_request(self.base_url@, ns@, name@),
    {
        let mut path = namespaced_path_text(ns, "bootconfigs", name);
        self.get_json(path.as_str())
    }

    /// Deletes one boot configuration (`DELETE /api/v1/namespaces/{ns}/bootconfigs/{name}`).
    pub fn delete_bootconfig(&self, ns: &str, name: &str) -> (request: ApiRequest)
        ensures
            request@ == delete_bootconfig_request(self.base_url@, ns@, name@),
    {
        let mut path = namespaced_path_text(ns, "bootconfigs", name);
        self.command(HttpMethod::Delete, path.as_str())
    }

    /// Lists the image registries (`GET /api/v1/registries`).
    pub fn list_registries(&self) -> (request: ApiRequest)
        ensures
            request@ == list_registries_request(self.base_url@),
    {
        self.get_json("/api/v1/registries")
    }

    /// Fetches one image registry (`GET /api/v1/namespaces/{ns}/registries/{name}`).
    pub fn get_registry(&self, ns: &str, name: &str) -> (request: ApiRequest)
        ensures
            request@ == get_registry_request(self.base_url@, ns@, name@),
    {
        let mut path = namespaced_path_text(ns, "registries", name);
        self.get_json(path.as_str())
    }

    /// Deletes one image registry (`DELETE /api/v1/namespaces/{ns}/registries/{name}`).
    pub fn delete_registry(&self, ns: &str, name: &str) -> (request: ApiRequest)
        ensures
            request@ == delete_registry_request(self.base_url@, ns@, name@),
    {
        let mut path = namespaced_path_text(ns, "registries", name);
        self.command(HttpMethod::Delete, path.as_str())
    }

    /// Lists the persistent volume claims (`GET /api/v1/persistentvolumeclaims`).
    pub fn list_pvcs(&self) -> (request: ApiRequest)
        ensures
            request@ == list_pvcs_request(self.base_url@),
    {
        self.get_json("/api/v1/persistentvolumeclaims")
    }

    /// Lists the iSCSI CD-ROM images (`GET /api/v1/iscsi-cdroms`).
    pub fn list_iscsi_cdroms(&self) -> (request: ApiRequest)
        ensures
            request@ == list_iscsi_cdroms_request(self.base_url@),
    {
        self.get_json("/api/v1/iscsi-cdroms")
    }

    /// Lists the iSCSI disks (`GET /api/v1/iscsi-disks`).
    pub fn list_iscsi_disks(&self) -> (request: ApiRequest)
        ensures
            request@ == list_iscsi_disks_request(self.base_url@),
    {
        self.get_json("/api/v1/iscsi-disks")
    }

    /// Asks for the capacity of the iSCSI disk store (`GET /api/v1/iscsi-disks/capacity`).
    pub fn get_disk_capacity(&self) -> (request: ApiRequest)
        ensures
            request@ == get_disk_capacity_request(self.base_url@),
    {
        self.get_json("/api/v1/iscsi-disks/capacity")
    }

    /// Lists the jobs of the `default` namespace (`GET /api/v1/namespaces/default/jobs`).
    pub fn list_jobs(&self) -> (request: ApiRequest)
        ensures
            request@ == list_jobs_request(self.base_url@),
    {
        self.get_json("/api/v1/namespaces/default/jobs")
    }

    /// Lists the job runners (`GET /api/v1/jobrunners`).
    pub fn list_job_runners(&self) -> (request: ApiRequest)
        ensures
            request@ == list_job_runners_request(self.base_url@),
    {
        self.get_json("/api/v1/jobrunners")
    }

    /// Asks for the job queue (`GET /api/v1/jobqueue`).
    pub fn get_job_queue(&self) -> (request: ApiRequest)
        ensures
            request@ == get_job_queue_request(self.base_url@),
    {
        self.get_json("/api/v1/jobqueue")
    }

    /// Fetches the logs of one job, as text (`GET /api/v1/namespaces/{ns}/jobs/{name}/logs`).
    pub fn get_job_logs(&self, ns: &str, name: &str) -> (request: ApiRequest)
        ensures
            request@ == get_job_logs_request(self.base_url@, ns@, name@),
    {
        let mut path = namespaced_path_text(ns, "jobs", name);
        path.append("/logs");
        self.get_text(path.as_str())
    }

    /// Cancels one job (`POST /api/v1/namespaces/{ns}/jobs/{name}/cancel`).
    pub fn cancel_job(&self, ns: &str, name: &str) -> (request: ApiRequest)
        ensures
            request@ == cancel_job_request(self.base_url@, ns@, name@),
    {
        let mut path = namespaced_path_text(ns, "jobs", name);
        path.append("/cancel");
        self.command(HttpMethod::Post, path.as_str())
    }

    /// Lists the events of the cluster (`GET /api/v1/events`).
    pub fn list_events(&self) -> (request: ApiRequest)
        ensures
            request@ == list_events_request(self.base_url@),
    {
        self.get_json("/api/v1/events")
    }

    /// Asks for the consistency report (`GET /api/v1/consistency`).
    pub fn consistency(&self) -> (request: ApiRequest)
        ensures
            request@ == consistency_request(self.base_url@),
    {
        self.get_json("/api/v1/consistency")
    }

    /// Asks for the lifecycle statistics (`GET /api/v1/lifecycle/stats`).
    pub fn lifecycle_stats(&self) -> (request: ApiRequest)
        ensures
            request@ == lifecycle_stats_request(self.base_url@),
    {
        self.get_json("/api/v1/lifecycle/stats")
    }
}

/// Fetching, deleting and patching an object address the same URL.
pub proof fn lemma_object_requests_share_url(base: Seq<char>, ns: Seq<char>, name: Seq<char>, patch: serde_json::Value)
    ensures
        get_pod_request(base, ns, name).url == delete_pod_request(base, ns, name).url,
        get_deployment_request(base, ns, name).url == delete_deployment_request(base, ns, name).url,
        get_bootconfig_request(base, ns, name).url == delete_bootconfig_request(base, ns, name).url,
        get_registry_request(base, ns, name).url == delete_registry_request(base, ns, name).url,
        get_bmh_request(base, ns, name).url == patch_bmh_request(base, ns, name, patch).url,
{
}

/// The logs of a pod or job, and the cancelling of a job, are addressed below the object's
/// own address.
pub proof fn lemma_sub_resources_below_object(base: Seq<char>, ns: Seq<char>, kind: Seq<char>, name: Seq<char>, sub: Seq<char>)
    ensures
        base + (namespaced_path(ns, kind, name) + sub) == (base + namespaced_path(ns, kind, name)) + sub,
        (base + namespaced_path(ns, kind, name)).is_prefix_of(base + (namespaced_path(ns, kind, name) + sub)),
{
    assert(base + (namespaced_path(ns, kind, name) + sub) =~= (base + namespaced_path(ns, kind, name)) + sub);
    let whole = base + (namespaced_path(ns, kind, name) + sub);
    let head = base + namespaced_path(ns, kind, name);
    assert(whole.subrange(0, head.len() as int) =~= head);
}

/// Each listing and report of mkube is a `GET` of its fixed path below the client's address,
/// read as JSON, whose failures are named by the failed step.
pub proof fn lemma_mkube_fixed_requests(base: Seq<char>)
    ensures
        healthz_request(base).method == HttpMethod::Get,
        healthz_request(base).url == base + "/healthz"@,
        healthz_request(base).reply == ReplyFormat::Json,
        healthz_request(base).error_label == Some(Seq::<char>::empty()),
        list_nodes_request(base).method == HttpMethod::Get,
        list_nodes_request(base).url == base + "/api/v1/nodes"@,
        list_nodes_request(base).reply == ReplyFormat::Json,
        list_nodes_request(base).error_label == Some(Seq::<char>::empty()),
        list_pods_request(base).method == HttpMethod::Get,
        list_pods_request(base).url == base + "/api/v1/pods"@,
        list_pods_request(base).reply == ReplyFormat::Json,
        list_pods_request(base).error_label == Some(Seq::<char>::empty()),
        list_deployments_request(base).method == HttpMethod::Get,
        list_deployments_request(base).url == base + "/api/v1/deployments"@,
        list_deployments_request(base).reply == ReplyFormat::Json,
        list_deployments_request(base).error_label == Some(Seq::<char>::empty()),
        list_networks_request(base).method == HttpMethod::Get,
        list_networks_request(base).url == base + "/api/v1/networks"@,
        list_networks_request(base).reply == ReplyFormat::Json,
        list_networks_request(base).error_label == Some(Seq::<char>::empty()),
        list_bmh_request(base).method == HttpMethod::Get,
        list_bmh_request(base).url == base + "/api/v1/baremetalhosts"@,
        list_bmh_request(base).reply == ReplyFormat::Json,
        list_bmh_request(base).error_label == Some(Seq::<char>::empty()),
        list_bootconfigs_request(base).method == HttpMethod::Get,
        list_bootconfigs_request(base).url == base + "/api/v1/bootconfigs"@,
        list_bootconfigs_request(base).reply == ReplyFormat::Json,
        list_bootconfigs_request(base).error_label == Some(Seq::<char>::empty()),
        list_registries_request(base).method == HttpMethod::Get,
        list_registries_request(base).url == base + "/api/v1/registries"@,
        list_registries_request(base).reply == ReplyFormat::Json,
        list_registries_request(base).error_label == Some(Seq::<char>::empty()),
        list_pvcs_request(base).method == HttpMethod::Get,
        list_pvcs_request(base).url == base + "/api/v1/persistentvolumeclaims"@,
        list_pvcs_request(base).reply == ReplyFormat::Json,
        list_pvcs_request(base).error_label == Some(Seq::<char>::empty()),
        list_iscsi_cdroms_request(base).method == HttpMethod::Get,
        list_iscsi_cdroms_request(base).url == base + "/api/v1/iscsi-cdroms"@,
        list_iscsi_cdroms_request(base).reply == ReplyFormat::Json,
        list_iscsi_cdroms_request(base).error_label == Some(Seq::<char>::empty()),
        list_iscsi_disks_request(base).method == HttpMethod::Get,
        list_iscsi_disks_request(base).url == base + "/api/v1/iscsi-disks"@,
        list_iscsi_disks_request(base).reply == ReplyFormat::Json,
        list_iscsi_disks_request(base).error_label == Some(Seq::<char>::empty()),
        get_disk_capacity_request(base).method == HttpMethod::Get,
        get_disk_capacity_request(base).url == base + "/api/v1/iscsi-disks/capacity"@,
        get_disk_capacity_request(base).reply == ReplyFormat::Json,
        get_disk_capacity_request(base).error_label == Some(Seq::<char>::empty()),
        list_jobs_request(base).method == HttpMethod::Get,
        list_jobs_request(base).url == base + "/api/v1/namespaces/default/jobs"@,
        list_jobs_request(base).reply == ReplyFormat::Json,
        list_jobs_request(base).error_label == Some(Seq::<char>::empty()),
        list_job_runners_request(base).method == HttpMethod::Get,
        list_job_runners_request(base).url == base + "/api/v1/jobrunners"@,
        list_job_runners_request(base).reply == ReplyFormat::Json,
        list_job_runners_request(base).error_label == Some(Seq::<char>::empty()),
        get_job_queue_request(base).method == HttpMethod::Get,
        get_job_queue_request(base).url == base + "/api/v1/jobqueue"@,
        get_job_queue_request(base).reply == ReplyFormat::Json,
        get_job_queue_request(base).error_label == Some(Seq::<char>::empty()),
        list_events_request(base).method == HttpMethod::Get,
        list_events_request(base).url == base + "/api/v1/events"@,
        list_events_request(base).reply == ReplyFormat::Json,
        list_events_request(base).error_label == Some(Seq::<char>::empty()),
        consistency_request(base).method == HttpMethod::Get,
        consistency_request(base).url == base + "/api/v1/consistency"@,
        consistency_request(base).reply == ReplyFormat::Json,
        consistency_request(base).error_label == Some(Seq::<char>::empty()),
        lifecycle_stats_request(base).method == HttpMethod::Get,
        lifecycle_stats_request(base).url == base + "/api/v1/lifecycle/stats"@,
        lifecycle_stats_request(base).reply == ReplyFormat::Json,
        lifecycle_stats_request(base).error_label == Some(Seq::<char>::empty()),
{
    reveal_strlit("");
}

/// `get_pod` fetches `/api/v1/namespaces/{ns}/pods/{name}` below the client's address, with the
/// namespace and the name in their places.
pub proof fn lemma_get_pod_request(base: Seq<char>, ns: Seq<char>, name: Seq<char>)
    ensures
        get_pod_request(base, ns, name).method == HttpMethod::Get,
        get_pod_request(base, ns, name).url == base + "/api/v1/namespaces/"@ + ns + "/pods/"@ + name,
        get_pod_request(base, ns, name).reply == ReplyFormat::Json,
        get_pod_request(base, ns, name).error_label == Some(Seq::<char>::empty()),
{
    reveal_strlit("");
    reveal_strlit("/");
    reveal_strlit("pods");
    reveal_strlit("/pods/");
    assert(get_pod_request(base, ns, name).url =~= base + "/api/v1/namespaces/"@ + ns + "/pods/"@ + name);
}

/// `get_pod_logs` fetches `/api/v1/namespaces/{ns}/pods/{name}/log` below the client's address, with the
/// namespace and the name in their places.
pub proof fn lemma_get_pod_logs_request(base: Seq<char>, ns: Seq<char>, name: Seq<char>)
    ensures
        get_pod_logs_request(base, ns, name).method == HttpMethod::Get,
        get_pod_logs_request(base, ns, name).url == base + "/api/v1/namespaces/"@ + ns + "/pods/"@ + name + "/log"@,
        get_pod_logs_request(base, ns, name).reply == ReplyFormat::Text,
        get_pod_logs_request(base, ns, name).error_label == Some(Seq::<char>::empty()),
{
    reveal_strlit("");
    reveal_strlit("/");
    reveal_strlit("pods");
    reveal_strlit("/pods/");
    assert(get_pod_logs_request(base, ns, name).url =~= base + "/api/v1/namespaces/"@ + ns + "/pods/"@ + name + "/log"@);
}

/// `delete_pod` deletes `/api/v1/namespaces/{ns}/pods/{name}` below the client's address, with the
/// namespace and the name in their places.
pub proof fn lemma_delete_pod_request(base: Seq<char>, ns: Seq<char>, name: Seq<char>)
    ensures
        delete_pod_request(base, ns, name).method == HttpMethod::Delete,
        delete_pod_request(base, ns, name).url == base + "/api/v1/namespaces/"@ + ns + "/pods/"@ + name,
        delete_pod_request(base, ns, name).reply == ReplyFormat::Ignored,
        delete_pod_request(base, ns, name).error_label is None,
{
    reveal_strlit("");
    reveal_strlit("/");
    reveal_strlit("pods");
    reveal_strlit("/pods/");
    assert(delete_pod_request(base, ns, name).url =~= base + "/api/v1/namespaces/"@ + ns + "/pods/"@ + name);
}

/// `get_deployment` fetches `/api/v1/namespaces/{ns}/deployments/{name}` below the client's address, with the
/// namespace and the name in their places.
pub proof fn lemma_get_deployment_request(base: Seq<char>, ns: Seq<char>, name: Seq<char>)
    ensures
        get_deployment_request(base, ns, name).method == HttpMethod::Get,
        get_deployment_request(base, ns, name).url == base + "/api/v1/namespaces/"@ + ns + "/deployments/"@ + name,
        get_deployment_request(base, ns, name).reply == ReplyFormat::Json,
        get_deployment_request(base, ns, name).error_label == Some(Seq::<char>::empty()),
{
    reveal_strlit("");
    reveal_strlit("/");
    reveal_strlit("deployments");
    reveal_strlit("/deployments/");
    assert(get_deployment_request(base, ns, name).url =~= base + "/api/v1/namespaces/"@ + ns + "/deployments/"@ + name);
}

/// `delete_deployment` deletes `/api/v1/namespaces/{ns}/deployments/{name}` below the client's address, with the
/// namespace and the name in their places.
pub proof fn lemma_delete_deployment_request(base: Seq<char>, ns: Seq<char>, name: Seq<char>)
    ensures
        delete_deployment_request(base, ns, name).method == HttpMethod::Delete,
        delete_deployment_request(base, ns, name).url == base + "/api/v1/namespaces/"@ + ns + "/deployments/"@ + name,
        delete_deployment_request(base, ns, name).reply == ReplyFormat::Ignored,
        delete_deployment_request(base, ns, name).error_label is None,
{
    reveal_strlit("");
    reveal_strlit("/");
    reveal_strlit("deployments");
    reveal_strlit("/deployments/");
    assert(delete_deployment_request(base, ns, name).url =~= base + "/api/v1/namespaces/"@ + ns + "/deployments/"@ + name);
}

/// `get_bmh` fetches `/api/v1/namespaces/{ns}/baremetalhosts/{name}` below the client's address, with the
/// namespace and the name in their places.
pub proof fn lemma_get_bmh_request(base: Seq<char>, ns: Seq<char>, name: Seq<char>)
    ensures
        get_bmh_request(base, ns, name).method == HttpMethod::Get,
        get_bmh_request(base, ns, name).url == base + "/api/v1/namespaces/"@ + ns + "/baremetalhosts/"@ + name,
        get_bmh_request(base, ns, name).reply == ReplyFormat::Json,
        get_bmh_request(base, ns, name).error_label == Some(Seq::<char>::empty()),
{
    reveal_strlit("");
    reveal_strlit("/");
    reveal_strlit("baremetalhosts");
    reveal_strlit("/baremetalhosts/");
    assert(get_bmh_request(base, ns, name).url =~= base + "/api/v1/namespaces/"@ + ns + "/baremetalhosts/"@ + name);
}

/// `get_bootconfig` fetches `/api/v1/namespaces/{ns}/bootconfigs/{name}` below the client's address, with the
/// namespace and the name in their places.
pub proof fn lemma_get_bootconfig_request(base: Seq<char>, ns: Seq<char>, name: Seq<char>)
    ensures
        get_bootconfig_request(base, ns, name).method == HttpMethod::Get,
        get_bootconfig_request(base, ns, name).url == base + "/api/v1/namespaces/"@ + ns + "/bootconfigs/"@ + name,
        get_bootconfig_request(base, ns, name).reply == ReplyFormat::Json,
        get_bootconfig_request(base, ns, name).error_label == Some(Seq::<char>::empty()),
{
    reveal_strlit("");
    reveal_strlit("/");
    reveal_strlit("bootconfigs");
    reveal_strlit("/bootconfigs/");
    assert(get_bootconfig_request(base, ns, name).url =~= base + "/api/v1/namespaces/"@ + ns + "/bootconfigs/"@ + name);
}

/// `delete_bootconfig` deletes `/api/v1/namespaces/{ns}/bootconfigs/{name}` below the client's address, with the
/// namespace and the name in their places.
pub proof fn lemma_delete_bootconfig_request(base: Seq<char>, ns: Seq<char>, name: Seq<char>)
    ensures
        delete_bootconfig_request(base, ns, name).method == HttpMethod::Delete,
        delete_bootconfig_request(base, ns, name).url == base + "/api/v1/namespaces/"@ + ns + "/bootconfigs/"@ + name,
        delete_bootconfig_request(base, ns, name).reply == ReplyFormat::Ignored,
        delete_bootconfig_request(base, ns, name).error_label is None,
{
    reveal_strlit("");
    reveal_strlit("/");
    reveal_strlit("bootconfigs");
    reveal_strlit("/bootconfigs/");
    assert(delete_bootconfig_request(base, ns, name).url =~= base + "/api/v1/namespaces/"@ + ns + "/bootconfigs/"@ + name);
}

/// `get_registry` fetches `/api/v1/namespaces/{ns}/registries/{name}` below the client's address, with the
/// namespace and the name in their places.
pub proof fn lemma_get_registry_request(base: Seq<char>, ns: Seq<char>, name: Seq<char>)
    ensures
        get_registry_request(base, ns, name).method == HttpMethod::Get,
        get_registry_request(base, ns, name).url == base + "/api/v1/namespaces/"@ + ns + "/registries/"@ + name,
        get_registry_request(base, ns, name).reply == ReplyFormat::Json,
        get_registry_request(base, ns, name).error_label == Some(Seq::<char>::empty()),
{
    reveal_strlit("");
    reveal_strlit("/");
    reveal_strlit("registries");
    reveal_strlit("/registries/");
    assert(get_registry_request(base, ns, name).url =~= base + "/api/v1/namespaces/"@ + ns + "/registries/"@ + name);
}

/// `delete_registry` deletes `/api/v1/namespaces/{ns}/registries/{name}` below the client's address, with the
/// namespace and the name in their places.
pub proof fn lemma_delete_registry_request(base: Seq<char>, ns: Seq<char>, name: Seq<char>)
    ensures
        delete_registry_request(base, ns, name).method == HttpMethod::Delete,
        delete_registry_request(base, ns, name).url == base + "/api/v1/namespaces/"@ + ns + "/registries/"@ + name,
        delete_registry_request(base, ns, name).reply == ReplyFormat::Ignored,
        delete_registry_request(base, ns, name).error_label is None,
{
    reveal_strlit("");
    reveal_strlit("/");
    reveal_strlit("registries");
    reveal_strlit("/registries/");
    assert(delete_registry_request(base, ns, name).url =~= base + "/api/v1/namespaces/"@ + ns + "/registries/"@ + name);
}

/// `get_job_logs` fetches `/api/v1/namespaces/{ns}/jobs/{name}/logs` below the client's address, with the
/// namespace and the name in their places.
pub proof fn lemma_get_job_logs_request(base: Seq<char>, ns: Seq<char>, name: Seq<char>)
    ensures
        get_job_logs_request(base, ns, name).method == HttpMethod::Get,
        get_job_logs_request(base, ns, name).url == base + "/api/v1/namespaces/"@ + ns + "/jobs/"@ + name + "/logs"@,
        get_job_logs_request(base, ns, name).reply == ReplyFormat::Text,
        get_job_logs_request(base, ns, name).error_label == Some(Seq::<char>::empty()),
{
    reveal_strlit("");
    reveal_strlit("/");
    reveal_strlit("jobs");
    reveal_strlit("/jobs/");
    assert(get_job_logs_request(base, ns, name).url =~= base + "/api/v1/namespaces/"@ + ns + "/jobs/"@ + name + "/logs"@);
}

/// `cancel_job` posts to `/api/v1/namespaces/{ns}/jobs/{name}/cancel` below the client's address, with the
/// namespace and the name in their places.
pub proof fn lemma_cancel_job_request(base: Seq<char>, ns: Seq<char>, name: Seq<char>)
    ensures
        cancel_job_request(base, ns, name).method == HttpMethod::Post,
        cancel_job_request(base, ns, name).url == base + "/api/v1/namespaces/"@ + ns + "/jobs/"@ + name + "/cancel"@,
        cancel_job_request(base, ns, name).reply == ReplyFormat::Ignored,
        cancel_job_request(base, ns, name).error_label is None,
{
    reveal_strlit("");
    reveal_strlit("/");
    reveal_strlit("jobs");
    reveal_strlit("/jobs/");
    assert(cancel_job_request(base, ns, name).url =~= base + "/api/v1/namespaces/"@ + ns + "/jobs/"@ + name + "/cancel"@);
}

/// The DNS and DHCP listings of a network are `GET`s below the network's namespace, read as
/// JSON.
pub proof fn lemma_network_service_requests(base: Seq<char>, net: Seq<char>)
    ensures
        list_dns_records_request(base, net).method == HttpMethod::Get,
        list_dns_records_request(base, net).url == base + "/api/v1/namespaces/"@ + net + "/dnsrecords"@,
        list_dns_records_request(base, net).reply == ReplyFormat::Json,
        list_dns_records_request(base, net).error_label == Some(Seq::<char>::empty()),
        list_dhcp_pools_request(base, net).method == HttpMethod::Get,
        list_dhcp_pools_request(base, net).url == base + "/api/v1/namespaces/"@ + net + "/dhcppools"@,
        list_dhcp_pools_request(base, net).reply == ReplyFormat::Json,
        list_dhcp_pools_request(base, net).error_label == Some(Seq::<char>::empty()),
        list_dhcp_reservations_request(base, net).method == HttpMethod::Get,
        list_dhcp_reservations_request(base, net).url == base + "/api/v1/namespaces/"@ + net + "/dhcpreservations"@,
        list_dhcp_reservations_request(base, net).reply == ReplyFormat::Json,
        list_dhcp_reservations_request(base, net).error_label == Some(Seq::<char>::empty()),
        list_dhcp_leases_request(base, net).method == HttpMethod::Get,
        list_dhcp_leases_request(base, net).url == base + "/api/v1/namespaces/"@ + net + "/dhcpleases"@,
        list_dhcp_leases_request(base, net).reply == ReplyFormat::Json,
        list_dhcp_leases_request(base, net).error_label == Some(Seq::<char>::empty()),
        list_dns_forwarders_request(base, net).method == HttpMethod::Get,
        list_dns_forwarders_request(base, net).url == base + "/api/v1/namespaces/"@ + net + "/dnsforwarders"@,
        list_dns_forwarders_request(base, net).reply == ReplyFormat::Json,
        list_dns_forwarders_request(base, net).error_label == Some(Seq::<char>::empty()),
{
    reveal_strlit("");
    reveal_strlit("/");
    reveal_strlit("dnsrecords");
    reveal_strlit("/dnsrecords");
    assert(list_dns_records_request(base, net).url =~= base + "/api/v1/namespaces/"@ + net + "/dnsrecords"@);
    reveal_strlit("dhcppools");
    reveal_strlit("/dhcppools");
    assert(list_dhcp_pools_request(base, net).url =~= base + "/api/v1/namespaces/"@ + net + "/dhcppools"@);
    reveal_strlit("dhcpreservations");
    reveal_strlit("/dhcpreservations");
    assert(list_dhcp_reservations_request(base, net).url =~= base + "/api/v1/namespaces/"@ + net + "/dhcpreservations"@);
    reveal_strlit("dhcpleases");
    reveal_strlit("/dhcpleases");
    assert(list_dhcp_leases_request(base, net).url =~= base + "/api/v1/namespaces/"@ + net + "/dhcpleases"@);
    reveal_strlit("dnsforwarders");
    reveal_strlit("/dnsforwarders");
    assert(list_dns_forwarders_request(base, net).url =~= base + "/api/v1/namespaces/"@ + net + "/dnsforwarders"@);
}

/// `get_network` fetches `/api/v1/networks/{name}`, and `smoketest_network` posts to
/// `/api/v1/networks/{name}/smoketest` and reads the JSON report, reporting failures bare.
pub proof fn lemma_network_requests(base: Seq<char>, name: Seq<char>)
    ensures
        get_network_request(base, name).method == HttpMethod::Get,
        get_network_request(base, name).url == base + "/api/v1/networks/"@ + name,
        get_network_request(base, name).reply == ReplyFormat::Json,
        get_network_request(base, name).error_label == Some(Seq::<char>::empty()),
        smoketest_network_request(base, name).method == HttpMethod::Post,
        smoketest_network_request(base, name).url == base + "/api/v1/networks/"@ + name + "/smoketest"@,
        smoketest_network_request(base, name).reply == ReplyFormat::Json,
        smoketest_network_request(base, name).error_label is None,
{
    reveal_strlit("");
    assert(get_network_request(base, name).url =~= base + "/api/v1/networks/"@ + name);
    assert(smoketest_network_request(base, name).url =~= base + "/api/v1/networks/"@ + name + "/smoketest"@);
}

/// `patch_bmh` sends the given patch, as a JSON merge patch, to the host's address, and reports
/// failures bare.
pub proof fn lemma_patch_bmh_request(base: Seq<char>, ns: Seq<char>, name: Seq<char>, patch: serde_json::Value)
    ensures
        patch_bmh_request(base, ns, name, patch).method == HttpMethod::Patch,
        patch_bmh_request(base, ns, name, patch).url == base + "/api/v1/namespaces/"@ + ns + "/baremetalhosts/"@ + name,
        patch_bmh_request(base, ns, name, patch).reply == ReplyFormat::Ignored,
        patch_bmh_request(base, ns, name, patch).error_label is None,
        patch_bmh_request(base, ns, name, patch).content_type == Some("application/merge-patch+json"@),
        patch_bmh_request(base, ns, name, patch).json_body == Some(patch),
{
    reveal_strlit("/");
    reveal_strlit("baremetalhosts");
    reveal_strlit("/baremetalhosts/");
    assert(patch_bmh_request(base, ns, name, patch).url =~= base + "/api/v1/namespaces/"@ + ns + "/baremetalhosts/"@ + name);
}

} // verus!
