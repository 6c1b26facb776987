use console::client::mkube::{MkubeClient, MERGE_PATCH, MKUBE_TIMEOUT_SECS};
use console::client::stormd::{StormdClient, STORMD_TIMEOUT_SECS};
use console::client::{failure_message, ApiRequest, FailureStage, HttpMethod, ReplyFormat};
use console::state::{healthz, AppState};

fn client() -> MkubeClient {
    MkubeClient::new("http://192.168.200.2:8082/")
}

fn check_fetch(req: &ApiRequest, url: &str, reply: ReplyFormat) {
    assert_eq!(req.method, HttpMethod::Get);
    assert_eq!(req.url, url);
    assert_eq!(req.reply, reply);
    assert!(req.content_type.is_none());
    assert!(req.json_body.is_none());
    assert_eq!(req.error_label.as_deref(), Some(""));
}

fn check_command(req: &ApiRequest, method: HttpMethod, url: &str) {
    assert_eq!(req.method, method);
    assert_eq!(req.url, url);
    assert_eq!(req.reply, ReplyFormat::Ignored);
    assert!(req.content_type.is_none());
    assert!(req.json_body.is_none());
    assert!(req.error_label.is_none());
}

const B: &str = "http://192.168.200.2:8082";

#[test]
fn new_drops_trailing_slashes() {
    assert_eq!(client().base_url, B);
    assert_eq!(MkubeClient::new("http://h//").base_url, "http://h");
    assert_eq!(MkubeClient::new("http://h").base_url, "http://h");
    assert_eq!(MkubeClient::new("").base_url, "");
}

#[test]
fn url_joins_base_and_path() {
    assert_eq!(client().url("/healthz"), format!("{B}/healthz"));
}

#[test]
fn list_endpoints() {
    let c = client();
    check_fetch(&c.healthz(), &format!("{B}/healthz"), ReplyFormat::Json);
    check_fetch(&c.list_nodes(), &format!("{B}/api/v1/nodes"), ReplyFormat::Json);
    check_fetch(&c.list_pods(), &format!("{B}/api/v1/pods"), ReplyFormat::Json);
    check_fetch(&c.list_deployments(), &format!("{B}/api/v1/deployments"), ReplyFormat::Json);
    check_fetch(&c.list_networks(), &format!("{B}/api/v1/networks"), ReplyFormat::Json);
    check_fetch(&c.list_bmh(), &format!("{B}/api/v1/baremetalhosts"), ReplyFormat::Json);
    check_fetch(&c.list_bootconfigs(), &format!("{B}/api/v1/bootconfigs"), ReplyFormat::Json);
    check_fetch(&c.list_registries(), &format!("{B}/api/v1/registries"), ReplyFormat::Json);
    check_fetch(&c.list_pvcs(), &format!("{B}/api/v1/persistentvolumeclaims"), ReplyFormat::Json);
    check_fetch(&c.list_iscsi_cdroms(), &format!("{B}/api/v1/iscsi-cdroms"), ReplyFormat::Json);
    check_fetch(&c.list_iscsi_disks(), &format!("{B}/api/v1/iscsi-disks"), ReplyFormat::Json);
    check_fetch(&c.get_disk_capacity(), &format!("{B}/api/v1/iscsi-disks/capacity"), ReplyFormat::Json);
    check_fetch(&c.list_jobs(), &format!("{B}/api/v1/namespaces/default/jobs"), ReplyFormat::Json);
    check_fetch(&c.list_job_runners(), &format!("{B}/api/v1/jobrunners"), ReplyFormat::Json);
    check_fetch(&c.get_job_queue(), &format!("{B}/api/v1/jobqueue"), ReplyFormat::Json);
    check_fetch(&c.list_events(), &format!("{B}/api/v1/events"), ReplyFormat::Json);
    check_fetch(&c.consistency(), &format!("{B}/api/v1/consistency"), ReplyFormat::Json);
    check_fetch(&c.lifecycle_stats(), &format!("{B}/api/v1/lifecycle/stats"), ReplyFormat::Json);
}

#[test]
fn object_endpoints() {
    let c = client();
    check_fetch(&c.get_pod("ns1", "p1"), &format!("{B}/api/v1/namespaces/ns1/pods/p1"), ReplyFormat::Json);
    check_fetch(&c.get_pod_logs("ns1", "p1"), &format!("{B}/api/v1/namespaces/ns1/pods/p1/log"), ReplyFormat::Text);
    check_command(&c.delete_pod("ns1", "p1"), HttpMethod::Delete, &format!("{B}/api/v1/namespaces/ns1/pods/p1"));
    check_fetch(&c.get_deployment("ns1", "d1"), &format!("{B}/api/v1/namespaces/ns1/deployments/d1"), ReplyFormat::Json);
    check_command(&c.delete_deployment("ns1", "d1"), HttpMethod::Delete, &format!("{B}/api/v1/namespaces/ns1/deployments/d1"));
    check_fetch(&c.get_network("g10"), &format!("{B}/api/v1/networks/g10"), ReplyFormat::Json);
    check_fetch(&c.get_bmh("default", "s1"), &format!("{B}/api/v1/namespaces/default/baremetalhosts/s1"), ReplyFormat::Json);
    check_fetch(&c.get_bootconfig("default", "pxe"), &format!("{B}/api/v1/namespaces/default/bootconfigs/pxe"), ReplyFormat::Json);
    check_command(&c.delete_bootconfig("default", "pxe"), HttpMethod::Delete, &format!("{B}/api/v1/namespaces/default/bootconfigs/pxe"));
    check_fetch(&c.get_registry("infra", "ghcr"), &format!("{B}/api/v1/namespaces/infra/registries/ghcr"), ReplyFormat::Json);
    check_command(&c.delete_registry("infra", "ghcr"), HttpMethod::Delete, &format!("{B}/api/v1/namespaces/infra/registries/ghcr"));
    check_fetch(&c.get_job_logs("default", "j1"), &format!("{B}/api/v1/namespaces/default/jobs/j1/logs"), ReplyFormat::Text);
    check_command(&c.cancel_job("default", "j1"), HttpMethod::Post, &format!("{B}/api/v1/namespaces/default/jobs/j1/cancel"));
}

#[test]
fn network_service_endpoints() {
    let c = client();
    check_fetch(&c.list_dns_records("g10"), &format!("{B}/api/v1/namespaces/g10/dnsrecords"), ReplyFormat::Json);
    check_fetch(&c.list_dhcp_pools("g10"), &format!("{B}/api/v1/namespaces/g10/dhcppools"), ReplyFormat::Json);
    check_fetch(&c.list_dhcp_reservations("g10"), &format!("{B}/api/v1/namespaces/g10/dhcpreservations"), ReplyFormat::Json);
    check_fetch(&c.list_dhcp_leases("g10"), &format!("{B}/api/v1/namespaces/g10/dhcpleases"), ReplyFormat::Json);
    check_fetch(&c.list_dns_forwarders("g10"), &format!("{B}/api/v1/namespaces/g10/dnsforwarders"), ReplyFormat::Json);
}

#[test]
fn smoketest_posts_and_reads_json() {
    let req = client().smoketest_network("g10");
    assert_eq!(req.method, HttpMethod::Post);
    assert_eq!(req.url, format!("{B}/api/v1/networks/g10/smoketest"));
    assert_eq!(req.reply, ReplyFormat::Json);
    assert!(req.error_label.is_none());
    assert!(req.json_body.is_none());
}

#[test]
fn patch_bmh_carries_the_merge_patch() {
    let mut spec = serde_json::Map::new();
    spec.insert("online".to_string(), serde_json::Value::Bool(true));
    let mut patch_map = serde_json::Map::new();
    patch_map.insert("spec".to_string(), serde_json::Value::Object(spec));
    let patch = serde_json::Value::Object(patch_map);
    let req = client().patch_bmh("default", "s1", &patch);
    assert_eq!(req.method, HttpMethod::Patch);
    assert_eq!(req.url, client().get_bmh("default", "s1").url);
    assert_eq!(req.content_type.as_deref(), Some("application/merge-patch+json"));
    assert_eq!(MERGE_PATCH, "application/merge-patch+json");
    assert_eq!(req.json_body, Some(patch));
    assert_eq!(req.reply, ReplyFormat::Ignored);
    assert!(req.error_label.is_none());
}

#[test]
fn fetch_delete_and_patch_share_the_object_url() {
    let c = client();
    assert_eq!(c.get_pod("a", "b").url, c.delete_pod("a", "b").url);
    assert_eq!(c.get_deployment("a", "b").url, c.delete_deployment("a", "b").url);
    assert_eq!(c.get_bootconfig("a", "b").url, c.delete_bootconfig("a", "b").url);
    assert_eq!(c.get_registry("a", "b").url, c.delete_registry("a", "b").url);
    assert!(c.get_pod_logs("a", "b").url.starts_with(&c.get_pod("a", "b").url));
}

#[test]
fn distinct_objects_have_distinct_urls() {
    let c = client();
    assert_ne!(c.get_pod("a", "b/c").url, c.get_pod("a/b", "c").url);
    assert_ne!(c.get_pod("ab", "c").url, c.get_pod("a", "bc").url);
}

#[test]
fn failure_messages() {
    let c = client();
    assert_eq!(failure_message(&c.list_nodes(), FailureStage::Send, "refused"), "request failed: refused");
    assert_eq!(failure_message(&c.list_nodes(), FailureStage::ParseJson, "eof"), "json parse failed: eof");
    assert_eq!(failure_message(&c.get_pod_logs("a", "b"), FailureStage::ReadText, "eof"), "text read failed: eof");
    assert_eq!(failure_message(&c.delete_pod("a", "b"), FailureStage::Send, "refused"), "refused");
    assert_eq!(failure_message(&c.smoketest_network("n"), FailureStage::ParseJson, "eof"), "eof");
    let s = StormdClient::new("http://10.0.0.5:9080");
    assert_eq!(failure_message(&s.list_processes(), FailureStage::Send, "refused"), "stormd request failed: refused");
    assert_eq!(failure_message(&s.stats(), FailureStage::ParseJson, "eof"), "stormd json parse failed: eof");
    assert_eq!(failure_message(&s.stop_process("x"), FailureStage::Send, "refused"), "refused");
}

#[test]
fn stormd_endpoints() {
    let s = StormdClient::new("http://10.0.0.5:9080/");
    assert_eq!(s.base_url, "http://10.0.0.5:9080");
    let b = "http://10.0.0.5:9080";
    for (req, path) in [
        (s.list_processes(), "/api/v1/processes"),
        (s.stats(), "/api/v1/stats"),
        (s.memory_history(), "/api/v1/memory/history"),
        (s.list_mounts(), "/api/v1/mounts"),
    ] {
        assert_eq!(req.method, HttpMethod::Get);
        assert_eq!(req.url, format!("{b}{path}"));
        assert_eq!(req.reply, ReplyFormat::Json);
        assert_eq!(req.error_label.as_deref(), Some("stormd "));
    }
    check_command(&s.restart_process("nginx"), HttpMethod::Post, &format!("{b}/api/v1/processes/nginx/restart"));
    check_command(&s.start_process("nginx"), HttpMethod::Post, &format!("{b}/api/v1/processes/nginx/start"));
    check_command(&s.stop_process("nginx"), HttpMethod::Post, &format!("{b}/api/v1/processes/nginx/stop"));
    assert_eq!(s.url("/x"), format!("{b}/x"));
}

#[test]
fn timeouts() {
    assert_eq!(MKUBE_TIMEOUT_SECS, 10);
    assert_eq!(STORMD_TIMEOUT_SECS, 5);
}

#[test]
fn app_state_keeps_url_and_builds_client() {
    let s = AppState::new("http://192.168.200.2:8082/".to_string());
    assert_eq!(s.mkube_url, "http://192.168.200.2:8082/");
    assert_eq!(s.mkube.base_url, "http://192.168.200.2:8082");
}

#[test]
fn healthz_body() {
    assert_eq!(healthz(), r#"{"status":"ok","service":"console"}"#);
}

#[test]
fn slashes_in_a_namespace_can_make_two_objects_share_a_url() {
    let c = client();
    assert_eq!(c.get_pod("a/pods/x", "y").url, c.get_pod("a", "x/pods/y").url);
}
