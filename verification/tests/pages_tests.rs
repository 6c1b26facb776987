use console::state::AppState;
use console::ui::layout::{nav_html, page_with_js};
use console::ui::{bmh, bootconfigs, dashboard, deployments, jobs, logs, networks, nodes, pods, registries, storage, terminal};

const MKUBE: &str = "http://192.168.200.2:8082";

fn state() -> AppState {
    AppState::new(MKUBE.to_string())
}

fn check_frame(html: &str, title: &str, active: &str) {
    assert!(html.starts_with(&format!("<!DOCTYPE html>\n<html>\n<head>\n<title>console — {title}</title>\n")));
    assert!(html.contains(&nav_html(active)));
    assert!(html.contains(&format!(" class=\"active\">{active}</a>")));
    assert!(html.contains(&format!("\nconst MKUBE = '{MKUBE}';\n")));
    assert!(html.ends_with("\n</script>\n</body>\n</html>"));
    assert!(!html.contains("{{"));
}

#[test]
fn dashboard_page() {
    let html = dashboard::page(&state());
    check_frame(&html, "Dashboard", "Dashboard");
    assert!(html.contains("<div class=\"page-title\">Dashboard</div>\n<div class=\"stats-grid\" id=\"stats\">"));
    assert!(html.contains("async function fetchJSON(url) {\n    try {"));
    assert!(html.contains("fetchJSON(MKUBE + '/api/v1/consistency'),"));
    assert!(html.contains("${nodes.length}"));
    assert!(html.contains("loadDashboard();\nsetInterval(loadDashboard, 30000);\n"));
}

#[test]
fn dashboard_page_is_the_framed_markup() {
    let s = state();
    let html = dashboard::page(&s);
    let js = format!("{}{}{}", dashboard::SCRIPT_0, MKUBE, dashboard::SCRIPT_1);
    assert_eq!(html, page_with_js("Dashboard", "Dashboard", dashboard::BODY, &js));
}

#[test]
fn nodes_list_page() {
    let html = nodes::list_page(&state());
    check_frame(&html, "Nodes", "Nodes");
    assert!(html.contains("<div class=\"page-title\">Nodes</div>\n<div id=\"nodes\"><div class=\"loading\">Loading...</div></div>"));
    assert!(html.contains("const stormdUrl = ip !== '-' ? `http://${ip}:9080/ui/` : '#';"));
    assert!(html.contains("setInterval(loadNodes, 15000);"));
}

#[test]
fn nodes_detail_page() {
    let html = nodes::detail_page(&state(), "node-1");
    check_frame(&html, "Node Detail", "Nodes");
    assert!(html.contains("<div class=\"page-title\"><a href=\"/ui/nodes\" style=\"color:#888\">Nodes</a> / node-1</div>"));
    assert!(html.contains("const NODE_NAME = 'node-1';"));
    assert!(html.contains("<div class=\"card-header\">Processes (stormd)</div>"));
    assert!(html.contains("const pct = Math.round(used / total * 100);"));
}

#[test]
fn pods_list_page() {
    let html = pods::list_page(&state());
    check_frame(&html, "Pods", "Pods");
    assert!(html.contains("<select id=\"ns-filter\" onchange=\"filterPods()\"><option value=\"\">All</option></select>"));
    assert!(html.contains("const restarts = (p.status?.containerStatuses || []).reduce((s,c) => s + (c.restartCount||0), 0);"));
}

#[test]
fn pods_detail_page() {
    let html = pods::detail_page(&state(), "kube-system", "dns-0");
    check_frame(&html, "Pod Detail", "Pods");
    assert!(html.contains("<a href=\"/ui/pods\" style=\"color:#888\">Pods</a> / <span style=\"color:#8be9fd\">kube-system</span> / dns-0</div>"));
    assert!(html.contains("const NS = 'kube-system';\nconst NAME = 'dns-0';"));
    assert!(html.contains("ansiToHtml(logs)"));
}

#[test]
fn deployments_pages() {
    let list = deployments::list_page(&state());
    check_frame(&list, "Deployments", "Deployments");
    assert!(list.contains("const color = ready >= replicas ? '#50fa7b' : ready > 0 ? '#f1fa8c' : '#e94560';"));
    let detail = deployments::detail_page(&state(), "default", "web");
    check_frame(&detail, "Deployment Detail", "Deployments");
    assert!(detail.contains("<div class=\"card-header\">Owned Pods</div>"));
    assert!(detail.contains("const NS = 'default';\nconst NAME = 'web';"));
    assert!(detail.contains("(p.metadata?.name||'').startsWith(NAME)"));
}

#[test]
fn networks_pages() {
    let list = networks::list_page(&state());
    check_frame(&list, "Networks", "Networks");
    assert!(list.contains("const dnsStatus = dnsAlive === true ? 'healthy' : dnsAlive === false ? 'down' : '-';"));
    let detail = networks::detail_page(&state(), "g10");
    check_frame(&detail, "Network Detail", "Networks");
    assert!(detail.contains("<a href=\"/ui/networks\" style=\"color:#888\">Networks</a> / g10</div>"));
    assert!(detail.contains("const NET = 'g10';"));
    assert!(detail.contains("<div class=\"tab\" onclick=\"switchTab('forwarders')\">DNS Forwarders</div>"));
    assert!(detail.contains("fetch(MKUBE + `/api/v1/networks/${NET}/smoketest`, {method:'POST'})"));
}

#[test]
fn bmh_pages() {
    let list = bmh::list_page(&state());
    check_frame(&list, "Bare Metal Hosts", "BMH");
    assert!(list.contains("body: JSON.stringify({spec: {online: on}})"));
    let detail = bmh::detail_page(&state(), "default", "server1");
    check_frame(&detail, "BMH Detail", "BMH");
    assert!(detail.contains("<a href=\"/ui/bmh\" style=\"color:#888\">BMH</a> / <span style=\"color:#8be9fd\">default</span> / server1</div>"));
    assert!(detail.contains("for (const k of ['online','state','network','ip','hostname','mac','image','disk','bootConfigRef']) {"));
}

#[test]
fn bootconfigs_pages() {
    let list = bootconfigs::list_page(&state());
    check_frame(&list, "Boot Configs", "BootConfigs");
    assert!(list.contains("<th>Kernel</th><th>Initrd</th><th>iPXE</th>"));
    let detail = bootconfigs::detail_page(&state(), "default", "pxe");
    check_frame(&detail, "BootConfig Detail", "BootConfigs");
    assert!(detail.contains("<div class=\"card-header\">Referencing Hosts</div>"));
    assert!(detail.contains("for (const k of ['kernel','initrd','cmdline','ipxeScript','diskImage','installScript']) {"));
    assert!(detail.contains("filter(b => b.spec?.bootConfigRef === NAME)"));
}

#[test]
fn registries_pages() {
    let list = registries::list_page(&state());
    check_frame(&list, "Registries", "Registries");
    assert!(list.contains("const mirrors = Array.isArray(spec.mirrors) ? spec.mirrors.length : '-';"));
    let detail = registries::detail_page(&state(), "infra", "ghcr");
    check_frame(&detail, "Registry Detail", "Registries");
    assert!(detail.contains("<div class=\"card-header\">Images</div>"));
    assert!(detail.contains("const NS = 'infra';\nconst NAME = 'ghcr';"));
}

#[test]
fn storage_page() {
    let html = storage::page(&state());
    check_frame(&html, "Storage", "Storage");
    assert!(html.contains("fetch(MKUBE + '/api/v1/iscsi-disks/capacity')"));
    assert!(html.contains("setInterval(loadStorage, 30000);"));
}

#[test]
fn jobs_page() {
    let html = jobs::page(&state());
    check_frame(&html, "Jobs", "Jobs");
    assert!(html.contains("fetch(MKUBE + `/api/v1/namespaces/${ns}/jobs/${name}/cancel`, {method:'POST'})"));
    assert!(html.contains("escapeHtml(JSON.stringify(queue, null, 2))"));
}

#[test]
fn logs_page() {
    let html = logs::page(&state());
    check_frame(&html, "Logs", "Logs");
    assert!(html.contains("let lines = logs.split('\\n');"));
    assert!(html.contains("<label><input type=\"checkbox\" id=\"follow\" checked> Follow</label>"));
}

#[test]
fn logs_page_node_filter_narrows_the_pods() {
    let html = logs::page(&state());
    assert!(html.contains("<select id=\"node-filter\" onchange=\"fillPods()\"><option value=\"\">All</option></select>"));
    assert!(html.contains("function fillPods() {"));
    assert!(html.contains("const node = document.getElementById('node-filter').value;"));
    assert!(html.contains("const pods = node ? allPods.filter(p => p.spec?.nodeName === node) : allPods;"));
    assert!(html.contains("pf.innerHTML += `<option value=\"${ns}/${name}\">${ns}/${name}</option>`;"));
    assert!(html.contains("pf.value = [...pf.options].some(o => o.value === chosen) ? chosen : '';\n    loadLogs();"));
}

#[test]
fn terminal_page_highlights_logs() {
    let html = terminal::page(&state());
    check_frame(&html, "Terminal", "Logs");
    assert!(html.contains("ws = new WebSocket(`${proto}//${ip}:9080/ws/console/${encodeURIComponent(proc)}`);"));
}

#[test]
fn pages_use_the_mkube_url_as_given() {
    let s = AppState::new("http://mk/".to_string());
    let html = nodes::list_page(&s);
    assert!(html.contains("const MKUBE = 'http://mk/';"));
}

#[test]
fn names_are_inserted_as_given() {
    let html = pods::detail_page(&state(), "a<b", "x'y");
    assert!(html.contains("const NS = 'a<b';\nconst NAME = 'x'y';"));
    assert!(html.contains("<span style=\"color:#8be9fd\">a<b</span> / x'y</div>"));
}

#[test]
fn list_pages_refresh_themselves() {
    let s = state();
    for (html, every) in [
        (dashboard::page(&s), "setInterval(loadDashboard, 30000);"),
        (nodes::list_page(&s), "setInterval(loadNodes, 15000);"),
        (pods::list_page(&s), "setInterval(loadPods, 15000);"),
        (deployments::list_page(&s), "setInterval(loadDeployments, 15000);"),
        (networks::list_page(&s), "setInterval(loadNetworks, 15000);"),
        (bmh::list_page(&s), "setInterval(loadBMH, 15000);"),
        (bootconfigs::list_page(&s), "setInterval(loadBootConfigs, 15000);"),
        (registries::list_page(&s), "setInterval(loadRegistries, 15000);"),
        (storage::page(&s), "setInterval(loadStorage, 30000);"),
        (jobs::page(&s), "setInterval(loadJobs, 15000);"),
    ] {
        assert!(html.contains(every), "{every}");
    }
}
