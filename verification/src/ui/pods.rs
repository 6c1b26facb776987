//! The pod pages: the pods, filtered by namespace, status and a search text, and one pod with its
//! containers, labels, annotations and log.
use vstd::prelude::*;
use vstd::string::*;
use crate::state::AppState;
use crate::ui::layout::{page_with_js, page_with_js_view, SECTION_PODS};

verus! {

/// Title of the list page.
pub const LIST_TITLE: &'static str = "Pods";

/// Markup of the list page.
pub const LIST_BODY: &'static str = r#"<div class="page-title">Pods</div>
<div class="filter-bar">
  <label>Namespace:</label>
  <select id="ns-filter" onchange="filterPods()"><option value="">All</option></select>
  <label>Status:</label>
  <select id="status-filter" onchange="filterPods()"><option value="">All</option></select>
  <input type="text" id="search" placeholder="Search..." oninput="filterPods()">
</div>
<div id="pods"><div class="loading">Loading...</div></div>"#;

/// Script of the list page, up to the mkube address.
pub const LIST_SCRIPT_0: &'static str = r#"
const MKUBE = '"#;

/// Script of the list page, after the mkube address.
pub const LIST_SCRIPT_1: &'static str = r#"';
let allPods = [];
async function loadPods() {
    const r = await fetch(MKUBE + '/api/v1/pods').then(r => r.json()).catch(() => null);
    allPods = (r && r.items) || [];
    // Populate filters
    const nss = [...new Set(allPods.map(p => p.metadata?.namespace || 'default'))].sort();
    const sts = [...new Set(allPods.map(p => (p.status?.phase||'Unknown').toLowerCase()))].sort();
    const nsf = document.getElementById('ns-filter');
    nsf.innerHTML = '<option value="">All</option>' + nss.map(n => `<option>${n}</option>`).join('');
    const sf = document.getElementById('status-filter');
    sf.innerHTML = '<option value="">All</option>' + sts.map(s => `<option>${s}</option>`).join('');
    filterPods();
}
function filterPods() {
    const ns = document.getElementById('ns-filter').value;
    const st = document.getElementById('status-filter').value;
    const q = document.getElementById('search').value.toLowerCase();
    let pods = allPods;
    if (ns) pods = pods.filter(p => (p.metadata?.namespace||'default') === ns);
    if (st) pods = pods.filter(p => (p.status?.phase||'unknown').toLowerCase() === st);
    if (q) pods = pods.filter(p => JSON.stringify(p).toLowerCase().includes(q));
    let h = '<table><tr><th>Name</th><th>Namespace</th><th>Status</th><th>Node</th><th>IP</th><th>Image</th><th>Restarts</th><th>Age</th></tr>';
    for (const p of pods) {
        const name = p.metadata?.name || '-';
        const ns = p.metadata?.namespace || 'default';
        const phase = p.status?.phase || 'Unknown';
        const node = p.spec?.nodeName || '-';
        const ip = p.status?.podIP || '-';
        const img = (p.spec?.containers || [])[0]?.image || '-';
        const shortImg = img.split('/').pop();
        const restarts = (p.status?.containerStatuses || []).reduce((s,c) => s + (c.restartCount||0), 0);
        const age = timeSince(p.metadata?.creationTimestamp);
        h += `<tr style="cursor:pointer" onclick="location.href='/ui/pods/${encodeURIComponent(ns)}/${encodeURIComponent(name)}'">
            <td><a href="/ui/pods/${encodeURIComponent(ns)}/${encodeURIComponent(name)}">${escapeHtml(name)}</a></td>
            <td>${escapeHtml(ns)}</td>
            <td>${statusBadge(phase)}</td>
            <td>${escapeHtml(node)}</td>
            <td>${escapeHtml(ip)}</td>
            <td title="${escapeHtml(img)}">${escapeHtml(shortImg)}</td>
            <td>${restarts}</td>
            <td>${age}</td>
        </tr>`;
    }
    h += '</table>';
    document.getElementById('pods').innerHTML = pods.length ? h : '<div class="empty">No pods</div>';
}
loadPods();
setInterval(loadPods, 15000);
"#;

/// Title of the detail page.
pub const DETAIL_TITLE: &'static str = "Pod Detail";

/// Markup of the detail page, up to the namespace.
pub const DETAIL_BODY_0: &'static str = r#"<div class="page-title"><a href="/ui/pods" style="color:#888">Pods</a> / <span style="color:#8be9fd">"#;

/// Markup of the detail page, between the namespace and the name.
pub const DETAIL_BODY_1: &'static str = "</span> / ";

/// Markup of the detail page, after the name.
pub const DETAIL_BODY_2: &'static str = r#"</div>
<div class="card" id="detail"><div class="loading">Loading...</div></div>
<div class="card">
  <div class="card-header">Logs</div>
  <div class="term-output" id="logs" style="max-height:600px"><div class="loading">Loading...</div></div>
</div>"#;

/// Script of the detail page, up to the mkube address.
pub const DETAIL_SCRIPT_0: &'static str = r#"
const MKUBE = '"#;

/// Script of the detail page, between the mkube address and the namespace.
pub const DETAIL_SCRIPT_1: &'static str = r#"';
const NS = '"#;

/// Script of the detail page, between the namespace and the name.
pub const DETAIL_SCRIPT_2: &'static str = r#"';
const NAME = '"#;

/// Script of the detail page, after the name.
pub const DETAIL_SCRIPT_3: &'static str = r#"';
async function loadDetail() {
    const pod = await fetch(MKUBE + `/api/v1/namespaces/${NS}/pods/${NAME}`).then(r => r.json()).catch(() => null);
    if (!pod) { document.getElementById('detail').innerHTML = '<div class="empty">Pod not found</div>'; return; }
    let h = '<div class="kv-grid">';
    h += `<div class="kv-key">Status</div><div class="kv-val">${statusBadge(pod.status?.phase||'Unknown')}</div>`;
    h += `<div class="kv-key">Node</div><div class="kv-val">${escapeHtml(pod.spec?.nodeName||'-')}</div>`;
    h += `<div class="kv-key">IP</div><div class="kv-val">${escapeHtml(pod.status?.podIP||'-')}</div>`;
    h += `<div class="kv-key">Started</div><div class="kv-val">${escapeHtml(pod.status?.startTime||'-')}</div>`;
    h += `<div class="kv-key">Age</div><div class="kv-val">${timeSince(pod.metadata?.creationTimestamp)}</div>`;
    const containers = pod.spec?.containers || [];
    for (const c of containers) {
        h += `<div class="kv-key">Container</div><div class="kv-val">${escapeHtml(c.name||'-')}</div>`;
        h += `<div class="kv-key">Image</div><div class="kv-val" style="word-break:break-all">${escapeHtml(c.image||'-')}</div>`;
    }
    const statuses = pod.status?.containerStatuses || [];
    for (const cs of statuses) {
        h += `<div class="kv-key">${escapeHtml(cs.name||'')} Ready</div><div class="kv-val">${cs.ready ? '<span style="color:#50fa7b">Yes</span>' : '<span style="color:#e94560">No</span>'}</div>`;
        h += `<div class="kv-key">${escapeHtml(cs.name||'')} Restarts</div><div class="kv-val">${cs.restartCount||0}</div>`;
    }
    // Labels & Annotations
    const labels = pod.metadata?.labels;
    if (labels && typeof labels === 'object') {
        const lstr = Object.entries(labels).map(([k,v]) => `${k}=${v}`).join(', ');
        h += `<div class="kv-key">Labels</div><div class="kv-val" style="word-break:break-all">${escapeHtml(lstr)}</div>`;
    }
    const ann = pod.metadata?.annotations;
    if (ann && typeof ann === 'object') {
        const astr = Object.entries(ann).map(([k,v]) => `${k}=${v}`).join(', ');
        h += `<div class="kv-key">Annotations</div><div class="kv-val" style="word-break:break-all;font-size:12px">${escapeHtml(astr)}</div>`;
    }
    h += '</div>';
    h += `<div style="margin-top:12px" class="btn-group">
        <button class="btn btn-danger btn-sm" onclick="deletePod()">Delete</button>
    </div>`;
    document.getElementById('detail').innerHTML = h;
    // Logs
    const logs = await fetch(MKUBE + `/api/v1/namespaces/${NS}/pods/${NAME}/log`).then(r => r.text()).catch(() => '');
    document.getElementById('logs').innerHTML = logs ? ansiToHtml(logs) : '<div class="empty">No logs</div>';
}
async function deletePod() {
    if (!confirm('Delete pod ' + NAME + '?')) return;
    await fetch(MKUBE + `/api/v1/namespaces/${NS}/pods/${NAME}`, {method:'DELETE'});
    location.href = '/ui/pods';
}
loadDetail();
"#;

/// The script of the list page, which reads the mkube API at `mkube_url`.
pub open spec fn list_script(mkube_url: Seq<char>) -> Seq<char> {
    LIST_SCRIPT_0@ + mkube_url + LIST_SCRIPT_1@
}

/// The list page served for the mkube API at `mkube_url`.
pub open spec fn list_page_view(mkube_url: Seq<char>) -> Seq<char> {
    page_with_js_view(LIST_TITLE@, SECTION_PODS@, LIST_BODY@, list_script(mkube_url))
}

/// The markup of the detail page for the given ns, name.
pub open spec fn detail_body(ns: Seq<char>, name: Seq<char>) -> Seq<char> {
    DETAIL_BODY_0@ + ns + DETAIL_BODY_1@ + name + DETAIL_BODY_2@
}

/// The script of the detail page, which reads the mkube API at `mkube_url`.
pub open spec fn detail_script(mkube_url: Seq<char>, ns: Seq<char>, name: Seq<char>) -> Seq<char> {
    DETAIL_SCRIPT_0@ + mkube_url + DETAIL_SCRIPT_1@ + ns + DETAIL_SCRIPT_2@ + name + DETAIL_SCRIPT_3@
}

/// The detail page served for the mkube API at `mkube_url`.
pub open spec fn detail_page_view(mkube_url: Seq<char>, ns: Seq<char>, name: Seq<char>) -> Seq<char> {
    page_with_js_view(DETAIL_TITLE@, SECTION_PODS@, detail_body(ns, name), detail_script(mkube_url, ns, name))
}

/// Renders the list page; its script reads the mkube API at `state.mkube_url`.
pub fn list_page(state: &AppState) -> (html: String)
    ensures
        html@ == list_page_view(state.mkube_url@),
{
    let mkube_url = state.mkube_url.as_str();
    let mut js = String::from_str(LIST_SCRIPT_0);
    js.append(mkube_url);
    js.append(LIST_SCRIPT_1);
    page_with_js(LIST_TITLE, SECTION_PODS, LIST_BODY, js.as_str())
}

/// Renders the detail page of one object; its script reads the mkube API at `state.mkube_url`.
pub fn detail_page(state: &AppState, ns: &str, name: &str) -> (html: String)
    ensures
        html@ == detail_page_view(state.mkube_url@, ns@, name@),
{
    let mkube_url = state.mkube_url.as_str();
    let mut body = String::from_str(DETAIL_BODY_0);
    body.append(ns);
    body.append(DETAIL_BODY_1);
    body.append(name);
    body.append(DETAIL_BODY_2);
    let mut js = String::from_str(DETAIL_SCRIPT_0);
    js.append(mkube_url);
    js.append(DETAIL_SCRIPT_1);
    js.append(ns);
    js.append(DETAIL_SCRIPT_2);
    js.append(name);
    js.append(DETAIL_SCRIPT_3);
    page_with_js(DETAIL_TITLE, SECTION_PODS, body.as_str(), js.as_str())
}

} // verus!
