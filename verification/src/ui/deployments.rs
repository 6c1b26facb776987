//! The deployment pages: replicas and readiness of each deployment, and one deployment with the pods
//! that it owns.
use vstd::prelude::*;
use vstd::string::*;
use crate::state::AppState;
use crate::ui::layout::{page_with_js, page_with_js_view, SECTION_DEPLOYMENTS};

verus! {

/// Title of the list page.
pub const LIST_TITLE: &'static str = "Deployments";

/// Markup of the list page.
pub const LIST_BODY: &'static str = r#"<div class="page-title">Deployments</div>
<div id="deployments"><div class="loading">Loading...</div></div>"#;

/// Script of the list page, up to the mkube address.
pub const LIST_SCRIPT_0: &'static str = r#"
const MKUBE = '"#;

/// Script of the list page, after the mkube address.
pub const LIST_SCRIPT_1: &'static str = r#"';
async function loadDeployments() {
    const r = await fetch(MKUBE + '/api/v1/deployments').then(r => r.json()).catch(() => null);
    const deps = (r && r.items) || [];
    let h = '<table><tr><th>Name</th><th>Namespace</th><th>Replicas</th><th>Ready</th><th>Image</th><th>Age</th><th>Actions</th></tr>';
    for (const d of deps) {
        const name = d.metadata?.name || '-';
        const ns = d.metadata?.namespace || 'default';
        const replicas = d.spec?.replicas ?? 1;
        const ready = d.status?.readyReplicas ?? d.status?.availableReplicas ?? 0;
        const img = ((d.spec?.template?.spec?.containers||[])[0]?.image||'-').split('/').pop();
        const age = timeSince(d.metadata?.creationTimestamp);
        const color = ready >= replicas ? '#50fa7b' : ready > 0 ? '#f1fa8c' : '#e94560';
        h += `<tr style="cursor:pointer" onclick="location.href='/ui/deployments/${encodeURIComponent(ns)}/${encodeURIComponent(name)}'">
            <td><a href="/ui/deployments/${encodeURIComponent(ns)}/${encodeURIComponent(name)}">${escapeHtml(name)}</a></td>
            <td>${escapeHtml(ns)}</td>
            <td>${replicas}</td>
            <td style="color:${color}">${ready}/${replicas}</td>
            <td title="${escapeHtml(img)}">${escapeHtml(img)}</td>
            <td>${age}</td>
            <td><button class="btn btn-danger btn-sm" onclick="event.stopPropagation();deleteDep('${ns}','${name}')">Delete</button></td>
        </tr>`;
    }
    h += '</table>';
    document.getElementById('deployments').innerHTML = deps.length ? h : '<div class="empty">No deployments</div>';
}
async function deleteDep(ns, name) {
    if (!confirm('Delete deployment ' + name + '?')) return;
    await fetch(MKUBE + `/api/v1/namespaces/${ns}/deployments/${name}`, {method:'DELETE'});
    setTimeout(loadDeployments, 1000);
}
loadDeployments();
setInterval(loadDeployments, 15000);
"#;

/// Title of the detail page.
pub const DETAIL_TITLE: &'static str = "Deployment Detail";

/// Markup of the detail page, up to the namespace.
pub const DETAIL_BODY_0: &'static str = r#"<div class="page-title"><a href="/ui/deployments" style="color:#888">Deployments</a> / <span style="color:#8be9fd">"#;

/// Markup of the detail page, between the namespace and the name.
pub const DETAIL_BODY_1: &'static str = "</span> / ";

/// Markup of the detail page, after the name.
pub const DETAIL_BODY_2: &'static str = r#"</div>
<div class="card" id="detail"><div class="loading">Loading...</div></div>
<div class="card">
  <div class="card-header">Owned Pods</div>
  <div id="pods"><div class="loading">Loading...</div></div>
</div>"#;

/// Script of the detail page, up to the mkube address.
pub const DETAIL_SCRIPT_0: &'static str = r#"
const MKUBE = '"#;

/// Script of the detail page, between the mkube address and the namespace.
pub const DETAIL_SCRIPT_1: &'static str = r#"';
const NS = '"#;

/// Script of the detail page, between the namespace and the name.
pub const DETAIL_SCRIPT_2: &'static str = r#"';
const NAME = '"#;

/// Script of the detail page, after the name.
pub const DETAIL_SCRIPT_3: &'static str = r#"';
async function loadDetail() {
    const dep = await fetch(MKUBE + `/api/v1/namespaces/${NS}/deployments/${NAME}`).then(r => r.json()).catch(() => null);
    if (!dep) { document.getElementById('detail').innerHTML = '<div class="empty">Not found</div>'; return; }
    let h = '<div class="kv-grid">';
    h += `<div class="kv-key">Replicas</div><div class="kv-val">${dep.spec?.replicas ?? 1}</div>`;
    h += `<div class="kv-key">Ready</div><div class="kv-val">${dep.status?.readyReplicas ?? dep.status?.availableReplicas ?? 0}</div>`;
    const img = (dep.spec?.template?.spec?.containers||[])[0]?.image || '-';
    h += `<div class="kv-key">Image</div><div class="kv-val" style="word-break:break-all">${escapeHtml(img)}</div>`;
    h += `<div class="kv-key">Age</div><div class="kv-val">${timeSince(dep.metadata?.creationTimestamp)}</div>`;
    h += '</div>';
    document.getElementById('detail').innerHTML = h;
    // Owned pods — match by name prefix
    const podList = await fetch(MKUBE + '/api/v1/pods').then(r => r.json()).catch(() => null);
    const pods = ((podList && podList.items) || []).filter(p => p.metadata?.namespace === NS && (p.metadata?.name||'').startsWith(NAME));
    let ph = '<table><tr><th>Name</th><th>Status</th><th>IP</th><th>Restarts</th><th>Age</th></tr>';
    for (const p of pods) {
        const pName = p.metadata?.name || '-';
        ph += `<tr><td><a href="/ui/pods/${encodeURIComponent(NS)}/${encodeURIComponent(pName)}">${escapeHtml(pName)}</a></td><td>${statusBadge(p.status?.phase||'Unknown')}</td><td>${escapeHtml(p.status?.podIP||'-')}</td><td>${(p.status?.containerStatuses||[]).reduce((s,c) => s + (c.restartCount||0), 0)}</td><td>${timeSince(p.metadata?.creationTimestamp)}</td></tr>`;
    }
    ph += '</table>';
    document.getElementById('pods').innerHTML = pods.length ? ph : '<div class="empty">No owned pods</div>';
}
loadDetail();
"#;

/// The script of the list page, which reads the mkube API at `mkube_url`.
pub open spec fn list_script(mkube_url: Seq<char>) -> Seq<char> {
    LIST_SCRIPT_0@ + mkube_url + LIST_SCRIPT_1@
}

/// The list page served for the mkube API at `mkube_url`.
pub open spec fn list_page_view(mkube_url: Seq<char>) -> Seq<char> {
    page_with_js_view(LIST_TITLE@, SECTION_DEPLOYMENTS@, LIST_BODY@, list_script(mkube_url))
}

/// The markup of the detail page for the given ns, name.
pub open spec fn detail_body(ns: Seq<char>, name: Seq<char>) -> Seq<char> {
    DETAIL_BODY_0@ + ns + DETAIL_BODY_1@ + name + DETAIL_BODY_2@
}

/// The script of the detail page, which reads the mkube API at `mkube_url`.
pub open spec fn detail_script(mkube_url: Seq<char>, ns: Seq<char>, name: Seq<char>) -> Seq<char> {
    DETAIL_SCRIPT_0@ + mkube_url + DETAIL_SCRIPT_1@ + ns + DETAIL_SCRIPT_2@ + name + DETAIL_SCRIPT_3@
}

/// The detail page served for the mkube API at `mkube_url`.
pub open spec fn detail_page_view(mkube_url: Seq<char>, ns: Seq<char>, name: Seq<char>) -> Seq<char> {
    page_with_js_view(DETAIL_TITLE@, SECTION_DEPLOYMENTS@, detail_body(ns, name), detail_script(mkube_url, ns, name))
}

/// Renders the list page; its script reads the mkube API at `state.mkube_url`.
pub fn list_page(state: &AppState) -> (html: String)
    ensures
        html@ == list_page_view(state.mkube_url@),
{
    let mkube_url = state.mkube_url.as_str();
    let mut js = String::from_str(LIST_SCRIPT_0);
    js.append(mkube_url);
    js.append(LIST_SCRIPT_1);
    page_with_js(LIST_TITLE, SECTION_DEPLOYMENTS, LIST_BODY, js.as_str())
}

/// Renders the detail page of one object; its script reads the mkube API at `state.mkube_url`.
pub fn detail_page(state: &AppState, ns: &str, name: &str) -> (html: String)
    ensures
        html@ == detail_page_view(state.mkube_url@, ns@, name@),
{
    let mkube_url = state.mkube_url.as_str();
    let mut body = String::from_str(DETAIL_BODY_0);
    body.append(ns);
    body.append(DETAIL_BODY_1);
    body.append(name);
    body.append(DETAIL_BODY_2);
    let mut js = String::from_str(DETAIL_SCRIPT_0);
    js.append(mkube_url);
    js.append(DETAIL_SCRIPT_1);
    js.append(ns);
    js.append(DETAIL_SCRIPT_2);
    js.append(name);
    js.append(DETAIL_SCRIPT_3);
    page_with_js(DETAIL_TITLE, SECTION_DEPLOYMENTS, body.as_str(), js.as_str())
}

} // verus!
