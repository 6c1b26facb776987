//! The log viewer: the log of a chosen pod, filtered by a search text. Choosing a node narrows
//! the pods to choose from to those scheduled on that node.
use vstd::prelude::*;
use vstd::string::*;
use crate::state::AppState;
use crate::ui::layout::{page_with_js, page_with_js_view, SECTION_LOGS};

verus! {

/// Title of the page.
pub const TITLE: &'static str = "Logs";

/// Markup of the page.
pub const BODY: &'static str = r#"<div class="page-title">Logs</div>
<div class="filter-bar">
  <label>Node:</label>
  <select id="node-filter" onchange="fillPods()"><option value="">All</option></select>
  <label>Pod:</label>
  <select id="pod-filter"><option value="">All</option></select>
  <input type="text" id="search" placeholder="Search...">
  <label><input type="checkbox" id="follow" checked> Follow</label>
  <button class="btn btn-sm" onclick="loadLogs()">Refresh</button>
</div>
<div class="term-output" id="logs" style="max-height:calc(100vh - 200px)"><div class="loading">Loading pod list...</div></div>"#;

/// Script of the page, up to the mkube address.
pub const SCRIPT_0: &'static str = r#"
const MKUBE = '"#;

/// Script of the page, after the mkube address.
pub const SCRIPT_1: &'static str = r#"';
let allPods = [];
async function init() {
    // Load nodes and pods for filters
    const [nodes, pods] = await Promise.all([
        fetch(MKUBE + '/api/v1/nodes').then(r => r.json()).catch(() => null),
        fetch(MKUBE + '/api/v1/pods').then(r => r.json()).catch(() => null),
    ]);
    allPods = (pods && pods.items) || [];
    const nodeItems = (nodes && nodes.items) || [];
    const nf = document.getElementById('node-filter');
    for (const n of nodeItems) {
        const name = n.metadata?.name || '';
        nf.innerHTML += `<option value="${name}">${name}</option>`;
    }
    fillPods();
}
function fillPods() {
    // Offer only the pods of the chosen node, or all pods when no node is chosen
    const node = document.getElementById('node-filter').value;
    const pf = document.getElementById('pod-filter');
    const chosen = pf.value;
    const pods = node ? allPods.filter(p => p.spec?.nodeName === node) : allPods;
    pf.innerHTML = '<option value="">All</option>';
    for (const p of pods) {
        const name = p.metadata?.name || '';
        const ns = p.metadata?.namespace || 'default';
        pf.innerHTML += `<option value="${ns}/${name}">${ns}/${name}</option>`;
    }
    pf.value = [...pf.options].some(o => o.value === chosen) ? chosen : '';
    loadLogs();
}
async function loadLogs() {
    const podVal = document.getElementById('pod-filter').value;
    const search = document.getElementById('search').value.toLowerCase();
    const el = document.getElementById('logs');
    if (!podVal) {
        el.innerHTML = '<div class="empty">Select a pod to view logs</div>';
        return;
    }
    const [ns, name] = podVal.split('/');
    el.innerHTML = '<div class="loading">Loading...</div>';
    const logs = await fetch(MKUBE + `/api/v1/namespaces/${ns}/pods/${name}/log`).then(r => r.text()).catch(() => '');
    if (!logs) { el.innerHTML = '<div class="empty">No logs</div>'; return; }
    let lines = logs.split('\n');
    if (search) lines = lines.filter(l => l.toLowerCase().includes(search));
    el.innerHTML = ansiToHtml(lines.join('\n'));
    if (document.getElementById('follow').checked) el.scrollTop = el.scrollHeight;
}
init();
"#;

/// The script of the page, which reads the mkube API at `mkube_url`.
pub open spec fn script(mkube_url: Seq<char>) -> Seq<char> {
    SCRIPT_0@ + mkube_url + SCRIPT_1@
}

/// The page served for the mkube API at `mkube_url`.
pub open spec fn page_view(mkube_url: Seq<char>) -> Seq<char> {
    page_with_js_view(TITLE@, SECTION_LOGS@, BODY@, script(mkube_url))
}

/// Renders the page; its script reads the mkube API at `state.mkube_url`.
pub fn page(state: &AppState) -> (html: String)
    ensures
        html@ == page_view(state.mkube_url@),
{
    let mkube_url = state.mkube_url.as_str();
    let mut js = String::from_str(SCRIPT_0);
    js.append(mkube_url);
    js.append(SCRIPT_1);
    page_with_js(TITLE, SECTION_LOGS, BODY, js.as_str())
}

} // verus!
