//! The terminal page: the live console of a process on a node, read from stormd over a WebSocket.
use vstd::prelude::*;
use vstd::string::*;
use crate::state::AppState;
use crate::ui::layout::{page_with_js, page_with_js_view, SECTION_LOGS};

verus! {

/// Title of the page.
pub const TITLE: &'static str = "Terminal";

/// Markup of the page.
pub const BODY: &'static str = r#"<div class="page-title">Terminal</div>
<div class="filter-bar">
  <label>Node:</label>
  <select id="node-select" onchange="loadProcesses()"><option value="">Select node...</option></select>
  <label>Process:</label>
  <select id="proc-select" onchange="connectWS()"><option value="">Select process...</option></select>
  <span id="ws-status" class="badge badge-gray">disconnected</span>
</div>
<div class="term-output" id="terminal" style="max-height:calc(100vh - 200px);min-height:500px"><div class="empty">Select a node and process</div></div>"#;

/// Script of the page, up to the mkube address.
pub const SCRIPT_0: &'static str = r#"
const MKUBE = '"#;

/// Script of the page, after the mkube address.
pub const SCRIPT_1: &'static str = r#"';
let ws = null;
async function init() {
    const nodes = await fetch(MKUBE + '/api/v1/nodes').then(r => r.json()).catch(() => null);
    const nodeItems = (nodes && nodes.items) || [];
    const sel = document.getElementById('node-select');
    for (const n of nodeItems) {
        const name = n.metadata?.name || '';
        const ip = (n.status?.addresses || []).find(a => a.type === 'InternalIP')?.address || '';
        sel.innerHTML += `<option value="${ip}">${name} (${ip})</option>`;
    }
}
async function loadProcesses() {
    const ip = document.getElementById('node-select').value;
    const psel = document.getElementById('proc-select');
    psel.innerHTML = '<option value="">Select process...</option>';
    if (!ip) return;
    try {
        const procs = await fetch(`http://${ip}:9080/api/v1/processes`).then(r => r.json());
        for (const p of procs) {
            psel.innerHTML += `<option value="${p.name}">${p.name} (${p.state||'?'})</option>`;
        }
    } catch(e) {
        psel.innerHTML = '<option value="">stormd unreachable</option>';
    }
}
function connectWS() {
    const ip = document.getElementById('node-select').value;
    const proc = document.getElementById('proc-select').value;
    if (!ip || !proc) return;
    if (ws) { ws.close(); ws = null; }
    const term = document.getElementById('terminal');
    term.innerHTML = '';
    const statusEl = document.getElementById('ws-status');
    statusEl.className = 'badge badge-yellow';
    statusEl.textContent = 'connecting';
    const proto = 'ws:';
    ws = new WebSocket(`${proto}//${ip}:9080/ws/console/${encodeURIComponent(proc)}`);
    ws.onopen = () => {
        statusEl.className = 'badge badge-green';
        statusEl.textContent = 'connected';
    };
    ws.onclose = () => {
        statusEl.className = 'badge badge-gray';
        statusEl.textContent = 'disconnected';
    };
    ws.onerror = () => {
        statusEl.className = 'badge badge-red';
        statusEl.textContent = 'error';
    };
    ws.onmessage = (e) => {
        const msg = JSON.parse(e.data);
        if (msg.type === 'snapshot') {
            term.innerHTML = '<div style="color:#666">--- terminal snapshot ---</div>' +
                ansiToHtml(msg.data?.contents || msg.data || '') +
                '<div style="color:#666">--- live output ---</div>\n';
        } else if (msg.type === 'entry') {
            const cls = msg.data?.stream || 'stdout';
            const ts = msg.data?.timestamp ? new Date(msg.data.timestamp).toLocaleTimeString() : '';
            const color = cls === 'stderr' ? 'color:#e94560' : '';
            const line = `<div class="log-entry" style="${color}"><span style="color:#666">${escapeHtml(ts)}</span> ${ansiToHtml(msg.data?.line || '')}</div>`;
            term.insertAdjacentHTML('beforeend', line);
            term.scrollTop = term.scrollHeight;
        } else if (msg.type === 'lagged') {
            term.insertAdjacentHTML('beforeend', `<div style="color:#f0a030">--- skipped ${msg.skipped} entries ---</div>`);
        }
    };
}
init();
"#;

/// The script of the page, which reads the mkube API at `mkube_url`.
pub open spec fn script(mkube_url: Seq<char>) -> Seq<char> {
    SCRIPT_0@ + mkube_url + SCRIPT_1@
}

/// The page served for the mkube API at `mkube_url`.
pub open spec fn page_view(mkube_url: Seq<char>) -> Seq<char> {
    page_with_js_view(TITLE@, SECTION_LOGS@, BODY@, script(mkube_url))
}

/// Renders the page; its script reads the mkube API at `state.mkube_url`.
pub fn page(state: &AppState) -> (html: String)
    ensures
        html@ == page_view(state.mkube_url@),
{
    let mkube_url = state.mkube_url.as_str();
    let mut js = String::from_str(SCRIPT_0);
    js.append(mkube_url);
    js.append(SCRIPT_1);
    page_with_js(TITLE, SECTION_LOGS, BODY, js.as_str())
}

} // verus!
