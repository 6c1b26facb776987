//! The storage page: persistent volume claims, iSCSI CD-ROMs and disks, and the disk capacity.
use vstd::prelude::*;
use vstd::string::*;
use crate::state::AppState;
use crate::ui::layout::{page_with_js, page_with_js_view, SECTION_STORAGE};

verus! {

/// Title of the page.
pub const TITLE: &'static str = "Storage";

/// Markup of the page.
pub const BODY: &'static str = r#"<div class="page-title">Storage</div>
<div class="tabs">
  <div class="tab active" onclick="switchTab('pvcs')">PVCs</div>
  <div class="tab" onclick="switchTab('cdroms')">iSCSI CDROMs</div>
  <div class="tab" onclick="switchTab('disks')">iSCSI Disks</div>
</div>
<div id="tab-pvcs" class="tab-panel active"><div class="loading">Loading...</div></div>
<div id="tab-cdroms" class="tab-panel"><div class="loading">Loading...</div></div>
<div id="tab-disks" class="tab-panel"><div class="loading">Loading...</div></div>
<div class="card" style="margin-top:16px">
  <div class="card-header">Disk Capacity</div>
  <div id="capacity"><div class="loading">Loading...</div></div>
</div>"#;

/// Script of the page, up to the mkube address.
pub const SCRIPT_0: &'static str = r#"
const MKUBE = '"#;

/// Script of the page, after the mkube address.
pub const SCRIPT_1: &'static str = r#"';
function switchTab(tab) {
    document.querySelectorAll('.tab').forEach(t => t.classList.remove('active'));
    document.querySelectorAll('.tab-panel').forEach(t => t.classList.remove('active'));
    event.target.classList.add('active');
    document.getElementById('tab-' + tab).classList.add('active');
}
async function loadStorage() {
    // PVCs
    const pvcs = await fetch(MKUBE + '/api/v1/persistentvolumeclaims').then(r => r.json()).catch(() => null);
    const pvcItems = (pvcs && pvcs.items) || [];
    let ph = '<table><tr><th>Name</th><th>Namespace</th><th>Status</th><th>Size</th></tr>';
    for (const p of pvcItems) {
        const name = p.metadata?.name || '-';
        const ns = p.metadata?.namespace || 'default';
        const st = p.status?.phase || '-';
        const size = p.spec?.resources?.requests?.storage || p.spec?.size || '-';
        ph += `<tr><td>${escapeHtml(name)}</td><td>${escapeHtml(ns)}</td><td>${statusBadge(st)}</td><td>${escapeHtml(String(size))}</td></tr>`;
    }
    ph += '</table>';
    document.getElementById('tab-pvcs').innerHTML = pvcItems.length ? ph : '<div class="empty">No PVCs</div>';
    // CDROMs
    const cdroms = await fetch(MKUBE + '/api/v1/iscsi-cdroms').then(r => r.json()).catch(() => null);
    const cdItems = (cdroms && cdroms.items) || [];
    let ch = '<table><tr><th>Name</th><th>Version</th><th>Status</th><th>Subscribers</th></tr>';
    for (const c of cdItems) {
        const name = c.metadata?.name || '-';
        const ver = c.spec?.version || '-';
        const st = c.status?.phase || '-';
        const subs = c.status?.subscribers || [];
        ch += `<tr><td>${escapeHtml(name)}</td><td>${escapeHtml(ver)}</td><td>${statusBadge(st)}</td><td>${Array.isArray(subs) ? subs.length : '-'}</td></tr>`;
    }
    ch += '</table>';
    document.getElementById('tab-cdroms').innerHTML = cdItems.length ? ch : '<div class="empty">No iSCSI CDROMs</div>';
    // Disks
    const disks = await fetch(MKUBE + '/api/v1/iscsi-disks').then(r => r.json()).catch(() => null);
    const diskItems = (disks && disks.items) || [];
    let dh = '<table><tr><th>Name</th><th>Host</th><th>Size</th><th>Phase</th><th>Source</th></tr>';
    for (const d of diskItems) {
        const name = d.metadata?.name || '-';
        const host = d.spec?.host || '-';
        const size = d.spec?.size || '-';
        const phase = d.status?.phase || '-';
        const source = d.spec?.source || '-';
        dh += `<tr><td>${escapeHtml(name)}</td><td>${escapeHtml(host)}</td><td>${escapeHtml(String(size))}</td><td>${statusBadge(phase)}</td><td>${escapeHtml(String(source))}</td></tr>`;
    }
    dh += '</table>';
    document.getElementById('tab-disks').innerHTML = diskItems.length ? dh : '<div class="empty">No iSCSI disks</div>';
    // Capacity
    const cap = await fetch(MKUBE + '/api/v1/iscsi-disks/capacity').then(r => r.json()).catch(() => null);
    if (cap) {
        let kh = '<div class="kv-grid">';
        for (const [k,v] of Object.entries(cap)) {
            kh += `<div class="kv-key">${escapeHtml(k)}</div><div class="kv-val">${escapeHtml(String(v))}</div>`;
        }
        kh += '</div>';
        document.getElementById('capacity').innerHTML = kh;
    } else {
        document.getElementById('capacity').innerHTML = '<div class="empty">Unable to load</div>';
    }
}
loadStorage();
setInterval(loadStorage, 30000);
"#;

/// The script of the page, which reads the mkube API at `mkube_url`.
pub open spec fn script(mkube_url: Seq<char>) -> Seq<char> {
    SCRIPT_0@ + mkube_url + SCRIPT_1@
}

/// The page served for the mkube API at `mkube_url`.
pub open spec fn page_view(mkube_url: Seq<char>) -> Seq<char> {
    page_with_js_view(TITLE@, SECTION_STORAGE@, BODY@, script(mkube_url))
}

/// Renders the page; its script reads the mkube API at `state.mkube_url`.
pub fn page(state: &AppState) -> (html: String)
    ensures
        html@ == page_view(state.mkube_url@),
{
    let mkube_url = state.mkube_url.as_str();
    let mut js = String::from_str(SCRIPT_0);
    js.append(mkube_url);
    js.append(SCRIPT_1);
    page_with_js(TITLE, SECTION_STORAGE, BODY, js.as_str())
}

} // verus!
