//! The bare metal host pages: the hosts with their state, power and image, and one host with its
//! BMC and status fields. Both can switch a host's power on and off.
use vstd::prelude::*;
use vstd::string::*;
use crate::state::AppState;
use crate::ui::layout::{page_with_js, page_with_js_view, SECTION_BMH};

verus! {

/// Title of the list page.
pub const LIST_TITLE: &'static str = "Bare Metal Hosts";

/// Markup of the list page.
pub const LIST_BODY: &'static str = r#"<div class="page-title">Bare Metal Hosts</div>
<div id="bmh"><div class="loading">Loading...</div></div>"#;

/// Script of the list page, up to the mkube address.
pub const LIST_SCRIPT_0: &'static str = r#"
const MKUBE = '"#;

/// Script of the list page, after the mkube address.
pub const LIST_SCRIPT_1: &'static str = r#"';
async function loadBMH() {
    const r = await fetch(MKUBE + '/api/v1/baremetalhosts').then(r => r.json()).catch(() => null);
    const bmhs = (r && r.items) || [];
    let h = '<table><tr><th>Name</th><th>Namespace</th><th>State</th><th>Power</th><th>Network</th><th>IP</th><th>Image</th><th>Actions</th></tr>';
    for (const b of bmhs) {
        const name = b.metadata?.name || '-';
        const ns = b.metadata?.namespace || 'default';
        const spec = b.spec || {};
        const status = b.status || {};
        const state = status.state || spec.state || '-';
        const online = spec.online;
        const power = online === true ? 'on' : online === false ? 'off' : '-';
        const net = spec.network || '-';
        const ip = spec.ip || '-';
        const img = (spec.image || spec.disk || '-').toString().split('/').pop();
        h += `<tr style="cursor:pointer" onclick="location.href='/ui/bmh/${encodeURIComponent(ns)}/${encodeURIComponent(name)}'">
            <td><a href="/ui/bmh/${encodeURIComponent(ns)}/${encodeURIComponent(name)}">${escapeHtml(name)}</a></td>
            <td>${escapeHtml(ns)}</td>
            <td>${statusBadge(state)}</td>
            <td>${power === 'on' ? '<span class="badge badge-green">ON</span>' : power === 'off' ? '<span class="badge badge-gray">OFF</span>' : '-'}</td>
            <td>${escapeHtml(net)}</td>
            <td>${escapeHtml(ip)}</td>
            <td title="${escapeHtml(spec.image||spec.disk||'')}">${escapeHtml(img)}</td>
            <td class="btn-group">
                <button class="btn btn-sm btn-success" onclick="event.stopPropagation();togglePower('${ns}','${name}',true)">On</button>
                <button class="btn btn-sm btn-danger" onclick="event.stopPropagation();togglePower('${ns}','${name}',false)">Off</button>
            </td>
        </tr>`;
    }
    h += '</table>';
    document.getElementById('bmh').innerHTML = bmhs.length ? h : '<div class="empty">No bare metal hosts</div>';
}
async function togglePower(ns, name, on) {
    await fetch(MKUBE + `/api/v1/namespaces/${ns}/baremetalhosts/${name}`, {
        method: 'PATCH',
        headers: {'Content-Type': 'application/merge-patch+json'},
        body: JSON.stringify({spec: {online: on}})
    });
    setTimeout(loadBMH, 1000);
}
loadBMH();
setInterval(loadBMH, 15000);
"#;

/// Title of the detail page.
pub const DETAIL_TITLE: &'static str = "BMH Detail";

/// Markup of the detail page, up to the namespace.
pub const DETAIL_BODY_0: &'static str = r#"<div class="page-title"><a href="/ui/bmh" style="color:#888">BMH</a> / <span style="color:#8be9fd">"#;

/// Markup of the detail page, between the namespace and the name.
pub const DETAIL_BODY_1: &'static str = "</span> / ";

/// Markup of the detail page, after the name.
pub const DETAIL_BODY_2: &'static str = r#"</div>
<div class="card" id="detail"><div class="loading">Loading...</div></div>"#;

/// Script of the detail page, up to the mkube address.
pub const DETAIL_SCRIPT_0: &'static str = r#"
const MKUBE = '"#;

/// Script of the detail page, between the mkube address and the namespace.
pub const DETAIL_SCRIPT_1: &'static str = r#"';
const NS = '"#;

/// Script of the detail page, between the namespace and the name.
pub const DETAIL_SCRIPT_2: &'static str = r#"';
const NAME = '"#;

/// Script of the detail page, after the name.
pub const DETAIL_SCRIPT_3: &'static str = r#"';
async function loadDetail() {
    const bmh = await fetch(MKUBE + `/api/v1/namespaces/${NS}/baremetalhosts/${NAME}`).then(r => r.json()).catch(() => null);
    if (!bmh) { document.getElementById('detail').innerHTML = '<div class="empty">Not found</div>'; return; }
    const spec = bmh.spec || {};
    const status = bmh.status || {};
    let h = '<div class="kv-grid">';
    // Spec fields
    for (const k of ['online','state','network','ip','hostname','mac','image','disk','bootConfigRef']) {
        if (spec[k] !== undefined) h += `<div class="kv-key">${k}</div><div class="kv-val">${escapeHtml(String(spec[k]))}</div>`;
    }
    // BMC fields
    const bmc = spec.bmc || {};
    if (bmc.address) h += `<div class="kv-key">BMC Address</div><div class="kv-val">${escapeHtml(bmc.address)}</div>`;
    if (bmc.network) h += `<div class="kv-key">BMC Network</div><div class="kv-val">${escapeHtml(bmc.network)}</div>`;
    if (bmc.mac) h += `<div class="kv-key">BMC MAC</div><div class="kv-val" style="font-family:monospace">${escapeHtml(bmc.mac)}</div>`;
    if (bmc.hostname) h += `<div class="kv-key">BMC Hostname</div><div class="kv-val">${escapeHtml(bmc.hostname)}</div>`;
    // Status
    for (const [k,v] of Object.entries(status)) {
        const val = typeof v === 'object' ? JSON.stringify(v) : String(v);
        h += `<div class="kv-key">${escapeHtml(k)}</div><div class="kv-val">${escapeHtml(val)}</div>`;
    }
    h += '</div>';
    h += `<div style="margin-top:12px" class="btn-group">
        <button class="btn btn-sm btn-success" onclick="togglePower(true)">Power On</button>
        <button class="btn btn-sm btn-danger" onclick="togglePower(false)">Power Off</button>
    </div>`;
    document.getElementById('detail').innerHTML = h;
}
async function togglePower(on) {
    await fetch(MKUBE + `/api/v1/namespaces/${NS}/baremetalhosts/${NAME}`, {
        method: 'PATCH',
        headers: {'Content-Type': 'application/merge-patch+json'},
        body: JSON.stringify({spec: {online: on}})
    });
    setTimeout(loadDetail, 1000);
}
loadDetail();
setInterval(loadDetail, 15000);
"#;

/// The script of the list page, which reads the mkube API at `mkube_url`.
pub open spec fn list_script(mkube_url: Seq<char>) -> Seq<char> {
    LIST_SCRIPT_0@ + mkube_url + LIST_SCRIPT_1@
}

/// The list page served for the mkube API at `mkube_url`.
pub open spec fn list_page_view(mkube_url: Seq<char>) -> Seq<char> {
    page_with_js_view(LIST_TITLE@, SECTION_BMH@, LIST_BODY@, list_script(mkube_url))
}

/// The markup of the detail page for the given ns, name.
pub open spec fn detail_body(ns: Seq<char>, name: Seq<char>) -> Seq<char> {
    DETAIL_BODY_0@ + ns + DETAIL_BODY_1@ + name + DETAIL_BODY_2@
}

/// The script of the detail page, which reads the mkube API at `mkube_url`.
pub open spec fn detail_script(mkube_url: Seq<char>, ns: Seq<char>, name: Seq<char>) -> Seq<char> {
    DETAIL_SCRIPT_0@ + mkube_url + DETAIL_SCRIPT_1@ + ns + DETAIL_SCRIPT_2@ + name + DETAIL_SCRIPT_3@
}

/// The detail page served for the mkube API at `mkube_url`.
pub open spec fn detail_page_view(mkube_url: Seq<char>, ns: Seq<char>, name: Seq<char>) -> Seq<char> {
    page_with_js_view(DETAIL_TITLE@, SECTION_BMH@, detail_body(ns, name), detail_script(mkube_url, ns, name))
}

/// Renders the list page; its script reads the mkube API at `state.mkube_url`.
pub fn list_page(state: &AppState) -> (html: String)
    ensures
        html@ == list_page_view(state.mkube_url@),
{
    let mkube_url = state.mkube_url.as_str();
    let mut js = String::from_str(LIST_SCRIPT_0);
    js.append(mkube_url);
    js.append(LIST_SCRIPT_1);
    page_with_js(LIST_TITLE, SECTION_BMH, LIST_BODY, js.as_str())
}

/// Renders the detail page of one object; its script reads the mkube API at `state.mkube_url`.
pub fn detail_page(state: &AppState, ns: &str, name: &str) -> (html: String)
    ensures
        html@ == detail_page_view(state.mkube_url@, ns@, name@),
{
    let mkube_url = state.mkube_url.as_str();
    let mut body = String::from_str(DETAIL_BODY_0);
    body.append(ns);
    body.append(DETAIL_BODY_1);
    body.append(name);
    body.append(DETAIL_BODY_2);
    let mut js = String::from_str(DETAIL_SCRIPT_0);
    js.append(mkube_url);
    js.append(DETAIL_SCRIPT_1);
    js.append(ns);
    js.append(DETAIL_SCRIPT_2);
    js.append(name);
    js.append(DETAIL_SCRIPT_3);
    page_with_js(DETAIL_TITLE, SECTION_BMH, body.as_str(), js.as_str())
}

} // verus!
