//! The boot configuration pages: kernel, initrd, iPXE script and command line of each configuration,
//! and one configuration with the bare metal hosts that boot from it.
use vstd::prelude::*;
use vstd::string::*;
use crate::state::AppState;
use crate::ui::layout::{page_with_js, page_with_js_view, SECTION_BOOTCONFIGS};

verus! {

/// Title of the list page.
pub const LIST_TITLE: &'static str = "Boot Configs";

/// Markup of the list page.
pub const LIST_BODY: &'static str = r#"<div class="page-title">Boot Configs</div>
<div id="bootconfigs"><div class="loading">Loading...</div></div>"#;

/// Script of the list page, up to the mkube address.
pub const LIST_SCRIPT_0: &'static str = r#"
const MKUBE = '"#;

/// Script of the list page, after the mkube address.
pub const LIST_SCRIPT_1: &'static str = r#"';
async function loadBootConfigs() {
    const r = await fetch(MKUBE + '/api/v1/bootconfigs').then(r => r.json()).catch(() => null);
    const items = (r && r.items) || [];
    let h = '<table><tr><th>Name</th><th>Namespace</th><th>Kernel</th><th>Initrd</th><th>iPXE</th><th>Age</th><th>Actions</th></tr>';
    for (const b of items) {
        const name = b.metadata?.name || '-';
        const ns = b.metadata?.namespace || 'default';
        const spec = b.spec || {};
        const kernel = spec.kernel || '-';
        const initrd = spec.initrd || '-';
        const ipxe = spec.ipxeScript ? 'yes' : '-';
        const age = timeSince(b.metadata?.creationTimestamp);
        h += `<tr style="cursor:pointer" onclick="location.href='/ui/bootconfigs/${encodeURIComponent(ns)}/${encodeURIComponent(name)}'">
            <td><a href="/ui/bootconfigs/${encodeURIComponent(ns)}/${encodeURIComponent(name)}">${escapeHtml(name)}</a></td>
            <td>${escapeHtml(ns)}</td>
            <td title="${escapeHtml(kernel)}">${escapeHtml(kernel.split('/').pop())}</td>
            <td title="${escapeHtml(initrd)}">${escapeHtml(initrd.split('/').pop())}</td>
            <td>${ipxe}</td>
            <td>${age}</td>
            <td><button class="btn btn-danger btn-sm" onclick="event.stopPropagation();deleteBC('${ns}','${name}')">Delete</button></td>
        </tr>`;
    }
    h += '</table>';
    document.getElementById('bootconfigs').innerHTML = items.length ? h : '<div class="empty">No boot configs</div>';
}
async function deleteBC(ns, name) {
    if (!confirm('Delete boot config ' + name + '?')) return;
    await fetch(MKUBE + `/api/v1/namespaces/${ns}/bootconfigs/${name}`, {method:'DELETE'});
    setTimeout(loadBootConfigs, 1000);
}
loadBootConfigs();
setInterval(loadBootConfigs, 15000);
"#;

/// Title of the detail page.
pub const DETAIL_TITLE: &'static str = "BootConfig Detail";

/// Markup of the detail page, up to the namespace.
pub const DETAIL_BODY_0: &'static str = r#"<div class="page-title"><a href="/ui/bootconfigs" style="color:#888">BootConfigs</a> / <span style="color:#8be9fd">"#;

/// Markup of the detail page, between the namespace and the name.
pub const DETAIL_BODY_1: &'static str = "</span> / ";

/// Markup of the detail page, after the name.
pub const DETAIL_BODY_2: &'static str = r#"</div>
<div class="card" id="detail"><div class="loading">Loading...</div></div>
<div class="card">
  <div class="card-header">Referencing Hosts</div>
  <div id="refs"><div class="loading">Loading...</div></div>
</div>"#;

/// Script of the detail page, up to the mkube address.
pub const DETAIL_SCRIPT_0: &'static str = r#"
const MKUBE = '"#;

/// Script of the detail page, between the mkube address and the namespace.
pub const DETAIL_SCRIPT_1: &'static str = r#"';
const NS = '"#;

/// Script of the detail page, between the namespace and the name.
pub const DETAIL_SCRIPT_2: &'static str = r#"';
const NAME = '"#;

/// Script of the detail page, after the name.
pub const DETAIL_SCRIPT_3: &'static str = r#"';
async function loadDetail() {
    const bc = await fetch(MKUBE + `/api/v1/namespaces/${NS}/bootconfigs/${NAME}`).then(r => r.json()).catch(() => null);
    if (!bc) { document.getElementById('detail').innerHTML = '<div class="empty">Not found</div>'; return; }
    const spec = bc.spec || {};
    const status = bc.status || {};
    let h = '<div class="kv-grid">';
    for (const k of ['kernel','initrd','cmdline','ipxeScript','diskImage','installScript']) {
        if (spec[k] !== undefined && spec[k] !== null) {
            const val = typeof spec[k] === 'object' ? JSON.stringify(spec[k]) : String(spec[k]);
            h += `<div class="kv-key">${k}</div><div class="kv-val" style="word-break:break-all">${escapeHtml(val)}</div>`;
        }
    }
    // Show any remaining spec fields not in the known list
    const knownKeys = new Set(['kernel','initrd','cmdline','ipxeScript','diskImage','installScript']);
    for (const [k,v] of Object.entries(spec)) {
        if (knownKeys.has(k)) continue;
        const val = typeof v === 'object' ? JSON.stringify(v) : String(v);
        h += `<div class="kv-key">${escapeHtml(k)}</div><div class="kv-val" style="word-break:break-all">${escapeHtml(val)}</div>`;
    }
    // Status
    for (const [k,v] of Object.entries(status)) {
        const val = typeof v === 'object' ? JSON.stringify(v) : String(v);
        h += `<div class="kv-key">${escapeHtml(k)}</div><div class="kv-val">${escapeHtml(val)}</div>`;
    }
    h += '</div>';
    // Labels
    const labels = bc.metadata?.labels;
    if (labels && typeof labels === 'object' && Object.keys(labels).length) {
        h += '<div style="margin-top:12px"><strong style="color:#888;font-size:12px">LABELS</strong></div><div class="kv-grid">';
        for (const [k,v] of Object.entries(labels)) {
            h += `<div class="kv-key">${escapeHtml(k)}</div><div class="kv-val">${escapeHtml(String(v))}</div>`;
        }
        h += '</div>';
    }
    document.getElementById('detail').innerHTML = h;
    // Find BMH referencing this boot config
    const bmhList = await fetch(MKUBE + '/api/v1/baremetalhosts').then(r => r.json()).catch(() => null);
    const bmhs = ((bmhList && bmhList.items) || []).filter(b => b.spec?.bootConfigRef === NAME);
    if (bmhs.length) {
        let rh = '<table><tr><th>Name</th><th>Namespace</th><th>State</th><th>IP</th></tr>';
        for (const b of bmhs) {
            const bName = b.metadata?.name || '-';
            const bNs = b.metadata?.namespace || 'default';
            const bState = b.status?.state || b.spec?.state || '-';
            const bIp = b.spec?.ip || '-';
            rh += `<tr style="cursor:pointer" onclick="location.href='/ui/bmh/${encodeURIComponent(bNs)}/${encodeURIComponent(bName)}'">
                <td><a href="/ui/bmh/${encodeURIComponent(bNs)}/${encodeURIComponent(bName)}">${escapeHtml(bName)}</a></td>
                <td>${escapeHtml(bNs)}</td>
                <td>${statusBadge(bState)}</td>
                <td>${escapeHtml(bIp)}</td>
            </tr>`;
        }
        rh += '</table>';
        document.getElementById('refs').innerHTML = rh;
    } else {
        document.getElementById('refs').innerHTML = '<div class="empty">No hosts reference this boot config</div>';
    }
}
loadDetail();
setInterval(loadDetail, 15000);
"#;

/// The script of the list page, which reads the mkube API at `mkube_url`.
pub open spec fn list_script(mkube_url: Seq<char>) -> Seq<char> {
    LIST_SCRIPT_0@ + mkube_url + LIST_SCRIPT_1@
}

/// The list page served for the mkube API at `mkube_url`.
pub open spec fn list_page_view(mkube_url: Seq<char>) -> Seq<char> {
    page_with_js_view(LIST_TITLE@, SECTION_BOOTCONFIGS@, LIST_BODY@, list_script(mkube_url))
}

/// The markup of the detail page for the given ns, name.
pub open spec fn detail_body(ns: Seq<char>, name: Seq<char>) -> Seq<char> {
    DETAIL_BODY_0@ + ns + DETAIL_BODY_1@ + name + DETAIL_BODY_2@
}

/// The script of the detail page, which reads the mkube API at `mkube_url`.
pub open spec fn detail_script(mkube_url: Seq<char>, ns: Seq<char>, name: Seq<char>) -> Seq<char> {
    DETAIL_SCRIPT_0@ + mkube_url + DETAIL_SCRIPT_1@ + ns + DETAIL_SCRIPT_2@ + name + DETAIL_SCRIPT_3@
}

/// The detail page served for the mkube API at `mkube_url`.
pub open spec fn detail_page_view(mkube_url: Seq<char>, ns: Seq<char>, name: Seq<char>) -> Seq<char> {
    page_with_js_view(DETAIL_TITLE@, SECTION_BOOTCONFIGS@, detail_body(ns, name), detail_script(mkube_url, ns, name))
}

/// Renders the list page; its script reads the mkube API at `state.mkube_url`.
pub fn list_page(state: &AppState) -> (html: String)
    ensures
        html@ == list_page_view(state.mkube_url@),
{
    let mkube_url = state.mkube_url.as_str();
    let mut js = String::from_str(LIST_SCRIPT_0);
    js.append(mkube_url);
    js.append(LIST_SCRIPT_1);
    page_with_js(LIST_TITLE, SECTION_BOOTCONFIGS, LIST_BODY, js.as_str())
}

/// Renders the detail page of one object; its script reads the mkube API at `state.mkube_url`.
pub fn detail_page(state: &AppState, ns: &str, name: &str) -> (html: String)
    ensures
        html@ == detail_page_view(state.mkube_url@, ns@, name@),
{
    let mkube_url = state.mkube_url.as_str();
    let mut body = String::from_str(DETAIL_BODY_0);
    body.append(ns);
    body.append(DETAIL_BODY_1);
    body.append(name);
    body.append(DETAIL_BODY_2);
    let mut js = String::from_str(DETAIL_SCRIPT_0);
    js.append(mkube_url);
    js.append(DETAIL_SCRIPT_1);
    js.append(ns);
    js.append(DETAIL_SCRIPT_2);
    js.append(name);
    js.append(DETAIL_SCRIPT_3);
    page_with_js(DETAIL_TITLE, SECTION_BOOTCONFIGS, body.as_str(), js.as_str())
}

} // verus!
