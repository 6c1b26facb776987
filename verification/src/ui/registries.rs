//! The registry pages: address, mirrors and security of each image registry, and one registry with
//! its images.
use vstd::prelude::*;
use vstd::string::*;
use crate::state::AppState;
use crate::ui::layout::{page_with_js, page_with_js_view, SECTION_REGISTRIES};

verus! {

/// Title of the list page.
pub const LIST_TITLE: &'static str = "Registries";

/// Markup of the list page.
pub const LIST_BODY: &'static str = r#"<div class="page-title">Registries</div>
<div id="registries"><div class="loading">Loading...</div></div>"#;

/// Script of the list page, up to the mkube address.
pub const LIST_SCRIPT_0: &'static str = r#"
const MKUBE = '"#;

/// Script of the list page, after the mkube address.
pub const LIST_SCRIPT_1: &'static str = r#"';
async function loadRegistries() {
    const r = await fetch(MKUBE + '/api/v1/registries').then(r => r.json()).catch(() => null);
    const items = (r && r.items) || [];
    let h = '<table><tr><th>Name</th><th>Namespace</th><th>URL</th><th>Mirrors</th><th>Insecure</th><th>Age</th><th>Actions</th></tr>';
    for (const reg of items) {
        const name = reg.metadata?.name || '-';
        const ns = reg.metadata?.namespace || 'default';
        const spec = reg.spec || {};
        const url = spec.url || spec.endpoint || '-';
        const mirrors = Array.isArray(spec.mirrors) ? spec.mirrors.length : '-';
        const insecure = spec.insecure === true ? '<span class="badge badge-yellow">yes</span>' : '<span class="badge badge-green">no</span>';
        const age = timeSince(reg.metadata?.creationTimestamp);
        h += `<tr style="cursor:pointer" onclick="location.href='/ui/registries/${encodeURIComponent(ns)}/${encodeURIComponent(name)}'">
            <td><a href="/ui/registries/${encodeURIComponent(ns)}/${encodeURIComponent(name)}">${escapeHtml(name)}</a></td>
            <td>${escapeHtml(ns)}</td>
            <td style="font-family:monospace">${escapeHtml(url)}</td>
            <td>${mirrors}</td>
            <td>${insecure}</td>
            <td>${age}</td>
            <td><button class="btn btn-danger btn-sm" onclick="event.stopPropagation();deleteReg('${ns}','${name}')">Delete</button></td>
        </tr>`;
    }
    h += '</table>';
    document.getElementById('registries').innerHTML = items.length ? h : '<div class="empty">No registries</div>';
}
async function deleteReg(ns, name) {
    if (!confirm('Delete registry ' + name + '?')) return;
    await fetch(MKUBE + `/api/v1/namespaces/${ns}/registries/${name}`, {method:'DELETE'});
    setTimeout(loadRegistries, 1000);
}
loadRegistries();
setInterval(loadRegistries, 15000);
"#;

/// Title of the detail page.
pub const DETAIL_TITLE: &'static str = "Registry Detail";

/// Markup of the detail page, up to the namespace.
pub const DETAIL_BODY_0: &'static str = r#"<div class="page-title"><a href="/ui/registries" style="color:#888">Registries</a> / <span style="color:#8be9fd">"#;

/// Markup of the detail page, between the namespace and the name.
pub const DETAIL_BODY_1: &'static str = "</span> / ";

/// Markup of the detail page, after the name.
pub const DETAIL_BODY_2: &'static str = r#"</div>
<div class="card" id="detail"><div class="loading">Loading...</div></div>
<div class="card">
  <div class="card-header">Images</div>
  <div id="images"><div class="loading">Loading...</div></div>
</div>"#;

/// Script of the detail page, up to the mkube address.
pub const DETAIL_SCRIPT_0: &'static str = r#"
const MKUBE = '"#;

/// Script of the detail page, between the mkube address and the namespace.
pub const DETAIL_SCRIPT_1: &'static str = r#"';
const NS = '"#;

/// Script of the detail page, between the namespace and the name.
pub const DETAIL_SCRIPT_2: &'static str = r#"';
const NAME = '"#;

/// Script of the detail page, after the name.
pub const DETAIL_SCRIPT_3: &'static str = r#"';
async function loadDetail() {
    const reg = await fetch(MKUBE + `/api/v1/namespaces/${NS}/registries/${NAME}`).then(r => r.json()).catch(() => null);
    if (!reg) { document.getElementById('detail').innerHTML = '<div class="empty">Not found</div>'; return; }
    const spec = reg.spec || {};
    const status = reg.status || {};
    let h = '<div class="kv-grid">';
    // Core spec fields
    for (const k of ['url','endpoint','insecure','interval','push']) {
        if (spec[k] !== undefined && spec[k] !== null) {
            const val = typeof spec[k] === 'object' ? JSON.stringify(spec[k]) : String(spec[k]);
            h += `<div class="kv-key">${k}</div><div class="kv-val" style="word-break:break-all">${escapeHtml(val)}</div>`;
        }
    }
    // Mirrors
    if (Array.isArray(spec.mirrors) && spec.mirrors.length) {
        h += `<div class="kv-key">mirrors</div><div class="kv-val" style="font-family:monospace">${spec.mirrors.map(m => escapeHtml(m)).join('<br>')}</div>`;
    }
    // Remaining spec fields
    const knownKeys = new Set(['url','endpoint','insecure','interval','push','mirrors']);
    for (const [k,v] of Object.entries(spec)) {
        if (knownKeys.has(k)) continue;
        const val = typeof v === 'object' ? JSON.stringify(v) : String(v);
        h += `<div class="kv-key">${escapeHtml(k)}</div><div class="kv-val" style="word-break:break-all">${escapeHtml(val)}</div>`;
    }
    // Status
    for (const [k,v] of Object.entries(status)) {
        const val = typeof v === 'object' ? JSON.stringify(v) : String(v);
        h += `<div class="kv-key">${escapeHtml(k)}</div><div class="kv-val">${escapeHtml(val)}</div>`;
    }
    h += '</div>';
    // Labels
    const labels = reg.metadata?.labels;
    if (labels && typeof labels === 'object' && Object.keys(labels).length) {
        h += '<div style="margin-top:12px"><strong style="color:#888;font-size:12px">LABELS</strong></div><div class="kv-grid">';
        for (const [k,v] of Object.entries(labels)) {
            h += `<div class="kv-key">${escapeHtml(k)}</div><div class="kv-val">${escapeHtml(String(v))}</div>`;
        }
        h += '</div>';
    }
    document.getElementById('detail').innerHTML = h;
    // Images (if the registry status has an images list or we can fetch catalog)
    const images = status.images || status.catalog || [];
    if (Array.isArray(images) && images.length) {
        let ih = '<table><tr><th>Image</th><th>Tag</th><th>Size</th></tr>';
        for (const img of images) {
            if (typeof img === 'string') {
                ih += `<tr><td>${escapeHtml(img)}</td><td>-</td><td>-</td></tr>`;
            } else {
                ih += `<tr><td>${escapeHtml(img.name || img.image || '-')}</td><td>${escapeHtml(img.tag || img.version || '-')}</td><td>${escapeHtml(img.size || '-')}</td></tr>`;
            }
        }
        ih += '</table>';
        document.getElementById('images').innerHTML = ih;
    } else {
        document.getElementById('images').innerHTML = '<div class="empty">No image catalog available</div>';
    }
}
loadDetail();
setInterval(loadDetail, 15000);
"#;

/// The script of the list page, which reads the mkube API at `mkube_url`.
pub open spec fn list_script(mkube_url: Seq<char>) -> Seq<char> {
    LIST_SCRIPT_0@ + mkube_url + LIST_SCRIPT_1@
}

/// The list page served for the mkube API at `mkube_url`.
pub open spec fn list_page_view(mkube_url: Seq<char>) -> Seq<char> {
    page_with_js_view(LIST_TITLE@, SECTION_REGISTRIES@, LIST_BODY@, list_script(mkube_url))
}

/// The markup of the detail page for the given ns, name.
pub open spec fn detail_body(ns: Seq<char>, name: Seq<char>) -> Seq<char> {
    DETAIL_BODY_0@ + ns + DETAIL_BODY_1@ + name + DETAIL_BODY_2@
}

/// The script of the detail page, which reads the mkube API at `mkube_url`.
pub open spec fn detail_script(mkube_url: Seq<char>, ns: Seq<char>, name: Seq<char>) -> Seq<char> {
    DETAIL_SCRIPT_0@ + mkube_url + DETAIL_SCRIPT_1@ + ns + DETAIL_SCRIPT_2@ + name + DETAIL_SCRIPT_3@
}

/// The detail page served for the mkube API at `mkube_url`.
pub open spec fn detail_page_view(mkube_url: Seq<char>, ns: Seq<char>, name: Seq<char>) -> Seq<char> {
    page_with_js_view(DETAIL_TITLE@, SECTION_REGISTRIES@, detail_body(ns, name), detail_script(mkube_url, ns, name))
}

/// Renders the list page; its script reads the mkube API at `state.mkube_url`.
pub fn list_page(state: &AppState) -> (html: String)
    ensures
        html@ == list_page_view(state.mkube_url@),
{
    let mkube_url = state.mkube_url.as_str();
    let mut js = String::from_str(LIST_SCRIPT_0);
    js.append(mkube_url);
    js.append(LIST_SCRIPT_1);
    page_with_js(LIST_TITLE, SECTION_REGISTRIES, LIST_BODY, js.as_str())
}

/// Renders the detail page of one object; its script reads the mkube API at `state.mkube_url`.
pub fn detail_page(state: &AppState, ns: &str, name: &str) -> (html: String)
    ensures
        html@ == detail_page_view(state.mkube_url@, ns@, name@),
{
    let mkube_url = state.mkube_url.as_str();
    let mut body = String::from_str(DETAIL_BODY_0);
    body.append(ns);
    body.append(DETAIL_BODY_1);
    body.append(name);
    body.append(DETAIL_BODY_2);
    let mut js = String::from_str(DETAIL_SCRIPT_0);
    js.append(mkube_url);
    js.append(DETAIL_SCRIPT_1);
    js.append(ns);
    js.append(DETAIL_SCRIPT_2);
    js.append(name);
    js.append(DETAIL_SCRIPT_3);
    page_with_js(DETAIL_TITLE, SECTION_REGISTRIES, body.as_str(), js.as_str())
}

} // verus!
