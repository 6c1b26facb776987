//! The network pages: type, CIDR, gateway and DNS of each network, and one network with its DNS
//! records, DHCP pools, reservations and leases, DNS forwarders and a smoke test.
use vstd::prelude::*;
use vstd::string::*;
use crate::state::AppState;
use crate::ui::layout::{page_with_js, page_with_js_view, SECTION_NETWORKS};

verus! {

/// Title of the list page.
pub const LIST_TITLE: &'static str = "Networks";

/// Markup of the list page.
pub const LIST_BODY: &'static str = r#"<div class="page-title">Networks</div>
<div id="networks"><div class="loading">Loading...</div></div>"#;

/// Script of the list page, up to the mkube address.
pub const LIST_SCRIPT_0: &'static str = r#"
const MKUBE = '"#;

/// Script of the list page, after the mkube address.
pub const LIST_SCRIPT_1: &'static str = r#"';
async function loadNetworks() {
    const r = await fetch(MKUBE + '/api/v1/networks').then(r => r.json()).catch(() => null);
    const nets = (r && r.items) || [];
    let h = '<table><tr><th>Name</th><th>Type</th><th>CIDR</th><th>Gateway</th><th>DNS</th><th>Pods</th><th>DNS Alive</th><th>DHCP</th></tr>';
    for (const n of nets) {
        const name = n.metadata?.name || '-';
        const spec = n.spec || {};
        const status = n.status || {};
        const ntype = spec.type || '-';
        const cidr = spec.cidr || '-';
        const gw = spec.gateway || '-';
        const dns = spec.dns || '-';
        const pods = status.podCount ?? '-';
        const dnsAlive = status.dnsLiveness;
        const dnsStatus = dnsAlive === true ? 'healthy' : dnsAlive === false ? 'down' : '-';
        const dhcp = spec.dhcp?.enabled ? 'Yes' : 'No';
        h += `<tr style="cursor:pointer" onclick="location.href='/ui/networks/${encodeURIComponent(name)}'">
            <td><a href="/ui/networks/${encodeURIComponent(name)}">${escapeHtml(name)}</a></td>
            <td>${statusBadge(ntype)}</td>
            <td>${escapeHtml(cidr)}</td>
            <td>${escapeHtml(gw)}</td>
            <td>${escapeHtml(dns)}</td>
            <td>${pods}</td>
            <td>${statusBadge(dnsStatus)}</td>
            <td>${dhcp}</td>
        </tr>`;
    }
    h += '</table>';
    document.getElementById('networks').innerHTML = nets.length ? h : '<div class="empty">No networks</div>';
}
loadNetworks();
setInterval(loadNetworks, 15000);
"#;

/// Title of the detail page.
pub const DETAIL_TITLE: &'static str = "Network Detail";

/// Markup of the detail page, up to the name.
pub const DETAIL_BODY_0: &'static str = r#"<div class="page-title"><a href="/ui/networks" style="color:#888">Networks</a> / "#;

/// Markup of the detail page, after the name.
pub const DETAIL_BODY_1: &'static str = r#"</div>
<div class="card" id="info"><div class="loading">Loading...</div></div>
<div style="margin-bottom:8px">
  <button class="btn btn-sm" onclick="smoketest()" id="smoketest-btn">Run Smoketest</button>
  <span id="smoketest-result" style="margin-left:8px;font-size:12px"></span>
</div>
<div class="tabs">
  <div class="tab active" onclick="switchTab('dns')">DNS Records</div>
  <div class="tab" onclick="switchTab('pools')">DHCP Pools</div>
  <div class="tab" onclick="switchTab('reservations')">DHCP Reservations</div>
  <div class="tab" onclick="switchTab('leases')">DHCP Leases</div>
  <div class="tab" onclick="switchTab('forwarders')">DNS Forwarders</div>
</div>
<div id="tab-dns" class="tab-panel active"><div class="loading">Loading...</div></div>
<div id="tab-pools" class="tab-panel"><div class="loading">Loading...</div></div>
<div id="tab-reservations" class="tab-panel"><div class="loading">Loading...</div></div>
<div id="tab-leases" class="tab-panel"><div class="loading">Loading...</div></div>
<div id="tab-forwarders" class="tab-panel"><div class="loading">Loading...</div></div>"#;

/// Script of the detail page, up to the mkube address.
pub const DETAIL_SCRIPT_0: &'static str = r#"
const MKUBE = '"#;

/// Script of the detail page, between the mkube address and the name.
pub const DETAIL_SCRIPT_1: &'static str = r#"';
const NET = '"#;

/// Script of the detail page, after the name.
pub const DETAIL_SCRIPT_2: &'static str = r#"';
function switchTab(tab) {
    document.querySelectorAll('.tab').forEach(t => t.classList.remove('active'));
    document.querySelectorAll('.tab-panel').forEach(t => t.classList.remove('active'));
    event.target.classList.add('active');
    document.getElementById('tab-' + tab).classList.add('active');
}
async function loadNetwork() {
    const net = await fetch(MKUBE + `/api/v1/networks/${NET}`).then(r => r.json()).catch(() => null);
    if (!net) { document.getElementById('info').innerHTML = '<div class="empty">Not found</div>'; return; }
    const spec = net.spec || {};
    const status = net.status || {};
    let h = '<div class="kv-grid">';
    for (const k of ['type','cidr','gateway','dns','bridge','vlan','router','managed','externalDNS']) {
        if (spec[k] !== undefined) h += `<div class="kv-key">${k}</div><div class="kv-val">${escapeHtml(String(spec[k]))}</div>`;
    }
    if (status.podCount !== undefined) h += `<div class="kv-key">Pod Count</div><div class="kv-val">${status.podCount}</div>`;
    h += '</div>';
    document.getElementById('info').innerHTML = h;
    // DNS Records
    const dns = await fetch(MKUBE + `/api/v1/namespaces/${NET}/dnsrecords`).then(r => r.json()).catch(() => null);
    const dnsItems = (dns && dns.items) || [];
    let dh = '<table><tr><th>Name</th><th>Type</th><th>Data</th><th>TTL</th></tr>';
    for (const r of dnsItems) {
        const spec = r.spec || {};
        dh += `<tr><td>${escapeHtml(r.metadata?.name||spec.name||'-')}</td><td>${escapeHtml(spec.type||spec.data?.type||'-')}</td><td style="word-break:break-all">${escapeHtml(typeof spec.data === 'object' ? JSON.stringify(spec.data?.data||spec.data) : String(spec.data||'-'))}</td><td>${spec.ttl||'-'}</td></tr>`;
    }
    dh += '</table>';
    document.getElementById('tab-dns').innerHTML = dnsItems.length ? dh : '<div class="empty">No DNS records</div>';
    // DHCP Pools
    const pools = await fetch(MKUBE + `/api/v1/namespaces/${NET}/dhcppools`).then(r => r.json()).catch(() => null);
    const poolItems = (pools && pools.items) || [];
    let ph = '<table><tr><th>Name</th><th>Range Start</th><th>Range End</th><th>Subnet</th><th>Gateway</th><th>Lease Time</th></tr>';
    for (const p of poolItems) {
        const s = p.spec || {};
        ph += `<tr><td>${escapeHtml(p.metadata?.name||'-')}</td><td>${escapeHtml(s.range_start||s.rangeStart||'-')}</td><td>${escapeHtml(s.range_end||s.rangeEnd||'-')}</td><td>${escapeHtml(s.subnet||'-')}</td><td>${escapeHtml(s.gateway||'-')}</td><td>${s.lease_time_secs||s.leaseTimeSecs||'-'}s</td></tr>`;
    }
    ph += '</table>';
    document.getElementById('tab-pools').innerHTML = poolItems.length ? ph : '<div class="empty">No DHCP pools</div>';
    // DHCP Reservations
    const res = await fetch(MKUBE + `/api/v1/namespaces/${NET}/dhcpreservations`).then(r => r.json()).catch(() => null);
    const resItems = (res && res.items) || [];
    let rh = '<table><tr><th>Name</th><th>MAC</th><th>IP</th><th>Hostname</th></tr>';
    for (const r of resItems) {
        const s = r.spec || {};
        rh += `<tr><td>${escapeHtml(r.metadata?.name||'-')}</td><td style="font-family:monospace">${escapeHtml(s.mac||'-')}</td><td>${escapeHtml(s.ip||'-')}</td><td>${escapeHtml(s.hostname||'-')}</td></tr>`;
    }
    rh += '</table>';
    document.getElementById('tab-reservations').innerHTML = resItems.length ? rh : '<div class="empty">No reservations</div>';
    // DHCP Leases
    const leases = await fetch(MKUBE + `/api/v1/namespaces/${NET}/dhcpleases`).then(r => r.json()).catch(() => null);
    const leaseItems = (leases && leases.items) || [];
    let lh = '<table><tr><th>Name</th><th>MAC</th><th>IP</th><th>Hostname</th><th>Expires</th></tr>';
    for (const l of leaseItems) {
        const s = l.spec || {};
        lh += `<tr><td>${escapeHtml(l.metadata?.name||'-')}</td><td style="font-family:monospace">${escapeHtml(s.mac||'-')}</td><td>${escapeHtml(s.ip||'-')}</td><td>${escapeHtml(s.hostname||'-')}</td><td>${escapeHtml(s.expires||'-')}</td></tr>`;
    }
    lh += '</table>';
    document.getElementById('tab-leases').innerHTML = leaseItems.length ? lh : '<div class="empty">No leases</div>';
    // Forwarders
    const fwd = await fetch(MKUBE + `/api/v1/namespaces/${NET}/dnsforwarders`).then(r => r.json()).catch(() => null);
    const fwdItems = (fwd && fwd.items) || [];
    let fh = '<table><tr><th>Name</th><th>Zone</th><th>Servers</th></tr>';
    for (const f of fwdItems) {
        const s = f.spec || {};
        fh += `<tr><td>${escapeHtml(f.metadata?.name||'-')}</td><td>${escapeHtml(s.zone||'-')}</td><td>${escapeHtml(Array.isArray(s.servers) ? s.servers.join(', ') : String(s.servers||'-'))}</td></tr>`;
    }
    fh += '</table>';
    document.getElementById('tab-forwarders').innerHTML = fwdItems.length ? fh : '<div class="empty">No forwarders</div>';
}
async function smoketest() {
    document.getElementById('smoketest-result').textContent = 'Running...';
    document.getElementById('smoketest-result').style.color = '#888';
    try {
        const r = await fetch(MKUBE + `/api/v1/networks/${NET}/smoketest`, {method:'POST'}).then(r => r.json());
        const ok = r.success || r.status === 'pass';
        document.getElementById('smoketest-result').textContent = ok ? 'PASS' : JSON.stringify(r);
        document.getElementById('smoketest-result').style.color = ok ? '#50fa7b' : '#e94560';
    } catch(e) {
        document.getElementById('smoketest-result').textContent = 'Error: ' + e;
        document.getElementById('smoketest-result').style.color = '#e94560';
    }
}
loadNetwork();
"#;

/// The script of the list page, which reads the mkube API at `mkube_url`.
pub open spec fn list_script(mkube_url: Seq<char>) -> Seq<char> {
    LIST_SCRIPT_0@ + mkube_url + LIST_SCRIPT_1@
}

/// The list page served for the mkube API at `mkube_url`.
pub open spec fn list_page_view(mkube_url: Seq<char>) -> Seq<char> {
    page_with_js_view(LIST_TITLE@, SECTION_NETWORKS@, LIST_BODY@, list_script(mkube_url))
}

/// The markup of the detail page for the given name.
pub open spec fn detail_body(name: Seq<char>) -> Seq<char> {
    DETAIL_BODY_0@ + name + DETAIL_BODY_1@
}

/// The script of the detail page, which reads the mkube API at `mkube_url`.
pub open spec fn detail_script(mkube_url: Seq<char>, name: Seq<char>) -> Seq<char> {
    DETAIL_SCRIPT_0@ + mkube_url + DETAIL_SCRIPT_1@ + name + DETAIL_SCRIPT_2@
}

/// The detail page served for the mkube API at `mkube_url`.
pub open spec fn detail_page_view(mkube_url: Seq<char>, name: Seq<char>) -> Seq<char> {
    page_with_js_view(DETAIL_TITLE@, SECTION_NETWORKS@, detail_body(name), detail_script(mkube_url, name))
}

/// Renders the list page; its script reads the mkube API at `state.mkube_url`.
pub fn list_page(state: &AppState) -> (html: String)
    ensures
        html@ == list_page_view(state.mkube_url@),
{
    let mkube_url = state.mkube_url.as_str();
    let mut js = String::from_str(LIST_SCRIPT_0);
    js.append(mkube_url);
    js.append(LIST_SCRIPT_1);
    page_with_js(LIST_TITLE, SECTION_NETWORKS, LIST_BODY, js.as_str())
}

/// Renders the detail page of one object; its script reads the mkube API at `state.mkube_url`.
pub fn detail_page(state: &AppState, name: &str) -> (html: String)
    ensures
        html@ == detail_page_view(state.mkube_url@, name@),
{
    let mkube_url = state.mkube_url.as_str();
    let mut body = String::from_str(DETAIL_BODY_0);
    body.append(name);
    body.append(DETAIL_BODY_1);
    let mut js = String::from_str(DETAIL_SCRIPT_0);
    js.append(mkube_url);
    js.append(DETAIL_SCRIPT_1);
    js.append(name);
    js.append(DETAIL_SCRIPT_2);
    page_with_js(DETAIL_TITLE, SECTION_NETWORKS, body.as_str(), js.as_str())
}

} // verus!
