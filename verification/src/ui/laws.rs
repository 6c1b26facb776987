//! Laws of the pages: what each page shows, in terms of the values it is given.
use vstd::prelude::*;
use crate::text::contains_text;
use crate::ui::layout::{
    nav_view, lemma_page_embeds_script_piece, lemma_page_embeds_body_piece, lemma_page_title_element,
    lemma_page_holds_parts, SECTION_BMH, SECTION_BOOTCONFIGS, SECTION_DASHBOARD, SECTION_DEPLOYMENTS, SECTION_JOBS, SECTION_LOGS, SECTION_NETWORKS, SECTION_NODES, SECTION_PODS, SECTION_REGISTRIES, SECTION_STORAGE};
use crate::ui::{bmh, bootconfigs, dashboard, deployments, jobs, logs, networks, nodes, pods, registries, storage, terminal};

verus! {

/// The bare metal host list page is titled "Bare Metal Hosts", marks the "BMH" entry of the navigation bar, holds its
/// markup and its script in order, and its script binds MKUBE to the mkube address.
pub proof fn lemma_bmh_list_page_contents(mkube_url: Seq<char>)
    ensures
        contains_text(bmh::list_page_view(mkube_url), "<title>console — "@ + "Bare Metal Hosts"@ + "</title>"@),
        contains_text(bmh::list_page_view(mkube_url), nav_view("BMH"@)),
        contains_text(bmh::list_page_view(mkube_url), bmh::LIST_BODY@),
        contains_text(bmh::list_page_view(mkube_url), bmh::LIST_SCRIPT_0@ + mkube_url + bmh::LIST_SCRIPT_1@),
        contains_text(bmh::list_page_view(mkube_url), "const MKUBE = '"@ + mkube_url),
{
    let body = bmh::LIST_BODY@;
    let script = bmh::list_script(mkube_url);
    lemma_page_title_element(bmh::LIST_TITLE@, SECTION_BMH@, body, script);
    lemma_page_holds_parts(bmh::LIST_TITLE@, SECTION_BMH@, body, script);
    reveal_strlit("\nconst MKUBE = '");
    reveal_strlit("\n");
    reveal_strlit("const MKUBE = '");
    assert(bmh::LIST_SCRIPT_0@ =~= "\n"@ + "const MKUBE = '"@);
    lemma_page_embeds_script_piece(bmh::LIST_TITLE@, SECTION_BMH@, body, script, "\n"@, "const MKUBE = '"@ + mkube_url, bmh::LIST_SCRIPT_1@);
}

/// The bare metal host detail page is titled "BMH Detail", marks the "BMH" entry of the navigation bar, holds its
/// markup and its script in order, and its script binds MKUBE to the mkube address, NS to the namespace and NAME to the name. Its heading shows the namespace highlighted, then the name.
pub proof fn lemma_bmh_detail_page_contents(mkube_url: Seq<char>, ns: Seq<char>, name: Seq<char>)
    ensures
        contains_text(bmh::detail_page_view(mkube_url, ns, name), "<title>console — "@ + "BMH Detail"@ + "</title>"@),
        contains_text(bmh::detail_page_view(mkube_url, ns, name), nav_view("BMH"@)),
        contains_text(bmh::detail_page_view(mkube_url, ns, name), bmh::DETAIL_BODY_0@ + ns + bmh::DETAIL_BODY_1@ + name + bmh::DETAIL_BODY_2@),
        contains_text(bmh::detail_page_view(mkube_url, ns, name), bmh::DETAIL_SCRIPT_0@ + mkube_url + bmh::DETAIL_SCRIPT_1@ + ns + bmh::DETAIL_SCRIPT_2@ + name + bmh::DETAIL_SCRIPT_3@),
        contains_text(bmh::detail_page_view(mkube_url, ns, name), "const MKUBE = '"@ + mkube_url + "';\nconst NS = '"@ + ns + "';\nconst NAME = '"@ + name),
        contains_text(bmh::detail_page_view(mkube_url, ns, name), "<span style=\"color:#8be9fd\">"@ + ns + "</span> / "@ + name),
{
    let body = bmh::detail_body(ns, name);
    let script = bmh::detail_script(mkube_url, ns, name);
    lemma_page_title_element(bmh::DETAIL_TITLE@, SECTION_BMH@, body, script);
    lemma_page_holds_parts(bmh::DETAIL_TITLE@, SECTION_BMH@, body, script);
    reveal_strlit("\nconst MKUBE = '");
    reveal_strlit("\n");
    reveal_strlit("const MKUBE = '");
    reveal_strlit("';\nconst NS = '");
    reveal_strlit("';\nconst NAME = '");
    assert(bmh::DETAIL_SCRIPT_0@ =~= "\n"@ + "const MKUBE = '"@);
    lemma_page_embeds_script_piece(bmh::DETAIL_TITLE@, SECTION_BMH@, body, script, "\n"@, "const MKUBE = '"@ + mkube_url + "';\nconst NS = '"@ + ns + "';\nconst NAME = '"@ + name, bmh::DETAIL_SCRIPT_3@);
    reveal_strlit("<div class=\"page-title\"><a href=\"/ui/bmh\" style=\"color:#888\">BMH</a> / <span style=\"color:#8be9fd\">");
    reveal_strlit("<div class=\"page-title\"><a href=\"/ui/bmh\" style=\"color:#888\">BMH</a> / ");
    reveal_strlit("<span style=\"color:#8be9fd\">");
    assert(bmh::DETAIL_BODY_0@ =~= "<div class=\"page-title\"><a href=\"/ui/bmh\" style=\"color:#888\">BMH</a> / "@ + "<span style=\"color:#8be9fd\">"@);
    reveal_strlit("</span> / ");
    lemma_page_embeds_body_piece(bmh::DETAIL_TITLE@, SECTION_BMH@, body, script, "<div class=\"page-title\"><a href=\"/ui/bmh\" style=\"color:#888\">BMH</a> / "@, "<span style=\"color:#8be9fd\">"@ + ns + "</span> / "@ + name, bmh::DETAIL_BODY_2@);
}

/// The boot configuration list page is titled "Boot Configs", marks the "BootConfigs" entry of the navigation bar, holds its
/// markup and its script in order, and its script binds MKUBE to the mkube address.
pub proof fn lemma_bootconfigs_list_page_contents(mkube_url: Seq<char>)
    ensures
        contains_text(bootconfigs::list_page_view(mkube_url), "<title>console — "@ + "Boot Configs"@ + "</title>"@),
        contains_text(bootconfigs::list_page_view(mkube_url), nav_view("BootConfigs"@)),
        contains_text(bootconfigs::list_page_view(mkube_url), bootconfigs::LIST_BODY@),
        contains_text(bootconfigs::list_page_view(mkube_url), bootconfigs::LIST_SCRIPT_0@ + mkube_url + bootconfigs::LIST_SCRIPT_1@),
        contains_text(bootconfigs::list_page_view(mkube_url), "const MKUBE = '"@ + mkube_url),
{
    let body = bootconfigs::LIST_BODY@;
    let script = bootconfigs::list_script(mkube_url);
    lemma_page_title_element(bootconfigs::LIST_TITLE@, SECTION_BOOTCONFIGS@, body, script);
    lemma_page_holds_parts(bootconfigs::LIST_TITLE@, SECTION_BOOTCONFIGS@, body, script);
    reveal_strlit("\nconst MKUBE = '");
    reveal_strlit("\n");
    reveal_strlit("const MKUBE = '");
    assert(bootconfigs::LIST_SCRIPT_0@ =~= "\n"@ + "const MKUBE = '"@);
    lemma_page_embeds_script_piece(bootconfigs::LIST_TITLE@, SECTION_BOOTCONFIGS@, body, script, "\n"@, "const MKUBE = '"@ + mkube_url, bootconfigs::LIST_SCRIPT_1@);
}

/// The boot configuration detail page is titled "BootConfig Detail", marks the "BootConfigs" entry of the navigation bar, holds its
/// markup and its script in order, and its script binds MKUBE to the mkube address, NS to the namespace and NAME to the name. Its heading shows the namespace highlighted, then the name.
pub proof fn lemma_bootconfigs_detail_page_contents(mkube_url: Seq<char>, ns: Seq<char>, name: Seq<char>)
    ensures
        contains_text(bootconfigs::detail_page_view(mkube_url, ns, name), "<title>console — "@ + "BootConfig Detail"@ + "</title>"@),
        contains_text(bootconfigs::detail_page_view(mkube_url, ns, name), nav_view("BootConfigs"@)),
        contains_text(bootconfigs::detail_page_view(mkube_url, ns, name), bootconfigs::DETAIL_BODY_0@ + ns + bootconfigs::DETAIL_BODY_1@ + name + bootconfigs::DETAIL_BODY_2@),
        contains_text(bootconfigs::detail_page_view(mkube_url, ns, name), bootconfigs::DETAIL_SCRIPT_0@ + mkube_url + bootconfigs::DETAIL_SCRIPT_1@ + ns + bootconfigs::DETAIL_SCRIPT_2@ + name + bootconfigs::DETAIL_SCRIPT_3@),
        contains_text(bootconfigs::detail_page_view(mkube_url, ns, name), "const MKUBE = '"@ + mkube_url + "';\nconst NS = '"@ + ns + "';\nconst NAME = '"@ + name),
        contains_text(bootconfigs::detail_page_view(mkube_url, ns, name), "<span style=\"color:#8be9fd\">"@ + ns + "</span> / "@ + name),
{
    let body = bootconfigs::detail_body(ns, name);
    let script = bootconfigs::detail_script(mkube_url, ns, name);
    lemma_page_title_element(bootconfigs::DETAIL_TITLE@, SECTION_BOOTCONFIGS@, body, script);
    lemma_page_holds_parts(bootconfigs::DETAIL_TITLE@, SECTION_BOOTCONFIGS@, body, script);
    reveal_strlit("\nconst MKUBE = '");
    reveal_strlit("\n");
    reveal_strlit("const MKUBE = '");
    reveal_strlit("';\nconst NS = '");
    reveal_strlit("';\nconst NAME = '");
    assert(bootconfigs::DETAIL_SCRIPT_0@ =~= "\n"@ + "const MKUBE = '"@);
    lemma_page_embeds_script_piece(bootconfigs::DETAIL_TITLE@, SECTION_BOOTCONFIGS@, body, script, "\n"@, "const MKUBE = '"@ + mkube_url + "';\nconst NS = '"@ + ns + "';\nconst NAME = '"@ + name, bootconfigs::DETAIL_SCRIPT_3@);
    reveal_strlit("<div class=\"page-title\"><a href=\"/ui/bootconfigs\" style=\"color:#888\">BootConfigs</a> / <span style=\"color:#8be9fd\">");
    reveal_strlit("<div class=\"page-title\"><a href=\"/ui/bootconfigs\" style=\"color:#888\">BootConfigs</a> / ");
    reveal_strlit("<span style=\"color:#8be9fd\">");
    assert(bootconfigs::DETAIL_BODY_0@ =~= "<div class=\"page-title\"><a href=\"/ui/bootconfigs\" style=\"color:#888\">BootConfigs</a> / "@ + "<span style=\"color:#8be9fd\">"@);
    reveal_strlit("</span> / ");
    lemma_page_embeds_body_piece(bootconfigs::DETAIL_TITLE@, SECTION_BOOTCONFIGS@, body, script, "<div class=\"page-title\"><a href=\"/ui/bootconfigs\" style=\"color:#888\">BootConfigs</a> / "@, "<span style=\"color:#8be9fd\">"@ + ns + "</span> / "@ + name, bootconfigs::DETAIL_BODY_2@);
}

/// The dashboard page is titled "Dashboard", marks the "Dashboard" entry of the navigation bar, holds its
/// markup and its script in order, and its script binds MKUBE to the mkube address.
pub proof fn lemma_dashboard_page_contents(mkube_url: Seq<char>)
    ensures
        contains_text(dashboard::page_view(mkube_url), "<title>console — "@ + "Dashboard"@ + "</title>"@),
        contains_text(dashboard::page_view(mkube_url), nav_view("Dashboard"@)),
        contains_text(dashboard::page_view(mkube_url), dashboard::BODY@),
        contains_text(dashboard::page_view(mkube_url), dashboard::SCRIPT_0@ + mkube_url + dashboard::SCRIPT_1@),
        contains_text(dashboard::page_view(mkube_url), "const MKUBE = '"@ + mkube_url),
{
    let body = dashboard::BODY@;
    let script = dashboard::script(mkube_url);
    lemma_page_title_element(dashboard::TITLE@, SECTION_DASHBOARD@, body, script);
    lemma_page_holds_parts(dashboard::TITLE@, SECTION_DASHBOARD@, body, script);
    reveal_strlit("\nconst MKUBE = '");
    reveal_strlit("\n");
    reveal_strlit("const MKUBE = '");
    assert(dashboard::SCRIPT_0@ =~= "\n"@ + "const MKUBE = '"@);
    lemma_page_embeds_script_piece(dashboard::TITLE@, SECTION_DASHBOARD@, body, script, "\n"@, "const MKUBE = '"@ + mkube_url, dashboard::SCRIPT_1@);
}

/// The deployment list page is titled "Deployments", marks the "Deployments" entry of the navigation bar, holds its
/// markup and its script in order, and its script binds MKUBE to the mkube address.
pub proof fn lemma_deployments_list_page_contents(mkube_url: Seq<char>)
    ensures
        contains_text(deployments::list_page_view(mkube_url), "<title>console — "@ + "Deployments"@ + "</title>"@),
        contains_text(deployments::list_page_view(mkube_url), nav_view("Deployments"@)),
        contains_text(deployments::list_page_view(mkube_url), deployments::LIST_BODY@),
        contains_text(deployments::list_page_view(mkube_url), deployments::LIST_SCRIPT_0@ + mkube_url + deployments::LIST_SCRIPT_1@),
        contains_text(deployments::list_page_view(mkube_url), "const MKUBE = '"@ + mkube_url),
{
    let body = deployments::LIST_BODY@;
    let script = deployments::list_script(mkube_url);
    lemma_page_title_element(deployments::LIST_TITLE@, SECTION_DEPLOYMENTS@, body, script);
    lemma_page_holds_parts(deployments::LIST_TITLE@, SECTION_DEPLOYMENTS@, body, script);
    reveal_strlit("\nconst MKUBE = '");
    reveal_strlit("\n");
    reveal_strlit("const MKUBE = '");
    assert(deployments::LIST_SCRIPT_0@ =~= "\n"@ + "const MKUBE = '"@);
    lemma_page_embeds_script_piece(deployments::LIST_TITLE@, SECTION_DEPLOYMENTS@, body, script, "\n"@, "const MKUBE = '"@ + mkube_url, deployments::LIST_SCRIPT_1@);
}

/// The deployment detail page is titled "Deployment Detail", marks the "Deployments" entry of the navigation bar, holds its
/// markup and its script in order, and its script binds MKUBE to the mkube address, NS to the namespace and NAME to the name. Its heading shows the namespace highlighted, then the name.
pub proof fn lemma_deployments_detail_page_contents(mkube_url: Seq<char>, ns: Seq<char>, name: Seq<char>)
    ensures
        contains_text(deployments::detail_page_view(mkube_url, ns, name), "<title>console — "@ + "Deployment Detail"@ + "</title>"@),
        contains_text(deployments::detail_page_view(mkube_url, ns, name), nav_view("Deployments"@)),
        contains_text(deployments::detail_page_view(mkube_url, ns, name), deployments::DETAIL_BODY_0@ + ns + deployments::DETAIL_BODY_1@ + name + deployments::DETAIL_BODY_2@),
        contains_text(deployments::detail_page_view(mkube_url, ns, name), deployments::DETAIL_SCRIPT_0@ + mkube_url + deployments::DETAIL_SCRIPT_1@ + ns + deployments::DETAIL_SCRIPT_2@ + name + deployments::DETAIL_SCRIPT_3@),
        contains_text(deployments::detail_page_view(mkube_url, ns, name), "const MKUBE = '"@ + mkube_url + "';\nconst NS = '"@ + ns + "';\nconst NAME = '"@ + name),
        contains_text(deployments::detail_page_view(mkube_url, ns, name), "<span style=\"color:#8be9fd\">"@ + ns + "</span> / "@ + name),
{
    let body = deployments::detail_body(ns, name);
    let script = deployments::detail_script(mkube_url, ns, name);
    lemma_page_title_element(deployments::DETAIL_TITLE@, SECTION_DEPLOYMENTS@, body, script);
    lemma_page_holds_parts(deployments::DETAIL_TITLE@, SECTION_DEPLOYMENTS@, body, script);
    reveal_strlit("\nconst MKUBE = '");
    reveal_strlit("\n");
    reveal_strlit("const MKUBE = '");
    reveal_strlit("';\nconst NS = '");
    reveal_strlit("';\nconst NAME = '");
    assert(deployments::DETAIL_SCRIPT_0@ =~= "\n"@ + "const MKUBE = '"@);
    lemma_page_embeds_script_piece(deployments::DETAIL_TITLE@, SECTION_DEPLOYMENTS@, body, script, "\n"@, "const MKUBE = '"@ + mkube_url + "';\nconst NS = '"@ + ns + "';\nconst NAME = '"@ + name, deployments::DETAIL_SCRIPT_3@);
    reveal_strlit("<div class=\"page-title\"><a href=\"/ui/deployments\" style=\"color:#888\">Deployments</a> / <span style=\"color:#8be9fd\">");
    reveal_strlit("<div class=\"page-title\"><a href=\"/ui/deployments\" style=\"color:#888\">Deployments</a> / ");
    reveal_strlit("<span style=\"color:#8be9fd\">");
    assert(deployments::DETAIL_BODY_0@ =~= "<div class=\"page-title\"><a href=\"/ui/deployments\" style=\"color:#888\">Deployments</a> / "@ + "<span style=\"color:#8be9fd\">"@);
    reveal_strlit("</span> / ");
    lemma_page_embeds_body_piece(deployments::DETAIL_TITLE@, SECTION_DEPLOYMENTS@, body, script, "<div class=\"page-title\"><a href=\"/ui/deployments\" style=\"color:#888\">Deployments</a> / "@, "<span style=\"color:#8be9fd\">"@ + ns + "</span> / "@ + name, deployments::DETAIL_BODY_2@);
}

/// The jobs page is titled "Jobs", marks the "Jobs" entry of the navigation bar, holds its
/// markup and its script in order, and its script binds MKUBE to the mkube address.
pub proof fn lemma_jobs_page_contents(mkube_url: Seq<char>)
    ensures
        contains_text(jobs::page_view(mkube_url), "<title>console — "@ + "Jobs"@ + "</title>"@),
        contains_text(jobs::page_view(mkube_url), nav_view("Jobs"@)),
        contains_text(jobs::page_view(mkube_url), jobs::BODY@),
        contains_text(jobs::page_view(mkube_url), jobs::SCRIPT_0@ + mkube_url + jobs::SCRIPT_1@),
        contains_text(jobs::page_view(mkube_url), "const MKUBE = '"@ + mkube_url),
{
    let body = jobs::BODY@;
    let script = jobs::script(mkube_url);
    lemma_page_title_element(jobs::TITLE@, SECTION_JOBS@, body, script);
    lemma_page_holds_parts(jobs::TITLE@, SECTION_JOBS@, body, script);
    reveal_strlit("\nconst MKUBE = '");
    reveal_strlit("\n");
    reveal_strlit("const MKUBE = '");
    assert(jobs::SCRIPT_0@ =~= "\n"@ + "const MKUBE = '"@);
    lemma_page_embeds_script_piece(jobs::TITLE@, SECTION_JOBS@, body, script, "\n"@, "const MKUBE = '"@ + mkube_url, jobs::SCRIPT_1@);
}

/// The logs page is titled "Logs", marks the "Logs" entry of the navigation bar, holds its
/// markup and its script in order, and its script binds MKUBE to the mkube address.
pub proof fn lemma_logs_page_contents(mkube_url: Seq<char>)
    ensures
        contains_text(logs::page_view(mkube_url), "<title>console — "@ + "Logs"@ + "</title>"@),
        contains_text(logs::page_view(mkube_url), nav_view("Logs"@)),
        contains_text(logs::page_view(mkube_url), logs::BODY@),
        contains_text(logs::page_view(mkube_url), logs::SCRIPT_0@ + mkube_url + logs::SCRIPT_1@),
        contains_text(logs::page_view(mkube_url), "const MKUBE = '"@ + mkube_url),
{
    let body = logs::BODY@;
    let script = logs::script(mkube_url);
    lemma_page_title_element(logs::TITLE@, SECTION_LOGS@, body, script);
    lemma_page_holds_parts(logs::TITLE@, SECTION_LOGS@, body, script);
    reveal_strlit("\nconst MKUBE = '");
    reveal_strlit("\n");
    reveal_strlit("const MKUBE = '");
    assert(logs::SCRIPT_0@ =~= "\n"@ + "const MKUBE = '"@);
    lemma_page_embeds_script_piece(logs::TITLE@, SECTION_LOGS@, body, script, "\n"@, "const MKUBE = '"@ + mkube_url, logs::SCRIPT_1@);
}

/// The network list page is titled "Networks", marks the "Networks" entry of the navigation bar, holds its
/// markup and its script in order, and its script binds MKUBE to the mkube address.
pub proof fn lemma_networks_list_page_contents(mkube_url: Seq<char>)
    ensures
        contains_text(networks::list_page_view(mkube_url), "<title>console — "@ + "Networks"@ + "</title>"@),
        contains_text(networks::list_page_view(mkube_url), nav_view("Networks"@)),
        contains_text(networks::list_page_view(mkube_url), networks::LIST_BODY@),
        contains_text(networks::list_page_view(mkube_url), networks::LIST_SCRIPT_0@ + mkube_url + networks::LIST_SCRIPT_1@),
        contains_text(networks::list_page_view(mkube_url), "const MKUBE = '"@ + mkube_url),
{
    let body = networks::LIST_BODY@;
    let script = networks::list_script(mkube_url);
    lemma_page_title_element(networks::LIST_TITLE@, SECTION_NETWORKS@, body, script);
    lemma_page_holds_parts(networks::LIST_TITLE@, SECTION_NETWORKS@, body, script);
    reveal_strlit("\nconst MKUBE = '");
    reveal_strlit("\n");
    reveal_strlit("const MKUBE = '");
    assert(networks::LIST_SCRIPT_0@ =~= "\n"@ + "const MKUBE = '"@);
    lemma_page_embeds_script_piece(networks::LIST_TITLE@, SECTION_NETWORKS@, body, script, "\n"@, "const MKUBE = '"@ + mkube_url, networks::LIST_SCRIPT_1@);
}

/// The network detail page is titled "Network Detail", marks the "Networks" entry of the navigation bar, holds its
/// markup and its script in order, and its script binds MKUBE to the mkube address and NET to the name. Its heading shows the name after the link back to the list.
pub proof fn lemma_networks_detail_page_contents(mkube_url: Seq<char>, name: Seq<char>)
    ensures
        contains_text(networks::detail_page_view(mkube_url, name), "<title>console — "@ + "Network Detail"@ + "</title>"@),
        contains_text(networks::detail_page_view(mkube_url, name), nav_view("Networks"@)),
        contains_text(networks::detail_page_view(mkube_url, name), networks::DETAIL_BODY_0@ + name + networks::DETAIL_BODY_1@),
        contains_text(networks::detail_page_view(mkube_url, name), networks::DETAIL_SCRIPT_0@ + mkube_url + networks::DETAIL_SCRIPT_1@ + name + networks::DETAIL_SCRIPT_2@),
        contains_text(networks::detail_page_view(mkube_url, name), "const MKUBE = '"@ + mkube_url + "';\nconst NET = '"@ + name),
        contains_text(networks::detail_page_view(mkube_url, name), "</a> / "@ + name),
{
    let body = networks::detail_body(name);
    let script = networks::detail_script(mkube_url, name);
    lemma_page_title_element(networks::DETAIL_TITLE@, SECTION_NETWORKS@, body, script);
    lemma_page_holds_parts(networks::DETAIL_TITLE@, SECTION_NETWORKS@, body, script);
    reveal_strlit("\nconst MKUBE = '");
    reveal_strlit("\n");
    reveal_strlit("const MKUBE = '");
    reveal_strlit("';\nconst NET = '");
    assert(networks::DETAIL_SCRIPT_0@ =~= "\n"@ + "const MKUBE = '"@);
    lemma_page_embeds_script_piece(networks::DETAIL_TITLE@, SECTION_NETWORKS@, body, script, "\n"@, "const MKUBE = '"@ + mkube_url + "';\nconst NET = '"@ + name, networks::DETAIL_SCRIPT_2@);
    reveal_strlit("<div class=\"page-title\"><a href=\"/ui/networks\" style=\"color:#888\">Networks</a> / ");
    reveal_strlit("<div class=\"page-title\"><a href=\"/ui/networks\" style=\"color:#888\">Networks");
    reveal_strlit("</a> / ");
    assert(networks::DETAIL_BODY_0@ =~= "<div class=\"page-title\"><a href=\"/ui/networks\" style=\"color:#888\">Networks"@ + "</a> / "@);
    lemma_page_embeds_body_piece(networks::DETAIL_TITLE@, SECTION_NETWORKS@, body, script, "<div class=\"page-title\"><a href=\"/ui/networks\" style=\"color:#888\">Networks"@, "</a> / "@ + name, networks::DETAIL_BODY_1@);
}

/// The node list page is titled "Nodes", marks the "Nodes" entry of the navigation bar, holds its
/// markup and its script in order, and its script binds MKUBE to the mkube address.
pub proof fn lemma_nodes_list_page_contents(mkube_url: Seq<char>)
    ensures
        contains_text(nodes::list_page_view(mkube_url), "<title>console — "@ + "Nodes"@ + "</title>"@),
        contains_text(nodes::list_page_view(mkube_url), nav_view("Nodes"@)),
        contains_text(nodes::list_page_view(mkube_url), nodes::LIST_BODY@),
        contains_text(nodes::list_page_view(mkube_url), nodes::LIST_SCRIPT_0@ + mkube_url + nodes::LIST_SCRIPT_1@),
        contains_text(nodes::list_page_view(mkube_url), "const MKUBE = '"@ + mkube_url),
{
    let body = nodes::LIST_BODY@;
    let script = nodes::list_script(mkube_url);
    lemma_page_title_element(nodes::LIST_TITLE@, SECTION_NODES@, body, script);
    lemma_page_holds_parts(nodes::LIST_TITLE@, SECTION_NODES@, body, script);
    reveal_strlit("\nconst MKUBE = '");
    reveal_strlit("\n");
    reveal_strlit("const MKUBE = '");
    assert(nodes::LIST_SCRIPT_0@ =~= "\n"@ + "const MKUBE = '"@);
    lemma_page_embeds_script_piece(nodes::LIST_TITLE@, SECTION_NODES@, body, script, "\n"@, "const MKUBE = '"@ + mkube_url, nodes::LIST_SCRIPT_1@);
}

/// The node detail page is titled "Node Detail", marks the "Nodes" entry of the navigation bar, holds its
/// markup and its script in order, and its script binds MKUBE to the mkube address and NODE_NAME to the name. Its heading shows the name after the link back to the list.
pub proof fn lemma_nodes_detail_page_contents(mkube_url: Seq<char>, name: Seq<char>)
    ensures
        contains_text(nodes::detail_page_view(mkube_url, name), "<title>console — "@ + "Node Detail"@ + "</title>"@),
        contains_text(nodes::detail_page_view(mkube_url, name), nav_view("Nodes"@)),
        contains_text(nodes::detail_page_view(mkube_url, name), nodes::DETAIL_BODY_0@ + name + nodes::DETAIL_BODY_1@),
        contains_text(nodes::detail_page_view(mkube_url, name), nodes::DETAIL_SCRIPT_0@ + mkube_url + nodes::DETAIL_SCRIPT_1@ + name + nodes::DETAIL_SCRIPT_2@),
        contains_text(nodes::detail_page_view(mkube_url, name), "const MKUBE = '"@ + mkube_url + "';\nconst NODE_NAME = '"@ + name),
        contains_text(nodes::detail_page_view(mkube_url, name), "</a> / "@ + name),
{
    let body = nodes::detail_body(name);
    let script = nodes::detail_script(mkube_url, name);
    lemma_page_title_element(nodes::DETAIL_TITLE@, SECTION_NODES@, body, script);
    lemma_page_holds_parts(nodes::DETAIL_TITLE@, SECTION_NODES@, body, script);
    reveal_strlit("\nconst MKUBE = '");
    reveal_strlit("\n");
    reveal_strlit("const MKUBE = '");
    reveal_strlit("';\nconst NODE_NAME = '");
    assert(nodes::DETAIL_SCRIPT_0@ =~= "\n"@ + "const MKUBE = '"@);
    lemma_page_embeds_script_piece(nodes::DETAIL_TITLE@, SECTION_NODES@, body, script, "\n"@, "const MKUBE = '"@ + mkube_url + "';\nconst NODE_NAME = '"@ + name, nodes::DETAIL_SCRIPT_2@);
    reveal_strlit("<div class=\"page-title\"><a href=\"/ui/nodes\" style=\"color:#888\">Nodes</a> / ");
    reveal_strlit("<div class=\"page-title\"><a href=\"/ui/nodes\" style=\"color:#888\">Nodes");
    reveal_strlit("</a> / ");
    assert(nodes::DETAIL_BODY_0@ =~= "<div class=\"page-title\"><a href=\"/ui/nodes\" style=\"color:#888\">Nodes"@ + "</a> / "@);
    lemma_page_embeds_body_piece(nodes::DETAIL_TITLE@, SECTION_NODES@, body, script, "<div class=\"page-title\"><a href=\"/ui/nodes\" style=\"color:#888\">Nodes"@, "</a> / "@ + name, nodes::DETAIL_BODY_1@);
}

/// The pod list page is titled "Pods", marks the "Pods" entry of the navigation bar, holds its
/// markup and its script in order, and its script binds MKUBE to the mkube address.
pub proof fn lemma_pods_list_page_contents(mkube_url: Seq<char>)
    ensures
        contains_text(pods::list_page_view(mkube_url), "<title>console — "@ + "Pods"@ + "</title>"@),
        contains_text(pods::list_page_view(mkube_url), nav_view("Pods"@)),
        contains_text(pods::list_page_view(mkube_url), pods::LIST_BODY@),
        contains_text(pods::list_page_view(mkube_url), pods::LIST_SCRIPT_0@ + mkube_url + pods::LIST_SCRIPT_1@),
        contains_text(pods::list_page_view(mkube_url), "const MKUBE = '"@ + mkube_url),
{
    let body = pods::LIST_BODY@;
    let script = pods::list_script(mkube_url);
    lemma_page_title_element(pods::LIST_TITLE@, SECTION_PODS@, body, script);
    lemma_page_holds_parts(pods::LIST_TITLE@, SECTION_PODS@, body, script);
    reveal_strlit("\nconst MKUBE = '");
    reveal_strlit("\n");
    reveal_strlit("const MKUBE = '");
    assert(pods::LIST_SCRIPT_0@ =~= "\n"@ + "const MKUBE = '"@);
    lemma_page_embeds_script_piece(pods::LIST_TITLE@, SECTION_PODS@, body, script, "\n"@, "const MKUBE = '"@ + mkube_url, pods::LIST_SCRIPT_1@);
}

/// The pod detail page is titled "Pod Detail", marks the "Pods" entry of the navigation bar, holds its
/// markup and its script in order, and its script binds MKUBE to the mkube address, NS to the namespace and NAME to the name. Its heading shows the namespace highlighted, then the name.
pub proof fn lemma_pods_detail_page_contents(mkube_url: Seq<char>, ns: Seq<char>, name: Seq<char>)
    ensures
        contains_text(pods::detail_page_view(mkube_url, ns, name), "<title>console — "@ + "Pod Detail"@ + "</title>"@),
        contains_text(pods::detail_page_view(mkube_url, ns, name), nav_view("Pods"@)),
        contains_text(pods::detail_page_view(mkube_url, ns, name), pods::DETAIL_BODY_0@ + ns + pods::DETAIL_BODY_1@ + name + pods::DETAIL_BODY_2@),
        contains_text(pods::detail_page_view(mkube_url, ns, name), pods::DETAIL_SCRIPT_0@ + mkube_url + pods::DETAIL_SCRIPT_1@ + ns + pods::DETAIL_SCRIPT_2@ + name + pods::DETAIL_SCRIPT_3@),
        contains_text(pods::detail_page_view(mkube_url, ns, name), "const MKUBE = '"@ + mkube_url + "';\nconst NS = '"@ + ns + "';\nconst NAME = '"@ + name),
        contains_text(pods::detail_page_view(mkube_url, ns, name), "<span style=\"color:#8be9fd\">"@ + ns + "</span> / "@ + name),
{
    let body = pods::detail_body(ns, name);
    let script = pods::detail_script(mkube_url, ns, name);
    lemma_page_title_element(pods::DETAIL_TITLE@, SECTION_PODS@, body, script);
    lemma_page_holds_parts(pods::DETAIL_TITLE@, SECTION_PODS@, body, script);
    reveal_strlit("\nconst MKUBE = '");
    reveal_strlit("\n");
    reveal_strlit("const MKUBE = '");
    reveal_strlit("';\nconst NS = '");
    reveal_strlit("';\nconst NAME = '");
    assert(pods::DETAIL_SCRIPT_0@ =~= "\n"@ + "const MKUBE = '"@);
    lemma_page_embeds_script_piece(pods::DETAIL_TITLE@, SECTION_PODS@, body, script, "\n"@, "const MKUBE = '"@ + mkube_url + "';\nconst NS = '"@ + ns + "';\nconst NAME = '"@ + name, pods::DETAIL_SCRIPT_3@);
    reveal_strlit("<div class=\"page-title\"><a href=\"/ui/pods\" style=\"color:#888\">Pods</a> / <span style=\"color:#8be9fd\">");
    reveal_strlit("<div class=\"page-title\"><a href=\"/ui/pods\" style=\"color:#888\">Pods</a> / ");
    reveal_strlit("<span style=\"color:#8be9fd\">");
    assert(pods::DETAIL_BODY_0@ =~= "<div class=\"page-title\"><a href=\"/ui/pods\" style=\"color:#888\">Pods</a> / "@ + "<span style=\"color:#8be9fd\">"@);
    reveal_strlit("</span> / ");
    lemma_page_embeds_body_piece(pods::DETAIL_TITLE@, SECTION_PODS@, body, script, "<div class=\"page-title\"><a href=\"/ui/pods\" style=\"color:#888\">Pods</a> / "@, "<span style=\"color:#8be9fd\">"@ + ns + "</span> / "@ + name, pods::DETAIL_BODY_2@);
}

/// The registry list page is titled "Registries", marks the "Registries" entry of the navigation bar, holds its
/// markup and its script in order, and its script binds MKUBE to the mkube address.
pub proof fn lemma_registries_list_page_contents(mkube_url: Seq<char>)
    ensures
        contains_text(registries::list_page_view(mkube_url), "<title>console — "@ + "Registries"@ + "</title>"@),
        contains_text(registries::list_page_view(mkube_url), nav_view("Registries"@)),
        contains_text(registries::list_page_view(mkube_url), registries::LIST_BODY@),
        contains_text(registries::list_page_view(mkube_url), registries::LIST_SCRIPT_0@ + mkube_url + registries::LIST_SCRIPT_1@),
        contains_text(registries::list_page_view(mkube_url), "const MKUBE = '"@ + mkube_url),
{
    let body = registries::LIST_BODY@;
    let script = registries::list_script(mkube_url);
    lemma_page_title_element(registries::LIST_TITLE@, SECTION_REGISTRIES@, body, script);
    lemma_page_holds_parts(registries::LIST_TITLE@, SECTION_REGISTRIES@, body, script);
    reveal_strlit("\nconst MKUBE = '");
    reveal_strlit("\n");
    reveal_strlit("const MKUBE = '");
    assert(registries::LIST_SCRIPT_0@ =~= "\n"@ + "const MKUBE = '"@);
    lemma_page_embeds_script_piece(registries::LIST_TITLE@, SECTION_REGISTRIES@, body, script, "\n"@, "const MKUBE = '"@ + mkube_url, registries::LIST_SCRIPT_1@);
}

/// The registry detail page is titled "Registry Detail", marks the "Registries" entry of the navigation bar, holds its
/// markup and its script in order, and its script binds MKUBE to the mkube address, NS to the namespace and NAME to the name. Its heading shows the namespace highlighted, then the name.
pub proof fn lemma_registries_detail_page_contents(mkube_url: Seq<char>, ns: Seq<char>, name: Seq<char>)
    ensures
        contains_text(registries::detail_page_view(mkube_url, ns, name), "<title>console — "@ + "Registry Detail"@ + "</title>"@),
        contains_text(registries::detail_page_view(mkube_url, ns, name), nav_view("Registries"@)),
        contains_text(registries::detail_page_view(mkube_url, ns, name), registries::DETAIL_BODY_0@ + ns + registries::DETAIL_BODY_1@ + name + registries::DETAIL_BODY_2@),
        contains_text(registries::detail_page_view(mkube_url, ns, name), registries::DETAIL_SCRIPT_0@ + mkube_url + registries::DETAIL_SCRIPT_1@ + ns + registries::DETAIL_SCRIPT_2@ + name + registries::DETAIL_SCRIPT_3@),
        contains_text(registries::detail_page_view(mkube_url, ns, name), "const MKUBE = '"@ + mkube_url + "';\nconst NS = '"@ + ns + "';\nconst NAME = '"@ + name),
        contains_text(registries::detail_page_view(mkube_url, ns, name), "<span style=\"color:#8be9fd\">"@ + ns + "</span> / "@ + name),
{
    let body = registries::detail_body(ns, name);
    let script = registries::detail_script(mkube_url, ns, name);
    lemma_page_title_element(registries::DETAIL_TITLE@, SECTION_REGISTRIES@, body, script);
    lemma_page_holds_parts(registries::DETAIL_TITLE@, SECTION_REGISTRIES@, body, script);
    reveal_strlit("\nconst MKUBE = '");
    reveal_strlit("\n");
    reveal_strlit("const MKUBE = '");
    reveal_strlit("';\nconst NS = '");
    reveal_strlit("';\nconst NAME = '");
    assert(registries::DETAIL_SCRIPT_0@ =~= "\n"@ + "const MKUBE = '"@);
    lemma_page_embeds_script_piece(registries::DETAIL_TITLE@, SECTION_REGISTRIES@, body, script, "\n"@, "const MKUBE = '"@ + mkube_url + "';\nconst NS = '"@ + ns + "';\nconst NAME = '"@ + name, registries::DETAIL_SCRIPT_3@);
    reveal_strlit("<div class=\"page-title\"><a href=\"/ui/registries\" style=\"color:#888\">Registries</a> / <span style=\"color:#8be9fd\">");
    reveal_strlit("<div class=\"page-title\"><a href=\"/ui/registries\" style=\"color:#888\">Registries</a> / ");
    reveal_strlit("<span style=\"color:#8be9fd\">");
    assert(registries::DETAIL_BODY_0@ =~= "<div class=\"page-title\"><a href=\"/ui/registries\" style=\"color:#888\">Registries</a> / "@ + "<span style=\"color:#8be9fd\">"@);
    reveal_strlit("</span> / ");
    lemma_page_embeds_body_piece(registries::DETAIL_TITLE@, SECTION_REGISTRIES@, body, script, "<div class=\"page-title\"><a href=\"/ui/registries\" style=\"color:#888\">Registries</a> / "@, "<span style=\"color:#8be9fd\">"@ + ns + "</span> / "@ + name, registries::DETAIL_BODY_2@);
}

/// The storage page is titled "Storage", marks the "Storage" entry of the navigation bar, holds its
/// markup and its script in order, and its script binds MKUBE to the mkube address.
pub proof fn lemma_storage_page_contents(mkube_url: Seq<char>)
    ensures
        contains_text(storage::page_view(mkube_url), "<title>console — "@ + "Storage"@ + "</title>"@),
        contains_text(storage::page_view(mkube_url), nav_view("Storage"@)),
        contains_text(storage::page_view(mkube_url), storage::BODY@),
        contains_text(storage::page_view(mkube_url), storage::SCRIPT_0@ + mkube_url + storage::SCRIPT_1@),
        contains_text(storage::page_view(mkube_url), "const MKUBE = '"@ + mkube_url),
{
    let body = storage::BODY@;
    let script = storage::script(mkube_url);
    lemma_page_title_element(storage::TITLE@, SECTION_STORAGE@, body, script);
    lemma_page_holds_parts(storage::TITLE@, SECTION_STORAGE@, body, script);
    reveal_strlit("\nconst MKUBE = '");
    reveal_strlit("\n");
    reveal_strlit("const MKUBE = '");
    assert(storage::SCRIPT_0@ =~= "\n"@ + "const MKUBE = '"@);
    lemma_page_embeds_script_piece(storage::TITLE@, SECTION_STORAGE@, body, script, "\n"@, "const MKUBE = '"@ + mkube_url, storage::SCRIPT_1@);
}

/// The terminal page is titled "Terminal", marks the "Logs" entry of the navigation bar, holds its
/// markup and its script in order, and its script binds MKUBE to the mkube address.
pub proof fn lemma_terminal_page_contents(mkube_url: Seq<char>)
    ensures
        contains_text(terminal::page_view(mkube_url), "<title>console — "@ + "Terminal"@ + "</title>"@),
        contains_text(terminal::page_view(mkube_url), nav_view("Logs"@)),
        contains_text(terminal::page_view(mkube_url), terminal::BODY@),
        contains_text(terminal::page_view(mkube_url), terminal::SCRIPT_0@ + mkube_url + terminal::SCRIPT_1@),
        contains_text(terminal::page_view(mkube_url), "const MKUBE = '"@ + mkube_url),
{
    let body = terminal::BODY@;
    let script = terminal::script(mkube_url);
    lemma_page_title_element(terminal::TITLE@, SECTION_LOGS@, body, script);
    lemma_page_holds_parts(terminal::TITLE@, SECTION_LOGS@, body, script);
    reveal_strlit("\nconst MKUBE = '");
    reveal_strlit("\n");
    reveal_strlit("const MKUBE = '");
    assert(terminal::SCRIPT_0@ =~= "\n"@ + "const MKUBE = '"@);
    lemma_page_embeds_script_piece(terminal::TITLE@, SECTION_LOGS@, body, script, "\n"@, "const MKUBE = '"@ + mkube_url, terminal::SCRIPT_1@);
}

} // verus!
