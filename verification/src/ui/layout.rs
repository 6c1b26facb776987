//! The frame shared by all pages: the HTML document around a page's body, with the
//! stylesheet, the navigation bar and the scripts.
use vstd::prelude::*;
use vstd::string::*;
use crate::text::{same_text, contains_text, lemma_contains_middle, lemma_contains_trans};
use crate::ui::style::{css, ansi_js, CSS, ANSI_JS};

verus! {

/// Start of every page, up to the title.
pub const PAGE_OPEN: &'static str = r#"<!DOCTYPE html>
<html>
<head>
<title>console — "#;
/// Text between the title and the stylesheet.
pub const PAGE_AFTER_TITLE: &'static str = r#"</title>
<meta charset="utf-8">
<meta name="viewport" content="width=device-width, initial-scale=1">
<style>"#;
/// Text between the stylesheet and the navigation bar.
pub const PAGE_AFTER_STYLE: &'static str = r#"</style>
</head>
<body>
"#;
/// Text between the navigation bar and the page's body.
pub const PAGE_AFTER_NAV: &'static str = r#"
<div class="content">
"#;
/// Text between the page's body and the shared script helpers.
pub const PAGE_AFTER_BODY: &'static str = r#"
</div>
<script>
"#;
/// What separates the shared script helpers from a page's own script.
pub const SCRIPT_SEPARATOR: &'static str = r#"
"#;
/// End of every page, after the scripts.
pub const PAGE_CLOSE: &'static str = r#"
</script>
</body>
</html>"#;

/// Start of the navigation bar, up to its first link.
pub const NAV_OPEN: &'static str = r#"<nav>
  <span class="brand">console</span>
  <div class="links">
    "#;
/// End of the navigation bar, after its last link.
pub const NAV_CLOSE: &'static str = r#"
  </div>
  <span style="margin-left:auto;font-size:12px;color:#888;font-weight:500">mkube cluster</span>
</nav>"#;
/// What separates two links of the navigation bar.
pub const NAV_LINK_SEPARATOR: &'static str = "\n    ";
/// Start of a navigation link, up to its address.
pub const LINK_OPEN: &'static str = r#"<a href=""#;
/// Text after a link's address.
pub const LINK_AFTER_HREF: &'static str = r#"""#;
/// The attribute that marks the link of the current section.
pub const ACTIVE_CLASS: &'static str = " class=\"active\"";
/// Text between a link's attributes and its label.
pub const LINK_AFTER_CLASS: &'static str = ">";
/// End of a navigation link.
pub const LINK_CLOSE: &'static str = "</a>";

/// Label of the navigation entry for Dashboard; pages of that section pass it as `active`.
pub const SECTION_DASHBOARD: &'static str = "Dashboard";
/// Label of the navigation entry for Nodes; pages of that section pass it as `active`.
pub const SECTION_NODES: &'static str = "Nodes";
/// Label of the navigation entry for Pods; pages of that section pass it as `active`.
pub const SECTION_PODS: &'static str = "Pods";
/// Label of the navigation entry for Deployments; pages of that section pass it as `active`.
pub const SECTION_DEPLOYMENTS: &'static str = "Deployments";
/// Label of the navigation entry for Networks; pages of that section pass it as `active`.
pub const SECTION_NETWORKS: &'static str = "Networks";
/// Label of the navigation entry for BMH; pages of that section pass it as `active`.
pub const SECTION_BMH: &'static str = "BMH";
/// Label of the navigation entry for BootConfigs; pages of that section pass it as `active`.
pub const SECTION_BOOTCONFIGS: &'static str = "BootConfigs";
/// Label of the navigation entry for Registries; pages of that section pass it as `active`.
pub const SECTION_REGISTRIES: &'static str = "Registries";
/// Label of the navigation entry for Storage; pages of that section pass it as `active`.
pub const SECTION_STORAGE: &'static str = "Storage";
/// Label of the navigation entry for Jobs; pages of that section pass it as `active`.
pub const SECTION_JOBS: &'static str = "Jobs";
/// Label of the navigation entry for Logs; pages of that section pass it as `active`.
pub const SECTION_LOGS: &'static str = "Logs";

/// Address that the Dashboard navigation entry links to.
pub const HREF_DASHBOARD: &'static str = "/ui/";
/// Address that the Nodes navigation entry links to.
pub const HREF_NODES: &'static str = "/ui/nodes";
/// Address that the Pods navigation entry links to.
pub const HREF_PODS: &'static str = "/ui/pods";
/// Address that the Deployments navigation entry links to.
pub const HREF_DEPLOYMENTS: &'static str = "/ui/deployments";
/// Address that the Networks navigation entry links to.
pub const HREF_NETWORKS: &'static str = "/ui/networks";
/// Address that the BMH navigation entry links to.
pub const HREF_BMH: &'static str = "/ui/bmh";
/// Address that the BootConfigs navigation entry links to.
pub const HREF_BOOTCONFIGS: &'static str = "/ui/bootconfigs";
/// Address that the Registries navigation entry links to.
pub const HREF_REGISTRIES: &'static str = "/ui/registries";
/// Address that the Storage navigation entry links to.
pub const HREF_STORAGE: &'static str = "/ui/storage";
/// Address that the Jobs navigation entry links to.
pub const HREF_JOBS: &'static str = "/ui/jobs";
/// Address that the Logs navigation entry links to.
pub const HREF_LOGS: &'static str = "/ui/logs";

/// The number of entries of the navigation bar.
pub const NAV_LEN: usize = 11;

/// The entries of the navigation bar, in order: label and address.
pub open spec fn nav_entries() -> Seq<(Seq<char>, Seq<char>)> {
    seq![
        (SECTION_DASHBOARD@, HREF_DASHBOARD@),
        (SECTION_NODES@, HREF_NODES@),
        (SECTION_PODS@, HREF_PODS@),
        (SECTION_DEPLOYMENTS@, HREF_DEPLOYMENTS@),
        (SECTION_NETWORKS@, HREF_NETWORKS@),
        (SECTION_BMH@, HREF_BMH@),
        (SECTION_BOOTCONFIGS@, HREF_BOOTCONFIGS@),
        (SECTION_REGISTRIES@, HREF_REGISTRIES@),
        (SECTION_STORAGE@, HREF_STORAGE@),
        (SECTION_JOBS@, HREF_JOBS@),
        (SECTION_LOGS@, HREF_LOGS@)
    ]
}

/// One navigation link; it carries the `active` class exactly when its label is `active`.
pub open spec fn nav_link_view(label: Seq<char>, href: Seq<char>, active: Seq<char>) -> Seq<char> {
    LINK_OPEN@ + href + LINK_AFTER_HREF@ + (if label == active {
        ACTIVE_CLASS@
    } else {
        Seq::empty()
    }) + LINK_AFTER_CLASS@ + label + LINK_CLOSE@
}

/// The link of the navigation entry at `i`.
pub open spec fn nav_entry_link(i: int, active: Seq<char>) -> Seq<char> {
    nav_link_view(nav_entries()[i].0, nav_entries()[i].1, active)
}

/// The first `n` navigation links, joined by the link separator.
pub open spec fn nav_links_view(active: Seq<char>, n: nat) -> Seq<char>
    decreases n,
{
    if n == 0 {
        Seq::empty()
    } else if n == 1 {
        nav_entry_link(0, active)
    } else {
        nav_links_view(active, (n - 1) as nat) + NAV_LINK_SEPARATOR@ + nav_entry_link(n - 1, active)
    }
}

/// The navigation bar of a page whose section is `active`.
pub open spec fn nav_view(active: Seq<char>) -> Seq<char> {
    NAV_OPEN@ + nav_links_view(active, nav_entries().len()) + NAV_CLOSE@
}

/// A page up to the end of the shared script helpers.
pub open spec fn page_head_view(title: Seq<char>, active: Seq<char>, body: Seq<char>) -> Seq<char> {
    PAGE_OPEN@ + title + PAGE_AFTER_TITLE@ + CSS@ + PAGE_AFTER_STYLE@ + nav_view(active) + PAGE_AFTER_NAV@
        + body + PAGE_AFTER_BODY@ + ANSI_JS@
}

/// A page with the shared script helpers only.
pub open spec fn page_view(title: Seq<char>, active: Seq<char>, body: Seq<char>) -> Seq<char> {
    page_head_view(title, active, body) + PAGE_CLOSE@
}

/// A page whose own script `js` follows the shared script helpers.
pub open spec fn page_with_js_view(title: Seq<char>, active: Seq<char>, body: Seq<char>, js: Seq<char>) -> Seq<char> {
    page_head_view(title, active, body) + SCRIPT_SEPARATOR@ + js + PAGE_CLOSE@
}

/// The navigation entry at `i`: its label and its address.
fn nav_entry(i: usize) -> (entry: (&'static str, &'static str))
    requires
        i < NAV_LEN,
    ensures
        entry.0@ == nav_entries()[i as int].0,
        entry.1@ == nav_entries()[i as int].1,
{
    match i {
        0 => (SECTION_DASHBOARD, HREF_DASHBOARD),
        1 => (SECTION_NODES, HREF_NODES),
        2 => (SECTION_PODS, HREF_PODS),
        3 => (SECTION_DEPLOYMENTS, HREF_DEPLOYMENTS),
        4 => (SECTION_NETWORKS, HREF_NETWORKS),
        5 => (SECTION_BMH, HREF_BMH),
        6 => (SECTION_BOOTCONFIGS, HREF_BOOTCONFIGS),
        7 => (SECTION_REGISTRIES, HREF_REGISTRIES),
        8 => (SECTION_STORAGE, HREF_STORAGE),
        9 => (SECTION_JOBS, HREF_JOBS),
        _ => (SECTION_LOGS, HREF_LOGS),
    }
}

/// The navigation bar, with the entry labelled `active` marked as the current one.
pub fn nav_html(active: &str) -> (nav: String)
    ensures
        nav@ == nav_view(active@),
{
    let mut links = String::new();
    let mut i: usize = 0;
    while i < NAV_LEN
        invariant
            i <= NAV_LEN,
            NAV_LEN == nav_entries().len(),
            links@ == nav_links_view(active@, i as nat),
        decreases NAV_LEN - i,
    {
        let (label, href) = nav_entry(i);
        if i > 0 {
            links.append(NAV_LINK_SEPARATOR);
        }
        links.append(LINK_OPEN);
        links.append(href);
        links.append(LINK_AFTER_HREF);
        if same_text(label, active) {
            links.append(ACTIVE_CLASS);
        }
        links.append(LINK_AFTER_CLASS);
        links.append(label);
        links.append(LINK_CLOSE);
        proof {
            assert(links@ =~= nav_links_view(active@, (i + 1) as nat));
        }
        i = i + 1;
    }
    let mut nav = String::from_str(NAV_OPEN);
    nav.append(links.as_str());
    nav.append(NAV_CLOSE);
    nav
}

/// Appends to `out` the part of a page that comes before its own script.
fn push_page_head(out: &mut String, title: &str, active: &str, body: &str)
    requires
        old(out)@ == Seq::<char>::empty(),
    ensures
        final(out)@ == page_head_view(title@, active@, body@),
{
    out.append(PAGE_OPEN);
    out.append(title);
    out.append(PAGE_AFTER_TITLE);
    out.append(css());
    out.append(PAGE_AFTER_STYLE);
    let nav = nav_html(active);
    out.append(nav.as_str());
    out.append(PAGE_AFTER_NAV);
    out.append(body);
    out.append(PAGE_AFTER_BODY);
    out.append(ansi_js());
}

/// Wraps `body` in the full HTML document: title, stylesheet, navigation bar with `active`
/// marked, and the shared script helpers.
pub fn page(title: &str, active: &str, body: &str) -> (html: String)
    ensures
        html@ == page_view(title@, active@, body@),
{
    let mut html = String::new();
    push_page_head(&mut html, title, active, body);
    html.append(PAGE_CLOSE);
    html
}

/// Like `page`, with the page's own script `js` after the shared script helpers.
pub fn page_with_js(title: &str, active: &str, body: &str, js: &str) -> (html: String)
    ensures
        html@ == page_with_js_view(title@, active@, body@, js@),
{
    let mut html = String::new();
    push_page_head(&mut html, title, active, body);
    html.append(SCRIPT_SEPARATOR);
    html.append(js);
    html.append(PAGE_CLOSE);
    html
}

/// The labels of the navigation bar differ from one another.
pub proof fn lemma_nav_labels_distinct(i: int, j: int)
    requires
        0 <= i < nav_entries().len(),
        0 <= j < nav_entries().len(),
        i != j,
    ensures
        nav_entries()[i].0 != nav_entries()[j].0,
{
    reveal_strlit("Dashboard");
    reveal_strlit("Nodes");
    reveal_strlit("Pods");
    reveal_strlit("Deployments");
    reveal_strlit("Networks");
    reveal_strlit("BMH");
    reveal_strlit("BootConfigs");
    reveal_strlit("Registries");
    reveal_strlit("Storage");
    reveal_strlit("Jobs");
    reveal_strlit("Logs");
    let a = nav_entries()[i].0;
    let b = nav_entries()[j].0;
    if a == b {
        assert(a.len() == b.len());
        assert(a[0] == b[0]);
    }
}

/// The navigation bar marks at most one link as the current one: the link whose label is
/// `active`, if there is one; a link is marked exactly when its label is `active`.
pub proof fn lemma_nav_marks_at_most_one(active: Seq<char>)
    ensures
        forall|i: int, j: int|
            0 <= i < nav_entries().len() && 0 <= j < nav_entries().len() && nav_entries()[i].0 == active
                && nav_entries()[j].0 == active ==> i == j,
{
    assert forall|i: int, j: int|
        0 <= i < nav_entries().len() && 0 <= j < nav_entries().len() && nav_entries()[i].0 == active
            && nav_entries()[j].0 == active implies i == j by {
        if i != j {
            lemma_nav_labels_distinct(i, j);
        }
    }
}

/// The navigation bar links, in this order, Dashboard, Nodes, Pods, Deployments, Networks, BMH,
/// BootConfigs, Registries, Storage, Jobs and Logs to their pages under `/ui/`; every section
/// that a page can name as `active` is one of these labels, so each page of a section marks
/// exactly the link of that section.
pub proof fn lemma_sections_in_nav()
    ensures
        nav_entries().len() == NAV_LEN,
        NAV_LEN == 11,
        nav_entries()[0] == ("Dashboard"@, "/ui/"@),
        SECTION_DASHBOARD@ == "Dashboard"@,
        nav_entries()[1] == ("Nodes"@, "/ui/nodes"@),
        SECTION_NODES@ == "Nodes"@,
        nav_entries()[2] == ("Pods"@, "/ui/pods"@),
        SECTION_PODS@ == "Pods"@,
        nav_entries()[3] == ("Deployments"@, "/ui/deployments"@),
        SECTION_DEPLOYMENTS@ == "Deployments"@,
        nav_entries()[4] == ("Networks"@, "/ui/networks"@),
        SECTION_NETWORKS@ == "Networks"@,
        nav_entries()[5] == ("BMH"@, "/ui/bmh"@),
        SECTION_BMH@ == "BMH"@,
        nav_entries()[6] == ("BootConfigs"@, "/ui/bootconfigs"@),
        SECTION_BOOTCONFIGS@ == "BootConfigs"@,
        nav_entries()[7] == ("Registries"@, "/ui/registries"@),
        SECTION_REGISTRIES@ == "Registries"@,
        nav_entries()[8] == ("Storage"@, "/ui/storage"@),
        SECTION_STORAGE@ == "Storage"@,
        nav_entries()[9] == ("Jobs"@, "/ui/jobs"@),
        SECTION_JOBS@ == "Jobs"@,
        nav_entries()[10] == ("Logs"@, "/ui/logs"@),
        SECTION_LOGS@ == "Logs"@,
{
}

/// The links of the navigation bar stand in the order of its entries, one per line.
pub proof fn lemma_nav_link_order(active: Seq<char>)
    ensures
        nav_links_view(active, nav_entries().len()) == nav_link_view("Dashboard"@, "/ui/"@, active) + "\n    "@
            + nav_link_view("Nodes"@, "/ui/nodes"@, active) + "\n    "@
            + nav_link_view("Pods"@, "/ui/pods"@, active) + "\n    "@
            + nav_link_view("Deployments"@, "/ui/deployments"@, active) + "\n    "@
            + nav_link_view("Networks"@, "/ui/networks"@, active) + "\n    "@
            + nav_link_view("BMH"@, "/ui/bmh"@, active) + "\n    "@
            + nav_link_view("BootConfigs"@, "/ui/bootconfigs"@, active) + "\n    "@
            + nav_link_view("Registries"@, "/ui/registries"@, active) + "\n    "@
            + nav_link_view("Storage"@, "/ui/storage"@, active) + "\n    "@
            + nav_link_view("Jobs"@, "/ui/jobs"@, active) + "\n    "@
            + nav_link_view("Logs"@, "/ui/logs"@, active),
{
    reveal_with_fuel(nav_links_view, 12);
    reveal_strlit("\n    ");
}

/// The first `n` links are the same for two sections that label no link.
proof fn lemma_nav_links_unmarked(a: Seq<char>, b: Seq<char>, n: nat)
    requires
        n <= nav_entries().len(),
        forall|i: int| 0 <= i < nav_entries().len() ==> nav_entries()[i].0 != a,
        forall|i: int| 0 <= i < nav_entries().len() ==> nav_entries()[i].0 != b,
    ensures
        nav_links_view(a, n) == nav_links_view(b, n),
    decreases n,
{
    if n > 1 {
        lemma_nav_links_unmarked(a, b, (n - 1) as nat);
    }
    if n > 0 {
        assert(nav_entries()[n - 1].0 != a);
        assert(nav_entries()[n - 1].0 != b);
        assert(nav_entry_link(n - 1, a) == nav_entry_link(n - 1, b));
        assert(nav_entries()[0].0 != a);
        assert(nav_entries()[0].0 != b);
        assert(nav_entry_link(0, a) == nav_entry_link(0, b));
    }
}

/// A page whose section labels no entry of the navigation bar marks no link: its navigation
/// bar is the same for every such section.
pub proof fn lemma_nav_unknown_section(a: Seq<char>, b: Seq<char>)
    requires
        forall|i: int| 0 <= i < nav_entries().len() ==> nav_entries()[i].0 != a,
        forall|i: int| 0 <= i < nav_entries().len() ==> nav_entries()[i].0 != b,
    ensures
        nav_view(a) == nav_view(b),
{
    lemma_nav_links_unmarked(a, b, nav_entries().len());
}

/// A page with its own script is the page without it, with a newline and the script
/// inserted before the closing of the scripts.
pub proof fn lemma_script_inserted_before_close(title: Seq<char>, active: Seq<char>, body: Seq<char>, js: Seq<char>)
    ensures
        page_view(title, active, body).len() >= PAGE_CLOSE@.len(),
        page_with_js_view(title, active, body, js) == page_view(title, active, body).subrange(
            0,
            page_view(title, active, body).len() - PAGE_CLOSE@.len(),
        ) + SCRIPT_SEPARATOR@ + js + PAGE_CLOSE@,
{
    let head = page_head_view(title, active, body);
    assert((head + PAGE_CLOSE@).subrange(0, head.len() as int) =~= head);
}

/// Whatever occurs in a page's own script occurs in the page.
pub proof fn lemma_page_embeds_script_text(title: Seq<char>, active: Seq<char>, body: Seq<char>, js: Seq<char>, text: Seq<char>)
    requires
        contains_text(js, text),
    ensures
        contains_text(page_with_js_view(title, active, body, js), text),
{
    lemma_page_holds_parts(title, active, body, js);
    lemma_contains_trans(page_with_js_view(title, active, body, js), js, text);
}

/// Whatever a page's script holds between a prefix and a suffix occurs in the page.
pub proof fn lemma_page_embeds_script_piece(
    title: Seq<char>,
    active: Seq<char>,
    body: Seq<char>,
    js: Seq<char>,
    prefix: Seq<char>,
    piece: Seq<char>,
    suffix: Seq<char>,
)
    requires
        js =~= prefix + piece + suffix,
    ensures
        contains_text(page_with_js_view(title, active, body, js), piece),
{
    lemma_contains_middle(prefix, piece, suffix);
    lemma_page_embeds_script_text(title, active, body, js, piece);
}

/// Every page names its title in the document's `<title>` element, after the word `console`.
pub proof fn lemma_page_title_element(title: Seq<char>, active: Seq<char>, body: Seq<char>, js: Seq<char>)
    ensures
        contains_text(page_with_js_view(title, active, body, js), "<title>console — "@ + title + "</title>"@),
        contains_text(page_view(title, active, body), "<title>console — "@ + title + "</title>"@),
{
    reveal_strlit("<!DOCTYPE html>\n<html>\n<head>\n<title>console — ");
    reveal_strlit("<!DOCTYPE html>\n<html>\n<head>\n");
    reveal_strlit("<title>console — ");
    reveal_strlit("</title>\n<meta charset=\"utf-8\">\n<meta name=\"viewport\" content=\"width=device-width, initial-scale=1\">\n<style>");
    reveal_strlit("</title>");
    reveal_strlit("\n<meta charset=\"utf-8\">\n<meta name=\"viewport\" content=\"width=device-width, initial-scale=1\">\n<style>");
    assert(PAGE_OPEN@ =~= "<!DOCTYPE html>\n<html>\n<head>\n"@ + "<title>console — "@);
    assert(PAGE_AFTER_TITLE@ =~= "</title>"@ + "\n<meta charset=\"utf-8\">\n<meta name=\"viewport\" content=\"width=device-width, initial-scale=1\">\n<style>"@);
    let element = "<title>console — "@ + title + "</title>"@;
    let before = "<!DOCTYPE html>\n<html>\n<head>\n"@;
    let after_tag = "\n<meta charset=\"utf-8\">\n<meta name=\"viewport\" content=\"width=device-width, initial-scale=1\">\n<style>"@;
    let page = page_with_js_view(title, active, body, js);
    let plain = page_view(title, active, body);
    let rest = page.subrange((PAGE_OPEN@.len() + title.len() + PAGE_AFTER_TITLE@.len()) as int, page.len() as int);
    let plain_rest = plain.subrange((PAGE_OPEN@.len() + title.len() + PAGE_AFTER_TITLE@.len()) as int, plain.len() as int);
    assert(page =~= before + element + (after_tag + rest));
    assert(plain =~= before + element + (after_tag + plain_rest));
    lemma_contains_middle(before, element, after_tag + rest);
    lemma_contains_middle(before, element, after_tag + plain_rest);
}

/// In every page the stylesheet stands inside the `<style>` element, and the document ends with
/// the body element: the navigation bar, the page's body inside the content `<div>`, and the
/// `<script>` element with the shared helpers followed by the page's own script.
pub proof fn lemma_page_element_placement(title: Seq<char>, active: Seq<char>, body: Seq<char>, js: Seq<char>)
    ensures
        contains_text(page_with_js_view(title, active, body, js), "<style>"@ + CSS@ + "</style>"@),
        ("<body>\n"@ + nav_view(active) + "\n<div class=\"content\">\n"@ + body + "\n</div>\n<script>\n"@ + ANSI_JS@
            + "\n"@ + js + "\n</script>\n</body>\n</html>"@).is_suffix_of(page_with_js_view(title, active, body, js)),
        ("<body>\n"@ + nav_view(active) + "\n<div class=\"content\">\n"@ + body + "\n</div>\n<script>\n"@ + ANSI_JS@
            + "\n</script>\n</body>\n</html>"@).is_suffix_of(page_view(title, active, body)),
{
    let after_title = "</title>\n<meta charset=\"utf-8\">\n<meta name=\"viewport\" content=\"width=device-width, initial-scale=1\">\n";
    reveal_strlit("</title>\n<meta charset=\"utf-8\">\n<meta name=\"viewport\" content=\"width=device-width, initial-scale=1\">\n<style>");
    reveal_strlit("</title>\n<meta charset=\"utf-8\">\n<meta name=\"viewport\" content=\"width=device-width, initial-scale=1\">\n");
    reveal_strlit("<style>");
    reveal_strlit("</style>\n</head>\n<body>\n");
    reveal_strlit("</style>");
    reveal_strlit("\n</head>\n");
    reveal_strlit("<body>\n");
    reveal_strlit("\n<div class=\"content\">\n");
    reveal_strlit("\n</div>\n<script>\n");
    reveal_strlit("\n");
    reveal_strlit("\n</script>\n</body>\n</html>");
    assert(PAGE_AFTER_TITLE@ =~= after_title@ + "<style>"@);
    assert(PAGE_AFTER_STYLE@ =~= "</style>"@ + "\n</head>\n"@ + "<body>\n"@);
    let page = page_with_js_view(title, active, body, js);
    let plain = page_view(title, active, body);
    let head = PAGE_OPEN@ + title + after_title@;
    let style = "<style>"@ + CSS@ + "</style>"@;
    let tail = "<body>\n"@ + nav_view(active) + "\n<div class=\"content\">\n"@ + body + "\n</div>\n<script>\n"@ + ANSI_JS@
        + "\n"@ + js + "\n</script>\n</body>\n</html>"@;
    let plain_tail = "<body>\n"@ + nav_view(active) + "\n<div class=\"content\">\n"@ + body + "\n</div>\n<script>\n"@
        + ANSI_JS@ + "\n</script>\n</body>\n</html>"@;
    assert(page =~= head + style + ("\n</head>\n"@ + tail));
    lemma_contains_middle(head, style, "\n</head>\n"@ + tail);
    let front = head + style + "\n</head>\n"@;
    assert(page =~= front + tail);
    assert(page.subrange(front.len() as int, page.len() as int) =~= tail);
    assert(plain =~= front + plain_tail);
    assert(plain.subrange(front.len() as int, plain.len() as int) =~= plain_tail);
}

/// Whatever a page's body holds between a prefix and a suffix occurs in the page.
pub proof fn lemma_page_embeds_body_piece(
    title: Seq<char>,
    active: Seq<char>,
    body: Seq<char>,
    js: Seq<char>,
    prefix: Seq<char>,
    piece: Seq<char>,
    suffix: Seq<char>,
)
    requires
        body =~= prefix + piece + suffix,
    ensures
        contains_text(page_with_js_view(title, active, body, js), piece),
{
    lemma_contains_middle(prefix, piece, suffix);
    lemma_page_embeds_body_text(title, active, body, js, piece);
}

/// The first `n` links hold the link of every entry before `n`.
proof fn lemma_nav_links_hold_entry(active: Seq<char>, n: nat, i: int)
    requires
        0 <= i < n <= nav_entries().len(),
    ensures
        contains_text(nav_links_view(active, n), nav_entry_link(i, active)),
    decreases n,
{
    let link = nav_entry_link(i, active);
    if n == 1 {
        assert(nav_links_view(active, n) =~= Seq::<char>::empty() + link + Seq::<char>::empty());
        lemma_contains_middle(Seq::empty(), link, Seq::empty());
    } else if i == n - 1 {
        let head = nav_links_view(active, (n - 1) as nat) + NAV_LINK_SEPARATOR@;
        assert(nav_links_view(active, n) =~= head + link + Seq::<char>::empty());
        lemma_contains_middle(head, link, Seq::empty());
    } else {
        lemma_nav_links_hold_entry(active, (n - 1) as nat, i);
        let tail = NAV_LINK_SEPARATOR@ + nav_entry_link(n - 1, active);
        let links = nav_links_view(active, (n - 1) as nat);
        assert(nav_links_view(active, n) =~= Seq::<char>::empty() + links + tail);
        lemma_contains_middle(Seq::empty(), links, tail);
        lemma_contains_trans(nav_links_view(active, n), links, link);
    }
}

/// The navigation bar holds, for every entry, a link `<a href="ADDRESS">LABEL</a>` to the
/// entry's address, labelled with the entry's label, with `class="active"` exactly on the
/// entry labelled `active`.
pub proof fn lemma_nav_links_every_entry(active: Seq<char>, i: int)
    requires
        0 <= i < nav_entries().len(),
    ensures
        contains_text(
            nav_view(active),
            "<a href=\""@ + nav_entries()[i].1 + "\""@ + (if nav_entries()[i].0 == active {
                " class=\"active\""@
            } else {
                Seq::empty()
            }) + ">"@ + nav_entries()[i].0 + "</a>"@,
        ),
{
    reveal_strlit("<a href=\"");
    reveal_strlit("\"");
    reveal_strlit(" class=\"active\"");
    reveal_strlit(">");
    reveal_strlit("</a>");
    let link = nav_entry_link(i, active);
    assert(link =~= "<a href=\""@ + nav_entries()[i].1 + "\""@ + (if nav_entries()[i].0 == active {
        " class=\"active\""@
    } else {
        Seq::empty()
    }) + ">"@ + nav_entries()[i].0 + "</a>"@);
    lemma_nav_links_hold_entry(active, nav_entries().len(), i);
    let links = nav_links_view(active, nav_entries().len());
    lemma_contains_middle(NAV_OPEN@, links, NAV_CLOSE@);
    lemma_contains_trans(nav_view(active), links, link);
}

/// Whatever occurs in a page's body occurs in the page.
pub proof fn lemma_page_embeds_body_text(title: Seq<char>, active: Seq<char>, body: Seq<char>, js: Seq<char>, text: Seq<char>)
    requires
        contains_text(body, text),
    ensures
        contains_text(page_with_js_view(title, active, body, js), text),
{
    lemma_page_holds_parts(title, active, body, js);
    lemma_contains_trans(page_with_js_view(title, active, body, js), body, text);
}

/// A page holds its title, the stylesheet, its navigation bar, its body, the shared script
/// helpers and its own script, each as one contiguous piece.
pub proof fn lemma_page_holds_parts(title: Seq<char>, active: Seq<char>, body: Seq<char>, js: Seq<char>)
    ensures
        contains_text(page_with_js_view(title, active, body, js), title),
        contains_text(page_with_js_view(title, active, body, js), CSS@),
        contains_text(page_with_js_view(title, active, body, js), nav_view(active)),
        contains_text(page_with_js_view(title, active, body, js), body),
        contains_text(page_with_js_view(title, active, body, js), ANSI_JS@),
        contains_text(page_with_js_view(title, active, body, js), js),
        contains_text(page_view(title, active, body), title),
        contains_text(page_view(title, active, body), nav_view(active)),
        contains_text(page_view(title, active, body), body),
{
    let page = page_with_js_view(title, active, body, js);
    let plain = page_view(title, active, body);
    let p0 = PAGE_OPEN@;
    let p1 = p0 + title;
    let p2 = p1 + PAGE_AFTER_TITLE@;
    let p3 = p2 + CSS@;
    let p4 = p3 + PAGE_AFTER_STYLE@;
    let p5 = p4 + nav_view(active);
    let p6 = p5 + PAGE_AFTER_NAV@;
    let p7 = p6 + body;
    let p8 = p7 + PAGE_AFTER_BODY@;
    let p9 = p8 + ANSI_JS@;
    let p10 = p9 + SCRIPT_SEPARATOR@;
    let p11 = p10 + js;
    assert(page == p11 + PAGE_CLOSE@);
    assert(plain == p9 + PAGE_CLOSE@);
    assert(page =~= p0 + title + (page.subrange(p1.len() as int, page.len() as int)));
    lemma_contains_middle(p0, title, page.subrange(p1.len() as int, page.len() as int));
    lemma_contains_middle(p0, title, plain.subrange(p1.len() as int, plain.len() as int));
    assert(plain =~= p0 + title + (plain.subrange(p1.len() as int, plain.len() as int)));
    assert(page =~= p2 + CSS@ + page.subrange(p3.len() as int, page.len() as int));
    lemma_contains_middle(p2, CSS@, page.subrange(p3.len() as int, page.len() as int));
    assert(page =~= p4 + nav_view(active) + page.subrange(p5.len() as int, page.len() as int));
    lemma_contains_middle(p4, nav_view(active), page.subrange(p5.len() as int, page.len() as int));
    assert(plain =~= p4 + nav_view(active) + plain.subrange(p5.len() as int, plain.len() as int));
    lemma_contains_middle(p4, nav_view(active), plain.subrange(p5.len() as int, plain.len() as int));
    assert(page =~= p6 + body + page.subrange(p7.len() as int, page.len() as int));
    lemma_contains_middle(p6, body, page.subrange(p7.len() as int, page.len() as int));
    assert(plain =~= p6 + body + plain.subrange(p7.len() as int, plain.len() as int));
    lemma_contains_middle(p6, body, plain.subrange(p7.len() as int, plain.len() as int));
    assert(page =~= p8 + ANSI_JS@ + page.subrange(p9.len() as int, page.len() as int));
    lemma_contains_middle(p8, ANSI_JS@, page.subrange(p9.len() as int, page.len() as int));
    assert(page =~= p10 + js + PAGE_CLOSE@);
    lemma_contains_middle(p10, js, PAGE_CLOSE@);
}

} // verus!
