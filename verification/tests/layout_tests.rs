use console::ui::layout::{nav_html, page, page_with_js, NAV_LEN};
use console::ui::style::{ansi_js, css};

fn expected_nav(active: &str) -> String {
    let links = [
        ("Dashboard", "/ui/"),
        ("Nodes", "/ui/nodes"),
        ("Pods", "/ui/pods"),
        ("Deployments", "/ui/deployments"),
        ("Networks", "/ui/networks"),
        ("BMH", "/ui/bmh"),
        ("BootConfigs", "/ui/bootconfigs"),
        ("Registries", "/ui/registries"),
        ("Storage", "/ui/storage"),
        ("Jobs", "/ui/jobs"),
        ("Logs", "/ui/logs"),
    ];
    let links_html: String = links
        .iter()
        .map(|(label, href)| {
            let cls = if *label == active { " class=\"active\"" } else { "" };
            format!(r#"<a href="{href}"{cls}>{label}</a>"#)
        })
        .collect::<Vec<_>>()
        .join("\n    ");
    format!(
        r#"<nav>
  <span class="brand">console</span>
  <div class="links">
    {links_html}
  </div>
  <span style="margin-left:auto;font-size:12px;color:#888;font-weight:500">mkube cluster</span>
</nav>"#
    )
}

#[test]
fn nav_matches_expected_markup() {
    assert_eq!(nav_html("Nodes"), expected_nav("Nodes"));
    assert_eq!(nav_html("Registries"), expected_nav("Registries"));
    assert_eq!(nav_html(""), expected_nav(""));
}

#[test]
fn nav_first_link_exact() {
    let nav = nav_html("Dashboard");
    assert!(nav.starts_with("<nav>\n  <span class=\"brand\">console</span>\n  <div class=\"links\">\n    <a href=\"/ui/\" class=\"active\">Dashboard</a>\n    <a href=\"/ui/nodes\">Nodes</a>"));
    assert!(nav.ends_with("<a href=\"/ui/logs\">Logs</a>\n  </div>\n  <span style=\"margin-left:auto;font-size:12px;color:#888;font-weight:500\">mkube cluster</span>\n</nav>"));
}

#[test]
fn nav_marks_exactly_the_active_link() {
    for label in ["Dashboard", "Nodes", "Pods", "Deployments", "Networks", "BMH", "BootConfigs", "Registries", "Storage", "Jobs", "Logs"] {
        let nav = nav_html(label);
        assert_eq!(nav.matches(" class=\"active\"").count(), 1, "{label}");
        assert!(nav.contains(&format!(" class=\"active\">{label}</a>")));
    }
    assert_eq!(NAV_LEN, 11);
}

#[test]
fn nav_marks_nothing_for_unknown_section() {
    assert_eq!(nav_html("Terminal").matches("class=\"active\"").count(), 0);
    assert_eq!(nav_html("Terminal"), nav_html("Nowhere"));
    assert_eq!(nav_html("nodes"), nav_html(""));
}

#[test]
fn nav_links_all_sections() {
    let nav = nav_html("");
    assert_eq!(nav.matches("<a href=").count(), 11);
    assert!(nav.contains("<a href=\"/ui/bootconfigs\">BootConfigs</a>\n    <a href=\"/ui/registries\">Registries</a>"));
}

#[test]
fn page_exact_frame() {
    let html = page("Nodes", "Nodes", "<p>hi</p>");
    let expected = format!(
        "<!DOCTYPE html>\n<html>\n<head>\n<title>console — Nodes</title>\n<meta charset=\"utf-8\">\n<meta name=\"viewport\" content=\"width=device-width, initial-scale=1\">\n<style>{}</style>\n</head>\n<body>\n{}\n<div class=\"content\">\n<p>hi</p>\n</div>\n<script>\n{}\n</script>\n</body>\n</html>",
        css(),
        nav_html("Nodes"),
        ansi_js()
    );
    assert_eq!(html, expected);
}

#[test]
fn page_with_js_exact_frame() {
    let html = page_with_js("T", "Pods", "B", "run();");
    let expected = format!(
        "<!DOCTYPE html>\n<html>\n<head>\n<title>console — T</title>\n<meta charset=\"utf-8\">\n<meta name=\"viewport\" content=\"width=device-width, initial-scale=1\">\n<style>{}</style>\n</head>\n<body>\n{}\n<div class=\"content\">\nB\n</div>\n<script>\n{}\nrun();\n</script>\n</body>\n</html>",
        css(),
        nav_html("Pods"),
        ansi_js()
    );
    assert_eq!(html, expected);
}

#[test]
fn script_goes_before_the_closing_of_the_scripts() {
    let plain = page("T", "Jobs", "body");
    let close = "\n</script>\n</body>\n</html>";
    assert!(plain.ends_with(close));
    let with_js = page_with_js("T", "Jobs", "body", "let x = 1;");
    let expected = format!("{}\nlet x = 1;{}", &plain[..plain.len() - close.len()], close);
    assert_eq!(with_js, expected);
}

#[test]
fn page_holds_its_parts() {
    let html = page_with_js("My Title", "Storage", "<b>body</b>", "js();");
    assert!(html.contains("My Title"));
    assert!(html.contains("<b>body</b>"));
    assert!(html.contains("js();"));
    assert!(html.contains(css()));
    assert!(html.contains(ansi_js()));
    assert!(html.contains(&nav_html("Storage")));
}

#[test]
fn style_contents() {
    assert!(css().starts_with("\n* { margin: 0; padding: 0; box-sizing: border-box; }"));
    assert!(css().ends_with(".kv-val { color: #e0e0e0; }\n"));
    assert!(css().contains(".badge-green { background: #1a4a2a; color: #50fa7b; }"));
    assert!(ansi_js().contains("function ansiToHtml(text) {"));
    assert!(ansi_js().contains("function statusBadge(s) {"));
    assert!(ansi_js().contains("function timeSince(dateStr) {"));
    assert!(ansi_js().contains("text = text.replace(/\\x1b\\[\\d*[ABCDHJ]/g, '');"));
}
