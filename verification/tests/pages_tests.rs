use git_viewer::errors::AppError;
use git_viewer::pages::{
    footer, readme_fallback, render_detail, render_detail_doc, render_index, render_index_doc,
    repo_card,
};
use git_viewer::readme::ReadmeOutcome;
use git_viewer::scan::RepositoryEntry;
use git_viewer::text::{html_escape, u64_to_string};
use git_viewer::visits::VisitAggregate;

fn entry(name: &str, path: &str) -> RepositoryEntry {
    RepositoryEntry {
        name: name.to_owned(),
        path: path.to_owned(),
    }
}

#[test]
fn decimal_rendering_is_exact() {
    assert_eq!(u64_to_string(0), "0");
    assert_eq!(u64_to_string(7), "7");
    assert_eq!(u64_to_string(407), "407");
    assert_eq!(u64_to_string(1000000), "1000000");
    assert_eq!(u64_to_string(u64::MAX), "18446744073709551615");
}

#[test]
fn escaping_replaces_markup_characters() {
    assert_eq!(html_escape("<script>"), "&lt;script&gt;");
    assert_eq!(html_escape("a&b\"c"), "a&amp;b&quot;c");
    assert_eq!(html_escape("plain-name_1"), "plain-name_1");
}

#[test]
fn footer_shows_count_and_placeholder_when_no_visit_exists() {
    let f = footer(0, None);
    assert!(f.contains("Last visited: <span class=\"faded\">never</span>"));
    assert!(f.contains("Total visits: <span class=\"faded\">0</span>"));
}

#[test]
fn footer_shows_escaped_timestamp_text() {
    let f = footer(3, Some("01/02/2003 04:05"));
    assert!(f.contains("Last visited: <span class=\"faded\">01/02/2003 04:05</span>"));
    assert!(f.contains("Total visits: <span class=\"faded\">3</span>"));
}

#[test]
fn repo_card_links_name_and_path() {
    let c = repo_card(&entry("alpha", "/srv/git/alpha"));
    assert_eq!(
        c,
        "<a href=\"/repo/alpha\"><div class=\"repo-card\"><h3>alpha</h3><p>/srv/git/alpha</p></div></a>"
    );
}

#[test]
fn script_named_directory_is_escaped_on_the_index_page() {
    let entries = vec![entry("<script>", "/srv/git/<script>")];
    let doc = render_index_doc(&entries, 1, None);
    assert!(!doc.contains("<script>"));
    assert!(doc.contains("&lt;script&gt;"));
}

#[test]
fn index_lists_every_entry() {
    let entries = vec![entry("a", "/srv/git/a"), entry("b", "/srv/git/b")];
    let doc = render_index_doc(&entries, 2, Some("01/01/2024 00:00"));
    assert!(doc.contains("<h3>a</h3>"));
    assert!(doc.contains("<h3>b</h3>"));
    assert!(doc.contains("Total visits: <span class=\"faded\">2</span>"));
}

#[test]
fn detail_page_contains_clone_line_and_escaped_title() {
    let doc = render_detail_doc(
        "my-repo",
        "git@host:",
        &ReadmeOutcome::NotFound,
        1,
        None,
    );
    assert!(doc.contains("git clone git@host:my-repo"));
    assert!(doc.contains("<h2>my-repo</h2>"));
    assert!(doc.contains("No readme"));
}

#[test]
fn detail_page_escapes_a_hostile_name() {
    let doc = render_detail_doc(
        "<script>",
        "git@host:",
        &ReadmeOutcome::NotFound,
        0,
        None,
    );
    assert!(!doc.contains("<script>"));
    assert!(doc.contains("<h2>&lt;script&gt;</h2>"));
}

#[test]
fn a_recorded_visit_renders_a_formatted_timestamp_not_the_placeholder() {
    let agg = VisitAggregate {
        total_count: 2,
        latest_timestamp: Some(1_700_000_000_000),
    };
    let entries = vec![entry("a", "/srv/git/a")];
    let doc = render_index(&entries, &agg);
    assert!(doc.contains("Total visits: <span class=\"faded\">2</span>"));
    assert!(!doc.contains(">never<"));
    let detail = render_detail("a", "git@host:", &ReadmeOutcome::NotFound, &agg);
    // the formatted text is day/month/year hour:minute in machine-local time
    assert!(detail.contains("/2023 "));
}

#[test]
fn fallback_block_is_the_no_readme_markup() {
    assert_eq!(readme_fallback(), "<div><p>No readme</p></div>");
}

#[test]
fn error_response_body_is_generic_and_keeps_detail_out_of_band() {
    let e = AppError::new("repository root does not exist".to_owned());
    assert_eq!(e.response_body(), "Something went wrong");
    assert!(!e.response_body().contains("root"));
    assert_eq!(e.detail, "repository root does not exist");
}
