//! End-to-end composition: route dispatch, index and detail pages built from
//! one simulated repository root holding `a` (with a README) and `b` (without).

use git_viewer::pages::{index, repo};
use git_viewer::readme::ReadmeSource;
use git_viewer::routes::{route_of, Route};
use git_viewer::scan::{DirChild, DirListing};
use git_viewer::visits::{make_visit_event, VisitStore};

fn root_listing() -> DirListing {
    DirListing::Entries(vec![
        DirChild {
            path: "/srv/git/a".to_owned(),
            name: Some("a".to_owned()),
            is_dir: Some(true),
        },
        DirChild {
            path: "/srv/git/b".to_owned(),
            name: Some("b".to_owned()),
            is_dir: Some(true),
        },
    ])
}

#[test]
fn index_lists_both_repositories() {
    let mut store = VisitStore::new();
    store.record(make_visit_event("/", 100)).unwrap();
    let agg = store.aggregate().unwrap();
    assert!(matches!(route_of("/"), Route::Index));
    let doc = index(&root_listing(), &agg).unwrap();
    assert!(doc.contains("<h3>a</h3>"));
    assert!(doc.contains("<h3>b</h3>"));
    assert!(doc.contains("Total visits: <span class=\"faded\">1</span>"));
}

#[test]
fn detail_of_a_embeds_its_rendered_markdown() {
    let store = VisitStore::new();
    let agg = store.aggregate().unwrap();
    match route_of("/repo/a") {
        Route::Repo(name) => {
            let doc = repo(
                &name,
                "git@host:",
                &ReadmeSource::Content("# A".to_owned()),
                &agg,
            )
            .unwrap();
            assert!(doc.contains("<h1>A</h1>"));
            assert!(doc.contains("git clone git@host:a"));
        }
        _ => panic!("expected the repository route"),
    }
}

#[test]
fn detail_of_b_shows_the_fallback() {
    let store = VisitStore::new();
    let agg = store.aggregate().unwrap();
    let doc = repo("b", "git@host:", &ReadmeSource::Absent, &agg).unwrap();
    assert!(doc.contains("No readme"));
    assert!(doc.contains("Last visited: <span class=\"faded\">never</span>"));
}

#[test]
fn detail_of_a_missing_repository_still_renders_with_the_fallback() {
    let store = VisitStore::new();
    let agg = store.aggregate().unwrap();
    let doc = repo("missing", "git@host:", &ReadmeSource::Absent, &agg).unwrap();
    assert!(doc.contains("<h2>missing</h2>"));
    assert!(doc.contains("No readme"));
}

#[test]
fn index_surfaces_a_scan_failure_as_a_page_level_error() {
    let store = VisitStore::new();
    let agg = store.aggregate().unwrap();
    let err = index(&DirListing::Missing, &agg).unwrap_err();
    assert_eq!(err.detail, "repository root does not exist");
    assert_eq!(err.response_body(), "Something went wrong");
}
