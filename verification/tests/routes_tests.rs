use git_viewer::routes::{route_of, should_record, Route, TelemetryScope};

#[test]
fn root_goes_to_the_index() {
    assert!(matches!(route_of("/"), Route::Index));
}

#[test]
fn repository_path_goes_to_the_detail_page() {
    match route_of("/repo/alpha") {
        Route::Repo(name) => assert_eq!(name, "alpha"),
        _ => panic!("expected the repository route"),
    }
}

#[test]
fn parent_reference_is_rejected_before_filesystem_access() {
    assert!(matches!(route_of("/repo/.."), Route::Rejected));
    assert!(matches!(route_of("/repo/."), Route::Rejected));
    assert!(matches!(route_of("/repo/../etc"), Route::Rejected));
    assert!(matches!(route_of("/repo/a/b"), Route::Rejected));
    assert!(matches!(route_of("/repo/"), Route::Rejected));
}

#[test]
fn other_paths_go_to_asset_lookup_unchanged() {
    match route_of("/style.css") {
        Route::Asset(p) => assert_eq!(p, "/style.css"),
        _ => panic!("expected asset lookup"),
    }
    match route_of("/repo") {
        Route::Asset(p) => assert_eq!(p, "/repo"),
        _ => panic!("expected asset lookup"),
    }
}

#[test]
fn telemetry_scope_decides_which_routes_are_recorded() {
    let index = Route::Index;
    let asset = Route::Asset("/style.css".to_owned());
    assert!(should_record(TelemetryScope::AllRequests, &index));
    assert!(should_record(TelemetryScope::AllRequests, &asset));
    assert!(should_record(TelemetryScope::PageRoutesOnly, &index));
    assert!(!should_record(TelemetryScope::PageRoutesOnly, &asset));
}

#[test]
fn dotted_names_inside_a_segment_are_allowed() {
    match route_of("/repo/my.repo") {
        Route::Repo(name) => assert_eq!(name, "my.repo"),
        _ => panic!("expected the repository route"),
    }
}
