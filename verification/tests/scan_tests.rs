use git_viewer::errors::ScanError;
use git_viewer::scan::{scan, DirChild, DirListing};

fn child(path: &str, name: Option<&str>, is_dir: Option<bool>) -> DirChild {
    DirChild {
        path: path.to_owned(),
        name: name.map(|n| n.to_owned()),
        is_dir,
    }
}

#[test]
fn one_entry_per_subdirectory_none_per_file() {
    let listing = DirListing::Entries(vec![
        child("/srv/git/alpha", Some("alpha"), Some(true)),
        child("/srv/git/notes.txt", Some("notes.txt"), Some(false)),
        child("/srv/git/beta", Some("beta"), Some(true)),
    ]);
    let entries = scan(&listing).unwrap();
    assert_eq!(entries.len(), 2);
    assert_eq!(entries[0].name, "alpha");
    assert_eq!(entries[0].path, "/srv/git/alpha");
    assert_eq!(entries[1].name, "beta");
    assert_eq!(entries[1].path, "/srv/git/beta");
}

#[test]
fn empty_directory_yields_empty_sequence() {
    let listing = DirListing::Entries(vec![]);
    let entries = scan(&listing).unwrap();
    assert!(entries.is_empty());
}

#[test]
fn missing_root_fails_with_scan_error() {
    let r = scan(&DirListing::Missing);
    assert_eq!(r.unwrap_err(), ScanError::RootMissing);
}

#[test]
fn non_directory_root_fails_with_scan_error() {
    let r = scan(&DirListing::NotDirectory);
    assert_eq!(r.unwrap_err(), ScanError::RootNotDirectory);
}

#[test]
fn unreadable_root_fails_with_scan_error() {
    let r = scan(&DirListing::Unreadable);
    assert_eq!(r.unwrap_err(), ScanError::RootUnreadable);
}

#[test]
fn unreadable_child_aborts_whole_scan() {
    let listing = DirListing::Entries(vec![
        child("/srv/git/alpha", Some("alpha"), Some(true)),
        child("/srv/git/ghost", Some("ghost"), None),
    ]);
    assert_eq!(scan(&listing).unwrap_err(), ScanError::ChildUnreadable);
}

#[test]
fn undecodable_name_is_skipped_not_fatal() {
    let listing = DirListing::Entries(vec![
        child("/srv/git/odd", None, Some(true)),
        child("/srv/git/beta", Some("beta"), Some(true)),
    ]);
    let entries = scan(&listing).unwrap();
    assert_eq!(entries.len(), 1);
    assert_eq!(entries[0].name, "beta");
}
