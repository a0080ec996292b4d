use once_util::paths::{
    directories_in_path, directory_names_in_path, entries_in_path, entry_names_in_path,
    file_names_in_path, files_in_path, PathEntry,
};

fn entry(name: &str, is_dir: bool) -> PathEntry {
    PathEntry { name: name.to_string(), is_dir }
}

fn listing() -> Vec<PathEntry> {
    vec![entry("src", true), entry("a.txt", false), entry("target", true), entry("b.rs", false)]
}

fn shape(entries: &[PathEntry]) -> Vec<(String, bool)> {
    entries.iter().map(|e| (e.name.clone(), e.is_dir)).collect()
}

#[test]
fn entries_leave_the_root_out() {
    let mut walked = vec![entry("project", true)];
    walked.extend(listing());
    let entries = entries_in_path("project", true, walked).unwrap();
    assert_eq!(shape(&entries), shape(&listing()));
}

#[test]
fn entries_of_an_empty_walk() {
    assert_eq!(shape(&entries_in_path("x", true, Vec::new()).unwrap()), Vec::new());
    assert_eq!(shape(&entries_in_path("x", true, vec![entry("x", true)]).unwrap()), Vec::new());
}

#[test]
fn entries_of_a_missing_path() {
    let res = entries_in_path("no/such/dir", false, vec![entry("ghost", false)]);
    assert_eq!(res.err(), Some("Path does not exist: no/such/dir".to_string()));
}

#[test]
fn files_and_directories_keep_their_order() {
    let files = files_in_path(Ok(listing())).unwrap();
    assert_eq!(shape(&files), vec![("a.txt".to_string(), false), ("b.rs".to_string(), false)]);
    let dirs = directories_in_path(Ok(listing())).unwrap();
    assert_eq!(shape(&dirs), vec![("src".to_string(), true), ("target".to_string(), true)]);
}

#[test]
fn names_of_entries_files_and_directories() {
    assert_eq!(entry_names_in_path(Ok(listing())), Ok(vec![
        "src".to_string(), "a.txt".to_string(), "target".to_string(), "b.rs".to_string(),
    ]));
    assert_eq!(file_names_in_path(Ok(listing())), Ok(vec!["a.txt".to_string(), "b.rs".to_string()]));
    assert_eq!(directory_names_in_path(Ok(listing())), Ok(vec!["src".to_string(), "target".to_string()]));
    assert_eq!(entry_names_in_path(Ok(Vec::new())), Ok(Vec::new()));
    assert_eq!(file_names_in_path(Ok(vec![entry("d", true)])), Ok(Vec::new()));
    assert_eq!(directory_names_in_path(Ok(vec![entry("f", false)])), Ok(Vec::new()));
}

#[test]
fn errors_are_handed_on() {
    let error = "Path does not exist: gone".to_string();
    assert_eq!(files_in_path(Err(error.clone())).err(), Some(error.clone()));
    assert_eq!(directories_in_path(Err(error.clone())).err(), Some(error.clone()));
    assert_eq!(entry_names_in_path(Err(error.clone())), Err(error.clone()));
    assert_eq!(file_names_in_path(Err(error.clone())), Err(error.clone()));
    assert_eq!(directory_names_in_path(Err(error.clone())), Err(error));
}
