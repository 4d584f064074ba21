use o365_cli::paths::{
    get_cli_dir, get_legacy_cache_path, get_profile_path, get_project_root, get_worker_entry,
    is_cli_dir,
};

fn path(items: &[&str]) -> Vec<String> {
    items.iter().map(|s| s.to_string()).collect()
}

#[test]
fn cli_directory_is_told_by_its_last_component() {
    assert!(is_cli_dir(&path(&["/", "home", "proj", "cli"])));
    assert!(!is_cli_dir(&path(&["/", "home", "proj"])));
    assert!(!is_cli_dir(&path(&["/", "home", "cli", "src"])));
    assert!(!is_cli_dir(&path(&["/", "home", "mycli"])));
    assert!(!is_cli_dir(&path(&[])));
}

#[test]
fn worker_entry_is_the_same_from_both_directories() {
    let expected = path(&["/", "home", "proj", "core", "src", "index.ts"]);
    assert_eq!(get_worker_entry(&path(&["/", "home", "proj"])), expected);
    assert_eq!(get_worker_entry(&path(&["/", "home", "proj", "cli"])), expected);
}

#[test]
fn legacy_token_file_is_the_same_from_both_directories() {
    let expected = path(&["/", "home", "proj", "cli", ".o365_cli_token"]);
    assert_eq!(get_legacy_cache_path(&path(&["/", "home", "proj"])), expected);
    assert_eq!(get_legacy_cache_path(&path(&["/", "home", "proj", "cli"])), expected);
}

#[test]
fn profile_file_is_the_same_from_both_directories() {
    let expected = path(&["/", "home", "proj", "cli", ".o365_cli_profile.json"]);
    assert_eq!(get_profile_path(&path(&["/", "home", "proj"])), expected);
    assert_eq!(get_profile_path(&path(&["/", "home", "proj", "cli"])), expected);
}

#[test]
fn roots_and_cli_directories() {
    assert_eq!(get_project_root(&path(&["/", "cli"])), path(&["/"]));
    assert_eq!(get_project_root(&path(&["/", "a"])), path(&["/", "a"]));
    assert_eq!(get_cli_dir(&path(&["/", "a"])), path(&["/", "a", "cli"]));
    assert_eq!(get_cli_dir(&path(&["/", "a", "cli"])), path(&["/", "a", "cli"]));
    assert_eq!(get_cli_dir(&path(&[])), path(&["cli"]));
}
