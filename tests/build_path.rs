use cargo_remote::build_path::{build_path, remote_dir_for_hash};
use std::collections::hash_map::DefaultHasher;
use std::hash::{Hash, Hasher};

#[test]
fn build_path_is_deterministic() {
    assert_eq!(build_path("/home/me/project"), build_path("/home/me/project"));
}

#[test]
fn build_path_differs_between_projects() {
    assert_ne!(build_path("/home/me/project"), build_path("/home/me/other"));
}

#[test]
fn build_path_shape() {
    let p = build_path("/home/me/project");
    assert!(p.starts_with("~/remote-builds/"));
    assert!(p.ends_with('/'));
    let digits = &p["~/remote-builds/".len()..p.len() - 1];
    assert!(!digits.is_empty());
    assert!(digits.chars().all(|c| c.is_ascii_digit()));
    let mut hasher = DefaultHasher::new();
    std::path::Path::new("/home/me/project").hash(&mut hasher);
    assert_eq!(p, format!("~/remote-builds/{}/", hasher.finish()));
}

#[test]
fn remote_dir_for_hash_formats() {
    assert_eq!(remote_dir_for_hash(123), "~/remote-builds/123/");
    assert_eq!(remote_dir_for_hash(0), "~/remote-builds/0/");
}
