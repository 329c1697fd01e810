use std::collections::hash_map::DefaultHasher;
use std::hash::Hasher;
use std::path::{Path, PathBuf};

use async_tempfile::TempFile;
use transcode_rs::finalize::clobber_path;
use transcode_rs::paths::{eq_as_path, hash_as_path, recreate_subtree, AsPath, SubtreeError};

fn digest(path: &str) -> u64 {
    let mut hasher = DefaultHasher::new();
    hash_as_path(&PathBuf::from(path), &mut hasher);
    hasher.finish()
}

fn same(a: &str, b: &str) -> bool {
    eq_as_path(&PathBuf::from(a), &PathBuf::from(b))
}

#[test]
fn paths_are_equal_by_component() {
    assert!(same("a/b", "a/b"));
    assert!(same("a//b", "a/b"));
    assert!(same("a/./b/", "a/b"));
    assert!(!same("a/b", "a/c"));
    assert!(!same("/a/b", "a/b"));
    assert!(!same("./a", "a"));
    assert!(!same("a/../a", "a"));
}

#[test]
fn equal_paths_hash_alike() {
    assert_eq!(digest("a//b/"), digest("a/b"));
    assert_ne!(digest("a/b"), digest("a/c"));
}

#[test]
fn owned_path_is_found_by_itself() {
    let path = PathBuf::from("/videos/a.mp4");
    assert_eq!(AsPath::as_path(&path), Path::new("/videos/a.mp4"));
}

#[test]
fn subtree_is_mirrored() {
    let found = recreate_subtree(
        Path::new("/videos"),
        Path::new("/videos/shows/one/a.txt"),
        Path::new("/other"),
    )
    .unwrap();
    assert_eq!(found.file, Path::new("/other/shows/one/a.txt"));
    assert_eq!(found.dir, Path::new("/other/shows/one"));
}

#[test]
fn subtree_matches_whole_components() {
    let found = recreate_subtree(
        Path::new("/videos"),
        Path::new("/videos2/a.txt"),
        Path::new("/other"),
    );
    assert_eq!(found.unwrap_err(), SubtreeError::OutsideRoot);
}

#[test]
fn subtree_of_the_root_itself() {
    let found = recreate_subtree(
        Path::new("/videos"),
        Path::new("/videos"),
        Path::new("/other"),
    )
    .unwrap();
    assert_eq!(found.file, Path::new("/other"));
    assert_eq!(found.dir, Path::new("/"));
    let nowhere = recreate_subtree(Path::new("/videos"), Path::new("/videos"), Path::new("/"));
    assert_eq!(nowhere.unwrap_err(), SubtreeError::NoParent);
}

#[test]
fn empty_root_keeps_absolute_paths() {
    let found = recreate_subtree(Path::new(""), Path::new("/a/b"), Path::new("/other")).unwrap();
    assert_eq!(found.file, Path::new("/a/b"));
    let dotted = recreate_subtree(Path::new(""), Path::new("./a/b"), Path::new("/other")).unwrap();
    assert_eq!(dotted.file, Path::new("/other/a/b"));
    let both = recreate_subtree(Path::new(""), Path::new("./a/b"), Path::new("")).unwrap();
    assert_eq!(both.file, Path::new("./a/b"));
}

#[test]
fn different_files_are_mirrored_apart() {
    let root = Path::new("/videos");
    let dst = Path::new("/other");
    let one = recreate_subtree(root, Path::new("/videos/a/x.avi"), dst).unwrap();
    let two = recreate_subtree(root, Path::new("/videos/b/x.avi"), dst).unwrap();
    assert_ne!(one.file, two.file);
    let home = recreate_subtree(root, Path::new("/videos/a/x.avi"), root).unwrap();
    assert_eq!(home.file, Path::new("/videos/a/x.avi"));
}

#[test]
fn clobber_path_changes_the_extension_only() {
    assert_eq!(clobber_path(Path::new("/v/a.mp4")), Path::new("/v/a.mkv"));
    assert_eq!(clobber_path(Path::new("/v/a.b.mp4")), Path::new("/v/a.b.mkv"));
    assert_eq!(clobber_path(Path::new("/v/a.mkv")), Path::new("/v/a.mkv"));
    assert_eq!(clobber_path(Path::new("/v/a.MKV")), Path::new("/v/a.mkv"));
    assert_eq!(clobber_path(Path::new("/v/a")), Path::new("/v/a.mkv"));
    assert_eq!(clobber_path(Path::new("/v/a.")), Path::new("/v/a.mkv"));
    assert_eq!(clobber_path(Path::new("/v/.hidden")), Path::new("/v/.hidden.mkv"));
    assert_eq!(clobber_path(Path::new("/v/a.mp4/")), Path::new("/v/a.mkv"));
    assert_eq!(clobber_path(Path::new("/v/a.mp4/.")), Path::new("/v/a.mkv"));
    assert_eq!(clobber_path(Path::new("/v/...mp4")), Path::new("/v/...mkv"));
    assert_eq!(clobber_path(Path::new("/v/.a.mp4")), Path::new("/v/.a.mkv"));
    assert_eq!(clobber_path(Path::new("/v/..")), Path::new("/v/.."));
    assert_eq!(clobber_path(Path::new("/")), Path::new("/"));
}

#[test]
fn temporary_file_is_found_by_its_path() {
    let runtime = tokio::runtime::Builder::new_current_thread()
        .enable_all()
        .build()
        .unwrap();
    runtime.block_on(async {
        let file = TempFile::new().await.unwrap();
        let other = TempFile::new().await.unwrap();
        let path = file.file_path().clone();
        assert_eq!(AsPath::as_path(&file), path.as_path());
        assert!(eq_as_path(&file, &path));
        assert!(!eq_as_path(&other, &path));
        assert!(!eq_as_path(&file, &other));
    });
}
