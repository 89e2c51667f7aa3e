use logo_embedder::output_path::join;
use logo_embedder::output_path::resolve;
use logo_embedder::output_path::PathError;

#[test]
fn output_beside_the_source() {
    assert_eq!(resolve("/a/b/clip.mov", None), Ok("/a/b/clip-com-logo.mp4".to_string()));
}

#[test]
fn output_in_chosen_directory() {
    assert_eq!(resolve("/a/b/clip.mov", Some("/x")), Ok("/x/clip-com-logo.mp4".to_string()));
}

#[test]
fn resolving_twice_gives_the_same_path() {
    let first = resolve("/a/b/clip.mov", None);
    let second = resolve("/a/b/clip.mov", None);
    assert_eq!(first, second);
    let first = resolve("videos/holiday.avi", Some("out"));
    let second = resolve("videos/holiday.avi", Some("out"));
    assert_eq!(first, second);
    assert_eq!(first, Ok("out/holiday-com-logo.mp4".to_string()));
}

#[test]
fn bare_file_name() {
    assert_eq!(resolve("clip.mov", None), Ok("clip-com-logo.mp4".to_string()));
    assert_eq!(resolve("clip", None), Ok("clip-com-logo.mp4".to_string()));
}

#[test]
fn only_the_last_extension_is_dropped() {
    assert_eq!(resolve("/v/my.clip.mov", None), Ok("/v/my.clip-com-logo.mp4".to_string()));
    assert_eq!(resolve("/v.d/clip", None), Ok("/v.d/clip-com-logo.mp4".to_string()));
}

#[test]
fn leading_dot_is_no_extension() {
    assert_eq!(resolve("/v/.hidden", None), Ok("/v/.hidden-com-logo.mp4".to_string()));
    assert_eq!(resolve("/v/.hidden.mov", None), Ok("/v/.hidden-com-logo.mp4".to_string()));
    assert_eq!(resolve("/v/clip.", None), Ok("/v/clip-com-logo.mp4".to_string()));
}

#[test]
fn trailing_separators_are_set_aside() {
    assert_eq!(resolve("/a/b/clip.mov/", None), Ok("/a/b/clip-com-logo.mp4".to_string()));
    assert_eq!(resolve("/a/b/clip.mov//", Some("/x/")), Ok("/x/clip-com-logo.mp4".to_string()));
}

#[test]
fn file_in_the_root() {
    assert_eq!(resolve("/clip.mov", None), Ok("/clip-com-logo.mp4".to_string()));
}

#[test]
fn directory_forms() {
    assert_eq!(resolve("a/clip.mov", Some("")), Ok("clip-com-logo.mp4".to_string()));
    assert_eq!(resolve("a/clip.mov", Some("/")), Ok("/clip-com-logo.mp4".to_string()));
    assert_eq!(resolve("a/clip.mov", Some("x/y")), Ok("x/y/clip-com-logo.mp4".to_string()));
}

#[test]
fn names_beyond_ascii() {
    assert_eq!(
        resolve("/vídeos/férias.mov", Some("/saída")),
        Ok("/saída/férias-com-logo.mp4".to_string())
    );
    assert_eq!(resolve("/vídeos/férias.mov", None), Ok("/vídeos/férias-com-logo.mp4".to_string()));
}

#[test]
fn paths_without_a_file_name() {
    assert_eq!(resolve("", None), Err(PathError::InvalidPath));
    assert_eq!(resolve("/", None), Err(PathError::InvalidPath));
    assert_eq!(resolve("///", Some("/x")), Err(PathError::InvalidPath));
    assert_eq!(resolve("/a/..", None), Err(PathError::InvalidPath));
    assert_eq!(resolve("..", None), Err(PathError::InvalidPath));
    assert_eq!(resolve(".", None), Err(PathError::InvalidPath));
    assert_eq!(resolve("/a/./", None), Err(PathError::InvalidPath));
}

#[test]
fn three_dots_are_a_name() {
    assert_eq!(resolve("/a/...", None), Ok("/a/..-com-logo.mp4".to_string()));
}

#[test]
fn joining_directory_and_name() {
    assert_eq!(join("/tmp", "a.png"), "/tmp/a.png");
    assert_eq!(join("/tmp/", "a.png"), "/tmp/a.png");
    assert_eq!(join("", "a.png"), "a.png");
    assert_eq!(join("/", "a.png"), "/a.png");
}
