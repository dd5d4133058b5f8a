use kffmpeg::error::ErrorKind;
use kffmpeg::path::{derive_output_path, unquote_string};

#[test]
fn output_path_of_absolute_input() {
    assert_eq!(
        derive_output_path("/videos/clip.mov", "_light", ".mp4"),
        Ok(String::from("/videos/clip_light.mp4"))
    );
}

#[test]
fn output_path_of_bare_file_name() {
    assert_eq!(derive_output_path("clip.mov", "_light", ".mp4"), Ok(String::from("clip_light.mp4")));
}

#[test]
fn output_path_in_root_directory() {
    assert_eq!(derive_output_path("/clip.mov", "_light", ".mp4"), Ok(String::from("/clip_light.mp4")));
}

#[test]
fn output_path_of_relative_input() {
    assert_eq!(
        derive_output_path("a/b/clip.mov", "_concat", ".mp4"),
        Ok(String::from("a/b/clip_concat.mp4"))
    );
    assert_eq!(derive_output_path("./clip.mov", "_x", ".mkv"), Ok(String::from("./clip_x.mkv")));
    assert_eq!(derive_output_path("../clip.mov", "_x", ".mkv"), Ok(String::from("../clip_x.mkv")));
}

#[test]
fn stem_ends_at_the_last_dot() {
    assert_eq!(
        derive_output_path("/v/archive.tar.gz", "_s", ".e"),
        Ok(String::from("/v/archive.tar_s.e"))
    );
    assert_eq!(derive_output_path("/v/clip.", "_s", ".e"), Ok(String::from("/v/clip_s.e")));
}

#[test]
fn stem_of_name_without_extension() {
    assert_eq!(derive_output_path("/v/clip", "_s", ".e"), Ok(String::from("/v/clip_s.e")));
}

#[test]
fn stem_of_hidden_file_is_the_whole_name() {
    assert_eq!(derive_output_path("/v/.hidden", "_s", ".e"), Ok(String::from("/v/.hidden_s.e")));
    assert_eq!(derive_output_path(".hidden.mov", "_s", ".e"), Ok(String::from(".hidden_s.e")));
}

#[test]
fn dots_in_directories_do_not_count() {
    assert_eq!(derive_output_path("/v.d/clip", "_s", ".e"), Ok(String::from("/v.d/clip_s.e")));
    assert_eq!(derive_output_path("/v.d/clip.mov", "_s", ".e"), Ok(String::from("/v.d/clip_s.e")));
}

#[test]
fn empty_suffix_and_extension() {
    assert_eq!(derive_output_path("/v/clip.mov", "", ""), Ok(String::from("/v/clip")));
    assert_eq!(derive_output_path("/v/clip.mov", "", ".mov"), Ok(String::from("/v/clip.mov")));
}

#[test]
fn output_path_keeps_wide_characters() {
    assert_eq!(
        derive_output_path("/vidéos/été.mov", "_léger", ".mp4"),
        Ok(String::from("/vidéos/été_léger.mp4"))
    );
}

#[test]
fn path_without_file_name_is_invalid() {
    assert_eq!(derive_output_path("", "_s", ".e"), Err(ErrorKind::InvalidInput));
    assert_eq!(derive_output_path("/", "_s", ".e"), Err(ErrorKind::InvalidInput));
    assert_eq!(derive_output_path("/videos/", "_s", ".e"), Err(ErrorKind::InvalidInput));
    assert_eq!(derive_output_path(".", "_s", ".e"), Err(ErrorKind::InvalidInput));
    assert_eq!(derive_output_path("..", "_s", ".e"), Err(ErrorKind::InvalidInput));
    assert_eq!(derive_output_path("/videos/.", "_s", ".e"), Err(ErrorKind::InvalidInput));
    assert_eq!(derive_output_path("/videos/..", "_s", ".e"), Err(ErrorKind::InvalidInput));
}

#[test]
fn names_made_of_dots_are_names() {
    assert_eq!(derive_output_path("...", "_s", ".e"), Ok(String::from(".._s.e")));
}

#[test]
fn double_quotes_are_stripped() {
    assert_eq!(unquote_string("\"/videos/clip.mov\""), "/videos/clip.mov");
}

#[test]
fn single_quotes_are_stripped() {
    assert_eq!(unquote_string("'/videos/clip.mov'"), "/videos/clip.mov");
}

#[test]
fn quoted_and_plain_path_resolve_alike() {
    assert_eq!(unquote_string("\"/videos/clip.mov\""), unquote_string("/videos/clip.mov"));
    assert_eq!(
        derive_output_path(&unquote_string("\"/videos/clip.mov\""), "_light", ".mp4"),
        derive_output_path("/videos/clip.mov", "_light", ".mp4")
    );
}

#[test]
fn unquoted_text_is_unchanged() {
    assert_eq!(unquote_string("/videos/clip.mov"), "/videos/clip.mov");
    assert_eq!(unquote_string(""), "");
    assert_eq!(unquote_string("it's"), "it's");
}

#[test]
fn only_one_layer_is_stripped() {
    assert_eq!(unquote_string("\"\"a\"\""), "\"a\"");
    assert_eq!(unquote_string("'\"a\"'"), "\"a\"");
}

#[test]
fn quotes_of_different_kinds_do_not_match() {
    assert_eq!(unquote_string("'a\""), "'a\"");
    assert_eq!(unquote_string("\"a'"), "\"a'");
}

#[test]
fn a_lone_quote_is_kept() {
    assert_eq!(unquote_string("\""), "\"");
    assert_eq!(unquote_string("'"), "'");
    assert_eq!(unquote_string("\"a"), "\"a");
    assert_eq!(unquote_string("a\""), "a\"");
}

#[test]
fn empty_quotes_give_empty_text() {
    assert_eq!(unquote_string("\"\""), "");
    assert_eq!(unquote_string("''"), "");
}

#[test]
fn quotes_inside_are_kept() {
    assert_eq!(unquote_string("'a'b'"), "a'b");
    assert_eq!(unquote_string("\"/my \"best\" clips/a.mov\""), "/my \"best\" clips/a.mov");
}

#[test]
fn other_marks_are_no_quotes() {
    assert_eq!(unquote_string("`a`"), "`a`");
    assert_eq!(unquote_string("«a»"), "«a»");
}

#[test]
fn agrees_with_the_standard_library_on_plain_paths() {
    let inputs = [
        "/videos/clip.mov",
        "clip.mov",
        "/clip.mov",
        "a/b/c/clip.final.mov",
        "./clip",
        "../up/.hidden",
        "/v/name.",
        "dir.with.dots/file",
        "/vidéos/été.mov",
    ];
    for input in inputs {
        let path = std::path::Path::new(input);
        let stem = path.file_stem().unwrap().to_str().unwrap().to_string();
        let expected = path.parent().unwrap().join(stem + "_light" + ".mp4");
        assert_eq!(
            derive_output_path(input, "_light", ".mp4"),
            Ok(expected.display().to_string())
        );
    }
}
