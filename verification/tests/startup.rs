use kffmpeg::args::{Args, Mode};
use kffmpeg::config::{Command, Config};
use kffmpeg::error::ErrorKind;
use kffmpeg::hash::get_hash;
use kffmpeg::startup_checker::StartupChecker;

fn config() -> Config {
    Config {
        ffmpeg_path: String::from("/usr/bin/ffmpeg"),
        commands: vec![Command {
            title: String::from("Make video lighter"),
            options: Vec::new(),
            output_extension: String::from(".mp4"),
            output_filename_suffix: String::from("_light"),
            command: vec![String::from("{{ffmpeg_path}}")],
        }],
    }
}

fn checker(hash: Option<&str>, input_path: Option<&str>) -> StartupChecker {
    StartupChecker {
        args: Args {
            config: false,
            hash: hash.map(|s| s.to_string()),
            input_path: input_path.map(|s| s.to_string()),
        },
        config: Some(config()),
        should_use_ffmpeg_path_field: None,
    }
}

fn known_code() -> String {
    get_hash(String::from("Make video lighter"))
}

#[test]
fn no_arguments_select_the_interactive_mode() {
    assert_eq!(checker(None, None).check_args(false), Ok(Mode::Interactive));
    assert_eq!(checker(None, None).check_args(true), Ok(Mode::Interactive));
}

#[test]
fn hash_alone_is_a_usage_error() {
    let code = known_code();
    assert_eq!(checker(Some(&code), None).check_args(true), Err(ErrorKind::UsageError));
    assert_eq!(checker(Some(&code), None).check_args(false), Err(ErrorKind::UsageError));
}

#[test]
fn input_path_alone_is_a_usage_error() {
    assert_eq!(checker(None, Some("/v/clip.mov")).check_args(true), Err(ErrorKind::UsageError));
    assert_eq!(checker(None, Some("/v/clip.mov")).check_args(false), Err(ErrorKind::UsageError));
}

#[test]
fn known_hash_and_existing_file_select_the_scripted_mode() {
    let code = known_code();
    assert_eq!(checker(Some(&code), Some("/v/clip.mov")).check_args(true), Ok(Mode::Scripted));
}

#[test]
fn unknown_hash_is_not_found() {
    assert_eq!(
        checker(Some("ffffffff"), Some("/v/clip.mov")).check_args(true),
        Err(ErrorKind::NotFound)
    );
}

#[test]
fn unknown_hash_is_reported_before_a_missing_file() {
    assert_eq!(
        checker(Some("ffffffff"), Some("/v/clip.mov")).check_args(false),
        Err(ErrorKind::NotFound)
    );
}

#[test]
fn missing_file_is_invalid_input() {
    let code = known_code();
    assert_eq!(
        checker(Some(&code), Some("/v/clip.mov")).check_args(false),
        Err(ErrorKind::InvalidInput)
    );
}

#[test]
fn without_a_configuration_no_hash_is_known() {
    let code = known_code();
    let mut checker = checker(Some(&code), Some("/v/clip.mov"));
    checker.config = None;
    assert_eq!(checker.check_args(true), Err(ErrorKind::NotFound));
    checker.args.hash = None;
    checker.args.input_path = None;
    assert_eq!(checker.check_args(true), Ok(Mode::Interactive));
}

#[test]
fn executable_on_the_search_path_is_preferred() {
    for at_configured_path in [false, true] {
        let mut checker = checker(None, None);
        assert!(checker.check_ffmpeg_executable(true, at_configured_path));
        assert_eq!(checker.should_use_ffmpeg_path_field, Some(false));
    }
}

#[test]
fn configured_executable_is_the_fallback() {
    let mut checker = checker(None, None);
    assert!(checker.check_ffmpeg_executable(false, true));
    assert_eq!(checker.should_use_ffmpeg_path_field, Some(true));
}

#[test]
fn no_executable_anywhere_fails_the_check() {
    let mut checker = checker(None, None);
    assert!(!checker.check_ffmpeg_executable(false, false));
    assert_eq!(checker.should_use_ffmpeg_path_field, Some(true));
}

#[test]
fn executable_check_leaves_the_rest_alone() {
    let mut checked = checker(Some("a"), Some("b"));
    checked.check_ffmpeg_executable(false, true);
    assert_eq!(checked.args, checker(Some("a"), Some("b")).args);
    assert_eq!(checked.config, Some(config()));
}

#[test]
fn check_passes_when_every_part_passes() {
    let mut interactive = checker(None, None);
    assert!(interactive.check(true, false, true, false));
    assert_eq!(interactive.should_use_ffmpeg_path_field, Some(false));
    let code = known_code();
    let mut scripted = checker(Some(&code), Some("/v/clip.mov"));
    assert!(scripted.check(true, true, false, true));
    assert_eq!(scripted.should_use_ffmpeg_path_field, Some(true));
}

#[test]
fn check_fails_when_the_configuration_file_was_missing() {
    assert!(!checker(None, None).check(false, false, true, true));
}

#[test]
fn check_fails_on_bad_arguments() {
    let code = known_code();
    assert!(!checker(Some(&code), None).check(true, true, true, true));
    assert!(!checker(None, Some("/v/clip.mov")).check(true, true, true, true));
    assert!(!checker(Some("ffffffff"), Some("/v/clip.mov")).check(true, true, true, true));
    assert!(!checker(Some(&code), Some("/v/clip.mov")).check(true, false, true, true));
}

#[test]
fn check_fails_without_an_executable() {
    assert!(!checker(None, None).check(true, false, false, false));
}

#[test]
fn check_settles_the_executable_even_when_it_fails() {
    let mut checker = checker(None, Some("/v/clip.mov"));
    assert!(!checker.check(false, false, false, true));
    assert_eq!(checker.should_use_ffmpeg_path_field, Some(true));
}

#[test]
fn check_over_every_combination() {
    let code = known_code();
    for bits in 0..16u32 {
        let (config_found, input_is_file, on_path, at_configured) =
            (bits & 1 != 0, bits & 2 != 0, bits & 4 != 0, bits & 8 != 0);
        let mut checker = checker(Some(&code), Some("/v/clip.mov"));
        let ready = checker.check(config_found, input_is_file, on_path, at_configured);
        assert_eq!(ready, config_found && input_is_file && (on_path || at_configured));
        assert_eq!(checker.should_use_ffmpeg_path_field, Some(!on_path));
    }
}
