use kffmpeg::config::{flatten, CommandOption};
use kffmpeg::substitute::{
    fill_token, substitute, EXECUTABLE_TOKEN, INPUT_TOKEN, OPTIONS_TOKEN, OUTPUT_TOKEN,
};

fn strings(items: &[&str]) -> Vec<String> {
    items.iter().map(|s| s.to_string()).collect()
}

#[test]
fn placeholders_are_the_four_reserved_tokens() {
    assert_eq!(EXECUTABLE_TOKEN, "{{ffmpeg_path}}");
    assert_eq!(INPUT_TOKEN, "{{input_path}}");
    assert_eq!(OPTIONS_TOKEN, "{{options}}");
    assert_eq!(OUTPUT_TOKEN, "{{output_path}}");
}

#[test]
fn options_take_the_place_of_the_placeholder() {
    let skeleton = strings(&["{{ffmpeg_path}}", "-i", "{{input_path}}", "{{options}}", "{{output_path}}"]);
    let options =
        flatten(&vec![CommandOption { flag: String::from("-cq"), value: String::from("32") }]);
    assert_eq!(options, strings(&["-cq", "32"]));
    let arguments = substitute(&skeleton, "ffmpeg", "/videos/clip.mov", &options, "/videos/clip_light.mp4");
    assert_eq!(
        arguments,
        strings(&["ffmpeg", "-i", "/videos/clip.mov", "-cq", "32", "/videos/clip_light.mp4"])
    );
}

#[test]
fn options_may_stand_anywhere() {
    let options = strings(&["-a", "1", "-b", "2"]);
    assert_eq!(
        substitute(&strings(&["{{options}}", "x", "y"]), "e", "i", &options, "o"),
        strings(&["-a", "1", "-b", "2", "x", "y"])
    );
    assert_eq!(
        substitute(&strings(&["x", "y", "{{options}}"]), "e", "i", &options, "o"),
        strings(&["x", "y", "-a", "1", "-b", "2"])
    );
    assert_eq!(
        substitute(&strings(&["x", "{{options}}", "y"]), "e", "i", &options, "o"),
        strings(&["x", "-a", "1", "-b", "2", "y"])
    );
}

#[test]
fn empty_options_remove_the_placeholder() {
    assert_eq!(
        substitute(&strings(&["x", "{{options}}", "y"]), "e", "i", &Vec::new(), "o"),
        strings(&["x", "y"])
    );
}

#[test]
fn only_the_first_options_placeholder_gives_way() {
    let options = strings(&["-a", "1"]);
    assert_eq!(
        substitute(&strings(&["{{options}}", "mid", "{{options}}"]), "e", "i", &options, "o"),
        strings(&["-a", "1", "mid", "{{options}}"])
    );
}

#[test]
fn options_placeholder_must_be_the_whole_token() {
    let options = strings(&["-a", "1"]);
    assert_eq!(
        substitute(&strings(&["pre{{options}}", " {{options}}", "{{options}}"]), "e", "i", &options, "o"),
        strings(&["pre{{options}}", " {{options}}", "-a", "1"])
    );
}

#[test]
fn skeleton_without_options_placeholder_ignores_the_options() {
    let options = strings(&["-a", "1"]);
    assert_eq!(
        substitute(&strings(&["{{ffmpeg_path}}", "{{input_path}}"]), "e", "i", &options, "o"),
        strings(&["e", "i"])
    );
}

#[test]
fn options_are_taken_as_they_are() {
    let options = strings(&["-metadata", "title={{output_path}}", "{{input_path}}", "{{ffmpeg_path}}"]);
    assert_eq!(
        substitute(&strings(&["{{ffmpeg_path}}", "{{options}}"]), "e", "i", &options, "o"),
        strings(&["e", "-metadata", "title={{output_path}}", "{{input_path}}", "{{ffmpeg_path}}"])
    );
}

#[test]
fn single_value_placeholders_are_replaced_inside_a_token() {
    assert_eq!(
        substitute(
            &strings(&["--in={{input_path}}", "file:{{output_path}}.part", "[{{ffmpeg_path}}]"]),
            "ffmpeg",
            "a.mov",
            &Vec::new(),
            "b.mp4"
        ),
        strings(&["--in=a.mov", "file:b.mp4.part", "[ffmpeg]"])
    );
}

#[test]
fn a_placeholder_may_occur_more_than_once() {
    assert_eq!(
        fill_token("{{input_path}}:{{input_path}}:{{output_path}}", "e", "in", "out"),
        "in:in:out"
    );
}

#[test]
fn literal_tokens_pass_through() {
    let skeleton = strings(&["-f", "concat", "-i", "", "{{unknown}}", "{ffmpeg_path}", "{{input_path"]);
    assert_eq!(substitute(&skeleton, "e", "i", &Vec::new(), "o"), skeleton);
}

#[test]
fn empty_skeleton_gives_no_arguments() {
    assert_eq!(
        substitute(&Vec::new(), "e", "i", &strings(&["-a", "1"]), "o"),
        Vec::<String>::new()
    );
}

#[test]
fn placeholders_are_filled_in_turn() {
    assert_eq!(fill_token("{{ffmpeg_path}}", "{{input_path}}", "in", "out"), "in");
    assert_eq!(fill_token("{{ffmpeg_path}}", "{{output_path}}", "in", "out"), "out");
    assert_eq!(fill_token("{{input_path}}", "e", "{{output_path}}", "out"), "out");
    assert_eq!(fill_token("{{input_path}}", "e", "{{ffmpeg_path}}", "out"), "{{ffmpeg_path}}");
    assert_eq!(fill_token("{{output_path}}", "e", "in", "{{input_path}}"), "{{input_path}}");
}

#[test]
fn paths_with_spaces_stay_one_token() {
    let skeleton = strings(&["{{ffmpeg_path}}", "-i", "{{input_path}}", "{{output_path}}"]);
    assert_eq!(
        substitute(&skeleton, "/opt/my tools/ffmpeg", "/my videos/a b.mov", &Vec::new(), "/my videos/a b_light.mp4"),
        strings(&["/opt/my tools/ffmpeg", "-i", "/my videos/a b.mov", "/my videos/a b_light.mp4"])
    );
}
