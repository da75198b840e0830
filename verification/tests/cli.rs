use renderer::cli::{is_blank, output_file_name, parse_args, timestamp_label, Given};

fn nothing() -> Given {
    Given {
        debug: false,
        max_frames: None,
        filename: None,
        output_filename: None,
        frame_width: None,
        frame_height: None,
    }
}

#[test]
fn options_left_out_take_their_defaults() {
    let args = parse_args(nothing());
    assert!(!args.debug);
    assert_eq!(args.max_frames, 600);
    assert_eq!(args.filename, "inputs/box.json");
    assert_eq!(args.output_filename, "<blank>");
    assert_eq!(args.frame_width, 1920);
    assert_eq!(args.frame_height, 1080);
}

#[test]
fn options_given_keep_their_values() {
    let args = parse_args(Given {
        debug: true,
        max_frames: Some(0),
        filename: Some("level.json".to_string()),
        output_filename: Some("out.mp4".to_string()),
        frame_width: Some(0),
        frame_height: Some(u32::MAX),
    });
    assert!(args.debug);
    assert_eq!(args.max_frames, 0);
    assert_eq!(args.filename, "level.json");
    assert_eq!(args.output_filename, "out.mp4");
    assert_eq!(args.frame_width, 0);
    assert_eq!(args.frame_height, u32::MAX);
}

#[test]
fn each_option_falls_back_on_its_own() {
    let args = parse_args(Given { frame_width: Some(640), ..nothing() });
    assert_eq!(args.frame_width, 640);
    assert_eq!(args.frame_height, 1080);
    assert_eq!(args.max_frames, 600);
    let args = parse_args(Given { filename: Some(String::new()), ..nothing() });
    assert_eq!(args.filename, "");
    assert_eq!(args.output_filename, "<blank>");
}

#[test]
fn label_is_the_time_down_to_the_second() {
    assert_eq!(timestamp_label("2024-01-02 03:04:05.123456789 UTC"), "20240102030405");
    assert_eq!(timestamp_label("2024-01-02 03:04:05 UTC"), "20240102030405UTC");
    assert_eq!(timestamp_label(""), "");
    assert_eq!(timestamp_label(".5"), "");
    assert_eq!(timestamp_label("a.b.c"), "a");
    assert_eq!(timestamp_label("- :"), "");
    assert_eq!(timestamp_label("1-2:3 4.5-6"), "1234");
}

#[test]
fn blank_output_name_is_made_from_the_time() {
    assert_eq!(
        output_file_name("<blank>", "2024-01-02 03:04:05.123456789 UTC"),
        "outputs/output_20240102030405.mp4"
    );
    assert_eq!(output_file_name("<blank>", ""), "outputs/output_.mp4");
}

#[test]
fn chosen_output_name_is_kept() {
    assert_eq!(output_file_name("video.mp4", "2024-01-02 03:04:05.1 UTC"), "video.mp4");
    assert_eq!(output_file_name("", "2024-01-02 03:04:05.1 UTC"), "");
    assert_eq!(output_file_name("<Blank>", "x"), "<Blank>");
    assert_eq!(output_file_name("<blank> ", "x"), "<blank> ");
}

#[test]
fn only_the_word_itself_is_blank() {
    assert!(is_blank("<blank>"));
    assert!(!is_blank("<blank"));
    assert!(!is_blank("blank"));
    assert!(!is_blank(""));
    assert!(!is_blank("<blanc>"));
    assert!(!is_blank("<blank>>"));
}
