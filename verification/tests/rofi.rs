use marcador::rofi::{
    decode_index, decode_text, is_accepted, kb_custom_code, trim_output, Error, Format,
    ProcessReport, Rofi, Width, CUSTOM_CODE_FIRST, CUSTOM_CODE_LAST, PROGRAM, SUCCESS_CODE,
};

fn strings(items: &[&str]) -> Vec<String> {
    items.iter().map(|s| s.to_string()).collect()
}

fn exited(code: i32, output: &str) -> ProcessReport {
    ProcessReport::Exited { code: Some(code), output: output.to_string() }
}

#[test]
fn test1() {
    assert_eq!(1, 1);
}

#[test]
fn default_arguments_of_a_list() {
    let elements = strings(&["a", "b", "c"]);
    let rofi = Rofi::new(&elements);
    assert_eq!(rofi.arguments(), strings(&["-dmenu", "-format", "s", "-l", "3", "-i"]));
    assert_eq!(rofi.input(), "a\nb\nc\n");
}

#[test]
fn empty_list_has_empty_input() {
    let elements: Vec<String> = Vec::new();
    let rofi = Rofi::new(&elements);
    assert_eq!(rofi.arguments(), strings(&["-dmenu", "-format", "s", "-l", "0", "-i"]));
    assert_eq!(rofi.input(), "");
}

#[test]
fn arguments_follow_the_wire_order() {
    let elements = strings(&["x", "y"]);
    let mut rofi = Rofi::new(&elements);
    rofi.kb_custom(1, "Alt+n")
        .kb_custom(2, "Alt+d")
        .prompt("> ")
        .message("hint")
        .pango()
        .case_sensitive(true)
        .lines(7)
        .set_sort()
        .return_format(Format::StrippedText);
    rofi.width(Width::Percentage(40)).unwrap();
    assert_eq!(
        rofi.arguments(),
        strings(&[
            "-dmenu",
            "-kb-custom-1",
            "Alt+n",
            "-kb-custom-2",
            "Alt+d",
            "-p",
            "> ",
            "-mesg",
            "hint",
            "-markup-rows",
            "-format",
            "p",
            "-l",
            "7",
            "-case-sensitive",
            "-theme-str",
            "window {width: 40%;}",
            "-sort",
        ])
    );
}

#[test]
fn pixel_width_and_other_flags() {
    let elements = strings(&["x"]);
    let mut rofi = Rofi::new(&elements);
    rofi.password().theme(Some("dark")).theme(None).return_format(Format::UserInput);
    rofi.width(Width::Pixels(1024)).unwrap();
    assert_eq!(
        rofi.arguments(),
        strings(&[
            "-dmenu",
            "-password",
            "-theme",
            "dark",
            "-format",
            "f",
            "-l",
            "1",
            "-i",
            "-theme-str",
            "window {width: 1024px;}",
        ])
    );
}

#[test]
fn repeated_keybinding_is_kept_twice() {
    let elements = strings(&["x"]);
    let mut rofi = Rofi::new(&elements);
    rofi.kb_custom(3, "Alt+a").kb_custom(3, "Alt+b");
    let args = rofi.arguments();
    assert_eq!(&args[1..5], &strings(&["-kb-custom-3", "Alt+a", "-kb-custom-3", "Alt+b"])[..]);
}

#[test]
fn last_call_wins_for_single_options() {
    let elements = strings(&["x"]);
    let mut rofi = Rofi::new(&elements);
    rofi.lines(2).lines(9).case_sensitive(true).case_sensitive(false);
    rofi.width(Width::Pixels(200)).unwrap();
    rofi.width(Width::Percentage(10)).unwrap();
    assert_eq!(
        rofi.arguments(),
        strings(&[
            "-dmenu",
            "-format",
            "s",
            "-l",
            "9",
            "-i",
            "-theme-str",
            "window {width: 10%;}",
        ])
    );
}

#[test]
fn width_percentage_bounds() {
    let elements = strings(&["x"]);
    let mut rofi = Rofi::new(&elements);
    assert!(matches!(
        rofi.width(Width::Percentage(101)),
        Err(Error::InvalidWidth("Percentage must be between 0 and 100"))
    ));
    assert!(rofi.width(Width::Percentage(0)).is_ok());
    assert!(rofi.width(Width::Percentage(100)).is_ok());
}

#[test]
fn width_pixel_bounds() {
    let elements = strings(&["x"]);
    let mut rofi = Rofi::new(&elements);
    assert!(matches!(
        rofi.width(Width::Pixels(100)),
        Err(Error::InvalidWidth("Pixels must be larger than 100"))
    ));
    assert!(rofi.width(Width::Pixels(101)).is_ok());
    assert!(rofi.width(Width::Unset).is_ok());
}

#[test]
fn refused_width_changes_nothing() {
    let elements = strings(&["x"]);
    let mut rofi = Rofi::new(&elements);
    rofi.width(Width::Pixels(300)).unwrap();
    let before = rofi.arguments();
    assert!(rofi.width(Width::Pixels(5)).is_err());
    assert_eq!(rofi.arguments(), before);
}

#[test]
fn width_check_agrees_with_the_setter() {
    assert!(Width::Unset.check().is_ok());
    assert!(Width::Percentage(100).check().is_ok());
    assert!(Width::Percentage(101).check().is_err());
    assert!(Width::Pixels(100).check().is_err());
    assert!(Width::Pixels(101).check().is_ok());
}

#[test]
fn message_only_needs_an_empty_list() {
    let elements = strings(&["a"]);
    let mut rofi = Rofi::new(&elements);
    assert!(matches!(rofi.message_only("x"), Err(Error::ConfigErrorMessageAndOptions)));
    assert_eq!(rofi.arguments()[0], "-dmenu");

    let none: Vec<String> = Vec::new();
    let mut rofi = Rofi::new(&none);
    assert!(rofi.message_only("x").is_ok());
    assert_eq!(rofi.arguments(), strings(&["-e", "x", "-format", "s", "-l", "0", "-i"]));
}

#[test]
fn new_message_is_a_message_dialog() {
    let mut rofi = Rofi::new_message("hello");
    rofi.prompt("p");
    assert_eq!(
        rofi.arguments(),
        strings(&["-e", "hello", "-p", "p", "-format", "s", "-l", "0", "-i"])
    );
    assert_eq!(rofi.input(), "");
}

#[test]
fn format_letters() {
    assert_eq!(Format::Text.as_arg(), "s");
    assert_eq!(Format::StrippedText.as_arg(), "p");
    assert_eq!(Format::UserInput.as_arg(), "f");
    assert_eq!(Format::Index.as_arg(), "i");
}

#[test]
fn spawn_carries_program_arguments_and_input() {
    let elements = strings(&["a", "b"]);
    let rofi = Rofi::new(&elements);
    let child = rofi.spawn();
    assert_eq!(child.program(), "rofi");
    assert_eq!(PROGRAM, "rofi");
    assert_eq!(child.args(), &rofi.arguments());
    assert_eq!(child.input(), "a\nb\n");
}

#[test]
fn index_request_overrides_the_format() {
    let elements = strings(&["a", "b", "c"]);
    let mut rofi = Rofi::new(&elements);
    rofi.return_format(Format::Text);
    let result = rofi.run_index(exited(0, "2\n"));
    assert!(matches!(result, Ok((0, Some(2)))));
    assert_eq!(rofi.arguments(), strings(&["-dmenu", "-format", "i", "-l", "3", "-i"]));

    let mut rofi = Rofi::new(&elements);
    rofi.return_format(Format::UserInput);
    let child = rofi.spawn_index();
    assert_eq!(child.args(), &strings(&["-dmenu", "-format", "i", "-l", "3", "-i"]));
    assert!(matches!(child.wait_with_output(exited(0, "0")), Ok((0, Some(0)))));
}

#[test]
fn index_in_range_is_selected() {
    assert!(matches!(decode_index(3, exited(0, "1\n")), Ok((0, Some(1)))));
    assert!(matches!(decode_index(3, exited(0, "0\n")), Ok((0, Some(0)))));
    assert!(matches!(decode_index(3, exited(0, "2")), Ok((0, Some(2)))));
    assert!(matches!(decode_index(3, exited(0, "+2\n")), Ok((0, Some(2)))));
    assert!(matches!(decode_index(3, exited(0, "002\n")), Ok((0, Some(2)))));
}

#[test]
fn index_out_of_range_is_not_found() {
    assert!(matches!(decode_index(3, exited(0, "5\n")), Ok((0, None))));
    assert!(matches!(decode_index(3, exited(0, "3\n")), Ok((0, None))));
    assert!(matches!(decode_index(3, exited(0, "-1\n")), Ok((0, None))));
    assert!(matches!(decode_index(0, exited(0, "0\n")), Ok((0, None))));
    assert!(matches!(decode_index(3, exited(10, "-0\n")), Ok((10, Some(0)))));
}

#[test]
fn empty_output_is_blank() {
    assert!(matches!(decode_index(2, exited(0, "")), Err(Error::Blank)));
    assert!(matches!(decode_index(2, exited(0, "\n")), Err(Error::Blank)));
    assert!(matches!(decode_text(exited(0, "")), Err(Error::Blank)));
    assert!(matches!(decode_text(exited(12, "\n")), Err(Error::Blank)));
}

#[test]
fn exit_one_is_interrupted_whatever_was_written() {
    assert!(matches!(decode_index(3, exited(1, "1\n")), Err(Error::Interrupted)));
    assert!(matches!(decode_index(3, exited(1, "")), Err(Error::Interrupted)));
    assert!(matches!(decode_text(exited(1, "a\n")), Err(Error::Interrupted)));
    assert!(matches!(decode_text(exited(1, "")), Err(Error::Interrupted)));
}

#[test]
fn band_boundaries() {
    assert_eq!(SUCCESS_CODE, 0);
    assert_eq!(CUSTOM_CODE_FIRST, 10);
    assert_eq!(CUSTOM_CODE_LAST, 30);
    assert!(is_accepted(Some(0)));
    assert!(is_accepted(Some(10)));
    assert!(is_accepted(Some(30)));
    assert!(!is_accepted(Some(9)));
    assert!(!is_accepted(Some(31)));
    assert!(!is_accepted(Some(1)));
    assert!(!is_accepted(Some(-1)));
    assert!(!is_accepted(None));
    assert!(matches!(decode_text(exited(9, "a")), Err(Error::Interrupted)));
    assert!(matches!(decode_text(exited(31, "a")), Err(Error::Interrupted)));
    assert!(matches!(decode_text(exited(-1, "a")), Err(Error::Interrupted)));
}

#[test]
fn signal_exit_is_interrupted() {
    let report = ProcessReport::Exited { code: None, output: "1\n".to_string() };
    assert!(matches!(decode_index(3, report.clone()), Err(Error::Interrupted)));
    assert!(matches!(decode_text(report), Err(Error::Interrupted)));
}

#[test]
fn custom_action_codes_are_handed_on() {
    for id in 1u32..=21 {
        let code = kb_custom_code(id).unwrap();
        assert_eq!(code, 10 + id as i32 - 1);
        match decode_text(exited(code, "picked\n")) {
            Ok((c, Some(text))) => {
                assert_eq!(c, code);
                assert_eq!(text, "picked");
            }
            other => panic!("unexpected {:?}", other),
        }
        match decode_index(4, exited(code, "3\n")) {
            Ok((c, Some(3))) => assert_eq!(c, code),
            other => panic!("unexpected {:?}", other),
        }
    }
    assert_eq!(kb_custom_code(0), None);
    assert_eq!(kb_custom_code(22), None);
}

#[test]
fn text_is_returned_less_one_line_feed() {
    match decode_text(exited(0, "hello\n")) {
        Ok((0, Some(text))) => assert_eq!(text, "hello"),
        other => panic!("unexpected {:?}", other),
    }
    match decode_text(exited(0, "hello\n\n")) {
        Ok((0, Some(text))) => assert_eq!(text, "hello\n"),
        other => panic!("unexpected {:?}", other),
    }
    match decode_text(exited(0, "no newline")) {
        Ok((0, Some(text))) => assert_eq!(text, "no newline"),
        other => panic!("unexpected {:?}", other),
    }
    assert_eq!(trim_output("a\n"), "a");
    assert_eq!(trim_output("a"), "a");
    assert_eq!(trim_output("\n"), "");
    assert_eq!(trim_output("é\n"), "é");
}

#[test]
fn text_request_through_run() {
    let elements = strings(&["a", "b"]);
    let rofi = Rofi::new(&elements);
    match rofi.run(exited(0, "b\n")) {
        Ok((0, Some(text))) => assert_eq!(text, "b"),
        other => panic!("unexpected {:?}", other),
    }
    match rofi.spawn().wait_with_output(exited(11, "typed")) {
        Ok((11, Some(text))) => assert_eq!(text, "typed"),
        other => panic!("unexpected {:?}", other),
    }
}

#[test]
fn malformed_index_is_a_parse_error() {
    assert!(matches!(decode_index(3, exited(0, "one\n")), Err(Error::ParseIntError)));
    assert!(matches!(decode_index(3, exited(0, "1 \n")), Err(Error::ParseIntError)));
    assert!(matches!(decode_index(3, exited(0, " 1\n")), Err(Error::ParseIntError)));
    assert!(matches!(decode_index(3, exited(0, "-\n")), Err(Error::ParseIntError)));
    assert!(matches!(decode_index(3, exited(0, "1\n\n")), Err(Error::ParseIntError)));
    assert!(matches!(
        decode_index(3, exited(0, "99999999999999999999999999\n")),
        Err(Error::ParseIntError)
    ));
}

#[test]
fn failure_to_start_is_an_io_error() {
    let report = ProcessReport::Failed("no such file".to_string());
    match decode_text(report.clone()) {
        Err(Error::IoError(why)) => assert_eq!(why, "no such file"),
        other => panic!("unexpected {:?}", other),
    }
    match decode_index(3, report) {
        Err(Error::IoError(why)) => assert_eq!(why, "no such file"),
        other => panic!("unexpected {:?}", other),
    }
}

#[test]
fn a_window_can_be_shown_again() {
    let elements = strings(&["a", "b", "c"]);
    let mut rofi = Rofi::new(&elements);
    rofi.prompt("> ");
    assert!(matches!(rofi.run_index(exited(0, "1\n")), Ok((0, Some(1)))));
    let first = rofi.arguments();
    assert!(matches!(rofi.run_index(exited(1, "")), Err(Error::Interrupted)));
    assert_eq!(rofi.arguments(), first);
}

#[test]
fn last_prompt_and_message_win() {
    let elements = strings(&["x"]);
    let mut rofi = Rofi::new(&elements);
    rofi.prompt("first").kb_custom(1, "Alt+a").message("one").prompt("second").message("two");
    assert_eq!(
        rofi.arguments(),
        strings(&[
            "-dmenu",
            "-kb-custom-1",
            "Alt+a",
            "-p",
            "second",
            "-mesg",
            "two",
            "-format",
            "s",
            "-l",
            "1",
            "-i",
        ])
    );
}

#[test]
fn a_prompt_that_looks_like_a_flag_is_still_replaced() {
    let elements = strings(&["x"]);
    let mut rofi = Rofi::new(&elements);
    rofi.prompt("-mesg").message("-p").prompt("-p");
    assert_eq!(
        rofi.arguments(),
        strings(&["-dmenu", "-mesg", "-p", "-p", "-p", "-format", "s", "-l", "1", "-i"])
    );
}

#[test]
fn flags_without_value_are_kept_each_time() {
    let elements = strings(&["x"]);
    let mut rofi = Rofi::new(&elements);
    rofi.pango().pango().theme(Some("a")).theme(Some("b"));
    assert_eq!(
        rofi.arguments()[1..7],
        strings(&["-markup-rows", "-markup-rows", "-theme", "a", "-theme", "b"])[..]
    );
}

#[test]
fn lines_override_and_large_lists() {
    let elements: Vec<String> = (0..120).map(|i| format!("item {}", i)).collect();
    let mut rofi = Rofi::new(&elements);
    assert_eq!(rofi.arguments()[4], "120");
    rofi.lines(15);
    assert_eq!(rofi.arguments()[4], "15");
    assert!(matches!(rofi.run_index(exited(0, "119\n")), Ok((0, Some(119)))));
    assert!(matches!(rofi.run_index(exited(0, "120\n")), Ok((0, None))));
    assert_eq!(rofi.input().lines().count(), 120);
}
