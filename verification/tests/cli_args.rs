use juice::cli::{parse_command_line, split_whitespace_args};
use juice::util::{i32_from_usize, i32_try_from_usize, str_eq};

fn args(list: &[&str]) -> Vec<String> {
    list.iter().map(|s| s.to_string()).collect()
}

#[test]
fn all_three_options_parse() {
    let r = parse_command_line(&args(&["-p", "/usr/include", "-f", "a.c", "-c", "-I ."]))
        .unwrap();
    assert_eq!(r.path, "/usr/include");
    assert_eq!(r.file, "a.c");
    assert_eq!(r.cflags, "-I .");
}

#[test]
fn long_option_forms_parse() {
    let r = parse_command_line(&args(&[
        "--cflags", "-Wall", "--path", "p", "--file", "f.cpp",
    ]))
    .unwrap();
    assert_eq!(r.path, "p");
    assert_eq!(r.file, "f.cpp");
    assert_eq!(r.cflags, "-Wall");
}

#[test]
fn unknown_option_is_reported() {
    let e = parse_command_line(&args(&["-p", "p", "-z"])).unwrap_err();
    assert_eq!(e, "Unknown option: -z");
}

#[test]
fn missing_settings_are_reported_in_order() {
    let e = parse_command_line(&args(&[])).unwrap_err();
    assert_eq!(e, "No path specified (`--path').");
    let e = parse_command_line(&args(&["-p", "p"])).unwrap_err();
    assert_eq!(e, "No file specified (`--file').");
    let e = parse_command_line(&args(&["-p", "p", "-f", "f"])).unwrap_err();
    assert_eq!(e, "No compiler flags specified (`--cflags').");
}

#[test]
fn trailing_flag_without_value_clears_the_setting() {
    let e = parse_command_line(&args(&["-p"])).unwrap_err();
    assert_eq!(e, "No path specified (`--path').");
    let e = parse_command_line(&args(&["-f", "f", "-c", "c", "-p"])).unwrap_err();
    assert_eq!(e, "No path specified (`--path').");
}

#[test]
fn repeated_flag_overwrites() {
    let r = parse_command_line(&args(&[
        "-p", "first", "-f", "f", "-c", "c", "-p", "second",
    ]))
    .unwrap();
    assert_eq!(r.path, "second");
}

#[test]
fn flag_values_are_taken_verbatim() {
    // A value that looks like a flag is still consumed as the value.
    let r = parse_command_line(&args(&["-p", "-f", "-f", "f", "-c", "c"])).unwrap();
    assert_eq!(r.path, "-f");
    assert_eq!(r.file, "f");
}

#[test]
fn whitespace_splitting_finds_maximal_words() {
    let empty: Vec<String> = Vec::new();
    assert_eq!(split_whitespace_args(""), empty);
    assert_eq!(split_whitespace_args("   \t\n"), empty);
    assert_eq!(split_whitespace_args("one"), vec!["one"]);
    assert_eq!(
        split_whitespace_args(" -I/usr/include  -Wall\t-O2\n-g "),
        vec!["-I/usr/include", "-Wall", "-O2", "-g"]
    );
    assert_eq!(split_whitespace_args("a  b"), vec!["a", "b"]);
    assert_eq!(split_whitespace_args("\ra\r"), vec!["a"]);
}

#[test]
fn count_conversion_fails_only_past_the_native_width() {
    assert_eq!(i32_try_from_usize(0), Ok(0));
    assert_eq!(i32_try_from_usize(12), Ok(12));
    assert_eq!(i32_try_from_usize(2147483647), Ok(2147483647));
    assert_eq!(
        i32_try_from_usize(2147483648),
        Err(String::from("Conversion failed."))
    );
    assert_eq!(i32_try_from_usize(usize::MAX), Err(String::from("Conversion failed.")));
    assert_eq!(i32_from_usize(2147483647), 2147483647);
    assert_eq!(i32_from_usize(3), 3);
}

#[test]
fn string_equality_compares_characters() {
    assert!(str_eq("", ""));
    assert!(str_eq("-p", "-p"));
    assert!(!str_eq("-p", "-f"));
    assert!(!str_eq("-p", "-pp"));
    assert!(str_eq("héllo", "héllo"));
    assert!(!str_eq("héllo", "hello"));
}
