use hd2re::lines::split_lines;

fn lines_of(text: &str) -> Vec<String> {
    text.lines().map(String::from).collect()
}

#[test]
fn text_without_a_line_feed_is_one_line() {
    assert_eq!(split_lines("texture"), vec!["texture"]);
    assert_eq!(split_lines("a b\tc"), vec!["a b\tc"]);
}

#[test]
fn empty_text_has_no_line() {
    assert_eq!(split_lines(""), Vec::<String>::new());
}

#[test]
fn line_feed_ends_a_line() {
    assert_eq!(split_lines("a\nb"), vec!["a", "b"]);
    assert_eq!(split_lines("a\nb\n"), vec!["a", "b"]);
    assert_eq!(split_lines("\n"), vec![""]);
    assert_eq!(split_lines("\n\n"), vec!["", ""]);
    assert_eq!(split_lines("\na"), vec!["", "a"]);
}

#[test]
fn carriage_return_before_a_line_feed_is_dropped() {
    assert_eq!(split_lines("a\r\nb\r\n"), vec!["a", "b"]);
    assert_eq!(split_lines("\r\n"), vec![""]);
    assert_eq!(split_lines("a\r\r\n"), vec!["a\r"]);
}

#[test]
fn carriage_return_elsewhere_is_kept() {
    assert_eq!(split_lines("a\rb\n"), vec!["a\rb"]);
    assert_eq!(split_lines("a\r"), vec!["a\r"]);
    assert_eq!(split_lines("a\n\r"), vec!["a", "\r"]);
}

#[test]
fn characters_of_several_bytes_stay_whole() {
    assert_eq!(
        split_lines("données\nžluťoučký kůň\r\n音声"),
        vec!["données", "žluťoučký kůň", "音声"]
    );
    assert_eq!(split_lines("é\n"), vec!["é"]);
}

#[test]
fn lines_are_those_of_the_standard_library() {
    let texts =
        ["", "a", "a\n", "a\r\n", "\r", "a\rb", "\n\r\n\n", "x\r\r\ny\r", "é\r\nü\n\n"];
    for text in texts {
        assert_eq!(split_lines(text), lines_of(text), "{text:?}");
    }
}
