use freshfetch::metrics::{measure, split_lines, strip, visual_lines, Dimensions};

#[test]
fn empty_text_is_one_empty_line() {
    assert_eq!(measure(""), Dimensions { width: 0, height: 1 });
}

#[test]
fn coloured_lines_measure_by_what_shows() {
    let text = "ab\n\u{1b}[31mcde\u{1b}[0m\nf";
    assert_eq!(visual_lines(text), vec!["ab".to_string(), "cde".to_string(), "f".to_string()]);
    assert_eq!(measure(text), Dimensions { width: 3, height: 3 });
}

#[test]
fn trailing_line_feed_counts_an_empty_line() {
    assert_eq!(split_lines("a\n"), vec!["a".to_string(), String::new()]);
    assert_eq!(measure("a\n"), Dimensions { width: 1, height: 2 });
}

#[test]
fn strip_removes_whole_sequences_only() {
    assert_eq!(strip("\u{1b}[38;5;1mError.\u{1b}[0m\n"), "Error.\n");
    assert_eq!(strip("\u{1b}[m"), "");
    assert_eq!(strip("\u{1b}[1;"), "\u{1b}[1;");
    assert_eq!(strip("\u{1b}[12"), "\u{1b}[12");
    assert_eq!(strip("\u{1b}1m"), "\u{1b}1m");
    assert_eq!(strip("\u{1b}[1!m"), "\u{1b}[1!m");
}

#[test]
fn text_of_sequences_alone_shows_nothing() {
    let text = "\u{1b}[0m\u{1b}[38;5;1m\u{1b}[1;31M\u{1b}[m";
    assert_eq!(strip(text), "");
    assert_eq!(measure(text), Dimensions { width: 0, height: 1 });
}

#[test]
fn height_is_the_number_of_pieces_between_line_feeds() {
    let texts = ["", "\n", "a\nb", "\u{1b}[1ma\u{1b}[0m\n\n\u{1b}[2mxyz\n", "no line feed"];
    for text in texts {
        assert_eq!(measure(text).height, text.split('\n').count());
    }
}

#[test]
fn width_counts_characters_and_not_bytes() {
    assert_eq!(measure("┌──┐\n│é │\n└──┘"), Dimensions { width: 4, height: 3 });
    assert_eq!("┌──┐".len(), 12);
}

#[test]
fn stripping_a_text_without_sequences_changes_nothing() {
    let texts = ["", "plain", "a\nb\n", "\u{1b}[1;", "[0m", "\u{1b}"];
    for text in texts {
        assert_eq!(strip(text), text);
        assert_eq!(strip(&strip(text)), strip(text));
    }
}

#[test]
fn stripping_can_leave_a_sequence_behind() {
    let text = "\u{1b}\u{1b}[0m[0m";
    let once = strip(text);
    assert_eq!(once, "\u{1b}[0m");
    assert_eq!(strip(&once), "");
    assert_eq!(measure(text).height, measure(&once).height);
}

#[test]
fn strip_agrees_with_the_pattern_on_sequences_with_digits() {
    let pattern = regex::Regex::new("(?i)\u{1b}\\[(?:[\\d;]*\\d+[a-z])").unwrap();
    let texts = [
        "ab\n\u{1b}[31mcde\u{1b}[0m\nf",
        "\u{1b}[38;5;1mError.\u{1b}[0m\n",
        "\u{1b}[1A\u{1b}[2Kline",
        "plain \u{1b} text [1m",
        "\u{1b}[;1mdone",
    ];
    for text in texts {
        assert_eq!(strip(text), pattern.replace_all(text, "").to_string());
    }
}
