use grab::error::input::EKind;
use grab::parsers::{
    default_file_parser, default_stdin_parser, default_text_parser, File, FilePath, InputType,
    Match, Stdin, Text,
};

/// A replacement matcher in the style of a URI scheme: it ignores the
/// configured marker and strips a fixed `file://` prefix instead.
struct UriMatcher;

impl Match for UriMatcher {
    fn check(&self, input: &str, _marker: &str) -> Option<String> {
        input.strip_prefix("file://").map(str::to_string)
    }
}

/// A replacement matcher that only requires the marker as a prefix, where
/// the built-in stdin rule would demand a full match.
struct PrefixMatcher;

impl Match for PrefixMatcher {
    fn check(&self, input: &str, marker: &str) -> Option<String> {
        input.strip_prefix(marker).map(str::to_string)
    }
}

/// A replacement matcher that refuses empty input, then falls back to the
/// marker-prefix rule.
struct NonEmptyMatcher;

impl Match for NonEmptyMatcher {
    fn check(&self, input: &str, marker: &str) -> Option<String> {
        if input.is_empty() {
            None
        } else {
            input.strip_prefix(marker).map(str::to_string)
        }
    }
}

const BAD_FILE_INPUT: &str = "invalid file input";

#[test]
fn file_defaults_success() {
    let input = "@some/file/here";
    let output = FilePath::new(String::from("some/file/here"));

    let parser = File::new();

    let result = parser.parse_str(input);

    assert_eq!(result, Ok(InputType::File(output)))
}

#[test]
fn file_defaults_failure() {
    let input = BAD_FILE_INPUT;

    let parser = File::new();

    let result = parser.parse_str(input);

    assert_eq!(result, Err(EKind::File.into()))
}

#[test]
fn file_c_marker_success() {
    let mkr = "+";

    let input = "+/some/file/here";
    let output = FilePath::new(String::from("/some/file/here"));

    let parser = File::new().with(|this| this.marker(mkr));

    let result = parser.parse_str(input);

    assert_eq!(result, Ok(InputType::File(output)))
}

#[test]
fn file_c_marker_failure() {
    let mkr = "+";

    let input = BAD_FILE_INPUT;

    let parser = File::new().with(|this| this.marker(mkr));

    let result = parser.parse_str(input);

    assert_eq!(result, Err(EKind::File.into()))
}

#[test]
fn file_c_parser_success() {
    let input = "file://foo/bar/baz";
    let output = FilePath::new(String::from("foo/bar/baz"));

    let parser = File::new().parser(UriMatcher);

    let result = parser.parse_str(input);

    assert_eq!(result, Ok(InputType::File(output)))
}

#[test]
fn file_c_parser_failure() {
    let input = "@foo/bar/baz";

    let parser = File::new().parser(UriMatcher);

    let result = parser.parse_str(input);

    assert_eq!(result, Err(EKind::File.into()))
}

const BAD_STDIN_INPUT: &str = "invalid stdin input";

#[test]
fn stdin_defaults_success() {
    let input = Stdin::DEFAULT_MARKER;

    let parser = Stdin::new();

    let result = parser.parse_str(input);

    assert_eq!(result, Ok(InputType::Stdin))
}

#[test]
fn stdin_defaults_failure() {
    let input = BAD_STDIN_INPUT;

    let parser = Stdin::new();

    let result = parser.parse_str(input);

    assert_eq!(result, Err(EKind::Stdin.into()))
}

#[test]
fn stdin_c_marker_success() {
    let mkr = "@-";

    let input = mkr;

    let parser = Stdin::new().with(|this| this.marker(mkr));

    let result = parser.parse_str(input);

    assert_eq!(result, Ok(InputType::Stdin))
}

#[test]
fn stdin_c_marker_failure() {
    let mkr = "@-";

    let input = BAD_STDIN_INPUT;

    let parser = Stdin::new().with(|this| this.marker(mkr));

    let result = parser.parse_str(input);

    assert_eq!(result, Err(EKind::Stdin.into()))
}

#[test]
fn stdin_c_parser_success() {
    let input = "- extra stuff";

    let parser = Stdin::new().parser(PrefixMatcher);

    let result = parser.parse_str(input);

    assert_eq!(result, Ok(InputType::Stdin))
}

#[test]
fn stdin_c_parser_failure() {
    let input = "extra stuff -";

    let parser = Stdin::new().parser(PrefixMatcher);

    let result = parser.parse_str(input);

    assert_eq!(result, Err(EKind::Stdin.into()))
}

const TEXT_INPUT: &str = "some arbitrary text";

#[test]
fn text_defaults_success() {
    let input = TEXT_INPUT;
    let output = String::from(input);

    let parser = Text::new();

    let result = parser.parse_str(input);

    assert_eq!(result, Ok(InputType::UTF8(output)))
}

#[test]
fn text_c_marker_success() {
    let mkr = "!!";

    let input = "!!valid text";
    let output = String::from("valid text");

    let parser = Text::new().with(|this| this.marker(mkr));

    let result = parser.parse_str(input);

    assert_eq!(result, Ok(InputType::UTF8(output)))
}

#[test]
fn text_c_marker_failure() {
    let mkr = "!!";

    let input = "no marker";

    let parser = Text::new().with(|this| this.marker(mkr));

    let result = parser.parse_str(input);

    assert_eq!(result, Err(EKind::Text.into()))
}

#[test]
fn text_c_parser_success() {
    let input = TEXT_INPUT;
    let output = String::from(input);

    let parser = Text::new().parser(NonEmptyMatcher);

    let result = parser.parse_str(input);

    assert_eq!(result, Ok(InputType::UTF8(output)))
}

#[test]
fn text_c_parser_failure() {
    let input = "";

    let parser = Text::new().parser(NonEmptyMatcher);

    let result = parser.parse_str(input);

    assert_eq!(result, Err(EKind::Text.into()))
}

#[test]
fn default_parsers_report_remainders() {
    assert_eq!(default_file_parser("@a/b", "@"), Some(String::from("a/b")));
    assert_eq!(default_file_parser("a/b", "@"), None);

    assert_eq!(default_stdin_parser("-", "-"), Some(String::new()));
    assert_eq!(default_stdin_parser("- and more", "-"), None);

    assert_eq!(default_text_parser("anything", ""), Some(String::from("anything")));
    assert_eq!(default_text_parser("##tail", "##"), Some(String::from("tail")));
    assert_eq!(default_text_parser("tail", "##"), None);
}

#[test]
fn unit_weight_overrides_apply() {
    let f = File::new().with(|this| this.weight(9));
    assert_eq!(f.get_weight(), 9);
    assert_eq!(File::new().get_weight(), File::DEFAULT_WEIGHT);

    let s = Stdin::new().with(|this| this.weight(3));
    assert_eq!(s.get_weight(), 3);
    assert_eq!(Stdin::new().get_weight(), Stdin::DEFAULT_WEIGHT);

    assert_eq!(Text::new().get_weight(), Text::DEFAULT_WEIGHT);
    assert_eq!(File::new().get_marker(), File::DEFAULT_MARKER);
    assert_eq!(Stdin::new().get_marker(), Stdin::DEFAULT_MARKER);
    assert_eq!(Text::new().get_marker(), Text::DEFAULT_MARKER);
}
