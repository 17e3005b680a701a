use std::str::FromStr;

use grab::error::access::{AccessError, Kind};
use grab::error::input::{EKind, InputError};
use grab::{Input, TextCursor};

#[test]
fn input_from_default() {
    let input = "@/some/file/path";
    let res = Input::with_defaults(input);

    assert!(res.is_ok())
}

#[test]
fn input_from_str() {
    let input = "some text";
    let res = Input::from_str(input);

    assert!(res.is_ok())
}

#[test]
fn error_merge_is_commutative() {
    let mut a = InputError::new(EKind::File);
    a.extend(InputError::new(EKind::Stdin));

    let mut b = InputError::new(EKind::Stdin);
    b.extend(InputError::new(EKind::File));

    assert_eq!(a, b);
    assert!(a.contains(EKind::File));
    assert!(a.contains(EKind::Stdin));
    assert!(!a.contains(EKind::Text));
    assert_eq!(a.count(), 2);
}

#[test]
fn error_insert_accumulates() {
    let mut e = InputError::new(EKind::Text);
    e.insert(EKind::RequiresUtf8);
    e.insert(EKind::Text);

    assert_eq!(e.count(), 2);
    assert!(e.contains(EKind::Text));
    assert!(e.contains(EKind::RequiresUtf8));
}

#[test]
fn error_with_applies_actions() {
    let e = InputError::new(EKind::File).with(|mut this| {
        this.insert(EKind::Stdin);
        this
    });

    assert!(e.contains(EKind::File));
    assert!(e.contains(EKind::Stdin));
    assert_eq!(e.count(), 2);
}

#[test]
fn error_message_singular_and_plural() {
    assert_eq!(InputError::new(EKind::File).message(), "Parser failed [FILE]");
    assert_eq!(InputError::new(EKind::Text).message(), "Parser failed [TEXT]");

    let mut e = InputError::new(EKind::Text);
    e.insert(EKind::Stdin);
    e.insert(EKind::File);
    assert_eq!(e.message(), "Multiple parsers failed [TEXT | STDIN | FILE]");
}

#[test]
fn text_cursor_round_trips_content() {
    let content = "some random text";
    let mut cursor = TextCursor::new(content);

    let mut collected: Vec<u8> = Vec::new();
    loop {
        let chunk = cursor.read(4);
        if chunk.is_empty() {
            break;
        }
        collected.extend_from_slice(&chunk);
    }

    assert_eq!(collected, content.as_bytes());
    assert_eq!(cursor.remaining(), 0);
}

#[test]
fn text_cursor_read_to_end() {
    let content = "über-short ✓";
    let mut cursor = TextCursor::new(content);

    let first = cursor.read(3);
    let rest = cursor.read_to_end();

    let mut collected = first.clone();
    collected.extend_from_slice(&rest);

    assert_eq!(collected, content.as_bytes());
    assert_eq!(cursor.remaining(), 0);
    assert!(cursor.read_to_end().is_empty());
}

#[test]
fn access_error_reports_kind_and_context() {
    let e = AccessError::file_with_context(
        String::from("No such file or directory"),
        String::from("/tmp/missing"),
    );

    assert_eq!(e.kind(), Kind::File);
    assert_eq!(
        e.message(),
        "file access failed: unable to open /tmp/missing: No such file or directory"
    );

    let other = AccessError::file_with_context(
        String::from("permission denied"),
        String::from("/somewhere/else"),
    );

    // Equality compares the kind of error, not its rendering.
    assert_eq!(e, other);
}
