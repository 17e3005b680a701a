use grab::error::input::EKind;
use grab::parsers::{File, InputType, Stdin, Text};
use grab::{Builder, Config};

#[test]
fn config_default_is_valid() {
    let _cfg = Config::default();
}

#[test]
fn builder_set_text() {
    let b = Builder::new().with(|this| this.text());

    assert!(b.text.is_some())
}

#[test]
fn builder_set_file() {
    let b = Builder::new().with(|this| this.file());

    assert!(b.file.is_some())
}

#[test]
fn builder_set_stdin() {
    let b = Builder::new().with(|this| this.stdin());

    assert!(b.stdin.is_some())
}

#[test]
fn sorted_by_weight_ascending() {
    let cfg = Config::default();

    let mut last = 0u8;
    for slot in cfg.sorted_slots() {
        let weight = cfg.slot_weight(slot);

        assert!(weight >= last);

        last = weight;
    }
}

#[test]
fn config_default_parse_stdin() {
    let input = "-";
    let cfg = Config::default();

    let t = cfg.parse_str(input).expect("a successful parse");

    match t {
        InputType::Stdin => {}
        bad => panic!("expected Stdin, got: {:?}", bad),
    }
}

#[test]
fn config_default_parse_file() {
    let input = "@some/relative/path";
    let cfg = Config::default();

    let t = cfg.parse_str(input).expect("a successful parse");

    match t {
        InputType::File(_) => {}
        bad => panic!("expected File, got: {:?}", bad),
    }
}

#[test]
fn config_default_parse_text() {
    let input = "basic textual input";
    let cfg = Config::default();

    let t = cfg.parse_str(input).expect("a successful parse");

    match t {
        InputType::UTF8(_) => {}
        bad => panic!("expected Text, got: {:?}", bad),
    }
}

#[test]
fn default_file_payload_is_remainder() {
    let cfg = Config::default();

    match cfg.parse_str("@some/path") {
        Ok(InputType::File(fp)) => assert_eq!(fp.path, "some/path"),
        bad => panic!("expected File, got: {:?}", bad),
    }
}

#[test]
fn default_text_payload_is_whole_input() {
    let cfg = Config::default();

    match cfg.parse_str("hello world") {
        Ok(InputType::UTF8(content)) => assert_eq!(content, "hello world"),
        bad => panic!("expected Text, got: {:?}", bad),
    }
}

#[test]
fn file_and_stdin_only_rejects_plain_text() {
    let cfg = Builder::new().with(|b| b.file().stdin()).build();

    let e = cfg.parse_str("").expect_err("no unit should claim the empty input");

    assert!(e.contains(EKind::File));
    assert!(e.contains(EKind::Stdin));
    assert!(!e.contains(EKind::Text));
    assert!(!e.contains(EKind::RequiresUtf8));
    assert_eq!(e.count(), 2);
    assert_eq!(e.message(), "Multiple parsers failed [STDIN | FILE]");
}

#[test]
fn marker_alone_yields_empty_path() {
    let cfg = Config::default();

    // An empty remainder is a valid, if unusual, path.
    match cfg.parse_str("@") {
        Ok(InputType::File(fp)) => assert_eq!(fp.path, ""),
        bad => panic!("expected File, got: {:?}", bad),
    }
}

#[test]
fn single_unit_failure_uses_singular_wording() {
    let cfg = Builder::new().with(|b| b.file()).build();

    let e = cfg.parse_str("no marker here").expect_err("the file unit should reject this");

    assert_eq!(e.count(), 1);
    assert_eq!(e.message(), "Parser failed [FILE]");
}

#[test]
fn try_build_rejects_empty_builder() {
    let b = Builder::new();

    assert!(b.try_build().is_err());

    let b = Builder::new().with(|this| this.text());

    assert!(b.try_build().is_ok());
}

#[test]
fn lighter_catch_all_preempts_file() {
    let cfg = Builder::new()
        .with_text(Text::new().with(|t| t.weight(1)))
        .file()
        .build();

    match cfg.parse_str("@looks/like/a/path") {
        Ok(InputType::UTF8(content)) => assert_eq!(content, "@looks/like/a/path"),
        bad => panic!("expected the lighter text unit to win, got: {:?}", bad),
    }
}

#[test]
fn equal_weights_keep_declared_order() {
    let cfg = Builder::new()
        .with_file(File::new().with(|f| f.weight(10)))
        .with_stdin(Stdin::new().with(|s| s.weight(10)))
        .with_text(Text::new().with(|t| t.weight(10)))
        .build();

    // File is declared first, so at equal weight it still wins on its marker.
    match cfg.parse_str("@p") {
        Ok(InputType::File(fp)) => assert_eq!(fp.path, "p"),
        bad => panic!("expected File, got: {:?}", bad),
    }

    // Stdin is declared before the catch-all text unit.
    match cfg.parse_str("-") {
        Ok(InputType::Stdin) => {}
        bad => panic!("expected Stdin, got: {:?}", bad),
    }

    // The catch-all still takes whatever is left.
    match cfg.parse_str("plain") {
        Ok(InputType::UTF8(content)) => assert_eq!(content, "plain"),
        bad => panic!("expected Text, got: {:?}", bad),
    }
}

#[test]
fn parse_bytes_valid_utf8_dispatches() {
    let cfg = Config::default();

    match cfg.parse_bytes(b"-") {
        Ok(InputType::Stdin) => {}
        bad => panic!("expected Stdin, got: {:?}", bad),
    }
}

#[test]
fn parse_bytes_invalid_utf8_short_circuits() {
    let cfg = Config::default();

    let e = cfg
        .parse_bytes(&[0xff, 0xfe, 0x2d])
        .expect_err("invalid UTF-8 must be rejected before any unit runs");

    assert!(e.contains(EKind::RequiresUtf8));
    assert_eq!(e.count(), 1);
    assert_eq!(e.message(), "Parser failed [REQUIRES_UTF8]");
}

#[test]
fn dispatch_never_touches_the_filesystem() {
    let cfg = Config::default();

    // The path cannot exist; dispatch still succeeds because resolving a
    // source opens nothing. Access is a separate, later step.
    let t = cfg
        .parse_str("@/definitely/not/here/at/all/9f2c1a")
        .expect("a successful parse");

    match t {
        InputType::File(fp) => assert_eq!(fp.path, "/definitely/not/here/at/all/9f2c1a"),
        bad => panic!("expected File, got: {:?}", bad),
    }
}
